use video_platform::json_text::{JsonEntry, JsonValue};
use video_platform::tool_output::{
    format_profile, loudness_result, mediainfo_read, mediainfo_result, parse_ebur128_summary, ToolRun,
};

const SUMMARY: &str = "[Parsed_ebur128_0 @ 0x1] t: 1.0 M: -20.1 S:-120.7 I: -20.1 LUFS\n\
[Parsed_ebur128_0 @ 0x1] Summary:\n\
\n\
  Integrated loudness:\n\
    I:         -23.0 LUFS\n\
    Threshold: -33.2 LUFS\n\
\n\
  Loudness range:\n\
    LRA:         7.2 LU\n\
    Threshold: -43.1 LUFS\n\
    LRA low:   -27.5 LUFS\n\
    LRA high:  -20.3 LUFS\n\
\n\
  True peak:\n\
    Peak:       -1.2 dBFS\n";

#[test]
fn loudness_summary_is_read() {
    let r = parse_ebur128_summary(SUMMARY).unwrap();
    assert_eq!(r.integrated_lufs, "-23.0");
    assert_eq!(r.integrated_threshold, "-33.2");
    assert_eq!(r.lra_lu, "7.2");
    assert_eq!(r.lra_low, "-27.5");
    assert_eq!(r.lra_high, "-20.3");
    assert_eq!(r.true_peak_dbtp, "-1.2");
}

#[test]
fn no_integrated_loudness_means_no_summary() {
    assert!(parse_ebur128_summary("Stream #0:0: Video: h264\n").is_none());
    assert!(parse_ebur128_summary("").is_none());
    let r = loudness_result(
        "ffmpeg",
        &ToolRun::Finished { success: true, stdout: String::new(), stderr: "no audio".into() },
    );
    assert_eq!(
        r.unwrap_err(),
        "no R128 summary found — file may have no audio or unsupported format"
    );
}

#[test]
fn loudness_launch_errors() {
    let missing = loudness_result(
        "/opt/ffmpeg",
        &ToolRun::LaunchFailed { not_found: true, detail: "No such file".into() },
    );
    assert_eq!(missing.unwrap_err(), "ffmpeg not found (bin: /opt/ffmpeg)");
    let other = loudness_result(
        "ffmpeg",
        &ToolRun::LaunchFailed { not_found: false, detail: "denied".into() },
    );
    assert_eq!(other.unwrap_err(), "failed to launch ffmpeg for loudness: denied");
}

#[test]
fn loudness_is_read_whatever_the_exit_status() {
    let r = loudness_result(
        "ffmpeg",
        &ToolRun::Finished { success: false, stdout: String::new(), stderr: SUMMARY.into() },
    );
    assert_eq!(r.unwrap().integrated_lufs, "-23.0");
}

#[test]
fn format_profile_rules() {
    assert_eq!(format_profile("High".into(), "4.0".into()), "High@L4.0");
    assert_eq!(format_profile("High".into(), "".into()), "High");
    assert_eq!(format_profile("".into(), "4.0".into()), "");
}

fn text(s: &str) -> JsonValue {
    JsonValue::Text(s.into())
}

fn entry(k: &str, v: JsonValue) -> JsonEntry {
    JsonEntry { key: k.into(), value: v }
}

fn mediainfo_json() -> JsonValue {
    let general = JsonValue::Object(vec![
        entry("@type", text("General")),
        entry("Writing_Library", text("Lavf60")),
        entry("Encoded_Application", text("Resolve")),
    ]);
    let video = JsonValue::Object(vec![
        entry("@type", text("Video")),
        entry("Format_Profile", text("High")),
        entry("Format_Level", text("4.1")),
        entry("HDR_Format", text("HDR10")),
        entry("FrameRate_Num", text("24000")),
        entry("FrameRate_Den", text("1001")),
        entry("BitDepth", JsonValue::Number("10".into())),
    ]);
    let audio = JsonValue::Object(vec![entry("@type", text("Audio")), entry("Delay", text("-0.021"))]);
    JsonValue::Object(vec![entry(
        "media",
        JsonValue::Object(vec![entry("track", JsonValue::Array(vec![general, video, audio]))]),
    )])
}

fn check_fields(r: &video_platform::media_report::MediaInfoReport) {
    assert_eq!(r.writing_library, "Lavf60");
    assert_eq!(r.encoded_application, "Resolve");
    assert_eq!(r.format_profile, "High@L4.1");
    assert_eq!(r.hdr_format, "HDR10");
    assert_eq!(r.frame_rate_num, "24000");
    assert_eq!(r.frame_rate_den, "1001");
    assert_eq!(r.audio_delay_ms, "-0.021");
    assert_eq!(r.bit_depth, "", "a number is not a string field");
    assert_eq!(r.standard, "");
}

#[test]
fn mediainfo_fields_come_from_their_tracks() {
    let raw = r#"{"media": {"track": []}}"#;
    let run = ToolRun::Finished { success: true, stdout: raw.into(), stderr: String::new() };
    let r = mediainfo_read("mediainfo", &run, None, &mediainfo_json()).unwrap();
    check_fields(&r);
    assert_eq!(r.raw_json, raw);
}

#[test]
fn mediainfo_reads_its_own_json() {
    let raw = r#"{"media": {"@ref": "a.mov", "track": [
        {"@type": "General", "Writing_Library": "Lavf60", "Encoded_Application": "Resolve"},
        {"@type": "Video", "Format_Profile": "High", "Format_Level": "4.1", "HDR_Format": "HDR10",
         "FrameRate_Num": "24000", "FrameRate_Den": "1001", "BitDepth": 10},
        {"@type": "Audio", "Delay": "-0.021"}
    ]}}"#;
    let run = ToolRun::Finished { success: true, stdout: raw.into(), stderr: String::new() };
    let r = mediainfo_result("mediainfo", &run).unwrap();
    check_fields(&r);
    assert_eq!(r.raw_json, raw);
    let no_tracks = ToolRun::Finished { success: true, stdout: r#"{"media": {}}"#.into(), stderr: String::new() };
    assert_eq!(mediainfo_result("mediainfo", &no_tracks).unwrap_err(), "mediainfo JSON missing /media/track");
}

#[test]
fn mediainfo_errors() {
    let ok_run = ToolRun::Finished { success: true, stdout: "{}".into(), stderr: String::new() };
    assert_eq!(
        mediainfo_result("mediainfo", &ok_run).unwrap_err(),
        "mediainfo JSON missing /media/track"
    );
    assert_eq!(
        mediainfo_read("mediainfo", &ok_run, Some("EOF".into()), &JsonValue::Null).unwrap_err(),
        "failed to parse mediainfo JSON: EOF"
    );
    let truncated = ToolRun::Finished { success: true, stdout: "{\"media\":".into(), stderr: String::new() };
    let serde_error = serde_json::from_str::<serde_json::Value>("{\"media\":").unwrap_err().to_string();
    assert_eq!(
        mediainfo_result("mediainfo", &truncated).unwrap_err(),
        format!("failed to parse mediainfo JSON: {serde_error}")
    );
    assert_eq!(
        mediainfo_result("mediainfo", &truncated).unwrap_err(),
        "failed to parse mediainfo JSON: EOF while parsing a value at line 1 column 9"
    );
    let failed = ToolRun::Finished { success: false, stdout: String::new(), stderr: "  bad file \n".into() };
    assert_eq!(
        mediainfo_result("mediainfo", &failed).unwrap_err(),
        "mediainfo exited non-zero: bad file"
    );
    let missing = ToolRun::LaunchFailed { not_found: true, detail: String::new() };
    assert_eq!(
        mediainfo_result("mi", &missing).unwrap_err(),
        "mediainfo not found — install with `brew install mediainfo` or `apt install mediainfo` (bin: mi)"
    );
    let denied = ToolRun::LaunchFailed { not_found: false, detail: "denied".into() };
    assert_eq!(
        mediainfo_result("mi", &denied).unwrap_err(),
        "failed to launch mediainfo: denied"
    );
}
