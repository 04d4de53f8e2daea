use video_platform::app_error::AppError;
use video_platform::comparison::build_compare_rows;
use video_platform::display::{
    BadgeVariant, clock_from_ms, clock_from_secs, disposition_rows, file_extension,
    stream_rows, stream_section_title, stream_summary, user_initial,
};
use video_platform::drop_paths::{normalize_dropped_path, parse_dropped_paths, parse_first_path};
use video_platform::inspection_session::{
    diagnose_slots, http_error_message, poll_error_message, progress_footer, stage_label,
    upload_percent, DiagnosticPage, InspectionSlot,
};
use video_platform::diagnostic::{DiagnosticCheck, DiagnosticStatus, PlatformProfile};
use video_platform::rules::{run, TimingChecks};
use video_platform::media_report::{
    MediaKeyValue, MediaProbeErrorResponse, MediaProbeReport, MediaStreamInfo,
};
use video_platform::upload_flow::{initial_progress, DiagnosticProgress, ProgressStage};

fn video() -> MediaStreamInfo {
    MediaStreamInfo {
        index: 0,
        codec_type: "video".into(),
        codec_name: "h264".into(),
        width: "1920".into(),
        height: "1080".into(),
        frame_rate: "25.000 fps".into(),
        pixel_format: "yuv420p".into(),
        ..Default::default()
    }
}

#[test]
fn stream_titles_and_summaries() {
    assert_eq!(stream_section_title(&video()), "#0 Video — h264");
    let data = MediaStreamInfo { index: 3, codec_type: "data".into(), ..Default::default() };
    assert_eq!(stream_section_title(&data), "#3 data");
    assert_eq!(stream_section_title(&MediaStreamInfo::default()), "#0 Stream");
    assert_eq!(stream_summary(&video()), "1920x1080 • 25.000 fps • yuv420p");
    let audio = MediaStreamInfo {
        codec_type: "audio".into(),
        codec_name: "aac".into(),
        sample_rate: "48000".into(),
        channel_layout: "stereo".into(),
        ..Default::default()
    };
    assert_eq!(stream_summary(&audio), "stereo • 48000 Hz • aac");
    let pcm = MediaStreamInfo { sample_format: "s16".into(), ..audio };
    assert_eq!(stream_summary(&pcm), "stereo • 48000 Hz • s16");
    let sub = MediaStreamInfo {
        codec_type: "subtitle".into(),
        codec_name: "mov_text".into(),
        tags: vec![
            MediaKeyValue { key: "language".into(), value: "".into() },
            MediaKeyValue { key: "language".into(), value: "eng".into() },
        ],
        ..Default::default()
    };
    assert_eq!(stream_summary(&sub), "mov_text • eng");
    assert_eq!(stream_summary(&data), "");
}

#[test]
fn extensions_are_lower_case() {
    assert_eq!(file_extension("Clip.MOV"), "mov");
    assert_eq!(file_extension("archive.tar.GZ"), "gz");
    assert_eq!(file_extension("README"), "unknown");
    assert_eq!(file_extension("trailing."), "unknown");
    for name in ["A.B", "x.MP4", "y.Mkv", "noext"] {
        assert!(!file_extension(name).chars().any(|c| c.is_ascii_uppercase()));
    }
}

#[test]
fn clocks() {
    assert_eq!(clock_from_ms(3003), "00:03.003");
    assert_eq!(clock_from_ms(61_050), "01:01.050");
    assert_eq!(clock_from_secs(59), "00:59");
    assert_eq!(clock_from_secs(3661), "01:01:01");
}

#[test]
fn upload_share() {
    assert_eq!(upload_percent(50, 200), 25);
    assert_eq!(upload_percent(5, 0), 0);
    assert_eq!(upload_percent(u64::MAX, u64::MAX), 0);
    for (l, t) in [(0u64, 1u64), (1, 3), (2, 3), (999, 1000), (7, 7)] {
        assert!(upload_percent(l, t) <= 100);
    }
}

#[test]
fn progress_texts() {
    assert_eq!(stage_label(&ProgressStage::Uploading), "Uploading…");
    assert_eq!(
        stage_label(&ProgressStage::RunningFfprobe { upload_ms: 42 }),
        "Running ffprobe… (upload took 42ms)"
    );
    let enrich = ProgressStage::RunningEnrichment {
        ffprobe_ms: 300,
        stream_count: 2,
        video_codec: Some("h264".into()),
        resolution: None,
        audio_codec: Some("aac".into()),
        duration_label: Some("1m05s".into()),
        mediainfo_done: false,
        loudness_done: true,
        thumbnails_done: false,
        subtitles_done: false,
    };
    assert_eq!(
        stage_label(&enrich),
        "Enriching… ffprobe done in 300ms | 2 streams | h264 ? | aac | 1m05s"
    );
    assert_eq!(stage_label(&ProgressStage::Failed { message: "x".into() }), "Failed: x");
    let mut p = initial_progress("t");
    assert_eq!(progress_footer(&p), "elapsed: 0ms");
    p.file_name = "a.mov".into();
    p.file_bytes = 4096;
    p.elapsed_ms = 12;
    assert_eq!(progress_footer(&p), "elapsed: 12ms · a.mov · 4KB");
}

#[test]
fn http_errors() {
    let e = MediaProbeErrorResponse { trace_id: "t1".into(), message: "bad".into() };
    assert_eq!(http_error_message(422, &Some(e), "{}"), "HTTP 422 [t1]: bad");
    assert_eq!(http_error_message(502, &None, "gateway"), "HTTP 502: gateway");
    assert_eq!(poll_error_message(404, ""), "poll HTTP 404: ");
}

fn progress(stage: ProgressStage) -> DiagnosticProgress {
    DiagnosticProgress {
        trace_id: "t".into(),
        file_name: "a.mov".into(),
        file_bytes: 1,
        elapsed_ms: 5,
        stage,
    }
}

fn check(label: &str, status: DiagnosticStatus, detail: &str) -> DiagnosticCheck {
    DiagnosticCheck { label: label.into(), status, detail: detail.into() }
}

fn timing() -> TimingChecks {
    TimingChecks {
        frame_rate: check("Frame rate", DiagnosticStatus::Pass, "25 fps — broadcast standard"),
        frame_rate_consistency: check("Variable frame rate", DiagnosticStatus::Pass, "CFR"),
        av_start_sync: check("A/V start sync", DiagnosticStatus::Pass, "Drift 0 ms"),
        av_duration: check("A/V duration", DiagnosticStatus::Warn, "Cannot compare"),
    }
}

/// A stereo AAC file in an MP4 container.
fn stereo_report(name: &str) -> MediaProbeReport {
    MediaProbeReport {
        file_name: name.into(),
        format_name: "mov,mp4,m4a,3gp,3g2,mj2".into(),
        audio_count: 1,
        video_count: 1,
        streams: vec![
            video(),
            MediaStreamInfo {
                index: 1,
                codec_type: "audio".into(),
                codec_name: "aac".into(),
                channel_layout: "stereo".into(),
                sample_rate: "48000".into(),
                ..Default::default()
            },
        ],
        ..Default::default()
    }
}

fn status_in(slot: &InspectionSlot, label: &str) -> DiagnosticStatus {
    let diag = slot.diagnostic.as_ref().unwrap();
    diag.checks.iter().find(|c| c.label == label).unwrap().status
}

#[test]
fn a_slot_follows_its_inspection() {
    let mut slot = InspectionSlot::new();
    slot.begin();
    assert!(slot.loading);
    slot.upload_progressed(10, 100);
    assert_eq!(slot.upload_progress, Some((10, 100)));
    assert_eq!(slot.upload_answered(Ok("t".into())), Some("t".to_string()));
    assert_eq!(slot.upload_progress, None);
    let web = PlatformProfile::Web;
    assert!(slot.poll_answered(
        Ok(progress(ProgressStage::RunningFfprobe { upload_ms: 3 })),
        &web,
        timing()
    ));
    assert!(slot.progress.is_some());
    assert_eq!(slot.diagnostic, None);
    let report = MediaProbeReport { file_name: "a.mov".into(), ..Default::default() };
    assert!(!slot.poll_answered(
        Ok(progress(ProgressStage::Done { report: Box::new(report.clone()) })),
        &web,
        timing()
    ));
    assert_eq!(slot.diagnostic, Some(run(&report, &web, &timing())));
    assert_eq!(slot.timing, Some(timing()));
    assert_eq!(slot.report, Some(report));
    assert!(!slot.loading && slot.progress.is_none());
    slot.begin();
    assert_eq!(slot.diagnostic, None);
}

#[test]
fn a_slot_shows_failures() {
    let mut slot = InspectionSlot::new();
    slot.begin();
    assert_eq!(slot.upload_answered(Err("HTTP 400: x".into())), None);
    assert_eq!(slot.error.as_deref(), Some("HTTP 400: x"));
    assert!(!slot.loading);
    slot.begin();
    assert_eq!(slot.error, None);
    slot.upload_answered(Ok("t".into()));
    assert!(!slot.poll_answered(
        Ok(progress(ProgressStage::Failed { message: "boom".into() })),
        &PlatformProfile::Web,
        timing()
    ));
    assert_eq!(slot.diagnostic, None);
    assert_eq!(slot.error.as_deref(), Some("boom"));
    slot.begin();
    slot.upload_answered(Ok("t".into()));
    assert!(!slot.poll_answered(Err("poll HTTP 500: ".into()), &PlatformProfile::Web, timing()));
    assert!(!slot.loading);
}

#[test]
fn choosing_a_profile_reruns_the_rules() {
    let mut page = DiagnosticPage::new();
    assert_eq!(page.profile, PlatformProfile::Web);
    page.primary.begin();
    let done = |name: &str| Ok(progress(ProgressStage::Done { report: Box::new(stereo_report(name)) }));
    assert!(!page.primary_polled(done("a.mp4"), timing()));
    assert_eq!(status_in(&page.primary, "Audio channels"), DiagnosticStatus::Pass);
    assert_eq!(page.compare.diagnostic, None);
    page.set_profile(PlatformProfile::Broadcast);
    assert_eq!(status_in(&page.primary, "Audio channels"), DiagnosticStatus::Fail);
    assert_eq!(page.compare.diagnostic, None);
    page.compare.begin();
    assert!(!page.compare_polled(done("b.mp4"), timing()));
    assert_eq!(status_in(&page.compare, "Audio channels"), DiagnosticStatus::Fail);
    page.set_profile(PlatformProfile::Web);
    assert_eq!(status_in(&page.primary, "Audio channels"), DiagnosticStatus::Pass);
    assert_eq!(status_in(&page.compare, "Audio channels"), DiagnosticStatus::Pass);
    let (first, second) = diagnose_slots(&page.primary, &page.compare, &PlatformProfile::Mobile);
    assert_eq!(first, Some(run(&stereo_report("a.mp4"), &PlatformProfile::Mobile, &timing())));
    assert_eq!(second, Some(run(&stereo_report("b.mp4"), &PlatformProfile::Mobile, &timing())));
    page.clear_compare();
    assert_eq!(page.compare.diagnostic, None);
    assert_eq!(page.compare.report, None);
    assert_eq!(diagnose_slots(&page.primary, &page.compare, &PlatformProfile::Web).1, None);
}

#[test]
fn error_texts() {
    assert_eq!(AppError::not_found("user 7".into()).message(), "Not Found: user 7");
    assert_eq!(AppError::database_error("down".into()).message(), "Database Error: down");
    assert_eq!(AppError::unauthorized().message(), "Unauthorized");
    assert_eq!(AppError::forbidden("admins only".into()).message(), "Forbidden: admins only");
    assert_eq!(AppError::validation_failed("x".into()).message(), "Validation Failed: x");
    assert_eq!(AppError::bad_request("y".into()).message(), "Bad Request: y");
    assert_eq!(AppError::Cache("c".into()).message(), "Cache Error: c");
    assert_eq!(AppError::MissingContext("m".into()).message(), "Missing Context: m");
    assert_eq!(
        AppError::InternalServerError("i".into()).message(),
        "Internal Server Error: i"
    );
    assert_eq!(AppError::unauthorized(), AppError::Unauthorized);
}

fn report(video_codec: &str) -> MediaProbeReport {
    MediaProbeReport {
        format_name: "mov,mp4".into(),
        subtitle_count: 1,
        streams: vec![MediaStreamInfo { codec_name: video_codec.into(), ..video() }],
        ..Default::default()
    }
}

#[test]
fn comparing_reports() {
    let a = report("h264");
    let b = report("hevc");
    let same = build_compare_rows(&a, &a);
    assert!(same.iter().all(|r| r.same));
    let ab = build_compare_rows(&a, &b);
    let ba = build_compare_rows(&b, &a);
    assert_eq!(ab.len(), ba.len());
    for (x, y) in ab.iter().zip(ba.iter()) {
        assert_eq!(x.label, y.label);
        assert_eq!(x.left_value, y.right_value);
        assert_eq!(x.same, y.same);
    }
    let codec = ab.iter().find(|r| r.label == "Video codec").unwrap();
    assert!(!codec.same);
    let hdr = ab.iter().find(|r| r.label == "HDR format").unwrap();
    assert_eq!(hdr.left_value, "missing");
}

#[test]
fn dropped_paths() {
    assert_eq!(
        parse_dropped_paths("'/a b.mov'\n\n  \"/c.mp4\"  \r\n/d\\ e.mkv\n''\n"),
        vec!["/a b.mov".to_string(), "/c.mp4".to_string(), "/d e.mkv".to_string()]
    );
    assert_eq!(parse_first_path("\n  \n/x.mov\n/y.mov"), Some("/x.mov".to_string()));
    assert_eq!(parse_first_path("''\n/x.mov"), None);
    assert_eq!(normalize_dropped_path(" \"/a\\\\b\" "), "/a\\b");
}

#[test]
fn badge_looks() {
    assert_eq!(BadgeVariant::default(), BadgeVariant::Default);
    assert_eq!(BadgeVariant::Outline.as_str(), "text-foreground");
    assert!(BadgeVariant::Success.as_str().contains("bg-green-100"));
}

fn pairs(rows: &[MediaKeyValue]) -> Vec<(String, String)> {
    rows.iter().map(|kv| (kv.key.clone(), kv.value.clone())).collect()
}

fn owned_pairs(rows: &[(&str, &str)]) -> Vec<(String, String)> {
    rows.iter().map(|(k, v)| (k.to_string(), v.to_string())).collect()
}

#[test]
fn a_stream_section_shows_its_filled_rows() {
    assert_eq!(
        pairs(&stream_rows(&video())),
        owned_pairs(&[
            ("Size", "1920x1080 (coded x)"),
            ("Frame rate", "25.000 fps"),
            ("Pixel format", "yuv420p"),
        ])
    );
    let audio = MediaStreamInfo {
        codec_type: "audio".into(),
        profile: "LC".into(),
        sample_rate: "48000".into(),
        channels: "2".into(),
        frame_rate: "0/0".into(),
        time_base: "1/48000".into(),
        ..Default::default()
    };
    assert_eq!(
        pairs(&stream_rows(&audio)),
        owned_pairs(&[
            ("Profile", "LC"),
            ("Sample rate", "48000"),
            ("Channels", "2"),
            ("Time base", "1/48000"),
        ])
    );
    let subtitle = MediaStreamInfo {
        codec_type: "subtitle".into(),
        codec_long_name: "MOV text".into(),
        sample_rate: "48000".into(),
        stream_id: "0x3".into(),
        ..Default::default()
    };
    assert_eq!(
        pairs(&stream_rows(&subtitle)),
        owned_pairs(&[("Codec", "MOV text"), ("Stream ID", "0x3")])
    );
}

#[test]
fn dispositions_set_to_zero_are_not_shown() {
    let kv = |k: &str, v: &str| MediaKeyValue { key: k.into(), value: v.into() };
    let stream = MediaStreamInfo {
        disposition: vec![kv("default", "1"), kv("dub", "0"), kv("forced", "1"), kv("karaoke", "")],
        ..Default::default()
    };
    assert_eq!(
        pairs(&disposition_rows(&stream)),
        owned_pairs(&[("default", "1"), ("forced", "1"), ("karaoke", "")])
    );
    assert!(disposition_rows(&MediaStreamInfo::default()).is_empty());
}

#[test]
fn page_polls_go_on_only_while_the_inspection_runs() {
    let mut page = DiagnosticPage::new();
    page.compare.begin();
    assert!(page.compare_polled(Ok(progress(ProgressStage::Uploading)), timing()));
    assert!(page.compare.loading);
    assert_eq!(page.compare.progress, Some(progress(ProgressStage::Uploading)));
    assert!(page.compare_polled(Ok(progress(ProgressStage::RunningFfprobe { upload_ms: 2 })), timing()));
    assert!(!page.compare_polled(Ok(progress(ProgressStage::Failed { message: "boom".into() })), timing()));
    assert_eq!(page.compare.error.as_deref(), Some("boom"));
    assert!(!page.compare.loading && page.compare.progress.is_none());
    assert_eq!(page.compare.diagnostic, None);
    page.primary.begin();
    assert!(!page.primary_polled(Err("poll HTTP 500: ".into()), timing()));
    assert_eq!(page.primary.error.as_deref(), Some("poll HTTP 500: "));
    assert!(!page.primary.loading);
    assert_eq!(page.compare.error.as_deref(), Some("boom"), "the other slot is untouched");
}

#[test]
fn a_user_is_shown_by_the_initial_of_the_address() {
    assert_eq!(user_initial("ada@example.com"), "A");
    assert_eq!(user_initial("Bob@example.com"), "B");
    assert_eq!(user_initial("7@example.com"), "7");
    assert_eq!(user_initial("ß@example.com"), "SS");
    assert_eq!(user_initial(""), "?");
}
