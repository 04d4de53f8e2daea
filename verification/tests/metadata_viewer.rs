use video_platform::ffprobe_map::{
    join_non_empty, map_ffprobe_report, map_stream_info, signed_decimal_string, FfprobeChapter,
    FfprobeFormat, FfprobeOutput, FfprobeStream,
};
use video_platform::json_text::{json_value_to_string, JsonEntry, JsonValue};
use video_platform::media_report::MediaKeyValue;
use video_platform::metadata_view::{
    fallback_empty, file_name_label, replace_spaces, summarize_pairs, DragAndDropState,
    ProbeOutcome, ProbeReport, ProbeState, ReportLine,
};

fn stream(kind: &str, codec: &str) -> FfprobeStream {
    FfprobeStream {
        index: Some(0),
        codec_name: Some(codec.into()),
        codec_long_name: None,
        profile: None,
        codec_type: Some(kind.into()),
        codec_tag_string: Some("avc1".into()),
        codec_tag: Some("0x31637661".into()),
        id: None,
        width: Some(1920),
        height: Some(1080),
        coded_width: None,
        coded_height: None,
        pix_fmt: Some("yuv420p".into()),
        sample_fmt: None,
        level: Some(-99),
        field_order: None,
        chroma_location: None,
        sample_aspect_ratio: None,
        display_aspect_ratio: None,
        color_range: None,
        color_space: None,
        color_transfer: None,
        color_primaries: None,
        avg_frame_rate: Some("25/1".into()),
        r_frame_rate: Some("50/1".into()),
        frame_rate_number: None,
        sample_rate: None,
        channels: None,
        channel_layout: None,
        bits_per_raw_sample: None,
        bits_per_sample: None,
        time_base: Some("1/12800".into()),
        start_time: None,
        duration: Some("10.5".into()),
        duration_number: Some("10.500 s".into()),
        bit_rate: Some("n/a".into()),
        bit_rate_number: None,
        nb_frames: None,
        refs: None,
        has_b_frames: None,
        is_avc: None,
        nal_length_size: None,
        disposition: Some(JsonValue::Object(vec![
            JsonEntry { key: "default".into(), value: JsonValue::Number("1".into()) },
            JsonEntry { key: "forced".into(), value: JsonValue::Number("0".into()) },
        ])),
        tags: None,
    }
}

fn output() -> FfprobeOutput {
    FfprobeOutput {
        streams: vec![stream("video", "h264"), stream("audio", "aac"), stream("video", "png")],
        chapters: vec![FfprobeChapter {
            id: Some(3),
            time_base: Some("1/1000".into()),
            start_time: Some("0.000000".into()),
            start_number: Some("0.000 s".into()),
            end_time: None,
            end_number: None,
            tags: Some(JsonValue::Object(vec![JsonEntry {
                key: "title".into(),
                value: JsonValue::Text("Intro".into()),
            }])),
        }],
        program_entries: 0,
        stream_group_entries: 0,
        format: Some(FfprobeFormat {
            nb_programs: Some(2),
            nb_stream_groups: None,
            format_name: None,
            format_long_name: Some("QuickTime / MOV".into()),
            duration: Some("10.5".into()),
            duration_number: Some("10.500 s".into()),
            size: None,
            size_number: None,
            bit_rate: None,
            bit_rate_number: None,
            probe_score: Some(JsonValue::Number("100".into())),
            start_time: None,
            tags: Some(JsonValue::Bool(true)),
        }),
    }
}

#[test]
fn stream_fields_are_mapped() {
    let s = map_stream_info(&stream("video", "h264"));
    assert_eq!(s.codec_tag, "avc1 | 0x31637661");
    assert_eq!(s.width, "1920");
    assert_eq!(s.level, "-99");
    assert_eq!(s.duration, "10.500 s");
    assert_eq!(s.bit_rate, "n/a");
    assert_eq!(s.frame_rate, "25/1");
    assert_eq!(s.codec_long_name, "");
    assert_eq!(s.disposition.len(), 2);
    assert_eq!(s.disposition[0], MediaKeyValue { key: "default".into(), value: "1".into() });
    let mut unknown = stream("video", "h264");
    unknown.codec_type = None;
    assert_eq!(map_stream_info(&unknown).codec_type, "unknown");
}

#[test]
fn report_counts_and_format() {
    let r = map_ffprobe_report("t1", "/tmp/a.mov", "a.mov", 42, 7, 30, &output(), "{}".into());
    assert_eq!(r.format_name, "unknown");
    assert_eq!(r.duration, "10.500 s");
    assert_eq!(r.probe_score, "100");
    assert_eq!(r.program_count, 2);
    assert_eq!(r.stream_group_count, 0);
    assert_eq!((r.stream_count, r.video_count, r.audio_count, r.subtitle_count), (3, 2, 1, 0));
    assert_eq!(r.chapter_count, 1);
    assert_eq!(r.chapters[0].start, "0.000 s");
    assert_eq!(r.chapters[0].end, "");
    assert!(r.format_tags.is_empty(), "tags that are not an object give no pairs");
    assert!(r.video_count + r.audio_count + r.subtitle_count <= r.stream_count);
}

#[test]
fn json_values_as_text() {
    let v = JsonValue::Array(vec![
        JsonValue::Null,
        JsonValue::Bool(false),
        JsonValue::Object(vec![JsonEntry { key: "a".into(), value: JsonValue::Text("b".into()) }]),
    ]);
    assert_eq!(json_value_to_string(&v), ", false, a=b");
}

#[test]
fn small_text_rules() {
    assert_eq!(signed_decimal_string(i64::MIN), "-9223372036854775808");
    assert_eq!(join_non_empty(" ".into(), "x".into()), "x");
    assert_eq!(join_non_empty("a".into(), "b".into()), "a | b");
    assert_eq!(fallback_empty("  "), "n/a");
    assert_eq!(replace_spaces("1920 | 1080"), "1920 x | x 1080");
    let pairs = vec![
        MediaKeyValue { key: "a".into(), value: "1".into() },
        MediaKeyValue { key: "b".into(), value: " ".into() },
        MediaKeyValue { key: "c".into(), value: "x y".into() },
    ];
    assert_eq!(summarize_pairs(&pairs), "a=1, c=x y");
    assert_eq!(file_name_label("/videos/clip.mp4"), "clip.mp4");
    assert_eq!(file_name_label("/"), "/");
}

#[test]
fn report_lines_of_a_probe() {
    let report = ProbeReport::from_ffprobe("/videos/clip.mov", &output());
    assert_eq!(report.display_name(), "clip.mov");
    assert_eq!(report.program_count, "2");
    let lines = report.to_lines();
    assert_eq!(lines[0], ReportLine::LabelValue("Path".into(), "/videos/clip.mov".into()));
    assert_eq!(lines[2], ReportLine::LabelValue("Format".into(), "unknown (QuickTime / MOV)".into()));
    assert_eq!(lines[4], ReportLine::LabelValue("Size".into(), "n/a".into()));
    assert_eq!(
        lines[10],
        ReportLine::LabelValue("Streams".into(), "total=3 video=2 audio=1 subtitle=0".into())
    );
    assert_eq!(lines[12], ReportLine::Section("Streams".into()));
    assert_eq!(lines[13], ReportLine::Subsection("Stream #0 [video]".into()));
    assert_eq!(lines[14], ReportLine::Bullet("codec".into(), "h264".into()));
    assert!(lines.contains(&ReportLine::Bullet("resolution".into(), "1920 x | x 1080".into())));
    assert!(lines.contains(&ReportLine::Bullet("disposition".into(), "default=1, forced=0".into())));
    assert_eq!(lines[lines.len() - 3], ReportLine::Subsection("Chapter #3 0.000 s -> n/a".into()));
    assert_eq!(lines[lines.len() - 1], ReportLine::Bullet("tags".into(), "title=Intro".into()));
}

#[test]
fn typing_a_path_asks_for_a_probe() {
    let mut state = DragAndDropState::new();
    assert!(matches!(state.probe_state(), ProbeState::Waiting));
    assert_eq!(state.push_input('\''), None);
    let mut asked = None;
    for c in "/v/a b.mov'".chars() {
        asked = state.push_input(c);
    }
    assert_eq!(asked, Some("/v/a b.mov".to_string()));
    state.apply_probe("/v/a b.mov", ProbeOutcome::Missing);
    assert!(matches!(state.probe_state(), ProbeState::Missing(p) if p == "/v/a b.mov"));
    assert_eq!(
        state.report_lines(),
        vec![
            ReportLine::LabelValue("Path".into(), "/v/a b.mov".into()),
            ReportLine::Note("The file does not exist on disk.".into()),
        ]
    );
    let committed = state.commit_input();
    assert_eq!(committed, Some("/v/a b.mov".to_string()));
    assert_eq!(state.input(), "");
    assert!(matches!(state.probe_state(), ProbeState::Missing(_)));
}

#[test]
fn backspace_takes_back_a_typed_character() {
    let mut state = DragAndDropState::new();
    state.replace_input("clip".into());
    state.push_input('x');
    state.pop_input();
    assert_eq!(state.input(), "clip");
    let mut empty = DragAndDropState::new();
    assert_eq!(empty.pop_input(), None);
    assert_eq!(empty.input(), "");
}

#[test]
fn probe_failures_are_shown() {
    let mut state = DragAndDropState::new();
    state.apply_probe(
        "/x",
        ProbeOutcome::Exited { stderr: "  broken  \n".into(), status: "exit status: 1".into() },
    );
    assert!(matches!(state.probe_state(), ProbeState::ProbeError(m) if m == "broken"));
    state.apply_probe("/x", ProbeOutcome::Exited { stderr: " ".into(), status: "exit status: 1".into() });
    assert!(
        matches!(state.probe_state(), ProbeState::ProbeError(m) if m == "ffprobe exited with status exit status: 1")
    );
    state.apply_probe("/x", ProbeOutcome::LaunchFailed);
    assert_eq!(
        state.report_lines(),
        vec![ReportLine::LabelValue("Error".into(), "failed to launch ffprobe".into())]
    );
    state.apply_probe("/x", ProbeOutcome::Unparsable);
    assert!(matches!(state.probe_state(), ProbeState::ProbeError(m) if m == "failed to parse ffprobe json"));
    state.apply_probe("/x/clip.mov", ProbeOutcome::Parsed(output()));
    assert!(matches!(state.probe_state(), ProbeState::Loaded(r) if r.display_name() == "clip.mov"));
    let waiting = DragAndDropState::new();
    assert_eq!(waiting.report_lines().len(), 1);
}
