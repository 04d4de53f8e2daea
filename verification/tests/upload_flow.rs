use video_platform::encoding::data_url;
use video_platform::ffprobe_map::FfprobeOutput;
use video_platform::media_report::{LoudnessReport, MediaKeyValue, MediaProbeReport, MediaStreamInfo};
use video_platform::upload_flow::{
    check_not_empty, duration_label, enrichment_plan, enrichment_summary, extracted_subtitle,
    failed_progress, initial_progress, inspect_result, is_file_field, make_temp_media_path,
    mark_done, mark_enrichment_started, mark_finished, mark_uploaded, sanitize_file_component,
    subtitle_language, subtitle_path, thumbnail_path, upload_content_type, upload_error,
    upload_file_name, waveform_path, apply_enrichment, loudness_unmeasured, parse_ffprobe_output, subtitle_map_arg, read_ffprobe_json,
    EnrichmentTask, FfprobeRun, JsonStep,
    ProgressStage, UploadFailure,
};

#[test]
fn temp_path_keeps_a_safe_stem_and_the_extension() {
    assert_eq!(
        make_temp_media_path("/tmp/media", "media-read", "My Clip (1).MOV", "abc"),
        "/tmp/media/media-read-abc-My-Clip--1-.MOV"
    );
    assert_eq!(
        make_temp_media_path("/tmp/media/", "media-inspector", "noext", "t"),
        "/tmp/media/media-inspector-t-noext.bin"
    );
    assert_eq!(make_temp_media_path("/tmp", "media-read", ".mp4", "t"), "/tmp/media-read-t--mp4.bin");
    assert_eq!(make_temp_media_path("/tmp", "media-read", "", "t"), "/tmp/media-read-t-upload.bin");
}

#[test]
fn sanitized_names_are_safe_and_keep_their_length() {
    let raw = "été_2024 (final).mov";
    let safe = sanitize_file_component(raw);
    assert_eq!(safe, "-t-_2024--final--mov");
    assert_eq!(safe.chars().count(), raw.chars().count());
    assert!(safe.chars().all(|c| c.is_ascii_alphanumeric() || c == '-' || c == '_'));
}

#[test]
fn each_failure_has_its_status() {
    let cases = vec![
        (UploadFailure::ReadField("eof".into()), 400, "failed to read multipart field: eof"),
        (UploadFailure::CreateTempDir("ro".into()), 500, "failed to create media temp dir: ro"),
        (UploadFailure::CreateTempFile("ro".into()), 500, "failed to create temp upload file: ro"),
        (UploadFailure::ReadChunk("reset".into()), 400, "failed to read upload chunk: reset"),
        (UploadFailure::WriteChunk("full".into()), 500, "failed to write upload chunk: full"),
        (UploadFailure::Flush("io".into()), 500, "failed to flush temp upload file: io"),
        (UploadFailure::EmptyUpload, 400, "uploaded file is empty"),
        (UploadFailure::ProbeFailed("bad".into()), 422, "bad"),
        (UploadFailure::MissingFileField, 400, "missing multipart field `file`"),
    ];
    for (failure, status, message) in cases {
        let (s, body) = upload_error("t9", failure, false);
        assert_eq!(s, status);
        assert_eq!(body.trace_id, "t9");
        assert_eq!(body.message, message);
    }
    let (_, body) = upload_error("t9", UploadFailure::CreateTempDir("ro".into()), true);
    assert_eq!(body.message, "failed to create temp dir: ro");
    let (_, body) = upload_error("t9", UploadFailure::Flush("io".into()), true);
    assert_eq!(body.message, "failed to flush: io");
}

#[test]
fn upload_fields() {
    assert!(is_file_field(&Some("file".into())));
    assert!(!is_file_field(&Some("meta".into())));
    assert!(!is_file_field(&None));
    assert_eq!(upload_file_name(Some("".into())), "upload.bin");
    assert_eq!(upload_file_name(Some("a.mp4".into())), "a.mp4");
    assert_eq!(upload_content_type(None), "application/octet-stream");
    assert!(check_not_empty("t", 1).is_ok());
    let (status, body) = check_not_empty("t", 0).unwrap_err();
    assert_eq!((status, body.message.as_str()), (400, "uploaded file is empty"));
}

fn report() -> MediaProbeReport {
    MediaProbeReport {
        stream_count: 3,
        video_count: 1,
        audio_count: 1,
        streams: vec![
            MediaStreamInfo {
                codec_type: "audio".into(),
                codec_name: "aac".into(),
                ..Default::default()
            },
            MediaStreamInfo {
                codec_type: "video".into(),
                codec_name: "hevc".into(),
                width: "3840".into(),
                height: "2160".into(),
                ..Default::default()
            },
            MediaStreamInfo {
                codec_type: "subtitle".into(),
                tags: vec![MediaKeyValue { key: "LANGUAGE".into(), value: "fra".into() }],
                ..Default::default()
            },
        ],
        ..Default::default()
    }
}

#[test]
fn progress_moves_through_its_stages() {
    let mut p = initial_progress("t1");
    assert_eq!(p.stage, ProgressStage::Uploading);
    mark_uploaded(&mut p, "a.mov".into(), 2048, 120);
    assert_eq!(p.stage, ProgressStage::RunningFfprobe { upload_ms: 120 });
    let summary = enrichment_summary(&report(), Some(3725));
    assert_eq!(summary.video_codec.as_deref(), Some("hevc"));
    assert_eq!(summary.resolution.as_deref(), Some("3840×2160"));
    assert_eq!(summary.audio_codec.as_deref(), Some("aac"));
    assert_eq!(summary.duration_label.as_deref(), Some("1h02m05s"));
    mark_enrichment_started(&mut p, 300, summary);
    mark_done(&mut p, EnrichmentTask::Loudness, 400);
    mark_done(&mut p, EnrichmentTask::Thumbnails, 450);
    match &p.stage {
        ProgressStage::RunningEnrichment { loudness_done, thumbnails_done, mediainfo_done, subtitles_done, stream_count, .. } => {
            assert!(*loudness_done && *thumbnails_done && !*mediainfo_done && !*subtitles_done);
            assert_eq!(*stream_count, 3);
        }
        other => panic!("unexpected stage {other:?}"),
    }
    assert_eq!(p.elapsed_ms, 450);
    mark_finished(&mut p, report(), 900);
    assert!(matches!(p.stage, ProgressStage::Done { .. }));
    mark_done(&mut p, EnrichmentTask::Mediainfo, 950);
    assert!(matches!(p.stage, ProgressStage::Done { .. }), "a finished inspection stays finished");
}

#[test]
fn tasks_finish_in_any_order() {
    let start = || {
        let mut p = initial_progress("t");
        mark_enrichment_started(&mut p, 1, enrichment_summary(&report(), None));
        p
    };
    let mut a = start();
    mark_done(&mut a, EnrichmentTask::Subtitles, 5);
    mark_done(&mut a, EnrichmentTask::Mediainfo, 6);
    let mut b = start();
    mark_done(&mut b, EnrichmentTask::Mediainfo, 5);
    mark_done(&mut b, EnrichmentTask::Subtitles, 6);
    mark_done(&mut b, EnrichmentTask::Subtitles, 6);
    assert_eq!(a, b);
}

#[test]
fn failure_keeps_or_creates_the_progress() {
    let kept = failed_progress(Some(initial_progress("t1")), "t2", "b.mov", 5, 70, "boom".into());
    assert_eq!(kept.trace_id, "t1");
    assert_eq!(kept.stage, ProgressStage::Failed { message: "boom".into() });
    let fresh = failed_progress(None, "t2", "b.mov", 5, 70, "boom".into());
    assert_eq!((fresh.trace_id.as_str(), fresh.file_name.as_str(), fresh.file_bytes, fresh.elapsed_ms), ("t2", "b.mov", 5, 70));
}

#[test]
fn durations_under_and_over_an_hour() {
    assert_eq!(duration_label(0), "0m00s");
    assert_eq!(duration_label(59), "0m59s");
    assert_eq!(duration_label(600), "10m00s");
    assert_eq!(duration_label(36000), "10h00m00s");
}

#[test]
fn enrichment_results_land_in_the_report() {
    let mut r = report();
    let plan = enrichment_plan(&r);
    assert!(plan.thumbnails && plan.loudness && !plan.subtitles);
    let loud = LoudnessReport { integrated_lufs: "-23.0".into(), ..Default::default() };
    apply_enrichment(&mut r, vec!["data:x".into()], vec![], Err("no mediainfo".into()), Ok(loud.clone()));
    assert_eq!(r.thumbnails, vec!["data:x".to_string()]);
    assert_eq!(r.mediainfo, None);
    assert_eq!(r.mediainfo_error.as_deref(), Some("no mediainfo"));
    assert_eq!(r.loudness, Some(loud));
    assert_eq!(r.loudness_error, None);
}

#[test]
fn subtitle_tracks() {
    let r = report();
    assert_eq!(subtitle_language(&r.streams[2], 0), "fra");
    assert_eq!(subtitle_language(&r.streams[0], 4), "track 4");
    assert!(extracted_subtitle(0, "fra".into(), " \n".into()).is_none());
    let sub = extracted_subtitle(1, "fra".into(), "1\n00:00 --> 00:01\nBonjour".into()).unwrap();
    assert_eq!((sub.stream_index, sub.language.as_str()), (1, "fra"));
}

#[test]
fn work_files_and_data_urls() {
    assert_eq!(thumbnail_path("/tmp", "t", 2), "/tmp/thumb-t-2.jpg");
    assert_eq!(subtitle_path("/tmp", "t", 0), "/tmp/sub-t-0.srt");
    assert_eq!(waveform_path("/tmp", "t"), "/tmp/waveform-t.png");
    assert_eq!(data_url("t", &b"Man".to_vec()), "data:t;base64,TWFu");
    assert_eq!(data_url("t", &b"Ma".to_vec()), "data:t;base64,TWE=");
    assert_eq!(data_url("t", &b"M".to_vec()), "data:t;base64,TQ==");
    assert_eq!(data_url("t", &Vec::new()), "data:t;base64,");
    assert_eq!(data_url("image/png", &vec![0xff, 0xfe, 0x00, 0x10]), "data:image/png;base64,//4AEA==");
    for n in 0..10usize {
        let bytes = vec![7u8; n];
        assert_eq!(data_url("", &bytes).len() - "data:;base64,".len(), 4 * ((n + 2) / 3));
    }
}

#[test]
fn ffprobe_run_outcomes() {
    let err = |run| inspect_result("t", "/p", "f", 1, 2, 30, run).unwrap_err();
    assert_eq!(err(FfprobeRun::TimedOut), "ffprobe timed out after 30 seconds");
    assert_eq!(err(FfprobeRun::LaunchFailed), "failed to launch ffprobe");
    assert_eq!(
        err(FfprobeRun::Exited { stderr: "\n".into(), status: "exit status: 1".into() }),
        "ffprobe exited with status exit status: 1"
    );
    let output = || FfprobeOutput {
        streams: vec![],
        chapters: vec![],
        program_entries: 1,
        stream_group_entries: 0,
        format: None,
    };
    assert_eq!(
        err(FfprobeRun::Finished { stdout: b"not json".to_vec(), output: None }),
        "failed to parse ffprobe json"
    );
    assert_eq!(
        err(FfprobeRun::Finished { stdout: b"[1, 2]".to_vec(), output: None }),
        "failed to deserialize ffprobe json"
    );
    let stdout = b"{\"streams\":[],\"programs\":[{}]}".to_vec();
    let r = inspect_result("t", "/p", "f", 1, 2, 30, FfprobeRun::Finished { stdout, output: Some(output()) })
        .unwrap();
    assert_eq!((r.trace_id.as_str(), r.path_hint.as_str(), r.program_count, r.format_name.as_str()), ("t", "/p", 1, "unknown"));
    assert_eq!(r.raw_json_pretty, "{\n  \"programs\": [\n    {}\n  ],\n  \"streams\": []\n}");
}

fn message(r: Result<(FfprobeOutput, String), String>) -> String {
    match r {
        Err(m) => m,
        Ok(_) => panic!("expected a failure"),
    }
}

#[test]
fn reading_ffprobe_json() {
    let output = || FfprobeOutput {
        streams: vec![],
        chapters: vec![],
        program_entries: 0,
        stream_group_entries: 0,
        format: None,
    };
    assert_eq!(
        message(read_ffprobe_json(Err(JsonStep::PrettyPrint), Some(output()))),
        "failed to pretty-print ffprobe json"
    );
    assert_eq!(message(read_ffprobe_json(Err(JsonStep::Parse), None)), "failed to parse ffprobe json");
    assert_eq!(
        message(read_ffprobe_json(Ok("{}".into()), None)),
        "failed to deserialize ffprobe json"
    );
    assert_eq!(read_ffprobe_json(Ok("{}".into()), Some(output())).unwrap().1, "{}");
    assert_eq!(parse_ffprobe_output(b"{\"a\":1}", Some(output())).unwrap().1, "{\n  \"a\": 1\n}");
    assert_eq!(message(parse_ffprobe_output(b"{", Some(output()))), "failed to parse ffprobe json");
}

#[test]
fn loudness_is_measured_only_with_audio() {
    let with_audio = MediaProbeReport { audio_count: 1, ..Default::default() };
    assert!(loudness_unmeasured(&enrichment_plan(&with_audio)).is_none());
    let silent = MediaProbeReport { video_count: 1, ..Default::default() };
    match loudness_unmeasured(&enrichment_plan(&silent)) {
        Some(Err(m)) => assert_eq!(m, "no audio stream"),
        _ => panic!("expected the missing-audio error"),
    }
}

#[test]
fn subtitle_streams_are_mapped_by_their_order() {
    assert_eq!(subtitle_map_arg(0), "0:s:0");
    assert_eq!(subtitle_map_arg(12), "0:s:12");
    let stream = |index: i64, kind: &str| MediaStreamInfo { index, codec_type: kind.into(), ..Default::default() };
    let streams = vec![stream(0, "video"), stream(1, "subtitle"), stream(2, "audio"), stream(3, "subtitle")];
    let picked: Vec<i64> = video_platform::tags::select_streams(&streams, video_platform::tags::StreamKind::Subtitle)
        .iter()
        .map(|s| s.index)
        .collect();
    assert_eq!(picked, vec![1, 3]);
}
