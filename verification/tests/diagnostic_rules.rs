use video_platform::diagnostic::{DiagnosticCheck, DiagnosticStatus, PlatformProfile};
use video_platform::media_report::{MediaKeyValue, MediaProbeReport, MediaStreamInfo};
use video_platform::rules::{run, TimingChecks};

fn make_report() -> MediaProbeReport {
    MediaProbeReport {
        file_name: "test.mp4".into(),
        format_name: "mov,mp4,m4a,3gp,3g2,mj2".into(),
        audio_count: 1,
        video_count: 1,
        subtitle_count: 0,
        streams: vec![
            MediaStreamInfo {
                codec_type: "video".into(),
                codec_name: "h264".into(),
                pixel_format: "yuv420p".into(),
                bits_per_raw_sample: "8".into(),
                field_order: "progressive".into(),
                frame_rate: "25.000 fps".into(),
                avg_frame_rate: "25/1".into(),
                r_frame_rate: "25/1".into(),
                profile: "Main".into(),
                disposition: vec![MediaKeyValue {
                    key: "default".into(),
                    value: "1".into(),
                }],
                ..Default::default()
            },
            MediaStreamInfo {
                codec_type: "audio".into(),
                codec_name: "aac".into(),
                channel_layout: "stereo".into(),
                sample_rate: "48000".into(),
                bits_per_sample: "0".into(),
                disposition: vec![MediaKeyValue {
                    key: "default".into(),
                    value: "1".into(),
                }],
                ..Default::default()
            },
        ],
        ..Default::default()
    }
}

fn check(label: &str, status: DiagnosticStatus, detail: &str) -> DiagnosticCheck {
    DiagnosticCheck {
        label: label.into(),
        status,
        detail: detail.into(),
    }
}

/// The timing checks of `make_report`'s streams: 25 fps constant, both
/// streams starting together, no durations.
fn timing() -> TimingChecks {
    TimingChecks {
        frame_rate: check("Frame rate", DiagnosticStatus::Pass, "25 fps — broadcast standard"),
        frame_rate_consistency: check(
            "Variable frame rate",
            DiagnosticStatus::Pass,
            "CFR — 25.000 fps constant",
        ),
        av_start_sync: check("A/V start sync", DiagnosticStatus::Pass, "Drift 0 ms — within tolerance"),
        av_duration: check(
            "A/V duration",
            DiagnosticStatus::Warn,
            "Cannot compare — duration missing from one or both streams",
        ),
    }
}

fn status_of(report: &MediaProbeReport, profile: PlatformProfile, label: &str) -> DiagnosticStatus {
    let diag = run(report, &profile, &timing());
    diag.checks.iter().find(|c| c.label == label).unwrap().status
}

#[test]
fn web_stereo_is_pass() {
    assert!(matches!(
        status_of(&make_report(), PlatformProfile::Web, "Audio channels"),
        DiagnosticStatus::Pass
    ));
}

#[test]
fn broadcast_stereo_is_fail() {
    assert!(matches!(
        status_of(&make_report(), PlatformProfile::Broadcast, "Audio channels"),
        DiagnosticStatus::Fail
    ));
}

#[test]
fn no_audio_is_fail_all_profiles() {
    let mut report = make_report();
    report.audio_count = 0;
    report.streams.retain(|s| s.codec_type != "audio");
    for profile in [
        PlatformProfile::Web,
        PlatformProfile::Broadcast,
        PlatformProfile::Mobile,
    ] {
        let diag = run(&report, &profile, &timing());
        assert_eq!(diag.fail_count(), 1, "expected 1 fail for {}", profile.label());
    }
}

#[test]
fn broadcast_44100_is_fail() {
    let mut report = make_report();
    report.streams[1].sample_rate = "44100".into();
    assert!(matches!(
        status_of(&report, PlatformProfile::Broadcast, "Sample rate"),
        DiagnosticStatus::Fail
    ));
}

#[test]
fn closed_captions_flag_is_warn() {
    let mut report = make_report();
    report.streams[0].closed_captions = "1".into();
    assert!(matches!(
        status_of(&report, PlatformProfile::Web, "Closed captions"),
        DiagnosticStatus::Warn
    ));
}

#[test]
fn forced_subtitle_stream_is_warn() {
    let mut report = make_report();
    report.subtitle_count = 1;
    report.streams.push(MediaStreamInfo {
        codec_type: "subtitle".into(),
        codec_name: "mov_text".into(),
        disposition: vec![MediaKeyValue {
            key: "forced".into(),
            value: "1".into(),
        }],
        ..Default::default()
    });
    assert!(matches!(
        status_of(&report, PlatformProfile::Web, "Forced subtitles"),
        DiagnosticStatus::Warn
    ));
}

#[test]
fn supported_subtitle_codec_is_pass() {
    let mut report = make_report();
    report.subtitle_count = 1;
    report.streams.push(MediaStreamInfo {
        codec_type: "subtitle".into(),
        codec_name: "mov_text".into(),
        ..Default::default()
    });
    assert!(matches!(
        status_of(&report, PlatformProfile::Web, "Subtitle codec"),
        DiagnosticStatus::Pass
    ));
}

#[test]
fn unsupported_subtitle_codec_is_warn() {
    let mut report = make_report();
    report.subtitle_count = 1;
    report.streams.push(MediaStreamInfo {
        codec_type: "subtitle".into(),
        codec_name: "dvd_subtitle".into(),
        ..Default::default()
    });
    assert!(matches!(
        status_of(&report, PlatformProfile::Web, "Subtitle codec"),
        DiagnosticStatus::Warn
    ));
}

#[test]
fn missing_audio_language_is_warn() {
    assert!(matches!(
        status_of(&make_report(), PlatformProfile::Web, "Audio language tags"),
        DiagnosticStatus::Warn
    ));
}

#[test]
fn timecode_missing_is_warn_for_broadcast() {
    assert!(matches!(
        status_of(&make_report(), PlatformProfile::Broadcast, "Timecode"),
        DiagnosticStatus::Warn
    ));
}

#[test]
fn creation_time_present_is_pass() {
    let mut report = make_report();
    report.format_tags.push(MediaKeyValue {
        key: "creation_time".into(),
        value: "2026-06-29T10:00:00Z".into(),
    });
    assert!(matches!(
        status_of(&report, PlatformProfile::Web, "Creation time"),
        DiagnosticStatus::Pass
    ));
}

// ── Laws on concrete values ──────────────────────────────────────────────────

#[test]
fn counts_partition_the_checks() {
    for profile in [PlatformProfile::Web, PlatformProfile::Broadcast, PlatformProfile::Mobile] {
        let diag = run(&make_report(), &profile, &timing());
        assert_eq!(diag.pass_count() + diag.warn_count() + diag.fail_count(), diag.checks.len());
    }
}

#[test]
fn timing_checks_keep_their_place() {
    let diag = run(&make_report(), &PlatformProfile::Web, &timing());
    let labels: Vec<&str> = diag.checks.iter().map(|c| c.label.as_str()).collect();
    let frame = labels.iter().position(|l| *l == "Frame rate").unwrap();
    assert_eq!(labels[frame - 1], "Scan type");
    assert_eq!(labels[frame + 1], "Variable frame rate");
    assert_eq!(labels[labels.len() - 2], "A/V start sync");
    assert_eq!(labels[labels.len() - 1], "A/V duration");
}

#[test]
fn no_video_means_no_frame_rate_check() {
    let mut report = make_report();
    report.streams.remove(0);
    report.video_count = 0;
    let diag = run(&report, &PlatformProfile::Web, &timing());
    assert!(diag.checks.iter().all(|c| c.label != "Frame rate" && c.label != "A/V start sync"));
}

#[test]
fn platform_labels() {
    assert_eq!(PlatformProfile::Web.label(), "Web");
    assert_eq!(PlatformProfile::Broadcast.label(), "Broadcast");
    assert_eq!(PlatformProfile::Mobile.label(), "Mobile");
}

#[test]
fn missing_frame_rate_data_is_warn() {
    let mut report = make_report();
    report.streams[0].avg_frame_rate = String::new();
    let diag = run(&report, &PlatformProfile::Web, &timing());
    let c = diag.checks.iter().find(|c| c.label == "Variable frame rate").unwrap();
    assert_eq!(c.status, DiagnosticStatus::Warn);
    assert_eq!(c.detail, "Cannot determine — frame rate data missing");
    assert_eq!(status_of(&make_report(), PlatformProfile::Web, "Variable frame rate"), DiagnosticStatus::Pass);
}
