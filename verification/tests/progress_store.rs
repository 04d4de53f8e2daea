use video_platform::media_report::MediaProbeReport;
use video_platform::progress_store::{ProgressChange, ProgressStore};
use video_platform::upload_flow::{
    enrichment_summary, initial_progress, EnrichmentTask, ProgressStage,
};

#[test]
fn a_poll_reads_back_the_last_step() {
    let mut store = ProgressStore::new();
    assert!(store.get("t1").is_none());
    store.insert(initial_progress("t1"));
    store.insert(initial_progress("t2"));
    assert_eq!(store.get("t1").unwrap().stage, ProgressStage::Uploading);
    store.update(
        "t1",
        ProgressChange::Uploaded { file_name: "a.mov".into(), file_bytes: 10, upload_ms: 5 },
    );
    let p = store.get("t1").unwrap();
    assert_eq!((p.file_name.as_str(), p.file_bytes, p.elapsed_ms), ("a.mov", 10, 5));
    assert_eq!(p.stage, ProgressStage::RunningFfprobe { upload_ms: 5 });
    assert_eq!(store.get("t2").unwrap().stage, ProgressStage::Uploading, "others are untouched");
    let report = MediaProbeReport::default();
    store.update(
        "t1",
        ProgressChange::EnrichmentStarted { ffprobe_ms: 9, summary: enrichment_summary(&report, None) },
    );
    store.update("t1", ProgressChange::TaskDone { task: EnrichmentTask::Mediainfo, elapsed_ms: 12 });
    match &store.get("t1").unwrap().stage {
        ProgressStage::RunningEnrichment { mediainfo_done, loudness_done, .. } => {
            assert!(*mediainfo_done && !*loudness_done)
        }
        other => panic!("unexpected {other:?}"),
    }
    store.update("t1", ProgressChange::Finished { report: report.clone(), done_ms: 20 });
    assert_eq!(store.get("t1").unwrap().stage, ProgressStage::Done { report: Box::new(report) });
}

#[test]
fn an_unknown_id_is_not_recorded_by_an_update() {
    let mut store = ProgressStore::new();
    store.update("zz", ProgressChange::TaskDone { task: EnrichmentTask::Loudness, elapsed_ms: 1 });
    assert!(store.get("zz").is_none());
}

#[test]
fn a_failure_is_always_recorded() {
    let mut store = ProgressStore::new();
    store.fail("t9", "b.mov", 7, 30, "boom".into());
    let p = store.get("t9").unwrap();
    assert_eq!((p.file_name.as_str(), p.file_bytes, p.elapsed_ms), ("b.mov", 7, 30));
    assert_eq!(p.stage, ProgressStage::Failed { message: "boom".into() });
    store.insert(initial_progress("t1"));
    store.update("t1", ProgressChange::Uploaded { file_name: "a.mov".into(), file_bytes: 3, upload_ms: 1 });
    store.fail("t1", "ignored.mov", 99, 40, "late".into());
    let p = store.get("t1").unwrap();
    assert_eq!((p.file_name.as_str(), p.file_bytes, p.elapsed_ms), ("a.mov", 3, 40));
    store.insert(initial_progress("t1"));
    assert_eq!(store.get("t1").unwrap().stage, ProgressStage::Uploading, "a new start replaces");
}

#[test]
fn a_failed_probe_is_recorded_and_answered() {
    let mut store = ProgressStore::new();
    store.insert(initial_progress("t1"));
    store.insert(initial_progress("t2"));
    store.update(
        "t1",
        ProgressChange::Uploaded { file_name: "a.mov".into(), file_bytes: 10, upload_ms: 5 },
    );
    let (status, body) = store.probe_failed("t1", "ignored.mov", 99, 40, "failed to parse ffprobe json".into(), true);
    assert_eq!(status, 422);
    assert_eq!(body.trace_id, "t1");
    assert_eq!(body.message, "failed to parse ffprobe json");
    let p = store.get("t1").unwrap();
    assert_eq!((p.file_name.as_str(), p.file_bytes, p.elapsed_ms), ("a.mov", 10, 40));
    assert_eq!(p.stage, ProgressStage::Failed { message: "failed to parse ffprobe json".into() });
    assert_eq!(store.get("t2").unwrap().stage, ProgressStage::Uploading);
    store.probe_failed("t3", "b.mov", 7, 8, "boom".into(), true);
    let q = store.get("t3").unwrap();
    assert_eq!((q.file_name.as_str(), q.file_bytes), ("b.mov", 7));
}
