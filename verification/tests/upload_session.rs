use video_platform::upload_session::{FieldStep, UploadSession};

#[test]
fn other_fields_are_skipped_and_the_file_is_stored() {
    let mut s = UploadSession::new("t7");
    let step = s.field(&Some("meta".into()), None, None, "/tmp", "media-read");
    assert_eq!(step, FieldStep::Skip);
    assert_eq!(s.file_name(), None);
    let step = s.field(&Some("file".into()), Some("".into()), None, "/tmp", "media-read");
    assert_eq!(step, FieldStep::Store { temp_path: "/tmp/media-read-t7-upload.bin".into() });
    assert_eq!(s.file_name(), Some("upload.bin".to_string()));
}

#[test]
fn the_size_is_the_sum_of_the_chunks() {
    let mut s = UploadSession::new("t");
    s.field(&Some("file".into()), Some("a.mp4".into()), Some("video/mp4".into()), "/tmp", "media-inspector");
    for len in [65536u64, 65536, 17] {
        s.chunk(len);
    }
    assert_eq!(s.stored_bytes(), 131089);
    assert_eq!(s.chunk_count(), 3);
    assert!(s.finish(false).is_ok());
}

#[test]
fn an_empty_or_missing_upload_is_refused() {
    let s = UploadSession::new("t");
    let (status, body) = s.finish(false).unwrap_err();
    assert_eq!((status, body.message.as_str()), (400, "missing multipart field `file`"));
    let mut s = UploadSession::new("t");
    s.field(&Some("file".into()), Some("a.mp4".into()), None, "/tmp", "media-read");
    s.chunk(0);
    let (status, body) = s.finish(true).unwrap_err();
    assert_eq!((status, body.message.as_str(), body.trace_id.as_str()), (400, "uploaded file is empty", "t"));
}
