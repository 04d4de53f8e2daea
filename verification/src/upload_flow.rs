//! The decisions of the upload endpoints: where an upload is stored, which
//! failure gets which answer, and how the progress of an inspection moves
//! from stage to stage.
use vstd::prelude::*;

use crate::comparison::{find_stream, stream_of_type};
use crate::ffprobe_map::{FfprobeOutput, map_ffprobe_report, report_mapped};
use crate::media_report::{
    LoudnessReport, MediaInfoReport, MediaKeyValue, MediaProbeErrorResponse, MediaProbeReport,
    MediaStreamInfo, MediaSubtitle,
};
use crate::tags::{first_where, lemma_first_where, to_lowercase, unicode_lowercase};
use crate::paths::{
    extension_of, file_stem_of, joined_path, path_extension, path_file_stem, path_join,
};
use crate::text::{chars_of, decimal, decimal2, decimal2_string, decimal_string, push_char};

verus! {

// ── Progress of an inspection ────────────────────────────────────────────────

/// The stage an inspection has reached.
#[derive(Clone, Debug, PartialEq)]
pub enum ProgressStage {
    Uploading,
    RunningFfprobe { upload_ms: u64 },
    RunningEnrichment {
        ffprobe_ms: u64,
        stream_count: u32,
        video_codec: Option<String>,
        resolution: Option<String>,
        audio_codec: Option<String>,
        duration_label: Option<String>,
        mediainfo_done: bool,
        loudness_done: bool,
        thumbnails_done: bool,
        subtitles_done: bool,
    },
    Done { report: Box<MediaProbeReport> },
    Failed { message: String },
}

/// Where the inspection of one upload stands.
#[derive(Clone, Debug, PartialEq)]
pub struct DiagnosticProgress {
    pub trace_id: String,
    pub file_name: String,
    pub file_bytes: u64,
    pub elapsed_ms: u64,
    pub stage: ProgressStage,
}

/// The answer to a started upload: the id under which its progress is kept.
#[derive(Clone, Debug, PartialEq)]
pub struct StartUploadResponse {
    pub trace_id: String,
}

/// One of the enrichment tasks that run after ffprobe.
#[derive(Clone, Copy, Debug, PartialEq, Eq)]
pub enum EnrichmentTask {
    Mediainfo,
    Loudness,
    Thumbnails,
    Subtitles,
}

/// What the progress of a fresh upload says: uploading, nothing known yet.
pub open spec fn is_initial(p: DiagnosticProgress, trace_id: Seq<char>) -> bool {
    &&& p.trace_id@ == trace_id
    &&& p.file_name@.len() == 0
    &&& p.file_bytes == 0
    &&& p.elapsed_ms == 0
    &&& p.stage == ProgressStage::Uploading
}

/// The progress of an upload that has just started.
pub fn initial_progress(trace_id: &str) -> (p: DiagnosticProgress)
    ensures
        is_initial(p, trace_id@),
{
    DiagnosticProgress {
        trace_id: trace_id.to_string(),
        file_name: String::new(),
        file_bytes: 0,
        elapsed_ms: 0,
        stage: ProgressStage::Uploading,
    }
}

/// The upload is stored: its name and size are known, and ffprobe runs.
pub fn mark_uploaded(p: &mut DiagnosticProgress, file_name: String, file_bytes: u64, upload_ms: u64)
    ensures
        final(p).trace_id == old(p).trace_id,
        final(p).file_name == file_name,
        final(p).file_bytes == file_bytes,
        final(p).elapsed_ms == upload_ms,
        final(p).stage == (ProgressStage::RunningFfprobe { upload_ms }),
{
    p.file_name = file_name;
    p.file_bytes = file_bytes;
    p.elapsed_ms = upload_ms;
    p.stage = ProgressStage::RunningFfprobe { upload_ms };
}

/// What the progress display shows once ffprobe has answered.
#[derive(Clone, Debug, PartialEq)]
pub struct EnrichmentSummary {
    pub stream_count: u32,
    pub video_codec: Option<String>,
    pub resolution: Option<String>,
    pub audio_codec: Option<String>,
    pub duration_label: Option<String>,
}

/// The codec of the first stream of a kind, if there is one.
pub open spec fn codec_of(report: MediaProbeReport, kind: Seq<char>) -> Option<Seq<char>> {
    match stream_of_type(report.streams@, kind) {
        Some(s) => Some(s.codec_name@),
        None => None,
    }
}

/// `<width>×<height>` of the first video stream, when both are known.
pub open spec fn resolution_text(report: MediaProbeReport) -> Option<Seq<char>> {
    match stream_of_type(report.streams@, "video"@) {
        Some(s) => if s.width@.len() > 0 && s.height@.len() > 0 {
            Some(s.width@ + "×"@ + s.height@)
        } else {
            None
        },
        None => None,
    }
}

/// A duration in whole seconds as `<h>h<mm>m<ss>s`, or `<m>m<ss>s` under an hour.
pub open spec fn duration_text(secs: nat) -> Seq<char> {
    let h = secs / 3600;
    let m = (secs % 3600) / 60;
    let s = secs % 60;
    if h > 0 {
        decimal(h) + "h"@ + decimal2(m) + "m"@ + decimal2(s) + "s"@
    } else {
        decimal(m) + "m"@ + decimal2(s) + "s"@
    }
}

/// An optional text taken by its view.
pub open spec fn opt_view(o: Option<String>) -> Option<Seq<char>> {
    match o {
        Some(s) => Some(s@),
        None => None,
    }
}

/// The summary of a report, given its duration in whole seconds when it reads
/// as a number.
pub open spec fn summary_of(
    r: EnrichmentSummary,
    report: MediaProbeReport,
    duration_secs: Option<u64>,
) -> bool {
    &&& r.stream_count == report.stream_count as u32
    &&& opt_view(r.video_codec) == codec_of(report, "video"@)
    &&& opt_view(r.resolution) == resolution_text(report)
    &&& opt_view(r.audio_codec) == codec_of(report, "audio"@)
    &&& opt_view(r.duration_label) == match duration_secs {
        Some(n) => Some(duration_text(n as nat)),
        None => None,
    }
}

/// A duration in whole seconds as `<h>h<mm>m<ss>s`, or `<m>m<ss>s` under an hour.
pub fn duration_label(secs: u64) -> (r: String)
    ensures
        r@ == duration_text(secs as nat),
{
    let h = secs / 3600;
    let m = (secs % 3600) / 60;
    let s = secs % 60;
    let mut r = String::new();
    if h > 0 {
        r.append(decimal_string(h).as_str());
        r.append("h");
        r.append(decimal2_string(m).as_str());
    } else {
        r.append(decimal_string(m).as_str());
    }
    r.append("m");
    r.append(decimal2_string(s).as_str());
    r.append("s");
    r
}

/// What the progress display shows once ffprobe has answered: the number of
/// streams, the first video and audio codecs, the resolution and the duration.
pub fn enrichment_summary(report: &MediaProbeReport, duration_secs: Option<u64>) -> (r:
    EnrichmentSummary)
    ensures
        summary_of(r, *report, duration_secs),
{
    let video = find_stream(&report.streams, "video");
    let video_codec = match video {
        Some(s) => Some(s.codec_name.clone()),
        None => None,
    };
    let resolution = match video {
        Some(s) => if !s.width.as_str().is_empty() && !s.height.as_str().is_empty() {
            let mut t = s.width.clone();
            t.append("×");
            t.append(s.height.as_str());
            Some(t)
        } else {
            None
        },
        None => None,
    };
    let audio_codec = match find_stream(&report.streams, "audio") {
        Some(s) => Some(s.codec_name.clone()),
        None => None,
    };
    let label = match duration_secs {
        Some(n) => Some(duration_label(n)),
        None => None,
    };
    EnrichmentSummary {
        stream_count: report.stream_count as u32,
        video_codec,
        resolution,
        audio_codec,
        duration_label: label,
    }
}

/// ffprobe has answered: the enrichment tasks start, none done yet.
pub fn mark_enrichment_started(p: &mut DiagnosticProgress, ffprobe_ms: u64, summary: EnrichmentSummary)
    ensures
        final(p).trace_id == old(p).trace_id,
        final(p).file_name == old(p).file_name,
        final(p).file_bytes == old(p).file_bytes,
        final(p).elapsed_ms == ffprobe_ms,
        final(p).stage == (ProgressStage::RunningEnrichment {
            ffprobe_ms,
            stream_count: summary.stream_count,
            video_codec: summary.video_codec,
            resolution: summary.resolution,
            audio_codec: summary.audio_codec,
            duration_label: summary.duration_label,
            mediainfo_done: false,
            loudness_done: false,
            thumbnails_done: false,
            subtitles_done: false,
        }),
{
    p.elapsed_ms = ffprobe_ms;
    p.stage = ProgressStage::RunningEnrichment {
        ffprobe_ms,
        stream_count: summary.stream_count,
        video_codec: summary.video_codec,
        resolution: summary.resolution,
        audio_codec: summary.audio_codec,
        duration_label: summary.duration_label,
        mediainfo_done: false,
        loudness_done: false,
        thumbnails_done: false,
        subtitles_done: false,
    };
}

/// The stage with one enrichment task marked done; any other stage unchanged.
pub open spec fn with_task_done(stage: ProgressStage, task: EnrichmentTask) -> ProgressStage {
    match stage {
        ProgressStage::RunningEnrichment {
            ffprobe_ms,
            stream_count,
            video_codec,
            resolution,
            audio_codec,
            duration_label,
            mediainfo_done,
            loudness_done,
            thumbnails_done,
            subtitles_done,
        } => ProgressStage::RunningEnrichment {
            ffprobe_ms,
            stream_count,
            video_codec,
            resolution,
            audio_codec,
            duration_label,
            mediainfo_done: mediainfo_done || task == EnrichmentTask::Mediainfo,
            loudness_done: loudness_done || task == EnrichmentTask::Loudness,
            thumbnails_done: thumbnails_done || task == EnrichmentTask::Thumbnails,
            subtitles_done: subtitles_done || task == EnrichmentTask::Subtitles,
        },
        other => other,
    }
}

/// One enrichment task has finished: the time is updated, and
/// the task is marked done if the enrichment stage is still on.
pub fn mark_done(p: &mut DiagnosticProgress, task: EnrichmentTask, elapsed_ms: u64)
    ensures
        final(p).trace_id == old(p).trace_id,
        final(p).file_name == old(p).file_name,
        final(p).file_bytes == old(p).file_bytes,
        final(p).elapsed_ms == elapsed_ms,
        final(p).stage == with_task_done(old(p).stage, task),
{
    p.elapsed_ms = elapsed_ms;
    match &mut p.stage {
        ProgressStage::RunningEnrichment {
            mediainfo_done,
            loudness_done,
            thumbnails_done,
            subtitles_done,
            ..
        } => match task {
            EnrichmentTask::Mediainfo => *mediainfo_done = true,
            EnrichmentTask::Loudness => *loudness_done = true,
            EnrichmentTask::Thumbnails => *thumbnails_done = true,
            EnrichmentTask::Subtitles => *subtitles_done = true,
        },
        _ => {},
    }
}

/// The inspection is complete: the report is the result.
pub fn mark_finished(p: &mut DiagnosticProgress, report: MediaProbeReport, done_ms: u64)
    ensures
        final(p).trace_id == old(p).trace_id,
        final(p).file_name == old(p).file_name,
        final(p).file_bytes == old(p).file_bytes,
        final(p).elapsed_ms == done_ms,
        final(p).stage == (ProgressStage::Done { report: Box::new(report) }),
{
    p.elapsed_ms = done_ms;
    p.stage = ProgressStage::Done { report: Box::new(report) };
}

/// The inspection failed: the kept progress, or a new one for
/// the upload when none is kept, now failed with `message`.
pub fn failed_progress(
    existing: Option<DiagnosticProgress>,
    trace_id: &str,
    file_name: &str,
    file_bytes: u64,
    elapsed_ms: u64,
    message: String,
) -> (p: DiagnosticProgress)
    ensures
        p.elapsed_ms == elapsed_ms,
        p.stage == (ProgressStage::Failed { message }),
        match existing {
            Some(e) => p.trace_id == e.trace_id && p.file_name == e.file_name && p.file_bytes
                == e.file_bytes,
            None => p.trace_id@ == trace_id@ && p.file_name@ == file_name@ && p.file_bytes
                == file_bytes,
        },
{
    match existing {
        Some(mut e) => {
            e.elapsed_ms = elapsed_ms;
            e.stage = ProgressStage::Failed { message };
            e
        },
        None => DiagnosticProgress {
            trace_id: trace_id.to_string(),
            file_name: file_name.to_string(),
            file_bytes,
            elapsed_ms,
            stage: ProgressStage::Failed { message },
        },
    }
}

// ── Enrichment of a report ───────────────────────────────────────────────────

/// Which enrichment tasks apply to a report: thumbnails for a video,
/// subtitles when there are subtitle streams, loudness for audio; mediainfo
/// always runs.
#[derive(Clone, Copy, Debug, PartialEq, Eq)]
pub struct EnrichmentPlan {
    pub thumbnails: bool,
    pub subtitles: bool,
    pub loudness: bool,
}

/// The tasks that apply to a report.
pub fn enrichment_plan(report: &MediaProbeReport) -> (plan: EnrichmentPlan)
    ensures
        plan.thumbnails == (report.video_count > 0),
        plan.subtitles == (report.subtitle_count > 0),
        plan.loudness == (report.audio_count > 0),
{
    EnrichmentPlan {
        thumbnails: report.video_count > 0,
        subtitles: report.subtitle_count > 0,
        loudness: report.audio_count > 0,
    }
}

/// What loudness gives for a report without audio.
pub fn no_audio_stream() -> (r: String)
    ensures
        r@ == "no audio stream"@,
{
    "no audio stream".to_string()
}

/// The loudness answer that needs no measurement: the missing-audio error
/// when the plan leaves loudness out, none when it has to be measured.
pub fn loudness_unmeasured(plan: &EnrichmentPlan) -> (r: Option<Result<LoudnessReport, String>>)
    ensures
        r is None <==> plan.loudness,
        r matches Some(answer) ==> answer matches Err(m) && m@ == "no audio stream"@,
{
    if plan.loudness {
        None
    } else {
        Some(Err(no_audio_stream()))
    }
}

/// The report with what the enrichment tasks found: thumbnails and subtitles
/// as given, and mediainfo and loudness, or the error of each.
pub fn apply_enrichment(
    report: &mut MediaProbeReport,
    thumbnails: Vec<String>,
    subtitles: Vec<MediaSubtitle>,
    mediainfo: Result<MediaInfoReport, String>,
    loudness: Result<LoudnessReport, String>,
)
    ensures
        *final(report) == (MediaProbeReport {
            thumbnails,
            subtitles,
            mediainfo: match mediainfo {
                Ok(m) => Some(m),
                Err(_) => old(report).mediainfo,
            },
            mediainfo_error: match mediainfo {
                Ok(_) => old(report).mediainfo_error,
                Err(e) => Some(e),
            },
            loudness: match loudness {
                Ok(l) => Some(l),
                Err(_) => old(report).loudness,
            },
            loudness_error: match loudness {
                Ok(_) => old(report).loudness_error,
                Err(e) => Some(e),
            },
            ..*old(report)
        }),
{
    report.thumbnails = thumbnails;
    report.subtitles = subtitles;
    match mediainfo {
        Ok(m) => report.mediainfo = Some(m),
        Err(e) => report.mediainfo_error = Some(e),
    }
    match loudness {
        Ok(l) => report.loudness = Some(l),
        Err(e) => report.loudness_error = Some(e),
    }
}

// ── Answers to a failed upload ───────────────────────────────────────────────

/// Why an upload request failed, with the system's error text where there is one.
pub enum UploadFailure {
    /// The multipart body could not be read.
    ReadField(String),
    /// The temporary directory could not be created.
    CreateTempDir(String),
    /// The temporary file could not be created.
    CreateTempFile(String),
    /// A chunk of the upload could not be read.
    ReadChunk(String),
    /// A chunk could not be written to the temporary file.
    WriteChunk(String),
    /// The temporary file could not be flushed.
    Flush(String),
    /// The upload has no bytes.
    EmptyUpload,
    /// ffprobe could not inspect the upload.
    ProbeFailed(String),
    /// The request has no `file` field.
    MissingFileField,
}

/// The HTTP status of an answer: 400 for a bad request, 422 for a file that
/// ffprobe cannot read, 500 for a failure of the server.
pub open spec fn failure_status(f: UploadFailure) -> u16 {
    match f {
        UploadFailure::ReadField(_) => 400,
        UploadFailure::ReadChunk(_) => 400,
        UploadFailure::EmptyUpload => 400,
        UploadFailure::MissingFileField => 400,
        UploadFailure::ProbeFailed(_) => 422,
        _ => 500,
    }
}

/// The message of an answer; `background` selects the wording of the
/// endpoint that inspects in the background.
pub open spec fn failure_message(f: UploadFailure, background: bool) -> Seq<char> {
    match f {
        UploadFailure::ReadField(d) => "failed to read multipart field: "@ + d@,
        UploadFailure::CreateTempDir(d) => if background {
            "failed to create temp dir: "@ + d@
        } else {
            "failed to create media temp dir: "@ + d@
        },
        UploadFailure::CreateTempFile(d) => if background {
            "failed to create temp file: "@ + d@
        } else {
            "failed to create temp upload file: "@ + d@
        },
        UploadFailure::ReadChunk(d) => if background {
            "failed to read chunk: "@ + d@
        } else {
            "failed to read upload chunk: "@ + d@
        },
        UploadFailure::WriteChunk(d) => if background {
            "failed to write chunk: "@ + d@
        } else {
            "failed to write upload chunk: "@ + d@
        },
        UploadFailure::Flush(d) => if background {
            "failed to flush: "@ + d@
        } else {
            "failed to flush temp upload file: "@ + d@
        },
        UploadFailure::EmptyUpload => "uploaded file is empty"@,
        UploadFailure::ProbeFailed(d) => d@,
        UploadFailure::MissingFileField => "missing multipart field `file`"@,
    }
}

/// An answer with a status and an error body for the upload.
pub fn error_response(status: u16, trace_id: &str, message: String) -> (r: (
    u16,
    MediaProbeErrorResponse,
))
    ensures
        r.0 == status,
        r.1.trace_id@ == trace_id@,
        r.1.message == message,
{
    (status, MediaProbeErrorResponse { trace_id: trace_id.to_string(), message })
}

/// A 400 answer.
pub fn bad_request_error(trace_id: &str, message: String) -> (r: (u16, MediaProbeErrorResponse))
    ensures
        r.0 == 400,
        r.1.trace_id@ == trace_id@,
        r.1.message == message,
{
    error_response(400, trace_id, message)
}

/// A 422 answer.
pub fn unprocessable_error(trace_id: &str, message: String) -> (r: (u16, MediaProbeErrorResponse))
    ensures
        r.0 == 422,
        r.1.trace_id@ == trace_id@,
        r.1.message == message,
{
    error_response(422, trace_id, message)
}

/// A 500 answer.
pub fn internal_error_response(trace_id: &str, message: String) -> (r: (
    u16,
    MediaProbeErrorResponse,
))
    ensures
        r.0 == 500,
        r.1.trace_id@ == trace_id@,
        r.1.message == message,
{
    error_response(500, trace_id, message)
}

fn with_detail(prefix: &str, detail: &str) -> (r: String)
    ensures
        r@ == prefix@ + detail@,
{
    let mut m = prefix.to_string();
    m.append(detail);
    m
}

/// The answer to a failed upload.
pub fn upload_error(trace_id: &str, failure: UploadFailure, background: bool) -> (r: (
    u16,
    MediaProbeErrorResponse,
))
    ensures
        r.0 == failure_status(failure),
        r.1.trace_id@ == trace_id@,
        r.1.message@ == failure_message(failure, background),
{
    match failure {
        UploadFailure::ReadField(d) => bad_request_error(
            trace_id,
            with_detail("failed to read multipart field: ", d.as_str()),
        ),
        UploadFailure::CreateTempDir(d) => {
            let m = if background {
                with_detail("failed to create temp dir: ", d.as_str())
            } else {
                with_detail("failed to create media temp dir: ", d.as_str())
            };
            internal_error_response(trace_id, m)
        },
        UploadFailure::CreateTempFile(d) => {
            let m = if background {
                with_detail("failed to create temp file: ", d.as_str())
            } else {
                with_detail("failed to create temp upload file: ", d.as_str())
            };
            internal_error_response(trace_id, m)
        },
        UploadFailure::ReadChunk(d) => {
            let m = if background {
                with_detail("failed to read chunk: ", d.as_str())
            } else {
                with_detail("failed to read upload chunk: ", d.as_str())
            };
            bad_request_error(trace_id, m)
        },
        UploadFailure::WriteChunk(d) => {
            let m = if background {
                with_detail("failed to write chunk: ", d.as_str())
            } else {
                with_detail("failed to write upload chunk: ", d.as_str())
            };
            internal_error_response(trace_id, m)
        },
        UploadFailure::Flush(d) => {
            let m = if background {
                with_detail("failed to flush: ", d.as_str())
            } else {
                with_detail("failed to flush temp upload file: ", d.as_str())
            };
            internal_error_response(trace_id, m)
        },
        UploadFailure::EmptyUpload => bad_request_error(
            trace_id,
            "uploaded file is empty".to_string(),
        ),
        UploadFailure::ProbeFailed(d) => unprocessable_error(trace_id, d),
        UploadFailure::MissingFileField => bad_request_error(
            trace_id,
            "missing multipart field `file`".to_string(),
        ),
    }
}

/// The upload has bytes; an empty one is refused.
pub fn check_not_empty(trace_id: &str, stored_bytes: u64) -> (r: Result<(), (u16, MediaProbeErrorResponse)>)
    ensures
        r is Ok <==> stored_bytes > 0,
        r matches Err(e) ==> e.0 == 400 && e.1.trace_id@ == trace_id@ && e.1.message@
            == "uploaded file is empty"@,
{
    if stored_bytes == 0 {
        Err(upload_error(trace_id, UploadFailure::EmptyUpload, false))
    } else {
        Ok(())
    }
}

// ── The multipart field and where it is stored ───────────────────────────────

/// Only the field named `file` carries the upload.
pub fn is_file_field(name: &Option<String>) -> (b: bool)
    ensures
        b == (match name {
            Some(n) => n@ == "file"@,
            None => false,
        }),
{
    match name {
        Some(n) => crate::text::str_eq(n.as_str(), "file"),
        None => false,
    }
}

/// The name of the uploaded file, `upload.bin` when it has none.
pub fn upload_file_name(name: Option<String>) -> (r: String)
    ensures
        r@ == (match name {
            Some(n) => if n@.len() > 0 {
                n@
            } else {
                "upload.bin"@
            },
            None => "upload.bin"@,
        }),
{
    match name {
        Some(n) => if n.as_str().is_empty() {
            "upload.bin".to_string()
        } else {
            n
        },
        None => "upload.bin".to_string(),
    }
}

/// The content type of the upload, `application/octet-stream` when it has none.
pub fn upload_content_type(content_type: Option<String>) -> (r: String)
    ensures
        r@ == (match content_type {
            Some(c) => c@,
            None => "application/octet-stream"@,
        }),
{
    match content_type {
        Some(c) => c,
        None => "application/octet-stream".to_string(),
    }
}

/// A character that a stored file name may keep: an ASCII letter or digit,
/// `-` or `_`.
pub open spec fn is_safe_char(c: char) -> bool {
    ('a' <= c && c <= 'z') || ('A' <= c && c <= 'Z') || ('0' <= c && c <= '9') || c == '-' || c
        == '_'
}

/// `raw` with every other character written as `-`.
pub open spec fn sanitized(raw: Seq<char>) -> Seq<char> {
    raw.map_values(|c: char| if is_safe_char(c) { c } else { '-' })
}

/// The name under which an upload is stored:
/// `<prefix>-<trace id>-<safe stem>.<extension>`, with `upload` for a
/// missing stem and `bin` for a missing extension.
pub open spec fn temp_file_name(prefix: Seq<char>, file_name: Seq<char>, trace_id: Seq<char>) -> Seq<char> {
    let ext = match extension_of(file_name) {
        Some(e) => if e.len() > 0 {
            e
        } else {
            "bin"@
        },
        None => "bin"@,
    };
    let stem = match file_stem_of(file_name) {
        Some(s) => if sanitized(s).len() > 0 {
            sanitized(s)
        } else {
            "upload"@
        },
        None => "upload"@,
    };
    prefix + "-"@ + trace_id + "-"@ + stem + "."@ + ext
}

/// Every character but ASCII letters, digits,
/// `-` and `_` written as `-`.
pub fn sanitize_file_component(raw: &str) -> (r: String)
    ensures
        r@ == sanitized(raw@),
{
    let v = chars_of(raw);
    let mut r = String::new();
    let mut i: usize = 0;
    while i < v.len()
        invariant
            v@ == raw@,
            i <= v@.len(),
            r@ == sanitized(v@.take(i as int)),
        decreases v@.len() - i,
    {
        let c = v[i];
        let safe = ('a' <= c && c <= 'z') || ('A' <= c && c <= 'Z') || ('0' <= c && c <= '9') || c
            == '-' || c == '_';
        if safe {
            push_char(&mut r, c);
        } else {
            push_char(&mut r, '-');
        }
        i = i + 1;
        assert(r@ =~= sanitized(v@.take(i as int)));
    }
    assert(v@.take(v@.len() as int) =~= v@);
    r
}

/// Where an upload is stored in `temp_dir`; `prefix`
/// names the endpoint (`media-read` or `media-inspector`).
pub fn make_temp_media_path(temp_dir: &str, prefix: &str, file_name: &str, trace_id: &str) -> (r:
    String)
    ensures
        r@ == joined_path(temp_dir@, temp_file_name(prefix@, file_name@, trace_id@)),
{
    let extension = match path_extension(file_name) {
        Some(e) => if e.as_str().is_empty() {
            "bin".to_string()
        } else {
            e
        },
        None => "bin".to_string(),
    };
    let stem = match path_file_stem(file_name) {
        Some(s) => {
            let safe = sanitize_file_component(s.as_str());
            if safe.as_str().is_empty() {
                "upload".to_string()
            } else {
                safe
            }
        },
        None => "upload".to_string(),
    };
    let mut name = prefix.to_string();
    name.append("-");
    name.append(trace_id);
    name.append("-");
    name.append(stem.as_str());
    name.append(".");
    name.append(extension.as_str());
    path_join(temp_dir, name.as_str())
}

// ── Work files of the enrichment tasks ───────────────────────────────────────

/// `thumb-<trace id>-<i>.jpg` in `temp_dir`.
pub fn thumbnail_path(temp_dir: &str, trace_id: &str, i: usize) -> (r: String)
    ensures
        r@ == joined_path(temp_dir@, "thumb-"@ + trace_id@ + "-"@ + decimal(i as nat) + ".jpg"@),
{
    let mut name = "thumb-".to_string();
    name.append(trace_id);
    name.append("-");
    name.append(decimal_string(i as u64).as_str());
    name.append(".jpg");
    path_join(temp_dir, name.as_str())
}

/// `sub-<trace id>-<order>.srt` in `temp_dir`.
pub fn subtitle_path(temp_dir: &str, trace_id: &str, order: usize) -> (r: String)
    ensures
        r@ == joined_path(temp_dir@, "sub-"@ + trace_id@ + "-"@ + decimal(order as nat) + ".srt"@),
{
    let mut name = "sub-".to_string();
    name.append(trace_id);
    name.append("-");
    name.append(decimal_string(order as u64).as_str());
    name.append(".srt");
    path_join(temp_dir, name.as_str())
}

/// `waveform-<trace id>.png` in `temp_dir`.
pub fn waveform_path(temp_dir: &str, trace_id: &str) -> (r: String)
    ensures
        r@ == joined_path(temp_dir@, "waveform-"@ + trace_id@ + ".png"@),
{
    let mut name = "waveform-".to_string();
    name.append(trace_id);
    name.append(".png");
    path_join(temp_dir, name.as_str())
}

/// The language of a subtitle stream: the value of its first tag whose key
/// lower-cases to `language`, or `track <order>`.
pub open spec fn subtitle_language_text(tags: Seq<MediaKeyValue>, order: nat) -> Seq<char> {
    let k = first_where(tags, |kv: MediaKeyValue| unicode_lowercase(kv.key@) == "language"@);
    if k < tags.len() {
        tags[k].value@
    } else {
        "track "@ + decimal(order)
    }
}

/// The ffmpeg `-map` argument that picks the subtitle stream numbered `order`
/// among the subtitle streams: `0:s:<order>`.
pub fn subtitle_map_arg(order: usize) -> (r: String)
    ensures
        r@ == "0:s:"@ + decimal(order as nat),
{
    let mut r = "0:s:".to_string();
    r.append(decimal_string(order as u64).as_str());
    r
}

/// The language of a subtitle stream (see `subtitle_language_text`).
pub fn subtitle_language(stream: &MediaStreamInfo, order: usize) -> (r: String)
    ensures
        r@ == subtitle_language_text(stream.tags@, order as nat),
{
    let ghost p = |kv: MediaKeyValue| unicode_lowercase(kv.key@) == "language"@;
    let mut i: usize = 0;
    while i < stream.tags.len()
        invariant
            p == (|kv: MediaKeyValue| unicode_lowercase(kv.key@) == "language"@),
            i <= stream.tags@.len(),
            forall|j: int| 0 <= j < i ==> !p(#[trigger] stream.tags@[j]),
        decreases stream.tags@.len() - i,
    {
        let lower = to_lowercase(stream.tags[i].key.as_str());
        if crate::text::str_eq(lower.as_str(), "language") {
            proof {
                lemma_first_where(stream.tags@, p, i as int);
            }
            return stream.tags[i].value.clone();
        }
        i = i + 1;
    }
    proof {
        lemma_first_where(stream.tags@, p, i as int);
    }
    let mut r = "track ".to_string();
    r.append(decimal_string(order as u64).as_str());
    r
}

/// An extracted subtitle track, kept when its text is not blank.
pub fn extracted_subtitle(order: usize, language: String, content: String) -> (r: Option<
    MediaSubtitle,
>)
    ensures
        r.is_some() == crate::ffprobe_map::present(content@),
        r matches Some(sub) ==> sub.stream_index == order && sub.language == language
            && sub.content == content,
{
    if crate::text::is_blank(content.as_str()) {
        None
    } else {
        Some(MediaSubtitle { stream_index: order, language, content })
    }
}

// ── The ffprobe run of an inspection ─────────────────────────────────────────

/// Where reading ffprobe's JSON as text failed.
#[derive(Clone, Copy, Debug, PartialEq, Eq)]
pub enum JsonStep {
    /// The bytes are not JSON.
    Parse,
    /// The JSON could not be printed back indented.
    PrettyPrint,
}

/// Whether `stdout` is JSON text, as `serde_json::from_slice` into a
/// `serde_json::Value` decides it.
pub uninterp spec fn is_json_bytes(stdout: Seq<u8>) -> bool;

/// The JSON text `stdout` printed back indented, as `serde_json::from_slice`
/// into a `serde_json::Value` and then `serde_json::to_string_pretty` give it.
pub uninterp spec fn pretty_json_of(stdout: Seq<u8>) -> Option<Seq<char>>;

/// `serde_json::from_slice::<serde_json::Value>` on `stdout`, then
/// `serde_json::to_string_pretty` on the value. The contract claims that the
/// result depends on the bytes alone: the indented text when both calls
/// succeed (the first only does on JSON), else the step that failed. Which
/// bytes are JSON, and what the indented text holds, is left unsaid.
#[verifier::external_body]
fn pretty_json(stdout: &[u8]) -> (r: Result<String, JsonStep>)
    ensures
        match r {
            Ok(t) => is_json_bytes(stdout@) && pretty_json_of(stdout@) == Some(t@),
            Err(step) => pretty_json_of(stdout@) is None && step == if is_json_bytes(stdout@) {
                JsonStep::PrettyPrint
            } else {
                JsonStep::Parse
            },
        },
{
    match serde_json::from_slice::<serde_json::Value>(stdout) {
        Err(_) => Err(JsonStep::Parse),
        Ok(value) => match serde_json::to_string_pretty(&value) {
            Ok(text) => Ok(text),
            Err(_) => Err(JsonStep::PrettyPrint),
        },
    }
}

/// What printing ffprobe's stdout back indented gives, as plain values.
pub open spec fn printed_json(stdout: Seq<u8>) -> Result<Seq<char>, JsonStep> {
    match pretty_json_of(stdout) {
        Some(t) => Ok(t),
        None => Err(
            if is_json_bytes(stdout) {
                JsonStep::PrettyPrint
            } else {
                JsonStep::Parse
            },
        ),
    }
}

/// Reading ffprobe's JSON: the output in its shape with the JSON indented,
/// or the message of the first step that failed (not JSON, not printable,
/// not of ffprobe's shape).
pub open spec fn ffprobe_read(printed: Result<Seq<char>, JsonStep>, output: Option<FfprobeOutput>) -> Result<
    (FfprobeOutput, Seq<char>),
    Seq<char>,
> {
    match printed {
        Err(JsonStep::Parse) => Err("failed to parse ffprobe json"@),
        Err(JsonStep::PrettyPrint) => Err("failed to pretty-print ffprobe json"@),
        Ok(text) => match output {
            Some(o) => Ok((o, text)),
            None => Err("failed to deserialize ffprobe json"@),
        },
    }
}

/// The outcome of reading ffprobe's JSON, given the indented text (or the
/// step that failed) and the output in ffprobe's shape (none when the JSON
/// does not have it).
pub fn read_ffprobe_json(printed: Result<String, JsonStep>, output: Option<FfprobeOutput>) -> (r:
    Result<(FfprobeOutput, String), String>)
    ensures
        match r {
            Ok((o, t)) => ffprobe_read(
                match printed {
                    Ok(p) => Ok(p@),
                    Err(step) => Err(step),
                },
                output,
            ) == Ok::<(FfprobeOutput, Seq<char>), Seq<char>>((o, t@)),
            Err(m) => ffprobe_read(
                match printed {
                    Ok(p) => Ok(p@),
                    Err(step) => Err(step),
                },
                output,
            ) == Err::<(FfprobeOutput, Seq<char>), Seq<char>>(m@),
        },
{
    match printed {
        Err(JsonStep::Parse) => Err("failed to parse ffprobe json".to_string()),
        Err(JsonStep::PrettyPrint) => Err("failed to pretty-print ffprobe json".to_string()),
        Ok(text) => match output {
            Some(o) => Ok((o, text)),
            None => Err("failed to deserialize ffprobe json".to_string()),
        },
    }
}

/// Reads ffprobe's stdout: the output in ffprobe's shape, with the JSON
/// printed back indented, or why it cannot be read. `output` is the stdout
/// read into ffprobe's shape, none when it does not have it.
pub fn parse_ffprobe_output(stdout: &[u8], output: Option<FfprobeOutput>) -> (r: Result<
    (FfprobeOutput, String),
    String,
>)
    ensures
        match r {
            Ok((o, t)) => ffprobe_read(printed_json(stdout@), output) == Ok::<
                (FfprobeOutput, Seq<char>),
                Seq<char>,
            >((o, t@)),
            Err(m) => ffprobe_read(printed_json(stdout@), output) == Err::<
                (FfprobeOutput, Seq<char>),
                Seq<char>,
            >(m@),
        },
{
    let printed = pretty_json(stdout);
    read_ffprobe_json(printed, output)
}

/// How a run of ffprobe on an upload went.
pub enum FfprobeRun {
    /// It ran past the time limit.
    TimedOut,
    /// It could not be started.
    LaunchFailed,
    /// It failed: what it wrote to stderr, and its exit status as text.
    Exited { stderr: String, status: String },
    /// It succeeded: what it wrote to stdout, and that read into ffprobe's
    /// shape (none when it does not have it).
    Finished { stdout: Vec<u8>, output: Option<FfprobeOutput> },
}

/// The message of a run of ffprobe that did not finish.
pub open spec fn run_failure(run: FfprobeRun, timeout_secs: u64) -> Seq<char> {
    match run {
        FfprobeRun::TimedOut => "ffprobe timed out after "@ + decimal(timeout_secs as nat)
            + " seconds"@,
        FfprobeRun::LaunchFailed => "failed to launch ffprobe"@,
        FfprobeRun::Exited { stderr, status } => crate::metadata_view::exit_message(
            stderr@,
            status@,
        ),
        FfprobeRun::Finished { .. } => Seq::empty(),
    }
}

/// An inspection past the run of ffprobe: the report of the upload, or why
/// there is none.
pub fn inspect_result(
    trace_id: &str,
    path: &str,
    file_name: &str,
    upload_bytes: u64,
    processing_time_ms: u64,
    ffprobe_timeout_secs: u64,
    run: FfprobeRun,
) -> (r: Result<MediaProbeReport, String>)
    ensures
        match run {
            FfprobeRun::Finished { stdout, output } => match ffprobe_read(
                printed_json(stdout@),
                output,
            ) {
                Ok((o, text)) => r matches Ok(report) && report_mapped(
                    report,
                    trace_id@,
                    path@,
                    file_name@,
                    upload_bytes,
                    processing_time_ms,
                    ffprobe_timeout_secs,
                    o,
                    text,
                ),
                Err(m) => r matches Err(e) && e@ == m,
            },
            _ => r matches Err(m) && m@ == run_failure(run, ffprobe_timeout_secs),
        },
{
    match run {
        FfprobeRun::TimedOut => {
            let mut m = "ffprobe timed out after ".to_string();
            m.append(decimal_string(ffprobe_timeout_secs).as_str());
            m.append(" seconds");
            Err(m)
        },
        FfprobeRun::LaunchFailed => Err("failed to launch ffprobe".to_string()),
        FfprobeRun::Exited { stderr, status } => {
            let trimmed = crate::text::trim_str(stderr.as_str());
            if trimmed.as_str().is_empty() {
                let mut m = "ffprobe exited with status ".to_string();
                m.append(status.as_str());
                Err(m)
            } else {
                Err(trimmed)
            }
        },
        FfprobeRun::Finished { stdout, output } => match parse_ffprobe_output(
            stdout.as_slice(),
            output,
        ) {
            Ok((parsed, raw_json_pretty)) => Ok(
                map_ffprobe_report(
                    trace_id,
                    path,
                    file_name,
                    upload_bytes,
                    processing_time_ms,
                    ffprobe_timeout_secs,
                    &parsed,
                    raw_json_pretty,
                ),
            ),
            Err(m) => Err(m),
        },
    }
}

// ── Laws ─────────────────────────────────────────────────────────────────────

/// The enrichment tasks run side by side and finish in any order: marking
/// two of them done gives the same stage whichever finishes first.
pub proof fn lemma_task_order_irrelevant(stage: ProgressStage, a: EnrichmentTask, b: EnrichmentTask)
    ensures
        with_task_done(with_task_done(stage, a), b) == with_task_done(with_task_done(stage, b), a),
{
}

/// Marking a task done a second time changes nothing.
pub proof fn lemma_task_done_idempotent(stage: ProgressStage, a: EnrichmentTask)
    ensures
        with_task_done(with_task_done(stage, a), a) == with_task_done(stage, a),
{
}

/// A stored file name keeps the length of the uploaded name and holds only ASCII
/// letters, digits, `-` and `_`.
pub proof fn lemma_sanitized_is_safe(raw: Seq<char>)
    ensures
        sanitized(raw).len() == raw.len(),
        forall|i: int| 0 <= i < raw.len() ==> is_safe_char(#[trigger] sanitized(raw)[i]),
{
}

/// A finished or failed inspection stays as it is when a late task reports.
pub proof fn lemma_late_task_changes_nothing(stage: ProgressStage, task: EnrichmentTask)
    requires
        stage is Done || stage is Failed,
    ensures
        with_task_done(stage, task) == stage,
{
}

} // verus!
