//! The browser side of an inspection: the diagnostic page with its profile and
//! its two upload slots, each moved by the answers of the server, and the
//! texts that show their progress.
use vstd::prelude::*;

use crate::diagnostic::{CheckModel, DiagnosticReport, PlatformProfile};
use crate::media_report::{MediaProbeErrorResponse, MediaProbeReport};
use crate::rules::{run, run_rules, TimingChecks};
use crate::text::{decimal, decimal_string};
use crate::upload_flow::{DiagnosticProgress, ProgressStage};

verus! {

// ── Progress texts ───────────────────────────────────────────────────────────

/// An optional text, `?` when absent.
pub open spec fn or_question(o: Option<String>) -> Seq<char> {
    match o {
        Some(s) => s@,
        None => "?"@,
    }
}

/// The line that names the stage of an inspection.
pub open spec fn stage_text(stage: ProgressStage) -> Seq<char> {
    match stage {
        ProgressStage::Uploading => "Uploading…"@,
        ProgressStage::RunningFfprobe { upload_ms } => "Running ffprobe… (upload took "@ + decimal(
            upload_ms as nat,
        ) + "ms)"@,
        ProgressStage::RunningEnrichment {
            ffprobe_ms,
            stream_count,
            video_codec,
            resolution,
            audio_codec,
            duration_label,
            ..
        } => "Enriching… ffprobe done in "@ + decimal(ffprobe_ms as nat) + "ms | "@ + decimal(
            stream_count as nat,
        ) + " streams | "@ + or_question(video_codec) + " "@ + or_question(resolution) + " | "@
            + or_question(audio_codec) + " | "@ + or_question(duration_label),
        ProgressStage::Done { .. } => "Done"@,
        ProgressStage::Failed { message } => "Failed: "@ + message@,
    }
}

fn text_or_question(o: &Option<String>) -> (r: String)
    ensures
        r@ == or_question(*o),
{
    match o {
        Some(s) => s.clone(),
        None => "?".to_string(),
    }
}

/// The line that names the stage of an inspection.
pub fn stage_label(stage: &ProgressStage) -> (r: String)
    ensures
        r@ == stage_text(*stage),
{
    match stage {
        ProgressStage::Uploading => "Uploading…".to_string(),
        ProgressStage::RunningFfprobe { upload_ms } => {
            let mut r = "Running ffprobe… (upload took ".to_string();
            r.append(decimal_string(*upload_ms).as_str());
            r.append("ms)");
            r
        },
        ProgressStage::RunningEnrichment {
            ffprobe_ms,
            stream_count,
            video_codec,
            resolution,
            audio_codec,
            duration_label,
            ..
        } => {
            let mut r = "Enriching… ffprobe done in ".to_string();
            r.append(decimal_string(*ffprobe_ms).as_str());
            r.append("ms | ");
            r.append(decimal_string(*stream_count as u64).as_str());
            r.append(" streams | ");
            r.append(text_or_question(video_codec).as_str());
            r.append(" ");
            r.append(text_or_question(resolution).as_str());
            r.append(" | ");
            r.append(text_or_question(audio_codec).as_str());
            r.append(" | ");
            r.append(text_or_question(duration_label).as_str());
            r
        },
        ProgressStage::Done { .. } => "Done".to_string(),
        ProgressStage::Failed { message } => {
            let mut r = "Failed: ".to_string();
            r.append(message.as_str());
            r
        },
    }
}

/// The share of an upload sent, in whole percent: `loaded * 100 / total`,
/// or 0 when that overflows or `total` is 0 (taken as `u32`).
pub open spec fn percent_of(loaded: u64, total: u64) -> u32 {
    if loaded * 100 > u64::MAX || total == 0 {
        0
    } else {
        ((loaded * 100) / (total as int)) as u32
    }
}

/// The share of an upload sent, in whole percent.
pub fn upload_percent(loaded: u64, total: u64) -> (r: u32)
    ensures
        r == percent_of(loaded, total),
{
    match loaded.checked_mul(100) {
        Some(v) => if total == 0 {
            0
        } else {
            (v / total) as u32
        },
        None => 0,
    }
}

/// The last line of the progress panel: the time spent, the file name when
/// known and the size in KB when known.
pub open spec fn progress_footer_text(p: DiagnosticProgress) -> Seq<char> {
    "elapsed: "@ + decimal(p.elapsed_ms as nat) + "ms"@ + (if p.file_name@.len() > 0 {
        " · "@ + p.file_name@
    } else {
        Seq::empty()
    }) + (if p.file_bytes > 0 {
        " · "@ + decimal((p.file_bytes / 1024) as nat) + "KB"@
    } else {
        Seq::empty()
    })
}

/// The last line of the progress panel.
pub fn progress_footer(p: &DiagnosticProgress) -> (r: String)
    ensures
        r@ == progress_footer_text(*p),
{
    let mut r = "elapsed: ".to_string();
    r.append(decimal_string(p.elapsed_ms).as_str());
    r.append("ms");
    let ghost head = r@;
    if !p.file_name.as_str().is_empty() {
        r.append(" · ");
        r.append(p.file_name.as_str());
    } else {
        assert(r@ =~= head + Seq::<char>::empty());
    }
    let ghost mid = r@;
    if p.file_bytes > 0 {
        r.append(" · ");
        r.append(decimal_string(p.file_bytes / 1024).as_str());
        r.append("KB");
    } else {
        assert(r@ =~= mid + Seq::<char>::empty());
    }
    r
}

/// The message for a failed request: the server's error body when it sent
/// one, else the raw body.
pub open spec fn http_error_text(status: u16, error: Option<MediaProbeErrorResponse>, body: Seq<
    char,
>) -> Seq<char> {
    match error {
        Some(e) => "HTTP "@ + decimal(status as nat) + " ["@ + e.trace_id@ + "]: "@ + e.message@,
        None => "HTTP "@ + decimal(status as nat) + ": "@ + body,
    }
}

/// The message for a failed upload request.
pub fn http_error_message(status: u16, error: &Option<MediaProbeErrorResponse>, body: &str) -> (r:
    String)
    ensures
        r@ == http_error_text(status, *error, body@),
{
    let mut r = "HTTP ".to_string();
    r.append(decimal_string(status as u64).as_str());
    match error {
        Some(e) => {
            r.append(" [");
            r.append(e.trace_id.as_str());
            r.append("]: ");
            r.append(e.message.as_str());
        },
        None => {
            r.append(": ");
            r.append(body);
        },
    }
    r
}

/// The message for a failed poll of the progress.
pub fn poll_error_message(status: u16, body: &str) -> (r: String)
    ensures
        r@ == "poll HTTP "@ + decimal(status as nat) + ": "@ + body@,
{
    let mut r = "poll HTTP ".to_string();
    r.append(decimal_string(status as u64).as_str());
    r.append(": ");
    r.append(body);
    r
}

/// Whether polling goes on after `answer`: only while the inspection runs
/// (neither done nor failed) and the poll itself succeeded.
pub open spec fn poll_again(answer: Result<DiagnosticProgress, String>) -> bool {
    match answer {
        Ok(p) => match p.stage {
            ProgressStage::Done { .. } => false,
            ProgressStage::Failed { .. } => false,
            _ => true,
        },
        Err(_) => false,
    }
}

/// The slot `after` is `before` once `answer` to a poll is taken in, with a
/// finished inspection diagnosed under `profile` with `timing`: a finished
/// inspection sets the report, its timing checks and its diagnostic; a failed
/// one or a failed poll sets the error; these three stop loading. A running
/// inspection shows its progress. Nothing else changes.
pub open spec fn slot_polled(
    before: InspectionSlot,
    after: InspectionSlot,
    answer: Result<DiagnosticProgress, String>,
    profile: PlatformProfile,
    timing: TimingChecks,
) -> bool {
    &&& match answer {
        Ok(p) => match p.stage {
            ProgressStage::Done { report } => {
                &&& after.report == Some(*report)
                &&& after.timing == Some(timing)
                &&& diagnosis_view(after.diagnostic) == Some(run_rules(*report, profile, timing))
                &&& after.progress is None
                &&& !after.loading
                &&& after.error == before.error
            },
            ProgressStage::Failed { message } => {
                &&& after.error == Some(message)
                &&& after.progress is None
                &&& !after.loading
                &&& after.report == before.report
                &&& after.timing == before.timing
                &&& after.diagnostic == before.diagnostic
            },
            _ => {
                &&& after.progress == Some(p)
                &&& after.loading == before.loading
                &&& after.error == before.error
                &&& after.report == before.report
                &&& after.timing == before.timing
                &&& after.diagnostic == before.diagnostic
            },
        },
        Err(e) => {
            &&& after.error == Some(e)
            &&& !after.loading
            &&& after.progress == before.progress
            &&& after.report == before.report
            &&& after.timing == before.timing
            &&& after.diagnostic == before.diagnostic
        },
    }
    &&& after.upload_progress == before.upload_progress
}

// ── One upload slot of the page ──────────────────────────────────────────────

/// One upload slot: the report of the last inspection with its timing checks
/// and its diagnostic, its error, and while an inspection runs, how far it is.
pub struct InspectionSlot {
    pub report: Option<MediaProbeReport>,
    pub timing: Option<TimingChecks>,
    pub diagnostic: Option<DiagnosticReport>,
    pub error: Option<String>,
    pub loading: bool,
    pub progress: Option<DiagnosticProgress>,
    pub upload_progress: Option<(u64, u64)>,
}

/// No report, no error, nothing running.
pub open spec fn is_idle(s: InspectionSlot) -> bool {
    &&& s.report is None
    &&& s.timing is None
    &&& s.diagnostic is None
    &&& s.error is None
    &&& !s.loading
    &&& s.progress is None
    &&& s.upload_progress is None
}

impl InspectionSlot {
    /// An empty slot.
    pub fn new() -> (s: InspectionSlot)
        ensures
            is_idle(s),
    {
        InspectionSlot {
            report: None,
            timing: None,
            diagnostic: None,
            error: None,
            loading: false,
            progress: None,
            upload_progress: None,
        }
    }

    /// A file was dropped: the slot is cleared and loading.
    pub fn begin(&mut self)
        ensures
            final(self).report is None,
            final(self).timing is None,
            final(self).diagnostic is None,
            final(self).error is None,
            final(self).loading,
            final(self).progress is None,
            final(self).upload_progress is None,
    {
        self.report = None;
        self.timing = None;
        self.diagnostic = None;
        self.error = None;
        self.progress = None;
        self.upload_progress = None;
        self.loading = true;
    }

    /// The browser reports how much of the upload is sent.
    pub fn upload_progressed(&mut self, loaded: u64, total: u64)
        ensures
            final(self).upload_progress == Some((loaded, total)),
            final(self).report == old(self).report,
            final(self).timing == old(self).timing,
            final(self).diagnostic == old(self).diagnostic,
            final(self).error == old(self).error,
            final(self).loading == old(self).loading,
            final(self).progress == old(self).progress,
    {
        self.upload_progress = Some((loaded, total));
    }

    /// The upload request answered: with the id to poll, the slot waits for
    /// the inspection; with an error, the slot shows it and stops.
    pub fn upload_answered(&mut self, answer: Result<String, String>) -> (poll: Option<String>)
        ensures
            match answer {
                Ok(trace_id) => {
                    &&& poll == Some(trace_id)
                    &&& final(self).upload_progress is None
                    &&& final(self).loading == old(self).loading
                    &&& final(self).error == old(self).error
                },
                Err(e) => {
                    &&& poll is None
                    &&& final(self).error == Some(e)
                    &&& !final(self).loading
                    &&& final(self).upload_progress == old(self).upload_progress
                },
            },
            final(self).report == old(self).report,
            final(self).timing == old(self).timing,
            final(self).diagnostic == old(self).diagnostic,
            final(self).progress == old(self).progress,
    {
        match answer {
            Ok(trace_id) => {
                self.upload_progress = None;
                Some(trace_id)
            },
            Err(e) => {
                self.error = Some(e);
                self.loading = false;
                None
            },
        }
    }

    /// A poll of the progress answered. A finished inspection gives its
    /// report, which is diagnosed under `profile` with `timing`, the timing
    /// checks of that report; a failed one or a failed poll gives its error;
    /// either way the slot stops loading. Otherwise the progress is shown and
    /// polling goes on. Returns whether to poll again.
    pub fn poll_answered(
        &mut self,
        answer: Result<DiagnosticProgress, String>,
        profile: &PlatformProfile,
        timing: TimingChecks,
    ) -> (again: bool)
        ensures
            again == poll_again(answer),
            slot_polled(*old(self), *final(self), answer, *profile, timing),
    {
        match answer {
            Ok(p) => match p.stage {
                ProgressStage::Done { report } => {
                    self.diagnostic = Some(run(&report, profile, &timing));
                    self.timing = Some(timing);
                    self.report = Some(*report);
                    self.progress = None;
                    self.loading = false;
                    false
                },
                ProgressStage::Failed { message } => {
                    self.error = Some(message);
                    self.progress = None;
                    self.loading = false;
                    false
                },
                stage => {
                    self.progress = Some(
                        DiagnosticProgress {
                            trace_id: p.trace_id,
                            file_name: p.file_name,
                            file_bytes: p.file_bytes,
                            elapsed_ms: p.elapsed_ms,
                            stage,
                        },
                    );
                    true
                },
            },
            Err(e) => {
                self.error = Some(e);
                self.loading = false;
                false
            },
        }
    }
}

/// The checks of an optional diagnostic, as plain values.
pub open spec fn diagnosis_view(d: Option<DiagnosticReport>) -> Option<Seq<CheckModel>> {
    match d {
        Some(r) => Some(r@),
        None => None,
    }
}

/// What a slot's diagnostic is under `profile`: the rules run on its report
/// with its timing checks, when it holds both; none otherwise.
pub open spec fn slot_diagnosis(s: InspectionSlot, profile: PlatformProfile) -> Option<
    Seq<CheckModel>,
> {
    match (s.report, s.timing) {
        (Some(r), Some(t)) => Some(run_rules(r, profile, t)),
        _ => None,
    }
}

/// The slot is the same but for its diagnostic.
pub open spec fn same_but_diagnostic(a: InspectionSlot, b: InspectionSlot) -> bool {
    &&& a.report == b.report
    &&& a.timing == b.timing
    &&& a.error == b.error
    &&& a.loading == b.loading
    &&& a.progress == b.progress
    &&& a.upload_progress == b.upload_progress
}

impl InspectionSlot {
    /// Runs the rules again under `profile` when the slot holds a report; a
    /// slot without one keeps its diagnostic.
    pub fn rediagnose(&mut self, profile: &PlatformProfile)
        ensures
            same_but_diagnostic(*final(self), *old(self)),
            diagnosis_view(final(self).diagnostic) == match slot_diagnosis(*old(self), *profile) {
                Some(d) => Some(d),
                None => diagnosis_view(old(self).diagnostic),
            },
    {
        match (&self.report, &self.timing) {
            (Some(r), Some(t)) => {
                let d = run(r, profile, t);
                self.diagnostic = Some(d);
            },
            _ => {},
        }
    }
}

/// The diagnostics of both slots, under `profile`: for each slot that holds a
/// report, the rules run on it with its timing checks.
pub fn diagnose_slots(
    primary: &InspectionSlot,
    compare: &InspectionSlot,
    profile: &PlatformProfile,
) -> (r: (Option<DiagnosticReport>, Option<DiagnosticReport>))
    ensures
        diagnosis_view(r.0) == slot_diagnosis(*primary, *profile),
        diagnosis_view(r.1) == slot_diagnosis(*compare, *profile),
{
    let first = match (&primary.report, &primary.timing) {
        (Some(rep), Some(t)) => Some(run(rep, profile, t)),
        _ => None,
    };
    let second = match (&compare.report, &compare.timing) {
        (Some(rep), Some(t)) => Some(run(rep, profile, t)),
        _ => None,
    };
    (first, second)
}

// ── The diagnostic page ──────────────────────────────────────────────────────

/// The diagnostic page: the chosen platform profile, the primary slot and
/// the optional comparison slot.
pub struct DiagnosticPage {
    pub profile: PlatformProfile,
    pub primary: InspectionSlot,
    pub compare: InspectionSlot,
}

/// Each slot's diagnostic is the rules run on its report under the page's
/// profile, and a slot without a report has none.
pub open spec fn page_diagnosed(p: DiagnosticPage) -> bool {
    &&& diagnosis_view(p.primary.diagnostic) == slot_diagnosis(p.primary, p.profile)
    &&& diagnosis_view(p.compare.diagnostic) == slot_diagnosis(p.compare, p.profile)
}

impl DiagnosticPage {
    /// The web profile and two empty slots.
    pub fn new() -> (p: DiagnosticPage)
        ensures
            p.profile == PlatformProfile::Web,
            is_idle(p.primary),
            is_idle(p.compare),
            page_diagnosed(p),
    {
        DiagnosticPage {
            profile: PlatformProfile::Web,
            primary: InspectionSlot::new(),
            compare: InspectionSlot::new(),
        }
    }

    /// Chooses a profile and runs the rules again on each report held, without
    /// uploading anything again.
    pub fn set_profile(&mut self, profile: PlatformProfile)
        ensures
            final(self).profile == profile,
            same_but_diagnostic(final(self).primary, old(self).primary),
            same_but_diagnostic(final(self).compare, old(self).compare),
            diagnosis_view(final(self).primary.diagnostic) == match slot_diagnosis(
                old(self).primary,
                profile,
            ) {
                Some(d) => Some(d),
                None => diagnosis_view(old(self).primary.diagnostic),
            },
            diagnosis_view(final(self).compare.diagnostic) == match slot_diagnosis(
                old(self).compare,
                profile,
            ) {
                Some(d) => Some(d),
                None => diagnosis_view(old(self).compare.diagnostic),
            },
            page_diagnosed(*old(self)) ==> page_diagnosed(*final(self)),
    {
        self.profile = profile;
        self.primary.rediagnose(&profile);
        self.compare.rediagnose(&profile);
    }

    /// A poll for the primary slot answered, taken in as `InspectionSlot::poll_answered`
    /// does, with a finished inspection diagnosed under the page's profile.
    /// Returns whether to poll again: only while the inspection runs.
    pub fn primary_polled(&mut self, answer: Result<DiagnosticProgress, String>, timing: TimingChecks) -> (again: bool)
        ensures
            final(self).profile == old(self).profile,
            final(self).compare == old(self).compare,
            again == poll_again(answer),
            slot_polled(old(self).primary, final(self).primary, answer, old(self).profile, timing),
            page_diagnosed(*old(self)) ==> page_diagnosed(*final(self)),
    {
        let profile = self.profile;
        self.primary.poll_answered(answer, &profile, timing)
    }

    /// A poll for the comparison slot answered, taken in as
    /// `InspectionSlot::poll_answered` does, with a finished inspection
    /// diagnosed under the page's profile. Returns whether to poll again: only
    /// while the inspection runs.
    pub fn compare_polled(&mut self, answer: Result<DiagnosticProgress, String>, timing: TimingChecks) -> (again: bool)
        ensures
            final(self).profile == old(self).profile,
            final(self).primary == old(self).primary,
            again == poll_again(answer),
            slot_polled(old(self).compare, final(self).compare, answer, old(self).profile, timing),
            page_diagnosed(*old(self)) ==> page_diagnosed(*final(self)),
    {
        let profile = self.profile;
        self.compare.poll_answered(answer, &profile, timing)
    }

    /// Empties the comparison slot.
    pub fn clear_compare(&mut self)
        ensures
            final(self).profile == old(self).profile,
            final(self).primary == old(self).primary,
            is_idle(final(self).compare),
            page_diagnosed(*old(self)) ==> page_diagnosed(*final(self)),
    {
        self.compare = InspectionSlot::new();
    }
}

/// The share of an upload sent is at most 100 percent while no more than the
/// whole is sent.
pub proof fn lemma_percent_at_most_100(loaded: u64, total: u64)
    requires
        loaded <= total,
    ensures
        percent_of(loaded, total) <= 100,
{
    if loaded * 100 <= u64::MAX && total > 0 {
        assert((loaded * 100) / (total as int) <= 100) by (nonlinear_arith)
            requires
                loaded <= total,
                total > 0,
        ;
    }
}

} // verus!
