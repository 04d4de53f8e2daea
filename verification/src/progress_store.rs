//! The progress of every inspection under way, by trace id, as the upload
//! endpoints record it and the progress endpoint reads it back.
use vstd::prelude::*;

use crate::media_report::{MediaProbeErrorResponse, MediaProbeReport};
use crate::tags::{first_where, lemma_first_where, lemma_first_where_bounds};
use crate::upload_flow::{
    DiagnosticProgress, EnrichmentSummary, EnrichmentTask, ProgressStage, UploadFailure,
    failed_progress, failure_message, failure_status, mark_done, mark_enrichment_started,
    mark_finished, mark_uploaded, upload_error, with_task_done,
};

verus! {

/// One step of an inspection, recorded in its progress.
pub enum ProgressChange {
    /// The upload is stored; ffprobe runs.
    Uploaded { file_name: String, file_bytes: u64, upload_ms: u64 },
    /// ffprobe has answered; the enrichment tasks run.
    EnrichmentStarted { ffprobe_ms: u64, summary: EnrichmentSummary },
    /// One enrichment task has finished.
    TaskDone { task: EnrichmentTask, elapsed_ms: u64 },
    /// The inspection is complete.
    Finished { report: MediaProbeReport, done_ms: u64 },
}

/// The progress after one step.
pub open spec fn changed(p: DiagnosticProgress, c: ProgressChange) -> DiagnosticProgress {
    match c {
        ProgressChange::Uploaded { file_name, file_bytes, upload_ms } => DiagnosticProgress {
            file_name,
            file_bytes,
            elapsed_ms: upload_ms,
            stage: ProgressStage::RunningFfprobe { upload_ms },
            ..p
        },
        ProgressChange::EnrichmentStarted { ffprobe_ms, summary } => DiagnosticProgress {
            elapsed_ms: ffprobe_ms,
            stage: ProgressStage::RunningEnrichment {
                ffprobe_ms,
                stream_count: summary.stream_count,
                video_codec: summary.video_codec,
                resolution: summary.resolution,
                audio_codec: summary.audio_codec,
                duration_label: summary.duration_label,
                mediainfo_done: false,
                loudness_done: false,
                thumbnails_done: false,
                subtitles_done: false,
            },
            ..p
        },
        ProgressChange::TaskDone { task, elapsed_ms } => DiagnosticProgress {
            elapsed_ms,
            stage: with_task_done(p.stage, task),
            ..p
        },
        ProgressChange::Finished { report, done_ms } => DiagnosticProgress {
            elapsed_ms: done_ms,
            stage: ProgressStage::Done { report: Box::new(report) },
            ..p
        },
    }
}

/// Index of the progress of `id`, or the length when there is none.
pub open spec fn index_of(s: Seq<DiagnosticProgress>, id: Seq<char>) -> int {
    first_where(s, has_id(id))
}

/// The recorded progress of `id`.
pub open spec fn lookup(s: Seq<DiagnosticProgress>, id: Seq<char>) -> Option<DiagnosticProgress> {
    let k = index_of(s, id);
    if k < s.len() {
        Some(s[k])
    } else {
        None
    }
}

/// Each trace id is recorded at most once.
pub open spec fn ids_distinct(s: Seq<DiagnosticProgress>) -> bool {
    forall|i: int, j: int| 0 <= i < j < s.len() ==> s[i].trace_id@ != s[j].trace_id@
}

/// The progress of every inspection under way.
pub struct ProgressStore {
    entries: Vec<DiagnosticProgress>,
}

impl View for ProgressStore {
    type V = Seq<DiagnosticProgress>;

    closed spec fn view(&self) -> Seq<DiagnosticProgress> {
        self.entries@
    }
}

/// The progress `id` looks up to, as a predicate.
pub open spec fn has_id(id: Seq<char>) -> spec_fn(DiagnosticProgress) -> bool {
    |e: DiagnosticProgress| e.trace_id@ == id
}

proof fn lemma_index_is(s: Seq<DiagnosticProgress>, id: Seq<char>, k: int)
    requires
        0 <= k <= s.len(),
        forall|j: int| 0 <= j < k ==> (#[trigger] s[j]).trace_id@ != id,
        k == s.len() || s[k].trace_id@ == id,
    ensures
        index_of(s, id) == k,
{
    let p = has_id(id);
    assert forall|j: int| 0 <= j < k implies !p(#[trigger] s[j]) by {}
    lemma_first_where(s, p, k);
}

proof fn lemma_index_bounds(s: Seq<DiagnosticProgress>, id: Seq<char>)
    ensures
        0 <= index_of(s, id) <= s.len(),
        index_of(s, id) < s.len() ==> s[index_of(s, id)].trace_id@ == id,
        forall|j: int| 0 <= j < index_of(s, id) ==> (#[trigger] s[j]).trace_id@ != id,
{
    let p = has_id(id);
    lemma_first_where_bounds(s, p);
    assert forall|j: int| 0 <= j < index_of(s, id) implies (#[trigger] s[j]).trace_id@ != id by {
        assert(!p(s[j]));
    }
}

proof fn lemma_lookup_at(s: Seq<DiagnosticProgress>, k: int)
    requires
        ids_distinct(s),
        0 <= k < s.len(),
    ensures
        lookup(s, s[k].trace_id@) == Some(s[k]),
{
    lemma_index_is(s, s[k].trace_id@, k);
}

/// Replacing the entry at `k` by one with the same id keeps the ids distinct
/// and every other lookup.
proof fn lemma_replace_at(s: Seq<DiagnosticProgress>, k: int, q: DiagnosticProgress)
    requires
        ids_distinct(s),
        0 <= k < s.len(),
        q.trace_id@ == s[k].trace_id@,
    ensures
        ids_distinct(s.update(k, q)),
        lookup(s.update(k, q), q.trace_id@) == Some(q),
        forall|id: Seq<char>| id != q.trace_id@ ==> lookup(s.update(k, q), id) == lookup(s, id),
{
    let t = s.update(k, q);
    assert(ids_distinct(t));
    lemma_lookup_at(t, k);
    assert forall|id: Seq<char>| id != q.trace_id@ implies lookup(t, id) == lookup(s, id) by {
        lemma_index_bounds(s, id);
        let m = index_of(s, id);
        if m < s.len() {
            assert(t[m] == s[m]);
        }
        lemma_index_is(t, id, m);
    }
}

/// Appending an entry with a new id keeps the ids distinct and every other
/// lookup.
proof fn lemma_push_new(s: Seq<DiagnosticProgress>, q: DiagnosticProgress)
    requires
        ids_distinct(s),
        lookup(s, q.trace_id@) is None,
    ensures
        ids_distinct(s.push(q)),
        lookup(s.push(q), q.trace_id@) == Some(q),
        forall|id: Seq<char>| id != q.trace_id@ ==> lookup(s.push(q), id) == lookup(s, id),
{
    let t = s.push(q);
    lemma_index_bounds(s, q.trace_id@);
    assert(ids_distinct(t));
    lemma_lookup_at(t, s.len() as int);
    assert forall|id: Seq<char>| id != q.trace_id@ implies lookup(t, id) == lookup(s, id) by {
        lemma_index_bounds(s, id);
        let m = index_of(s, id);
        if m < s.len() {
            assert(t[m] == s[m]);
            lemma_index_is(t, id, m);
        } else {
            lemma_index_is(t, id, t.len() as int);
        }
    }
}

impl ProgressStore {
    #[verifier::type_invariant]
    spec fn inv(&self) -> bool {
        ids_distinct(self.entries@)
    }

    /// An empty store.
    pub fn new() -> (s: ProgressStore)
        ensures
            s@ == Seq::<DiagnosticProgress>::empty(),
    {
        ProgressStore { entries: Vec::new() }
    }

    /// The recorded progress of an inspection (what the progress endpoint
    /// answers; none gives 404).
    pub fn get(&self, trace_id: &str) -> (r: Option<&DiagnosticProgress>)
        ensures
            r.is_some() == lookup(self@, trace_id@).is_some(),
            r matches Some(p) ==> lookup(self@, trace_id@) == Some(*p),
    {
        match self.position(trace_id) {
            Some(i) => Some(&self.entries[i]),
            None => None,
        }
    }

    fn position(&self, trace_id: &str) -> (r: Option<usize>)
        ensures
            match r {
                Some(i) => i < self@.len() && index_of(self@, trace_id@) == i,
                None => index_of(self@, trace_id@) == self@.len(),
            },
    {
        let ghost p = has_id(trace_id@);
        let mut i: usize = 0;
        while i < self.entries.len()
            invariant
                p == has_id(trace_id@),
                i <= self.entries@.len(),
                forall|j: int| 0 <= j < i ==> !p(#[trigger] self.entries@[j]),
            decreases self.entries@.len() - i,
        {
            if crate::text::str_eq(self.entries[i].trace_id.as_str(), trace_id) {
                proof {
                    lemma_first_where(self.entries@, p, i as int);
                }
                return Some(i);
            }
            i = i + 1;
        }
        proof {
            lemma_first_where(self.entries@, p, i as int);
        }
        None
    }

    /// Records a progress under its trace id, in place of any earlier one;
    /// the other inspections are untouched.
    pub fn insert(&mut self, progress: DiagnosticProgress)
        ensures
            lookup(final(self)@, progress.trace_id@) == Some(progress),
            forall|id: Seq<char>|
                id != progress.trace_id@ ==> lookup(final(self)@, id) == lookup(old(self)@, id),
    {
        proof {
            use_type_invariant(&*self);
        }
        let found = self.position(progress.trace_id.as_str());
        let mut entries: Vec<DiagnosticProgress> = Vec::new();
        std::mem::swap(&mut entries, &mut self.entries);
        match found {
            Some(i) => {
                proof {
                    lemma_index_bounds(entries@, progress.trace_id@);
                    lemma_replace_at(entries@, i as int, progress);
                }
                entries.set(i, progress);
            },
            None => {
                proof {
                    lemma_push_new(entries@, progress);
                }
                entries.push(progress);
            },
        }
        self.entries = entries;
    }

    /// Records one step of an inspection that is recorded; an unknown trace
    /// id changes nothing. The other inspections are untouched.
    pub fn update(&mut self, trace_id: &str, change: ProgressChange)
        ensures
            match lookup(old(self)@, trace_id@) {
                Some(p) => lookup(final(self)@, trace_id@) == Some(changed(p, change)),
                None => final(self)@ == old(self)@,
            },
            forall|id: Seq<char>| id != trace_id@ ==> lookup(final(self)@, id) == lookup(old(self)@, id),
    {
        proof {
            use_type_invariant(&*self);
        }
        match self.position(trace_id) {
            None => {},
            Some(i) => {
                let mut entries: Vec<DiagnosticProgress> = Vec::new();
                std::mem::swap(&mut entries, &mut self.entries);
                let ghost before = entries@;
                proof {
                    lemma_index_bounds(before, trace_id@);
                }
                let mut p = entries.remove(i);
                match change {
                    ProgressChange::Uploaded { file_name, file_bytes, upload_ms } => {
                        mark_uploaded(&mut p, file_name, file_bytes, upload_ms);
                    },
                    ProgressChange::EnrichmentStarted { ffprobe_ms, summary } => {
                        mark_enrichment_started(&mut p, ffprobe_ms, summary);
                    },
                    ProgressChange::TaskDone { task, elapsed_ms } => {
                        mark_done(&mut p, task, elapsed_ms);
                    },
                    ProgressChange::Finished { report, done_ms } => {
                        mark_finished(&mut p, report, done_ms);
                    },
                }
                proof {
                    assert(p == changed(before[i as int], change));
                    lemma_replace_at(before, i as int, p);
                    assert(before.remove(i as int).insert(i as int, p) =~= before.update(
                        i as int,
                        p,
                    ));
                    lemma_lookup_at(before, i as int);
                }
                entries.insert(i, p);
                self.entries = entries;
            },
        }
    }

    /// A probe that failed with `message`: the inspection is recorded as
    /// failed, as `fail` records it, and the answer to the upload is the error
    /// for a failed probe.
    pub fn probe_failed(
        &mut self,
        trace_id: &str,
        file_name: &str,
        file_bytes: u64,
        elapsed_ms: u64,
        message: String,
        background: bool,
    ) -> (r: (u16, MediaProbeErrorResponse))
        ensures
            lookup(final(self)@, trace_id@) matches Some(p) && p.stage == (ProgressStage::Failed {
                message,
            }) && p.elapsed_ms == elapsed_ms && match lookup(old(self)@, trace_id@) {
                Some(q) => p.file_name == q.file_name && p.file_bytes == q.file_bytes,
                None => p.file_name@ == file_name@ && p.file_bytes == file_bytes,
            },
            forall|id: Seq<char>| id != trace_id@ ==> lookup(final(self)@, id) == lookup(old(self)@, id),
            r.0 == failure_status(UploadFailure::ProbeFailed(message)),
            r.1.trace_id@ == trace_id@,
            r.1.message@ == failure_message(UploadFailure::ProbeFailed(message), background),
    {
        self.fail(trace_id, file_name, file_bytes, elapsed_ms, message.clone());
        upload_error(trace_id, UploadFailure::ProbeFailed(message), background)
    }

    /// Records that an inspection failed: its recorded
    /// progress, or a new one when none is recorded, now failed with `message`.
    pub fn fail(
        &mut self,
        trace_id: &str,
        file_name: &str,
        file_bytes: u64,
        elapsed_ms: u64,
        message: String,
    )
        ensures
            lookup(final(self)@, trace_id@) matches Some(p) && p.stage == (ProgressStage::Failed {
                message,
            }) && p.elapsed_ms == elapsed_ms && match lookup(old(self)@, trace_id@) {
                Some(q) => p.file_name == q.file_name && p.file_bytes == q.file_bytes,
                None => p.file_name@ == file_name@ && p.file_bytes == file_bytes,
            },
            forall|id: Seq<char>| id != trace_id@ ==> lookup(final(self)@, id) == lookup(old(self)@, id),
    {
        proof {
            use_type_invariant(&*self);
        }
        match self.position(trace_id) {
            Some(i) => {
                let mut entries: Vec<DiagnosticProgress> = Vec::new();
                std::mem::swap(&mut entries, &mut self.entries);
                let ghost before = entries@;
                proof {
                    lemma_index_bounds(before, trace_id@);
                    lemma_lookup_at(before, i as int);
                }
                let existing = entries.remove(i);
                let p = failed_progress(
                    Some(existing),
                    trace_id,
                    file_name,
                    file_bytes,
                    elapsed_ms,
                    message,
                );
                proof {
                    lemma_replace_at(before, i as int, p);
                    assert(before.remove(i as int).insert(i as int, p) =~= before.update(
                        i as int,
                        p,
                    ));
                }
                entries.insert(i, p);
                self.entries = entries;
            },
            None => {
                let p = failed_progress(None, trace_id, file_name, file_bytes, elapsed_ms, message);
                self.insert(p);
            },
        }
    }
}

} // verus!
