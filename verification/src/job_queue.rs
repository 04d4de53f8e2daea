//! The transcoding queue of the terminal client: which job runs, how far it
//! has got, pausing, reordering, and the documents dropped onto it.
//!
//! Time enters as a reading of a monotonic millisecond clock (`now_ms`),
//! taken by the caller.
use vstd::prelude::*;

use crate::paths::{file_name_of, path_file_name, paths_equal, same_path};
use crate::text::{decimal2, decimal2_string};

verus! {

/// How long one job takes to run, in milliseconds.
pub const JOB_DURATION_MS: u64 = 10000;

/// How many frames a celebration lasts.
pub const CELEBRATION_DURATION_TICKS: u64 = 48;

/// Number of spinner frames.
pub const SPINNER_FRAME_COUNT: usize = 10;

/// Where a job of the queue stands.
#[derive(Clone, Copy, Debug, PartialEq, Eq, Structural)]
pub enum JobStatus {
    Queued,
    Running,
    Done,
    Failed,
}

/// One transcoding job.
#[derive(Clone, Debug, PartialEq, Default)]
pub struct Job {
    pub input: String,
    pub output: String,
    pub duration: String,
    pub preset: String,
    pub stage: String,
    pub input_size_mb: u64,
    pub target_output_mb: u64,
    pub target_bitrate_kbps: u64,
    pub video_codec: String,
    pub audio_codec: String,
    pub resolution: String,
    pub fps: String,
    /// Set for a job that is known to fail.
    pub failure_reason: Option<String>,
}

/// The queue with its clock state.
pub struct App {
    jobs: Vec<Job>,
    dropped_documents: Vec<String>,
    current_job: usize,
    job_started_at_ms: u64,
    elapsed_before_pause_ms: u64,
    spinner_index: usize,
    is_complete: bool,
    is_paused: bool,
    frame_tick: u64,
    celebration_until_tick: Option<u64>,
}

/// The state of the queue as plain values.
pub struct AppModel {
    pub jobs: Seq<Job>,
    pub dropped_documents: Seq<Seq<char>>,
    pub current_job: usize,
    pub job_started_at_ms: u64,
    pub elapsed_before_pause_ms: u64,
    pub spinner_index: usize,
    pub is_complete: bool,
    pub is_paused: bool,
    pub frame_tick: u64,
    pub celebration_until_tick: Option<u64>,
}

impl View for App {
    type V = AppModel;

    closed spec fn view(&self) -> AppModel {
        AppModel {
            jobs: self.jobs@,
            dropped_documents: self.dropped_documents@.map_values(|d: String| d@),
            current_job: self.current_job,
            job_started_at_ms: self.job_started_at_ms,
            elapsed_before_pause_ms: self.elapsed_before_pause_ms,
            spinner_index: self.spinner_index,
            is_complete: self.is_complete,
            is_paused: self.is_paused,
            frame_tick: self.frame_tick,
            celebration_until_tick: self.celebration_until_tick,
        }
    }
}

/// The queue has a current job and a valid spinner frame.
pub open spec fn well_formed(m: AppModel) -> bool {
    &&& m.jobs.len() > 0
    &&& m.jobs.len() <= usize::MAX
    &&& m.current_job < m.jobs.len()
    &&& m.spinner_index < SPINNER_FRAME_COUNT
}

/// No two dropped documents are the same path.
pub open spec fn documents_distinct(docs: Seq<Seq<char>>) -> bool {
    forall|i: int, j: int| 0 <= i < j < docs.len() ==> !same_path(docs[i], docs[j])
}

/// Milliseconds the current job has run at clock reading `now`. A clock
/// reading before the start counts as no time; the sum saturates at
/// `u64::MAX`.
pub open spec fn elapsed_at(m: AppModel, now: u64) -> u64 {
    if m.is_paused {
        m.elapsed_before_pause_ms
    } else {
        let running: int = if now >= m.job_started_at_ms {
            now - m.job_started_at_ms
        } else {
            0
        };
        if m.elapsed_before_pause_ms + running > u64::MAX {
            u64::MAX
        } else {
            (m.elapsed_before_pause_ms + running) as u64
        }
    }
}

/// The state after one frame at clock reading `now`.
pub open spec fn ticked(m: AppModel, now: u64) -> AppModel {
    let frame: u64 = if m.frame_tick == u64::MAX {
        0
    } else {
        (m.frame_tick + 1) as u64
    };
    let celebration = match m.celebration_until_tick {
        Some(until) => if frame >= until {
            None
        } else {
            Some(until)
        },
        None => None,
    };
    let m1 = AppModel { frame_tick: frame, celebration_until_tick: celebration, ..m };
    if m.is_complete || m.is_paused {
        m1
    } else {
        let m2 = AppModel {
            spinner_index: ((m.spinner_index + 1) % (SPINNER_FRAME_COUNT as int)) as usize,
            ..m1
        };
        if elapsed_at(m, now) >= JOB_DURATION_MS {
            if m.current_job + 1 < m.jobs.len() {
                AppModel {
                    current_job: (m.current_job + 1) as usize,
                    job_started_at_ms: now,
                    elapsed_before_pause_ms: 0,
                    ..m2
                }
            } else {
                AppModel { is_complete: true, ..m2 }
            }
        } else {
            m2
        }
    }
}

/// Status of job `i`.
pub open spec fn status_of(m: AppModel, i: int) -> JobStatus {
    if m.jobs[i].failure_reason.is_some() && i > m.current_job {
        JobStatus::Failed
    } else if i < m.current_job {
        JobStatus::Done
    } else if i == m.current_job {
        if m.is_complete {
            JobStatus::Done
        } else {
            JobStatus::Running
        }
    } else {
        JobStatus::Queued
    }
}

/// Number of jobs among the first `n` with status `st`.
pub open spec fn count_jobs(m: AppModel, st: JobStatus, n: int) -> nat
    decreases n,
{
    if n <= 0 {
        0
    } else {
        count_jobs(m, st, n - 1) + if status_of(m, n - 1) == st {
            1nat
        } else {
            0nat
        }
    }
}

/// The glyph of spinner frame `i`.
pub open spec fn spinner_glyph(i: int) -> Seq<char> {
    if i == 0 {
        "⠋"@
    } else if i == 1 {
        "⠙"@
    } else if i == 2 {
        "⠹"@
    } else if i == 3 {
        "⠸"@
    } else if i == 4 {
        "⠼"@
    } else if i == 5 {
        "⠴"@
    } else if i == 6 {
        "⠦"@
    } else if i == 7 {
        "⠧"@
    } else if i == 8 {
        "⠇"@
    } else {
        "⠏"@
    }
}

/// The speed shown for the running job, by how far it has got.
pub open spec fn speed_label_at(m: AppModel, now: u64) -> Seq<char> {
    let e = elapsed_at(m, now);
    if m.is_complete {
        "done"@
    } else if m.is_paused {
        "paused"@
    } else if e < 2500 {
        "1.2x"@
    } else if e < 5000 {
        "1.6x"@
    } else if e < 7500 {
        "1.8x"@
    } else {
        "2.1x"@
    }
}

/// "00:MM:SS" of a number of milliseconds (minutes are not wrapped).
pub open spec fn duration_label(ms: u64) -> Seq<char> {
    let secs = ms / 1000;
    "00:"@ + decimal2((secs / 60) as nat) + ":"@ + decimal2((secs % 60) as nat)
}

/// "00:MM:SS" of a duration given in milliseconds.
pub fn format_duration(duration_ms: u64) -> (r: String)
    ensures
        r@ == duration_label(duration_ms),
{
    let total_seconds = duration_ms / 1000;
    let minutes = total_seconds / 60;
    let seconds = total_seconds % 60;
    let mut r = String::from_str("00:");
    let mm = decimal2_string(minutes);
    let ss = decimal2_string(seconds);
    r.append(mm.as_str());
    r.append(":");
    r.append(ss.as_str());
    r
}

/// The queue after the job at `from` is moved to `to`, the current job
/// staying current; out-of-range or equal indices change nothing.
pub open spec fn job_moved(before: AppModel, from: usize, to: usize) -> AppModel {
    if from >= before.jobs.len() || to >= before.jobs.len() || from == to {
        before
    } else {
        AppModel {
            jobs: before.jobs.remove(from as int).insert(to as int, before.jobs[from as int]),
            current_job: if before.current_job == from {
                to
            } else if from < before.current_job && to >= before.current_job {
                (before.current_job - 1) as usize
            } else if from > before.current_job && to <= before.current_job {
                (before.current_job + 1) as usize
            } else {
                before.current_job
            },
            ..before
        }
    }
}

impl App {
    /// A paused queue at its first job, started at clock reading `now_ms`.
    pub fn new(jobs: Vec<Job>, now_ms: u64) -> (app: App)
        requires
            jobs@.len() > 0,
        ensures
            well_formed(app@),
            app@.jobs == jobs@,
            app@.dropped_documents == Seq::<Seq<char>>::empty(),
            app@.current_job == 0,
            app@.job_started_at_ms == now_ms,
            app@.elapsed_before_pause_ms == 0,
            app@.spinner_index == 0,
            !app@.is_complete,
            app@.is_paused,
            app@.frame_tick == 0,
            app@.celebration_until_tick is None,
    {
        let job_count = jobs.len();
        assert(jobs@.len() == job_count);
        let app = App {
            jobs,
            dropped_documents: Vec::new(),
            current_job: 0,
            job_started_at_ms: now_ms,
            elapsed_before_pause_ms: 0,
            spinner_index: 0,
            is_complete: false,
            is_paused: true,
            frame_tick: 0,
            celebration_until_tick: None,
        };
        assert(app@.dropped_documents =~= Seq::<Seq<char>>::empty());
        app
    }

    /// Milliseconds the current job has run: the time banked before the last
    /// pause, plus the time since the clock was started when running.
    pub fn job_elapsed(&self, now_ms: u64) -> (e: u64)
        ensures
            e == elapsed_at(self@, now_ms),
    {
        if self.is_paused {
            self.elapsed_before_pause_ms
        } else {
            let running = if now_ms >= self.job_started_at_ms {
                now_ms - self.job_started_at_ms
            } else {
                0
            };
            self.elapsed_before_pause_ms.saturating_add(running)
        }
    }

    /// One frame: advances the frame counter, ends an expired celebration,
    /// turns the spinner, and moves on to the next job (or completes the queue)
    /// once the current job has run for `JOB_DURATION_MS`.
    pub fn update(&mut self, now_ms: u64)
        requires
            well_formed(old(self)@),
        ensures
            final(self)@ == ticked(old(self)@, now_ms),
            well_formed(final(self)@),
    {
        assert(self.current_job < self.jobs.len());
        self.frame_tick = self.frame_tick.wrapping_add(1);
        match self.celebration_until_tick {
            Some(until_tick) => {
                if self.frame_tick >= until_tick {
                    self.celebration_until_tick = None;
                }
            },
            None => {},
        }
        if self.is_complete {
            return;
        }
        if self.is_paused {
            return;
        }
        self.spinner_index = (self.spinner_index + 1) % SPINNER_FRAME_COUNT;
        if self.job_elapsed(now_ms) >= JOB_DURATION_MS {
            if self.current_job + 1 < self.jobs.len() {
                self.current_job = self.current_job + 1;
                self.job_started_at_ms = now_ms;
                self.elapsed_before_pause_ms = 0;
            } else {
                self.is_complete = true;
            }
        }
    }

    /// The job being processed.
    pub fn current_job(&self) -> (job: &Job)
        requires
            well_formed(self@),
        ensures
            *job == self@.jobs[self@.current_job as int],
    {
        &self.jobs[self.current_job]
    }

    /// All jobs, in queue order.
    pub fn jobs(&self) -> (jobs: &[Job])
        ensures
            jobs@ == self@.jobs,
    {
        self.jobs.as_slice()
    }

    /// The dropped documents, in the order they were dropped.
    pub fn dropped_documents(&self) -> (docs: &[String])
        ensures
            docs@.map_values(|d: String| d@) == self@.dropped_documents,
    {
        self.dropped_documents.as_slice()
    }

    /// Number of dropped documents.
    pub fn dropped_document_count(&self) -> (n: usize)
        ensures
            n == self@.dropped_documents.len(),
    {
        self.dropped_documents.len()
    }

    /// Records a dropped document unless the same path is already there.
    pub fn add_dropped_document(&mut self, path: String)
        ensures
            old(self)@.dropped_documents.contains(path@) ==> final(self)@ == old(self)@,
            ({
                let before = old(self)@;
                let after = final(self)@;
                &&& (exists|i: int|
                    0 <= i < before.dropped_documents.len() && same_path(
                        #[trigger] before.dropped_documents[i],
                        path@,
                    )) ==> after == before
                &&& !(exists|i: int|
                    0 <= i < before.dropped_documents.len() && same_path(
                        #[trigger] before.dropped_documents[i],
                        path@,
                    )) ==> after == AppModel {
                    dropped_documents: before.dropped_documents.push(path@),
                    ..before
                }
            }),
    {
        let mut i: usize = 0;
        while i < self.dropped_documents.len()
            invariant
                i <= self.dropped_documents@.len(),
                forall|j: int|
                    0 <= j < i ==> !same_path(#[trigger] self@.dropped_documents[j], path@),
                forall|j: int| 0 <= j < i ==> #[trigger] self@.dropped_documents[j] != path@,
            decreases self.dropped_documents@.len() - i,
        {
            if paths_equal(self.dropped_documents[i].as_str(), path.as_str()) {
                assert(same_path(self@.dropped_documents[i as int], path@));
                return;
            }
            i = i + 1;
        }
        let ghost before = self@;
        self.dropped_documents.push(path);
        assert(self@.dropped_documents =~= before.dropped_documents.push(path@));
    }

    /// The label of a document: its file name, or the whole path when it has none.
    pub fn document_label(path: &str) -> (label: String)
        ensures
            label@ == match file_name_of(path@) {
                Some(name) => name,
                None => path@,
            },
    {
        match path_file_name(path) {
            Some(name) => name,
            None => String::from_str(path),
        }
    }

    /// Index of the current job.
    pub fn current_job_index(&self) -> (i: usize)
        ensures
            i == self@.current_job,
    {
        self.current_job
    }

    /// Status of job `index`.
    pub fn job_status(&self, index: usize) -> (st: JobStatus)
        requires
            index < self@.jobs.len(),
        ensures
            st == status_of(self@, index as int),
    {
        if self.jobs[index].failure_reason.is_some() && index > self.current_job {
            return JobStatus::Failed;
        }
        if index < self.current_job {
            JobStatus::Done
        } else if index == self.current_job {
            if self.is_complete {
                JobStatus::Done
            } else {
                JobStatus::Running
            }
        } else {
            JobStatus::Queued
        }
    }

    /// Whether every job is done.
    pub fn is_complete(&self) -> (b: bool)
        ensures
            b == self@.is_complete,
    {
        self.is_complete
    }

    /// Whether the queue is paused.
    pub fn is_paused(&self) -> (b: bool)
        ensures
            b == self@.is_paused,
    {
        self.is_paused
    }

    /// Status of the current job.
    pub fn current_job_status(&self) -> (st: JobStatus)
        requires
            well_formed(self@),
        ensures
            st == status_of(self@, self@.current_job as int),
    {
        self.job_status(self.current_job)
    }

    /// The frame counter.
    pub fn frame_tick(&self) -> (t: u64)
        ensures
            t == self@.frame_tick,
    {
        self.frame_tick
    }

    /// Starts a celebration lasting `CELEBRATION_DURATION_TICKS` frames.
    pub fn trigger_celebration(&mut self)
        requires
            old(self)@.frame_tick + CELEBRATION_DURATION_TICKS <= u64::MAX,
        ensures
            final(self)@ == (AppModel {
                celebration_until_tick: Some(
                    (old(self)@.frame_tick + CELEBRATION_DURATION_TICKS) as u64,
                ),
                ..old(self)@
            }),
    {
        self.celebration_until_tick = Some(self.frame_tick + CELEBRATION_DURATION_TICKS);
    }

    /// Whether a celebration is on.
    pub fn should_celebrate(&self) -> (b: bool)
        ensures
            b == self@.celebration_until_tick.is_some(),
    {
        self.celebration_until_tick.is_some()
    }

    /// The word shown beside the spinner for the current job: `Failed` for a
    /// failed job, else `Paused`, `Done` or `Processing...`.
    pub fn status_word(&self) -> (s: &'static str)
        requires
            well_formed(self@),
        ensures
            s@ == if status_of(self@, self@.current_job as int) == JobStatus::Failed {
                "Failed"@
            } else if self@.is_paused {
                "Paused"@
            } else if self@.is_complete {
                "Done"@
            } else {
                "Processing..."@
            },
    {
        if self.current_job_status() == JobStatus::Failed {
            "Failed"
        } else if self.is_paused {
            "Paused"
        } else if self.is_complete {
            "Done"
        } else {
            "Processing..."
        }
    }

    /// The spinner glyph: a check mark when complete, a pause sign when paused.
    pub fn spinner_frame(&self) -> (s: &'static str)
        requires
            well_formed(self@),
        ensures
            s@ == if self@.is_complete {
                "✓"@
            } else if self@.is_paused {
                "⏸"@
            } else {
                spinner_glyph(self@.spinner_index as int)
            },
    {
        if self.is_complete {
            return "✓";
        }
        if self.is_paused {
            return "⏸";
        }
        match self.spinner_index {
            0 => "⠋",
            1 => "⠙",
            2 => "⠹",
            3 => "⠸",
            4 => "⠼",
            5 => "⠴",
            6 => "⠦",
            7 => "⠧",
            8 => "⠇",
            _ => "⠏",
        }
    }

    fn count_with(&self, st: JobStatus) -> (n: usize)
        ensures
            n == count_jobs(self@, st, self@.jobs.len() as int),
    {
        let mut n: usize = 0;
        let mut i: usize = 0;
        while i < self.jobs.len()
            invariant
                i <= self@.jobs.len(),
                n <= i,
                n == count_jobs(self@, st, i as int),
            decreases self@.jobs.len() - i,
        {
            if self.job_status(i) == st {
                n = n + 1;
            }
            i = i + 1;
        }
        n
    }

    /// Number of queued jobs.
    pub fn pending_jobs(&self) -> (n: usize)
        ensures
            n == count_jobs(self@, JobStatus::Queued, self@.jobs.len() as int),
    {
        self.count_with(JobStatus::Queued)
    }

    /// Number of done jobs.
    pub fn completed_jobs(&self) -> (n: usize)
        ensures
            n == count_jobs(self@, JobStatus::Done, self@.jobs.len() as int),
    {
        self.count_with(JobStatus::Done)
    }

    /// Number of jobs.
    pub fn total_jobs(&self) -> (n: usize)
        ensures
            n == self@.jobs.len(),
    {
        self.jobs.len()
    }

    /// Moves the job at `from_index` to `to_index`, keeping the current job
    /// current. Out-of-range or equal indices change nothing.
    pub fn move_job(&mut self, from_index: usize, to_index: usize)
        requires
            well_formed(old(self)@),
        ensures
            well_formed(final(self)@),
            final(self)@ == job_moved(old(self)@, from_index, to_index),
            ({
                let before = old(self)@;
                let after = final(self)@;
                if from_index >= before.jobs.len() || to_index >= before.jobs.len() || from_index
                    == to_index {
                    after == before
                } else {
                    &&& after.jobs == before.jobs.remove(from_index as int).insert(
                        to_index as int,
                        before.jobs[from_index as int],
                    )
                    &&& after.current_job == if before.current_job == from_index {
                        to_index
                    } else if from_index < before.current_job && to_index >= before.current_job {
                        (before.current_job - 1) as usize
                    } else if from_index > before.current_job && to_index <= before.current_job {
                        (before.current_job + 1) as usize
                    } else {
                        before.current_job
                    }
                    &&& after == AppModel {
                        jobs: after.jobs,
                        current_job: after.current_job,
                        ..before
                    }
                }
            }),
    {
        if from_index >= self.jobs.len() || to_index >= self.jobs.len() || from_index == to_index {
            return;
        }
        let job = self.jobs.remove(from_index);
        self.jobs.insert(to_index, job);
        if self.current_job == from_index {
            self.current_job = to_index;
        } else if from_index < self.current_job && to_index >= self.current_job {
            self.current_job = self.current_job - 1;
        } else if from_index > self.current_job && to_index <= self.current_job {
            self.current_job = self.current_job + 1;
        }
    }

    /// The current job's running time as "00:MM:SS".
    pub fn elapsed_label(&self, now_ms: u64) -> (s: String)
        ensures
            s@ == duration_label(elapsed_at(self@, now_ms)),
    {
        format_duration(self.job_elapsed(now_ms))
    }

    /// The speed shown for the current job.
    pub fn speed_label(&self, now_ms: u64) -> (s: &'static str)
        ensures
            s@ == speed_label_at(self@, now_ms),
    {
        if self.is_complete {
            return "done";
        }
        if self.is_paused {
            return "paused";
        }
        let e = self.job_elapsed(now_ms);
        if e < 2500 {
            "1.2x"
        } else if e < 5000 {
            "1.6x"
        } else if e < 7500 {
            "1.8x"
        } else {
            "2.1x"
        }
    }

    /// Megabytes the current job saves (input size less target size, at least zero).
    pub fn saved_mb(&self) -> (mb: u64)
        requires
            well_formed(self@),
        ensures
            ({
                let job = self@.jobs[self@.current_job as int];
                mb == if job.input_size_mb >= job.target_output_mb {
                    (job.input_size_mb - job.target_output_mb) as u64
                } else {
                    0
                }
            }),
    {
        self.current_job().input_size_mb.saturating_sub(self.current_job().target_output_mb)
    }

    /// Pauses a running queue (keeping the time run so far) or resumes a paused
    /// one (restarting the clock at `now_ms`); a complete queue is unchanged.
    pub fn toggle_pause(&mut self, now_ms: u64)
        ensures
            ({
                let before = old(self)@;
                let after = final(self)@;
                if before.is_complete {
                    after == before
                } else if before.is_paused {
                    after == AppModel { is_paused: false, job_started_at_ms: now_ms, ..before }
                } else {
                    after == AppModel {
                        elapsed_before_pause_ms: elapsed_at(before, now_ms),
                        is_paused: true,
                        ..before
                    }
                }
            }),
    {
        if self.is_complete {
            return;
        }
        if self.is_paused {
            self.is_paused = false;
            self.job_started_at_ms = now_ms;
        } else {
            self.elapsed_before_pause_ms = self.job_elapsed(now_ms);
            self.is_paused = true;
        }
    }
}

// ── Laws ─────────────────────────────────────────────────────────────────────

/// Reordering keeps the same job current: the job that was current before the
/// move is the current job after it.
pub proof fn lemma_move_keeps_current_job(
    jobs: Seq<Job>,
    current: usize,
    from_index: usize,
    to_index: usize,
)
    requires
        current < jobs.len(),
        from_index < jobs.len(),
        to_index < jobs.len(),
        from_index != to_index,
    ensures
        ({
            let moved = jobs.remove(from_index as int).insert(
                to_index as int,
                jobs[from_index as int],
            );
            let next: int = if current == from_index {
                to_index as int
            } else if from_index < current && to_index >= current {
                current - 1
            } else if from_index > current && to_index <= current {
                current + 1
            } else {
                current as int
            };
            &&& moved.len() == jobs.len()
            &&& 0 <= next < moved.len()
            &&& moved[next] == jobs[current as int]
        }),
{
}

/// Every job before the current one is done.
pub proof fn lemma_earlier_jobs_done(m: AppModel, i: int)
    requires
        well_formed(m),
        0 <= i < m.current_job,
    ensures
        status_of(m, i) == JobStatus::Done,
{
}

/// A frame never undoes progress: the current job never moves back, and a
/// complete queue stays complete with the same current job.
pub proof fn lemma_tick_monotone(m: AppModel, now: u64)
    requires
        well_formed(m),
    ensures
        well_formed(ticked(m, now)),
        ticked(m, now).current_job >= m.current_job,
        m.is_complete ==> ticked(m, now).is_complete && ticked(m, now).current_job
            == m.current_job,
        ticked(m, now).jobs == m.jobs,
{
}

/// Number of jobs among the first `n` that come after the current one and
/// carry no failure.
pub open spec fn waiting_jobs(m: AppModel, n: int) -> nat
    decreases n,
{
    if n <= 0 {
        0
    } else {
        waiting_jobs(m, n - 1) + if n - 1 > m.current_job && m.jobs[n - 1].failure_reason is None {
            1nat
        } else {
            0nat
        }
    }
}

/// Every job has exactly one status: queued, running, done and failed jobs
/// together are all the jobs; exactly one job runs until the queue is
/// complete; and the queued jobs are those after the current one that carry
/// no failure.
pub proof fn lemma_statuses_partition(m: AppModel, n: int)
    requires
        0 <= n <= m.jobs.len(),
    ensures
        count_jobs(m, JobStatus::Queued, n) + count_jobs(m, JobStatus::Running, n) + count_jobs(
            m,
            JobStatus::Done,
            n,
        ) + count_jobs(m, JobStatus::Failed, n) == n,
        count_jobs(m, JobStatus::Running, n) == if n > m.current_job && !m.is_complete {
            1nat
        } else {
            0nat
        },
        count_jobs(m, JobStatus::Queued, n) == waiting_jobs(m, n),
    decreases n,
{
    if n > 0 {
        lemma_statuses_partition(m, n - 1);
    }
}

/// Moving a job and moving it back restores the queue, current job included.
pub proof fn lemma_move_back_restores(m: AppModel, a: usize, b: usize)
    requires
        well_formed(m),
        a < m.jobs.len(),
        b < m.jobs.len(),
    ensures
        job_moved(job_moved(m, a, b), b, a) == m,
{
    if a != b {
        let s = m.jobs;
        let s2 = s.remove(a as int).insert(b as int, s[a as int]);
        assert(s2[b as int] == s[a as int]);
        assert(s2.remove(b as int) =~= s.remove(a as int));
        assert(s.remove(a as int).insert(a as int, s[a as int]) =~= s);
        assert(job_moved(job_moved(m, a, b), b, a).jobs =~= s);
    }
}

/// The frames after clock readings `nows`, one `update` per reading.
pub open spec fn frames(m: AppModel, nows: Seq<u64>) -> AppModel
    decreases nows.len(),
{
    if nows.len() == 0 {
        m
    } else {
        ticked(frames(m, nows.drop_last()), nows.last())
    }
}

proof fn lemma_celebration_countdown(c: AppModel, nows: Seq<u64>)
    requires
        c.frame_tick + CELEBRATION_DURATION_TICKS <= u64::MAX,
        c.celebration_until_tick == Some((c.frame_tick + CELEBRATION_DURATION_TICKS) as u64),
    ensures
        nows.len() <= CELEBRATION_DURATION_TICKS ==> frames(c, nows).frame_tick == c.frame_tick
            + nows.len(),
        frames(c, nows).celebration_until_tick == if nows.len() < CELEBRATION_DURATION_TICKS {
            Some((c.frame_tick + CELEBRATION_DURATION_TICKS) as u64)
        } else {
            None
        },
    decreases nows.len(),
{
    if nows.len() > 0 {
        lemma_celebration_countdown(c, nows.drop_last());
    }
}

/// A celebration lasts exactly `CELEBRATION_DURATION_TICKS` frames: after it
/// is triggered, it is still on after fewer updates than that and off after
/// that many or more, whatever the clock reads.
pub proof fn lemma_celebration_lasts(m: AppModel, nows: Seq<u64>)
    requires
        m.frame_tick + CELEBRATION_DURATION_TICKS <= u64::MAX,
    ensures
        frames(
            AppModel {
                celebration_until_tick: Some((m.frame_tick + CELEBRATION_DURATION_TICKS) as u64),
                ..m
            },
            nows,
        ).celebration_until_tick.is_some() == (nows.len() < CELEBRATION_DURATION_TICKS),
{
    lemma_celebration_countdown(
        AppModel {
            celebration_until_tick: Some((m.frame_tick + CELEBRATION_DURATION_TICKS) as u64),
            ..m
        },
        nows,
    );
}

/// Dropping documents one by one never records the same path twice.
pub proof fn lemma_documents_stay_distinct(before: Seq<Seq<char>>, path: Seq<char>)
    requires
        documents_distinct(before),
        !(exists|i: int| 0 <= i < before.len() && same_path(#[trigger] before[i], path)),
    ensures
        documents_distinct(before.push(path)),
{
    assert forall|i: int, j: int| 0 <= i < j < before.push(path).len() implies !same_path(
        before.push(path)[i],
        before.push(path)[j],
    ) by {
        if j == before.len() {
            assert(before.push(path)[i] == before[i]);
        }
    }
}


/// A frame that moves the queue on starts the next job afresh: at that clock
/// reading it has run no time at all (no time banked before a pause carries
/// over), and it does not move on again until it has run a whole
/// `JOB_DURATION_MS`.
pub proof fn lemma_next_job_starts_fresh(m: AppModel, now: u64, later: u64)
    requires
        well_formed(m),
        ticked(m, now).current_job != m.current_job,
        now <= later,
        later - now < JOB_DURATION_MS,
    ensures
        elapsed_at(ticked(m, now), now) == 0,
        elapsed_at(ticked(m, now), later) == later - now,
        ticked(ticked(m, now), later).current_job == ticked(m, now).current_job,
{
}

} // verus!
