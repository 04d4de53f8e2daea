//! The outcome of the delivery rules: one check per rule, and the profile
//! that the rules are judged against.
use vstd::prelude::*;

verus! {

/// Severity of one check.
#[derive(Clone, Copy, Debug, PartialEq, Eq, Structural)]
pub enum DiagnosticStatus {
    Pass,
    Warn,
    Fail,
}

/// One rule's verdict on a report.
#[derive(Clone, Debug, PartialEq)]
pub struct DiagnosticCheck {
    pub label: String,
    pub status: DiagnosticStatus,
    pub detail: String,
}

/// A check as plain text and status.
pub struct CheckModel {
    pub label: Seq<char>,
    pub status: DiagnosticStatus,
    pub detail: Seq<char>,
}

impl View for DiagnosticCheck {
    type V = CheckModel;

    open spec fn view(&self) -> CheckModel {
        CheckModel { label: self.label@, status: self.status, detail: self.detail@ }
    }
}

/// A check that passes.
pub open spec fn passed(label: Seq<char>, detail: Seq<char>) -> CheckModel {
    CheckModel { label, status: DiagnosticStatus::Pass, detail }
}

/// A check that warns.
pub open spec fn warned(label: Seq<char>, detail: Seq<char>) -> CheckModel {
    CheckModel { label, status: DiagnosticStatus::Warn, detail }
}

/// A check that fails.
pub open spec fn failed(label: Seq<char>, detail: Seq<char>) -> CheckModel {
    CheckModel { label, status: DiagnosticStatus::Fail, detail }
}

/// All checks of one run, in the order the rules ran.
#[derive(Clone, Debug, PartialEq, Default)]
pub struct DiagnosticReport {
    pub checks: Vec<DiagnosticCheck>,
}

impl View for DiagnosticReport {
    type V = Seq<CheckModel>;

    open spec fn view(&self) -> Seq<CheckModel> {
        self.checks@.map_values(|c: DiagnosticCheck| c@)
    }
}

/// Number of checks in `s` with status `st`.
pub open spec fn count_status(s: Seq<CheckModel>, st: DiagnosticStatus) -> nat
    decreases s.len(),
{
    if s.len() == 0 {
        0
    } else {
        count_status(s.drop_last(), st) + if s.last().status == st {
            1nat
        } else {
            0nat
        }
    }
}

impl DiagnosticReport {
    fn count(&self, st: DiagnosticStatus) -> (n: usize)
        ensures
            n == count_status(self@, st),
    {
        let mut n: usize = 0;
        let mut i: usize = 0;
        while i < self.checks.len()
            invariant
                i <= self.checks@.len(),
                n <= i,
                n == count_status(self@.take(i as int), st),
            decreases self.checks@.len() - i,
        {
            proof {
                assert(self@.take(i + 1).drop_last() =~= self@.take(i as int));
            }
            if self.checks[i].status == st {
                n = n + 1;
            }
            i = i + 1;
        }
        assert(self@.take(self.checks@.len() as int) =~= self@);
        n
    }

    /// Number of checks that pass.
    pub fn pass_count(&self) -> (n: usize)
        ensures
            n == count_status(self@, DiagnosticStatus::Pass),
    {
        self.count(DiagnosticStatus::Pass)
    }

    /// Number of checks that warn.
    pub fn warn_count(&self) -> (n: usize)
        ensures
            n == count_status(self@, DiagnosticStatus::Warn),
    {
        self.count(DiagnosticStatus::Warn)
    }

    /// Number of checks that fail.
    pub fn fail_count(&self) -> (n: usize)
        ensures
            n == count_status(self@, DiagnosticStatus::Fail),
    {
        self.count(DiagnosticStatus::Fail)
    }
}

/// Every check has exactly one status: the three counts add up to the number
/// of checks.
pub proof fn lemma_counts_partition(s: Seq<CheckModel>)
    ensures
        count_status(s, DiagnosticStatus::Pass) + count_status(s, DiagnosticStatus::Warn)
            + count_status(s, DiagnosticStatus::Fail) == s.len(),
    decreases s.len(),
{
    if s.len() > 0 {
        lemma_counts_partition(s.drop_last());
    }
}

/// Counting over a concatenation adds the counts of the parts.
pub proof fn lemma_count_concat(a: Seq<CheckModel>, b: Seq<CheckModel>, st: DiagnosticStatus)
    ensures
        count_status(a + b, st) == count_status(a, st) + count_status(b, st),
    decreases b.len(),
{
    if b.len() == 0 {
        assert(a + b =~= a);
    } else {
        lemma_count_concat(a, b.drop_last(), st);
        assert((a + b).drop_last() =~= a + b.drop_last());
    }
}

/// Delivery target. The severity of the rules depends on it.
#[derive(Clone, Copy, Debug, PartialEq, Eq, Structural, Default)]
pub enum PlatformProfile {
    /// Web / streaming: H.264, AAC stereo, mp4 container
    #[default]
    Web,
    /// Broadcast / TV: mono tracks, PCM 16-bit, 48 kHz, mov/mxf
    Broadcast,
    /// Mobile: H.264 Baseline/Main, AAC, at most 1080p, no 10-bit
    Mobile,
}

impl PlatformProfile {
    /// Display name of the profile.
    pub fn label(&self) -> (s: &'static str)
        ensures
            s@ == match *self {
                PlatformProfile::Web => "Web"@,
                PlatformProfile::Broadcast => "Broadcast"@,
                PlatformProfile::Mobile => "Mobile"@,
            },
    {
        match self {
            PlatformProfile::Web => "Web",
            PlatformProfile::Broadcast => "Broadcast",
            PlatformProfile::Mobile => "Mobile",
        }
    }
}

} // verus!
