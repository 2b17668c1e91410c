//! The working-set trimmer's accounting: how one process's trim
//! observation folds into the report.
//!
//! The operating-system side of the trim step — opening the handle,
//! reading the resident size, issuing the working-set-empty request —
//! happens outside the library and is handed in as a [`ProcessObservation`]
//! of plain values; everything the report says about it is decided and
//! proved here.
use vstd::prelude::*;

use crate::report::CleaningReport;
use crate::report::ProcessRecord;
use crate::report::RecordModel;
use crate::report::ReportModel;
use crate::text::pid_label;
use crate::text::spec_pid_label;

verus! {

/// Model of what the trim step saw for one process.
#[verifier::ext_equal]
pub ghost enum TrimOutcomeModel {
    HandleDenied,
    TrimFailed { name: Option<Seq<char>>, resident_before: u64 },
    Trimmed { name: Option<Seq<char>>, resident_before: u64, resident_after: u64 },
}

/// What the trim step saw for one process, as plain values.
///
/// A resident-size reading of `0` stands for "unknown": the host query
/// for it failed, which the trim step absorbs rather than propagates.
#[derive(Clone, Debug)]
pub enum TrimOutcome {
    /// No handle could be acquired (access denied, or the process exited
    /// after enumeration); the process is skipped entirely.
    HandleDenied,
    /// A handle was acquired and the resident size read, but the
    /// working-set-empty request itself failed.
    TrimFailed { name: Option<String>, resident_before: u64 },
    /// The working-set-empty request went through and the resident size
    /// was read a second time.
    Trimmed { name: Option<String>, resident_before: u64, resident_after: u64 },
}

impl View for TrimOutcome {
    type V = TrimOutcomeModel;

    open spec fn view(&self) -> TrimOutcomeModel {
        match self {
            TrimOutcome::HandleDenied => TrimOutcomeModel::HandleDenied,
            TrimOutcome::TrimFailed { name, resident_before } => TrimOutcomeModel::TrimFailed {
                name: spec_name_view(*name),
                resident_before: *resident_before,
            },
            TrimOutcome::Trimmed { name, resident_before, resident_after } => TrimOutcomeModel::Trimmed {
                name: spec_name_view(*name),
                resident_before: *resident_before,
                resident_after: *resident_after,
            },
        }
    }
}

/// Model of one enumerated process together with its trim observation.
#[verifier::ext_equal]
pub ghost struct ObservationModel {
    pub pid: u32,
    pub outcome: TrimOutcomeModel,
}

/// One enumerated process identifier together with what the trim step
/// saw for it.
#[derive(Clone, Debug)]
pub struct ProcessObservation {
    pub pid: u32,
    pub outcome: TrimOutcome,
}

impl View for ProcessObservation {
    type V = ObservationModel;

    open spec fn view(&self) -> ObservationModel {
        ObservationModel { pid: self.pid, outcome: self.outcome@ }
    }
}

/// The number of identifiers one enumeration actually produced: the
/// byte count the host reports as written, divided by the identifier's
/// four-byte storage width, capped at the scratch buffer's capacity.
/// An overfull buffer is accepted as a truncated listing for this
/// cycle, not retried and not an error.
pub fn enumerated_count(bytes_written: u32, capacity: usize) -> (n: usize)
    ensures
        n == if bytes_written / 4 <= capacity {
            (bytes_written / 4) as usize
        } else {
            capacity
        },
{
    let reported = (bytes_written / 4) as usize;
    if reported <= capacity {
        reported
    } else {
        capacity
    }
}

/// Whether the trim step may be attempted on an identifier at all: the
/// reserved null identifier is never looked up.
pub fn should_attempt(pid: u32) -> (b: bool)
    ensures
        b == (pid != 0),
{
    pid != 0
}

/// The view of a resolved-name result.
pub open spec fn spec_name_view(name: Option<String>) -> Option<Seq<char>> {
    match name {
        Some(n) => Some(n@),
        None => None,
    }
}

/// The display name a record carries: the resolved name where there is
/// one, the fallback label otherwise.
pub open spec fn spec_display_name(pid: u32, name: Option<Seq<char>>) -> Seq<char> {
    match name {
        Some(n) => n,
        None => spec_pid_label(pid),
    }
}

fn display_name(pid: u32, name: &Option<String>) -> (s: String)
    ensures
        s@ == spec_display_name(pid, spec_name_view(*name)),
{
    match name {
        Some(n) => n.clone(),
        None => pid_label(pid),
    }
}

/// Addition of byte counts, saturating at the top of the type so the
/// aggregates stay total.
pub open spec fn spec_sat_add(a: u64, b: u64) -> u64 {
    if a + b > u64::MAX {
        u64::MAX
    } else {
        (a + b) as u64
    }
}

fn sat_add(a: u64, b: u64) -> (c: u64)
    ensures
        c == spec_sat_add(a, b),
{
    if a > u64::MAX - b {
        u64::MAX
    } else {
        a + b
    }
}

/// How one observation folds into a report.
///
/// The reserved identifier `0` and a denied handle leave the report
/// unchanged. A failed trim request contributes the before-reading to
/// `total_before` and nothing else. A successful trim contributes both
/// readings to the totals and appends a record exactly when the process
/// gave memory back — the freed amount is clamped at zero only where it
/// is used, never by filtering the readings themselves.
pub open spec fn spec_absorb(r: ReportModel, o: ObservationModel) -> ReportModel {
    if o.pid == 0 {
        r
    } else {
        match o.outcome {
            TrimOutcomeModel::HandleDenied => r,
            TrimOutcomeModel::TrimFailed { name: _, resident_before } => ReportModel {
                total_before: spec_sat_add(r.total_before, resident_before),
                ..r
            },
            TrimOutcomeModel::Trimmed { name, resident_before, resident_after } => {
                let with_totals = ReportModel {
                    total_before: spec_sat_add(r.total_before, resident_before),
                    total_after: spec_sat_add(r.total_after, resident_after),
                    ..r
                };
                let rec = RecordModel {
                    pid: o.pid,
                    name: spec_display_name(o.pid, name),
                    resident_before: resident_before,
                    resident_after: resident_after,
                };
                if rec.freed() > 0 {
                    ReportModel {
                        processes: with_totals.processes.push(rec),
                        cleaned_count: (with_totals.cleaned_count + 1) as usize,
                        ..with_totals
                    }
                } else {
                    with_totals
                }
            },
        }
    }
}

/// A process whose handle could not be acquired leaves the report
/// exactly as it was: no record, no totals, no error.
pub proof fn lemma_handle_denied_changes_nothing(r: ReportModel, pid: u32)
    ensures
        spec_absorb(r, ObservationModel { pid: pid, outcome: TrimOutcomeModel::HandleDenied })
            == r,
{
}

/// An observation of the reserved null identifier leaves the report
/// exactly as it was, whatever the observation claims.
pub proof fn lemma_null_identifier_changes_nothing(r: ReportModel, outcome: TrimOutcomeModel)
    ensures
        spec_absorb(r, ObservationModel { pid: 0, outcome: outcome }) == r,
{
}

/// Absorbing an observation preserves the report's well-formedness: a
/// record is appended only with `freed > 0` and a non-null identifier,
/// and the count follows the list.
pub proof fn lemma_absorb_wf(r: ReportModel, o: ObservationModel)
    requires
        r.wf(),
        r.processes.len() < usize::MAX,
    ensures
        spec_absorb(r, o).wf(),
{
    let r2 = spec_absorb(r, o);
    assert forall|i: int| 0 <= i < r2.processes.len() implies (#[trigger] r2.processes[i]).freed()
        > 0 && r2.processes[i].pid != 0 by {
        if i < r.processes.len() {
            assert(r.processes[i].freed() > 0 && r.processes[i].pid != 0);
        }
    }
}

impl CleaningReport {
    /// Folds one process's trim observation into the report: the
    /// working-set trimmer's accounting.
    pub fn absorb(&mut self, obs: &ProcessObservation)
        requires
            old(self)@.wf(),
        ensures
            final(self)@ == spec_absorb(old(self)@, obs@),
            final(self)@.wf(),
    {
        let ghost pre = self@;
        if obs.pid != 0 {
            match &obs.outcome {
                TrimOutcome::HandleDenied => {},
                TrimOutcome::TrimFailed { name: _, resident_before } => {
                    self.total_before = sat_add(self.total_before, *resident_before);
                },
                TrimOutcome::Trimmed { name, resident_before, resident_after } => {
                    self.total_before = sat_add(self.total_before, *resident_before);
                    self.total_after = sat_add(self.total_after, *resident_after);
                    if *resident_before > *resident_after {
                        let rec = ProcessRecord {
                            pid: obs.pid,
                            name: display_name(obs.pid, name),
                            resident_before: *resident_before,
                            resident_after: *resident_after,
                        };
                        self.processes.push(rec);
                        self.cleaned_count = self.processes.len();
                        proof {
                            assert(pre.processes.len() < usize::MAX);
                            assert(self@.processes =~= spec_absorb(pre, obs@).processes);
                            lemma_absorb_wf(pre, obs@);
                        }
                    }
                },
            }
        }
        proof {
            assert(self@ =~= spec_absorb(pre, obs@));
        }
    }
}

} // verus!
