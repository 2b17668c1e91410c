//! The cleaning report: per-process records, aggregate totals and the
//! terminal outcome of one run.
use vstd::prelude::*;

verus! {

/// Mathematical model of one per-process record.
#[verifier::ext_equal]
pub ghost struct RecordModel {
    pub pid: u32,
    pub name: Seq<char>,
    pub resident_before: u64,
    pub resident_after: u64,
}

impl RecordModel {
    /// Bytes given back by the process, clamped at zero: a process may
    /// grow between the two measurements.
    pub open spec fn freed(self) -> u64 {
        if self.resident_before > self.resident_after {
            (self.resident_before - self.resident_after) as u64
        } else {
            0
        }
    }
}

/// One process that gave memory back: its identifier, its display name,
/// and the resident sizes measured before and after the trim.
#[derive(Clone, Debug)]
pub struct ProcessRecord {
    pub pid: u32,
    pub name: String,
    pub resident_before: u64,
    pub resident_after: u64,
}

impl View for ProcessRecord {
    type V = RecordModel;

    open spec fn view(&self) -> RecordModel {
        RecordModel {
            pid: self.pid,
            name: self.name@,
            resident_before: self.resident_before,
            resident_after: self.resident_after,
        }
    }
}

impl ProcessRecord {
    /// Bytes given back by the process, clamped at zero.
    pub fn freed(&self) -> (f: u64)
        ensures
            f == self@.freed(),
    {
        if self.resident_before > self.resident_after {
            self.resident_before - self.resident_after
        } else {
            0
        }
    }
}

/// Model of the terminal state of one run.
pub ghost enum OutcomeModel {
    /// The run has not finished.
    Pending,
    /// The run went over every enumerated process.
    Completed,
    /// Enumeration itself failed; the message says how.
    Failed(Seq<char>),
}

/// Terminal state of one run: still pending, completed, or failed with a
/// message. Only enumeration failure makes a run fail; per-process
/// trouble is absorbed silently.
#[derive(Clone, Debug)]
pub enum RunOutcome {
    Pending,
    Completed,
    Failed(String),
}

impl View for RunOutcome {
    type V = OutcomeModel;

    open spec fn view(&self) -> OutcomeModel {
        match self {
            RunOutcome::Pending => OutcomeModel::Pending,
            RunOutcome::Completed => OutcomeModel::Completed,
            RunOutcome::Failed(m) => OutcomeModel::Failed(m@),
        }
    }
}

/// Mathematical model of a cleaning report.
#[verifier::ext_equal]
pub ghost struct ReportModel {
    pub processes: Seq<RecordModel>,
    pub cleaned_count: usize,
    pub total_before: u64,
    pub total_after: u64,
    pub global_trim_succeeded: bool,
    pub started_at: i64,
    pub finished_at: Option<i64>,
    pub outcome: OutcomeModel,
}

impl ReportModel {
    /// The empty report a run starts from.
    pub open spec fn begun(started_at: i64) -> ReportModel {
        ReportModel {
            processes: Seq::empty(),
            cleaned_count: 0,
            total_before: 0,
            total_after: 0,
            global_trim_succeeded: false,
            started_at: started_at,
            finished_at: None,
            outcome: OutcomeModel::Pending,
        }
    }

    /// Aggregate bytes given back, clamped at zero: the totals are taken
    /// over all attempted processes, so the difference may come out
    /// negative when processes grew during the run.
    pub open spec fn total_freed(self) -> u64 {
        if self.total_before > self.total_after {
            (self.total_before - self.total_after) as u64
        } else {
            0
        }
    }

    /// Well-formedness: the record list holds exactly the processes that
    /// gave memory back, `cleaned_count` counts them, and the reserved
    /// null identifier never appears.
    pub open spec fn wf(self) -> bool {
        &&& self.cleaned_count == self.processes.len()
        &&& forall|i: int|
            0 <= i < self.processes.len() ==> (#[trigger] self.processes[i]).freed() > 0
                && self.processes[i].pid != 0
    }
}

/// The report of one cleaning run, handed to the caller by value once the
/// run is over and immutable from then on.
#[derive(Clone, Debug)]
pub struct CleaningReport {
    /// Records of the processes that gave memory back, in enumeration
    /// order; only processes with `freed > 0` appear.
    pub processes: Vec<ProcessRecord>,
    /// How many records `processes` holds.
    pub cleaned_count: usize,
    /// Sum of the resident sizes measured before trimming, over every
    /// attempted process.
    pub total_before: u64,
    /// Sum of the resident sizes measured after a successful trim.
    pub total_after: u64,
    /// Whether the caller's own working set was trimmed successfully.
    pub global_trim_succeeded: bool,
    /// Wall-clock start of the run, in milliseconds since the Unix epoch.
    pub started_at: i64,
    /// Wall-clock end of the run, once it has one.
    pub finished_at: Option<i64>,
    /// Terminal outcome of the run.
    pub outcome: RunOutcome,
}

impl View for CleaningReport {
    type V = ReportModel;

    open spec fn view(&self) -> ReportModel {
        ReportModel {
            processes: self.processes@.map_values(|p: ProcessRecord| p@),
            cleaned_count: self.cleaned_count,
            total_before: self.total_before,
            total_after: self.total_after,
            global_trim_succeeded: self.global_trim_succeeded,
            started_at: self.started_at,
            finished_at: self.finished_at@,
            outcome: self.outcome@,
        }
    }
}

impl CleaningReport {
    /// The empty report a run starts from.
    pub fn begin(started_at: i64) -> (r: CleaningReport)
        ensures
            r@ == ReportModel::begun(started_at),
    {
        let r = CleaningReport {
            processes: Vec::new(),
            cleaned_count: 0,
            total_before: 0,
            total_after: 0,
            global_trim_succeeded: false,
            started_at: started_at,
            finished_at: None,
            outcome: RunOutcome::Pending,
        };
        proof {
            assert(r@.processes =~= Seq::<RecordModel>::empty());
            assert(r@ =~= ReportModel::begun(started_at));
        }
        r
    }

    /// Aggregate bytes given back, clamped at zero.
    pub fn total_freed(&self) -> (f: u64)
        ensures
            f == self@.total_freed(),
    {
        if self.total_before > self.total_after {
            self.total_before - self.total_after
        } else {
            0
        }
    }

    /// Records the outcome of trimming the caller's own working set.
    pub fn set_global_trim(&mut self, ok: bool)
        ensures
            final(self)@ == (ReportModel { global_trim_succeeded: ok, ..old(self)@ }),
    {
        self.global_trim_succeeded = ok;
    }

    /// Ends the run in failure: enumeration itself failed, so the report
    /// carries the message and nothing else was attempted.
    pub fn fail(&mut self, message: String, finished_at: i64)
        ensures
            final(self)@ == (ReportModel {
                finished_at: Some(finished_at),
                outcome: OutcomeModel::Failed(message@),
                ..old(self)@
            }),
    {
        self.finished_at = Some(finished_at);
        self.outcome = RunOutcome::Failed(message);
    }

    /// Ends the run after the whole per-process pass.
    pub fn complete(&mut self, finished_at: i64)
        ensures
            final(self)@ == (ReportModel {
                finished_at: Some(finished_at),
                outcome: OutcomeModel::Completed,
                ..old(self)@
            }),
    {
        self.finished_at = Some(finished_at);
        self.outcome = RunOutcome::Completed;
    }
}

} // verus!
