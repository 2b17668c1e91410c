//! The cleaning orchestrator: one run folds the enumeration outcome, the
//! global self-trim outcome and every per-process observation into a
//! single immutable report.
use vstd::prelude::*;

use crate::report::CleaningReport;
use crate::report::OutcomeModel;
use crate::report::ReportModel;
use crate::trim::ObservationModel;
use crate::trim::ProcessObservation;
use crate::trim::lemma_absorb_wf;
use crate::trim::spec_absorb;

verus! {

/// Folds a whole observation sequence into a report, first to last.
pub open spec fn spec_absorb_all(r: ReportModel, obs: Seq<ObservationModel>) -> ReportModel
    decreases obs.len(),
{
    if obs.len() == 0 {
        r
    } else {
        spec_absorb(spec_absorb_all(r, obs.drop_last()), obs.last())
    }
}

/// The model of an enumeration outcome: either every enumerated process
/// with its trim observation, in enumeration order, or the message of a
/// failed enumeration.
pub open spec fn spec_enumeration(
    e: Result<Vec<ProcessObservation>, String>,
) -> Result<Seq<ObservationModel>, Seq<char>> {
    match e {
        Ok(v) => Ok(v@.map_values(|o: ProcessObservation| o@)),
        Err(m) => Err(m@),
    }
}

/// The report of one whole run.
///
/// A failed enumeration is fatal: the report carries the message and no
/// per-process work is reflected. Otherwise the report starts empty,
/// records the global self-trim, absorbs every observation in
/// enumeration order, and completes.
pub open spec fn spec_run(
    started_at: i64,
    enumeration: Result<Seq<ObservationModel>, Seq<char>>,
    global_trim_succeeded: bool,
    finished_at: i64,
) -> ReportModel {
    match enumeration {
        Err(message) => ReportModel {
            finished_at: Some(finished_at),
            outcome: OutcomeModel::Failed(message),
            ..ReportModel::begun(started_at)
        },
        Ok(obs) => {
            let base = ReportModel {
                global_trim_succeeded: global_trim_succeeded,
                ..ReportModel::begun(started_at)
            };
            ReportModel {
                finished_at: Some(finished_at),
                outcome: OutcomeModel::Completed,
                ..spec_absorb_all(base, obs)
            }
        },
    }
}

/// Absorbing a sequence of observations keeps the report well-formed and
/// grows the record list by at most one record per observation.
pub proof fn lemma_absorb_all_wf(r: ReportModel, obs: Seq<ObservationModel>)
    requires
        r.wf(),
        r.processes.len() + obs.len() <= usize::MAX,
    ensures
        spec_absorb_all(r, obs).wf(),
        spec_absorb_all(r, obs).processes.len() <= r.processes.len() + obs.len(),
    decreases obs.len(),
{
    if obs.len() > 0 {
        lemma_absorb_all_wf(r, obs.drop_last());
        lemma_absorb_wf(spec_absorb_all(r, obs.drop_last()), obs.last());
    }
}

/// Every run's report is well-formed: the record list holds only
/// processes that gave memory back, `cleaned_count` is its length, and
/// the reserved null identifier appears in no record.
pub proof fn lemma_run_wf(
    started_at: i64,
    enumeration: Result<Seq<ObservationModel>, Seq<char>>,
    global_trim_succeeded: bool,
    finished_at: i64,
)
    requires
        enumeration matches Ok(obs) ==> obs.len() <= usize::MAX,
    ensures
        spec_run(started_at, enumeration, global_trim_succeeded, finished_at).wf(),
{
    match enumeration {
        Err(message) => {},
        Ok(obs) => {
            let base = ReportModel {
                global_trim_succeeded: global_trim_succeeded,
                ..ReportModel::begun(started_at)
            };
            lemma_absorb_all_wf(base, obs);
        },
    }
}

/// A failed enumeration yields exactly the failed report: the message,
/// the timestamps, no records, zero counts and totals, and nothing
/// freed.
pub proof fn lemma_failed_run_is_empty(
    started_at: i64,
    message: Seq<char>,
    global_trim_succeeded: bool,
    finished_at: i64,
)
    ensures
        ({
            let r = spec_run(started_at, Err(message), global_trim_succeeded, finished_at);
            &&& r.outcome == OutcomeModel::Failed(message)
            &&& r.processes.len() == 0
            &&& r.cleaned_count == 0
            &&& r.total_before == 0
            &&& r.total_after == 0
            &&& r.total_freed() == 0
        }),
{
}

/// A run whose enumeration succeeded always completes, whatever the
/// per-process observations were: per-process trouble never surfaces.
pub proof fn lemma_enumerated_run_completes(
    started_at: i64,
    obs: Seq<ObservationModel>,
    global_trim_succeeded: bool,
    finished_at: i64,
)
    ensures
        spec_run(started_at, Ok(obs), global_trim_succeeded, finished_at).outcome
            == OutcomeModel::Completed,
{
}

/// Whatever observations a run absorbed, its aggregate freed amount is
/// the difference of the two totals clamped at zero — never negative,
/// also where the attempted processes grew during the run.
pub proof fn lemma_run_total_freed_clamped(
    started_at: i64,
    enumeration: Result<Seq<ObservationModel>, Seq<char>>,
    global_trim_succeeded: bool,
    finished_at: i64,
)
    ensures
        ({
            let r = spec_run(started_at, enumeration, global_trim_succeeded, finished_at);
            r.total_freed() == if r.total_before > r.total_after {
                (r.total_before - r.total_after) as u64
            } else {
                0
            }
        }),
{
}

/// Builds the report of one run from its start time, the enumeration
/// outcome with the per-process observations, the outcome of the global
/// self-trim, and its finish time.
pub fn build_report(
    started_at: i64,
    enumeration: Result<Vec<ProcessObservation>, String>,
    global_trim_succeeded: bool,
    finished_at: i64,
) -> (r: CleaningReport)
    ensures
        r@ == spec_run(started_at, spec_enumeration(enumeration), global_trim_succeeded,
            finished_at),
        r@.wf(),
{
    let mut report = CleaningReport::begin(started_at);
    match enumeration {
        Err(message) => {
            report.fail(message, finished_at);
            proof {
                assert(report@ =~= spec_run(started_at, spec_enumeration(enumeration),
                    global_trim_succeeded, finished_at));
            }
            report
        },
        Ok(observations) => {
            report.set_global_trim(global_trim_succeeded);
            let ghost base = report@;
            let ghost models = observations@.map_values(|o: ProcessObservation| o@);
            let mut i: usize = 0;
            while i < observations.len()
                invariant
                    i <= observations.len(),
                    models == observations@.map_values(|o: ProcessObservation| o@),
                    report@ == spec_absorb_all(base, models.take(i as int)),
                    report@.wf(),
                decreases observations.len() - i,
            {
                report.absorb(&observations[i]);
                proof {
                    assert(models.take(i + 1).drop_last() =~= models.take(i as int));
                    assert(models.take(i + 1).last() == models[i as int]);
                }
                i = i + 1;
            }
            proof {
                assert(models.take(observations@.len() as int) =~= models);
            }
            report.complete(finished_at);
            proof {
                assert(report@ =~= spec_run(started_at, spec_enumeration(enumeration),
                    global_trim_succeeded, finished_at));
            }
            report
        },
    }
}

/// Relies on chrono's `Local::now` for one wall-clock reading, handed on
/// as milliseconds since the Unix epoch. Nothing is promised of the
/// value: the clock is the host's.
#[verifier::external_body]
fn clock_now_millis() -> i64 {
    chrono::Local::now().timestamp_millis()
}

/// Starts a run: the empty report, stamped with the current wall-clock
/// time. The caller enumerates and trims, then hands the outcome to
/// [`finish_run`].
pub fn begin_report_now() -> (r: CleaningReport)
    ensures
        r@ == ReportModel::begun(r@.started_at),
{
    let now = clock_now_millis();
    CleaningReport::begin(now)
}

/// Ends a run begun at `report.started_at`: rebuilds the report from the
/// enumeration outcome and the global self-trim outcome, stamped with
/// the current wall-clock time as its finish.
pub fn finish_run(
    report: &mut CleaningReport,
    enumeration: Result<Vec<ProcessObservation>, String>,
    global_trim_succeeded: bool,
)
    ensures
        final(report)@.finished_at is Some,
        final(report)@ == spec_run(old(report)@.started_at, spec_enumeration(enumeration),
            global_trim_succeeded, final(report)@.finished_at.unwrap()),
        final(report)@.wf(),
{
    let finished = clock_now_millis();
    let started = report.started_at;
    *report = build_report(started, enumeration, global_trim_succeeded, finished);
}

} // verus!
