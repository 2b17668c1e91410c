use ramclean::guard::RunGuard;
use ramclean::report::RunOutcome;
use ramclean::run::begin_report_now;
use ramclean::run::finish_run;
use ramclean::snapshot::SystemSnapshot;
use ramclean::trim::ProcessObservation;
use ramclean::trim::TrimOutcome;

#[test]
fn a_second_start_request_is_a_no_op() {
    let mut guard = RunGuard::new();
    assert!(guard.try_begin());
    // The first run is still outstanding: the second request is denied.
    assert!(!guard.try_begin());
    assert!(!guard.try_begin());
    guard.finish();
    assert!(guard.try_begin());
}

#[test]
fn a_clock_stamped_run_completes() {
    let mut report = begin_report_now();
    assert!(matches!(report.outcome, RunOutcome::Pending));
    assert!(report.finished_at.is_none());
    let observations = vec![ProcessObservation {
        pid: 12,
        outcome: TrimOutcome::Trimmed {
            name: Some("svc.exe".to_string()),
            resident_before: 8192,
            resident_after: 1024,
        },
    }];
    finish_run(&mut report, Ok(observations), true);
    assert!(matches!(report.outcome, RunOutcome::Completed));
    assert!(report.finished_at.is_some());
    assert_eq!(report.cleaned_count, 1);
    assert_eq!(report.total_freed(), 7168);
    assert!(report.global_trim_succeeded);
}

#[test]
fn a_clock_stamped_run_can_fail() {
    let mut report = begin_report_now();
    finish_run(&mut report, Err("no process list".to_string()), false);
    match &report.outcome {
        RunOutcome::Failed(message) => assert_eq!(message, "no process list"),
        _ => panic!("the report should have failed"),
    }
    assert!(report.finished_at.is_some());
    assert!(report.processes.is_empty());
}

#[test]
fn the_fallback_snapshot_is_marked_unavailable() {
    let snapshot = SystemSnapshot::unavailable();
    assert_eq!(snapshot.total_physical, 0);
    assert_eq!(snapshot.available_physical, 0);
    assert!(snapshot.is_unavailable());
    let reading = SystemSnapshot { total_physical: 16 << 30, available_physical: 4 << 30 };
    assert!(!reading.is_unavailable());
}
