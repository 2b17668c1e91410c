use ramclean::report::CleaningReport;
use ramclean::report::ProcessRecord;
use ramclean::report::RunOutcome;
use ramclean::run::build_report;
use ramclean::trim::ProcessObservation;
use ramclean::trim::enumerated_count;
use ramclean::trim::TrimOutcome;
use ramclean::trim::should_attempt;

fn trimmed(pid: u32, name: Option<&str>, before: u64, after: u64) -> ProcessObservation {
    ProcessObservation {
        pid,
        outcome: TrimOutcome::Trimmed {
            name: name.map(|n| n.to_string()),
            resident_before: before,
            resident_after: after,
        },
    }
}

fn denied(pid: u32) -> ProcessObservation {
    ProcessObservation { pid, outcome: TrimOutcome::HandleDenied }
}

#[test]
fn one_record_one_denial() {
    // Enumeration returned the null identifier, a cooperative process
    // and one that refuses a handle.
    let observations = vec![
        denied(0),
        trimmed(100, Some("worker.exe"), 500000, 300000),
        denied(200),
    ];
    let report = build_report(10, Ok(observations), true, 20);
    assert_eq!(report.total_before, 500000);
    assert_eq!(report.total_after, 300000);
    assert_eq!(report.total_freed(), 200000);
    assert_eq!(report.cleaned_count, 1);
    assert_eq!(report.processes.len(), 1);
    assert_eq!(report.processes[0].pid, 100);
    assert_eq!(report.processes[0].name, "worker.exe");
    assert_eq!(report.processes[0].resident_before, 500000);
    assert_eq!(report.processes[0].resident_after, 300000);
    assert_eq!(report.processes[0].freed(), 200000);
    assert!(report.global_trim_succeeded);
    assert_eq!(report.started_at, 10);
    assert_eq!(report.finished_at, Some(20));
    assert!(matches!(report.outcome, RunOutcome::Completed));
}

#[test]
fn failed_enumeration_is_fatal() {
    let report = build_report(5, Err("process enumeration failed".to_string()), false, 6);
    match &report.outcome {
        RunOutcome::Failed(message) => assert_eq!(message, "process enumeration failed"),
        _ => panic!("the report should have failed"),
    }
    assert!(report.processes.is_empty());
    assert_eq!(report.cleaned_count, 0);
    assert_eq!(report.total_before, 0);
    assert_eq!(report.total_after, 0);
    assert_eq!(report.total_freed(), 0);
    assert_eq!(report.started_at, 5);
    assert_eq!(report.finished_at, Some(6));
}

#[test]
fn denied_handles_never_surface() {
    let report = build_report(0, Ok(vec![denied(4), denied(8), denied(15)]), false, 1);
    assert!(matches!(report.outcome, RunOutcome::Completed));
    assert!(report.processes.is_empty());
    assert_eq!(report.cleaned_count, 0);
    assert_eq!(report.total_before, 0);
    assert_eq!(report.total_after, 0);
}

#[test]
fn failed_trim_counts_the_before_reading_only() {
    let observations = vec![ProcessObservation {
        pid: 42,
        outcome: TrimOutcome::TrimFailed { name: None, resident_before: 1000 },
    }];
    let report = build_report(0, Ok(observations), false, 1);
    assert!(matches!(report.outcome, RunOutcome::Completed));
    assert!(report.processes.is_empty());
    assert_eq!(report.cleaned_count, 0);
    assert_eq!(report.total_before, 1000);
    assert_eq!(report.total_after, 0);
    assert_eq!(report.total_freed(), 1000);
}

#[test]
fn a_grown_process_gets_no_record_but_full_totals() {
    let report = build_report(0, Ok(vec![trimmed(9, Some("grower.exe"), 100, 300)]), false, 1);
    assert!(report.processes.is_empty());
    assert_eq!(report.cleaned_count, 0);
    assert_eq!(report.total_before, 100);
    assert_eq!(report.total_after, 300);
    assert_eq!(report.total_freed(), 0);
}

#[test]
fn an_unchanged_process_gets_no_record() {
    let report = build_report(0, Ok(vec![trimmed(9, None, 4096, 4096)]), false, 1);
    assert!(report.processes.is_empty());
    assert_eq!(report.total_before, 4096);
    assert_eq!(report.total_after, 4096);
}

#[test]
fn the_null_identifier_is_skipped_entirely() {
    assert!(!should_attempt(0));
    assert!(should_attempt(1));
    // Even a fabricated observation for identifier 0 changes nothing.
    let report = build_report(0, Ok(vec![trimmed(0, Some("idle"), 900, 100)]), false, 1);
    assert!(report.processes.is_empty());
    assert_eq!(report.cleaned_count, 0);
    assert_eq!(report.total_before, 0);
    assert_eq!(report.total_after, 0);
}

#[test]
fn an_unresolved_name_falls_back_to_the_identifier_label() {
    let report = build_report(0, Ok(vec![trimmed(7, None, 2000, 500)]), false, 1);
    assert_eq!(report.processes.len(), 1);
    assert_eq!(report.processes[0].name, "PID: 7");
}

#[test]
fn records_keep_enumeration_order() {
    let observations = vec![
        trimmed(30, Some("c.exe"), 500, 100),
        denied(11),
        trimmed(10, Some("a.exe"), 700, 600),
        trimmed(20, Some("b.exe"), 900, 250),
    ];
    let report = build_report(0, Ok(observations), false, 1);
    assert_eq!(report.cleaned_count, 3);
    let pids: Vec<u32> = report.processes.iter().map(|p| p.pid).collect();
    assert_eq!(pids, vec![30, 10, 20]);
    assert_eq!(report.total_before, 2100);
    assert_eq!(report.total_after, 950);
    assert_eq!(report.total_freed(), 1150);
}

#[test]
fn stepwise_accounting_matches_the_whole_run() {
    let mut report = CleaningReport::begin(3);
    report.set_global_trim(true);
    report.absorb(&trimmed(100, Some("worker.exe"), 500000, 300000));
    report.absorb(&denied(200));
    report.complete(4);
    let whole = build_report(
        3,
        Ok(vec![trimmed(100, Some("worker.exe"), 500000, 300000), denied(200)]),
        true,
        4,
    );
    assert_eq!(report.total_before, whole.total_before);
    assert_eq!(report.total_after, whole.total_after);
    assert_eq!(report.cleaned_count, whole.cleaned_count);
    assert_eq!(report.processes.len(), whole.processes.len());
    assert_eq!(report.processes[0].name, whole.processes[0].name);
    assert!(matches!(report.outcome, RunOutcome::Completed));
}

#[test]
fn record_freed_is_clamped_at_zero() {
    let record = ProcessRecord {
        pid: 3,
        name: "shrunk.exe".to_string(),
        resident_before: 10,
        resident_after: 50,
    };
    assert_eq!(record.freed(), 0);
    let record = ProcessRecord {
        pid: 3,
        name: "shrunk.exe".to_string(),
        resident_before: 50,
        resident_after: 10,
    };
    assert_eq!(record.freed(), 40);
}

#[test]
fn saturating_totals_stay_total() {
    let observations = vec![
        trimmed(1, Some("a"), u64::MAX, u64::MAX),
        trimmed(2, Some("b"), 100, 10),
    ];
    let report = build_report(0, Ok(observations), false, 1);
    assert_eq!(report.total_before, u64::MAX);
    assert_eq!(report.total_after, u64::MAX);
    assert_eq!(report.cleaned_count, 1);
}

#[test]
fn enumeration_count_follows_the_reported_bytes_and_truncates() {
    assert_eq!(enumerated_count(0, 1024), 0);
    assert_eq!(enumerated_count(400, 1024), 100);
    // A partial trailing entry is not an identifier.
    assert_eq!(enumerated_count(10, 1024), 2);
    assert_eq!(enumerated_count(4096, 1024), 1024);
    // An overfull buffer is accepted as a truncated listing.
    assert_eq!(enumerated_count(8192, 1024), 1024);
}
