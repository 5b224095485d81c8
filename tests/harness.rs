use std::cell::Cell;

use revm_bench::{
    assemble, execute_test, HarnessError, PerfEventCollector, PerfEventConfig, PerfReportConfig,
    TestResult, WorkloadOutcome,
};

fn busy() -> WorkloadOutcome {
    let mut acc: u64 = 0;
    for i in 0..100_000u64 {
        acc = std::hint::black_box(acc.wrapping_mul(31).wrapping_add(i));
    }
    std::hint::black_box(acc);
    WorkloadOutcome::Success
}

#[test]
fn test_execute_test() {
    let test_result = execute_test(busy, None).unwrap();

    assert!(test_result.duration_ns > 0);
    assert!(test_result.perf_report.is_none());
}

#[test]
fn empty_request_opens_no_group_and_reports_nothing() {
    let test_result = execute_test(busy, Some(PerfReportConfig::none())).unwrap();
    assert!(test_result.duration_ns > 0);
    assert!(test_result.perf_report.is_none());
}

#[test]
fn failed_workload_is_an_error_with_its_reason() {
    let r = execute_test(|| WorkloadOutcome::Failure("reverted".to_string()), None);
    assert_eq!(r, Err(HarnessError::WorkloadFailure("reverted".to_string())));
}

#[test]
fn unavailable_counters_abort_before_the_workload_runs() {
    let ran = Cell::new(false);
    let requested = PerfReportConfig { instructions: true, ..PerfReportConfig::none() };
    let r = execute_test(
        || {
            ran.set(true);
            busy()
        },
        Some(requested),
    );
    match r {
        Ok(result) => {
            assert!(ran.get());
            let report = result.perf_report.unwrap();
            assert!(report.instructions.is_some());
            assert!(report.instructions_per_cycle.is_none());
        }
        Err(e) => {
            assert_eq!(e, HarnessError::CollectorUnavailable);
            assert!(!ran.get());
        }
    }
}

#[test]
fn short_run_on_one_core_has_no_migrations() {
    let requested = PerfReportConfig { cpu_migrations: true, ..PerfReportConfig::none() };
    match execute_test(|| WorkloadOutcome::Success, Some(requested)) {
        Ok(result) => {
            let migrations = result.perf_report.unwrap().cpu_migrations.unwrap();
            assert_eq!(migrations.numerator, 0);
        }
        Err(e) => assert_eq!(e, HarnessError::CollectorUnavailable),
    }
}

#[test]
fn assemble_keeps_duration_and_report() {
    assert_eq!(
        assemble(WorkloadOutcome::Success, 1234, None),
        Ok(TestResult { duration_ns: 1234, perf_report: None })
    );
    assert_eq!(
        assemble(WorkloadOutcome::Failure("out of gas".to_string()), 1234, None),
        Err(HarnessError::WorkloadFailure("out of gas".to_string()))
    );
}

#[test]
fn collector_opens_or_reports_unavailable() {
    let required = PerfEventConfig::resolve(&PerfReportConfig {
        instructions_per_cycle: true,
        ..PerfReportConfig::none()
    });
    match PerfEventCollector::new(&required) {
        Ok(mut collector) => {
            if collector.enable().is_ok() {
                let snapshot = collector.read().unwrap();
                assert!(snapshot.count(revm_bench::CounterKind::Cycles).is_some());
                assert!(snapshot.count(revm_bench::CounterKind::BranchMisses).is_none());
                assert!(collector.disable().is_ok());
            }
        }
        Err(e) => assert_eq!(e, HarnessError::CollectorUnavailable),
    }
}
