//! The timed invocation: one run of a workload between two clock readings,
//! bracketed by a counter group when metrics are requested.
use vstd::prelude::*;
use crate::collector::PerfEventCollector;
use crate::error::HarnessError;
use crate::metrics::{CounterKind, PerfEventConfig, PerfReportConfig, COUNTER_KINDS};
use crate::report::{count_in, derive_spec, PerfReport};

verus! {

#[verifier::external_type_specification]
#[verifier::external_body]
pub struct ExInstant(std::time::Instant);

/// Relies on std::time::Instant::now: a reading of the monotonic clock.
pub assume_specification[ std::time::Instant::now ]() -> std::time::Instant;

/// Relies on std::time::Instant::elapsed: the time since `start`.
pub assume_specification[ std::time::Instant::elapsed ](start: &std::time::Instant) -> core::time::Duration;

/// Relies on std::time::Duration::as_nanos: the whole duration in nanoseconds.
pub assume_specification[ core::time::Duration::as_nanos ](d: &core::time::Duration) -> u128;

/// How one run of the workload ended.
#[derive(Clone, Debug, PartialEq, Eq)]
pub enum WorkloadOutcome {
    Success,
    Failure(String),
}

/// The measurement of one successful run.
#[derive(Clone, Debug, PartialEq, Eq)]
pub struct TestResult {
    /// Wall-clock time of the run, in nanoseconds.
    pub duration_ns: u128,
    /// The derived metrics, present when some were requested.
    pub perf_report: Option<PerfReport>,
}

/// Whether `config` asks for a performance report at all.
pub open spec fn wants_report(config: Option<PerfReportConfig>) -> bool {
    config is Some && !config->Some_0.is_empty_spec()
}

/// Combines the workload's outcome, its duration and the report into the
/// result: a failed workload is an error that carries its reason, never a
/// result.
pub fn assemble(outcome: WorkloadOutcome, duration_ns: u128, perf_report: Option<PerfReport>) -> (r:
    Result<TestResult, HarnessError>)
    ensures
        outcome is Success ==> r == Ok::<TestResult, HarnessError>(
            TestResult { duration_ns, perf_report },
        ),
        outcome matches WorkloadOutcome::Failure(reason) ==> r == Err::<TestResult, HarnessError>(
            HarnessError::WorkloadFailure(reason),
        ),
{
    match outcome {
        WorkloadOutcome::Success => Ok(TestResult { duration_ns, perf_report }),
        WorkloadOutcome::Failure(reason) => Err(HarnessError::WorkloadFailure(reason)),
    }
}

/// Opens and starts a group with the counters that `requested` needs.
fn start_collector(requested: &PerfReportConfig) -> (r: Result<PerfEventCollector, HarnessError>)
    ensures
        r is Ok ==> r->Ok_0.wf() && forall|k: CounterKind|
            r->Ok_0.armed(k) == PerfEventConfig::resolve_spec(*requested).has(k),
        r is Err ==> r->Err_0 == HarnessError::CollectorUnavailable,
{
    let required = PerfEventConfig::resolve(requested);
    let mut collector = PerfEventCollector::new(&required)?;
    collector.enable()?;
    Ok(collector)
}

/// Runs `workload` once and measures it.
///
/// When `perf_report_config` requests metrics, the counters they need are
/// opened and started first; if that fails the workload is not run. After
/// the run the counters are read and stopped, then the outcome is judged: a
/// failed run gives `WorkloadFailure`, a failed read `CollectorReadError`.
/// With nothing requested no counter group is opened and no report is made.
pub fn execute_test<F: FnOnce() -> WorkloadOutcome>(
    workload: F,
    perf_report_config: Option<PerfReportConfig>,
) -> (r: Result<TestResult, HarnessError>)
    requires
        workload.requires(()),
    ensures
        r is Ok ==> workload.ensures((), WorkloadOutcome::Success),
        r matches Err(HarnessError::WorkloadFailure(reason)) ==> workload.ensures(
            (),
            WorkloadOutcome::Failure(reason),
        ),
        r is Ok ==> (r->Ok_0.perf_report is Some <==> wants_report(perf_report_config)),
        r is Ok && wants_report(perf_report_config) ==> exists|s: Seq<Option<u64>>|
            #![trigger derive_spec(s, perf_report_config->Some_0)]
            s.len() == COUNTER_KINDS && (forall|k: CounterKind|
                (count_in(s, k) is Some <==> PerfEventConfig::resolve_spec(
                    perf_report_config->Some_0,
                ).has(k))) && r->Ok_0.perf_report->Some_0 == derive_spec(
                s,
                perf_report_config->Some_0,
            ),
        !wants_report(perf_report_config) ==> (r is Ok || r->Err_0 is WorkloadFailure),
{
    let requested = match perf_report_config {
        Some(c) => if c.is_empty() {
            None
        } else {
            Some(c)
        },
        None => None,
    };
    let mut collector = match &requested {
        Some(c) => Some(start_collector(c)?),
        None => None,
    };

    let start = std::time::Instant::now();
    let outcome = workload();
    let elapsed = start.elapsed();

    let perf_report = match (&mut collector, &requested) {
        (Some(group), Some(c)) => Some(group.report(c)?),
        _ => None,
    };
    assemble(outcome, elapsed.as_nanos(), perf_report)
}

} // verus!
