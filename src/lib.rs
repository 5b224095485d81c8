//! Measures one invocation of a workload: wall-clock time in nanoseconds and,
//! on request, ratios derived from a group of hardware performance counters.
pub mod artifact;
pub mod collector;
pub mod error;
pub mod harness;
pub mod metrics;
pub mod report;

pub use artifact::{compute_selector, decode_deployed_code, ArtifactError};
pub use collector::PerfEventCollector;
pub use error::HarnessError;
pub use harness::{assemble, execute_test, TestResult, WorkloadOutcome};
pub use metrics::{CounterKind, Metric, PerfEventConfig, PerfReportConfig};
pub use report::{CounterSnapshot, PerfReport, Ratio};
