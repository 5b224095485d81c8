//! Why a measurement did not produce a result.
use vstd::prelude::*;

verus! {

/// A failed measurement. The first two say that the harness could not
/// measure; the last that the measured workload itself failed.
#[derive(Clone, Debug, PartialEq, Eq)]
pub enum HarnessError {
    /// A counter of a required kind could not be programmed or started.
    CollectorUnavailable,
    /// An opened counter group could not be read or stopped.
    CollectorReadError,
    /// The workload ran and reported failure, with its own reason.
    WorkloadFailure(String),
}

} // verus!
