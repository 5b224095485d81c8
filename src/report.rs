//! Raw counter values and the report derived from them.
//!
//! Every derived value is an exact fraction: it is absent where a counter it
//! needs was not read or where its denominator is zero, so no value ever
//! stands for a division by zero.
use vstd::prelude::*;
use crate::metrics::{CounterKind, PerfReportConfig, COUNTER_KINDS};

verus! {

/// An exact fraction with a non-zero denominator.
#[derive(Clone, Copy, Debug, PartialEq, Eq, Structural)]
pub struct Ratio {
    pub numerator: i128,
    pub denominator: u64,
}

impl Ratio {
    pub open spec fn wf(self) -> bool {
        self.denominator > 0
    }

    /// The fraction holds the rational number `n / d`.
    pub open spec fn equals(self, n: int, d: int) -> bool {
        self.numerator * d == n * self.denominator
    }
}

/// The value of each counter as read from a group, `None` for a counter that
/// was not in the group. Indexed by `CounterKind::index`.
#[derive(Debug)]
pub struct CounterSnapshot {
    counts: Vec<Option<u64>>,
}

impl View for CounterSnapshot {
    type V = Seq<Option<u64>>;

    closed spec fn view(&self) -> Seq<Option<u64>> {
        self.counts@
    }
}

/// The value of counter `k` in a snapshot's view.
pub open spec fn count_in(s: Seq<Option<u64>>, k: CounterKind) -> Option<u64> {
    s[k.index_spec() as int]
}

impl CounterSnapshot {
    pub open spec fn wf(&self) -> bool {
        self@.len() == COUNTER_KINDS
    }

    /// A snapshot that holds no counter.
    pub fn new() -> (r: CounterSnapshot)
        ensures
            r.wf(),
            forall|k: CounterKind| count_in(r@, k) is None,
    {
        let mut counts: Vec<Option<u64>> = Vec::new();
        let mut i: usize = 0;
        while i < COUNTER_KINDS
            invariant
                i <= COUNTER_KINDS,
                counts@.len() == i,
                forall|j: int| 0 <= j < i ==> counts@[j] is None,
            decreases COUNTER_KINDS - i,
        {
            counts.push(None);
            i = i + 1;
        }
        CounterSnapshot { counts }
    }

    /// Records `value` as the count of counter `k`.
    pub fn record(&mut self, k: CounterKind, value: u64)
        requires
            old(self).wf(),
        ensures
            final(self).wf(),
            count_in(final(self)@, k) == Some(value),
            forall|j: CounterKind| j != k ==> count_in(final(self)@, j) == count_in(old(self)@, j),
    {
        let i = k.index();
        self.counts.set(i, Some(value));
        proof {
            assert forall|j: CounterKind| j != k implies count_in(self@, j) == count_in(
                old(self)@,
                j,
            ) by {
                assert(j.index_spec() != k.index_spec());
            }
        }
    }

    /// The count of counter `k`, if it was read.
    pub fn count(&self, k: CounterKind) -> (r: Option<u64>)
        requires
            self.wf(),
        ensures
            r == count_in(self@, k),
    {
        self.counts[k.index()]
    }
}

/// The metrics derived from one snapshot; each is present or absent on its own.
#[derive(Clone, Copy, Debug, PartialEq, Eq, Structural)]
pub struct PerfReport {
    pub instructions: Option<Ratio>,
    pub instructions_per_cycle: Option<Ratio>,
    pub last_level_cache_hit_rate: Option<Ratio>,
    pub l1_data_cache_hit_rate: Option<Ratio>,
    pub l1_instruction_cache_misses: Option<Ratio>,
    pub branch_miss_ratio: Option<Ratio>,
    pub cpu_migrations: Option<Ratio>,
}

/// A raw count passed through as the fraction `count / 1`.
pub open spec fn raw_spec(count: Option<u64>) -> Option<Ratio> {
    match count {
        Some(c) => Some(Ratio { numerator: c as i128, denominator: 1 }),
        None => None,
    }
}

/// `part / whole`, present when both were read and `whole` is not zero.
pub open spec fn quotient_spec(part: Option<u64>, whole: Option<u64>) -> Option<Ratio> {
    if part is Some && whole is Some && whole->Some_0 != 0 {
        Some(Ratio { numerator: part->Some_0 as i128, denominator: whole->Some_0 })
    } else {
        None
    }
}

/// `1 - part / whole`, present when both were read and `whole` is not zero.
pub open spec fn complement_spec(part: Option<u64>, whole: Option<u64>) -> Option<Ratio> {
    if part is Some && whole is Some && whole->Some_0 != 0 {
        Some(
            Ratio {
                numerator: (whole->Some_0 as int - part->Some_0 as int) as i128,
                denominator: whole->Some_0,
            },
        )
    } else {
        None
    }
}

/// What the report holds for the snapshot `s` and the metrics `requested`.
pub open spec fn derive_spec(s: Seq<Option<u64>>, requested: PerfReportConfig) -> PerfReport {
    PerfReport {
        instructions: if requested.instructions {
            raw_spec(count_in(s, CounterKind::Instructions))
        } else {
            None
        },
        instructions_per_cycle: if requested.instructions_per_cycle {
            quotient_spec(count_in(s, CounterKind::Instructions), count_in(s, CounterKind::Cycles))
        } else {
            None
        },
        last_level_cache_hit_rate: if requested.last_level_cache_hit_rate {
            complement_spec(
                count_in(s, CounterKind::LastLevelCacheMisses),
                count_in(s, CounterKind::LastLevelCacheReferences),
            )
        } else {
            None
        },
        l1_data_cache_hit_rate: if requested.l1_data_cache_hit_rate {
            complement_spec(
                count_in(s, CounterKind::L1DataCacheMisses),
                count_in(s, CounterKind::L1DataCacheReads),
            )
        } else {
            None
        },
        l1_instruction_cache_misses: if requested.l1_instruction_cache_misses {
            raw_spec(count_in(s, CounterKind::L1InstructionCacheMisses))
        } else {
            None
        },
        branch_miss_ratio: if requested.branch_miss_ratio {
            quotient_spec(
                count_in(s, CounterKind::BranchMisses),
                count_in(s, CounterKind::BranchInstructions),
            )
        } else {
            None
        },
        cpu_migrations: if requested.cpu_migrations {
            raw_spec(count_in(s, CounterKind::CpuMigrations))
        } else {
            None
        },
    }
}

fn raw(count: Option<u64>) -> (r: Option<Ratio>)
    ensures
        r == raw_spec(count),
{
    match count {
        Some(c) => Some(Ratio { numerator: c as i128, denominator: 1 }),
        None => None,
    }
}

fn quotient(part: Option<u64>, whole: Option<u64>) -> (r: Option<Ratio>)
    ensures
        r == quotient_spec(part, whole),
{
    match (part, whole) {
        (Some(p), Some(w)) => if w != 0 {
            Some(Ratio { numerator: p as i128, denominator: w })
        } else {
            None
        },
        _ => None,
    }
}

fn complement(part: Option<u64>, whole: Option<u64>) -> (r: Option<Ratio>)
    ensures
        r == complement_spec(part, whole),
{
    match (part, whole) {
        (Some(p), Some(w)) => if w != 0 {
            Some(Ratio { numerator: w as i128 - p as i128, denominator: w })
        } else {
            None
        },
        _ => None,
    }
}

impl PerfReport {
    /// Derives each requested metric from the counts in `snapshot`.
    pub fn derive(snapshot: &CounterSnapshot, requested: &PerfReportConfig) -> (r: PerfReport)
        requires
            snapshot.wf(),
        ensures
            r == derive_spec(snapshot@, *requested),
    {
        let instructions = snapshot.count(CounterKind::Instructions);
        let cycles = snapshot.count(CounterKind::Cycles);
        PerfReport {
            instructions: if requested.instructions {
                raw(instructions)
            } else {
                None
            },
            instructions_per_cycle: if requested.instructions_per_cycle {
                quotient(instructions, cycles)
            } else {
                None
            },
            last_level_cache_hit_rate: if requested.last_level_cache_hit_rate {
                complement(
                    snapshot.count(CounterKind::LastLevelCacheMisses),
                    snapshot.count(CounterKind::LastLevelCacheReferences),
                )
            } else {
                None
            },
            l1_data_cache_hit_rate: if requested.l1_data_cache_hit_rate {
                complement(
                    snapshot.count(CounterKind::L1DataCacheMisses),
                    snapshot.count(CounterKind::L1DataCacheReads),
                )
            } else {
                None
            },
            l1_instruction_cache_misses: if requested.l1_instruction_cache_misses {
                raw(snapshot.count(CounterKind::L1InstructionCacheMisses))
            } else {
                None
            },
            branch_miss_ratio: if requested.branch_miss_ratio {
                quotient(
                    snapshot.count(CounterKind::BranchMisses),
                    snapshot.count(CounterKind::BranchInstructions),
                )
            } else {
                None
            },
            cpu_migrations: if requested.cpu_migrations {
                raw(snapshot.count(CounterKind::CpuMigrations))
            } else {
                None
            },
        }
    }
}

/// Every value in a derived report is a well-formed fraction, and a hit rate
/// or ratio is present only where its denominator was read and is not zero.
pub proof fn lemma_derived_values_defined(s: Seq<Option<u64>>, requested: PerfReportConfig)
    ensures
        ({
            let r = derive_spec(s, requested);
            &&& r.instructions is Some ==> r.instructions->Some_0.wf()
            &&& r.instructions_per_cycle is Some ==> r.instructions_per_cycle->Some_0.wf()
                && count_in(s, CounterKind::Cycles) is Some
            &&& r.last_level_cache_hit_rate is Some ==> r.last_level_cache_hit_rate->Some_0.wf()
                && count_in(s, CounterKind::LastLevelCacheReferences) is Some
            &&& r.l1_data_cache_hit_rate is Some ==> r.l1_data_cache_hit_rate->Some_0.wf()
                && count_in(s, CounterKind::L1DataCacheReads) is Some
            &&& r.l1_instruction_cache_misses is Some ==> r.l1_instruction_cache_misses->Some_0.wf()
            &&& r.branch_miss_ratio is Some ==> r.branch_miss_ratio->Some_0.wf()
                && count_in(s, CounterKind::BranchInstructions) is Some
            &&& r.cpu_migrations is Some ==> r.cpu_migrations->Some_0.wf()
        }),
{
}

/// A hit rate whose reference count is zero is absent, whatever the misses.
pub proof fn lemma_zero_references_no_hit_rate(s: Seq<Option<u64>>, requested: PerfReportConfig)
    requires
        count_in(s, CounterKind::LastLevelCacheReferences) == Some(0u64),
    ensures
        derive_spec(s, requested).last_level_cache_hit_rate is None,
{
}

/// The derived instructions-per-cycle equals instructions divided by cycles
/// exactly, whenever both were read and cycles is not zero.
pub proof fn lemma_instructions_per_cycle_exact(
    s: Seq<Option<u64>>,
    requested: PerfReportConfig,
    instructions: u64,
    cycles: u64,
)
    requires
        requested.instructions_per_cycle,
        count_in(s, CounterKind::Instructions) == Some(instructions),
        count_in(s, CounterKind::Cycles) == Some(cycles),
        cycles != 0,
    ensures
        derive_spec(s, requested).instructions_per_cycle is Some,
        derive_spec(s, requested).instructions_per_cycle->Some_0.equals(
            instructions as int,
            cycles as int,
        ),
{
}

} // verus!
