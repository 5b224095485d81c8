//! Requested metrics, the hardware counters they need, and the fixed table
//! that maps one onto the other.
use vstd::prelude::*;

verus! {

/// Number of distinct hardware counters a group may hold.
pub const COUNTER_KINDS: usize = 10;

/// Number of distinct metrics a caller may request.
pub const METRIC_KINDS: usize = 7;

/// One low-level counter that can be programmed into a group.
#[derive(Clone, Copy, Debug, PartialEq, Eq, Structural)]
pub enum CounterKind {
    Cycles,
    Instructions,
    LastLevelCacheReferences,
    LastLevelCacheMisses,
    L1DataCacheReads,
    L1DataCacheMisses,
    L1InstructionCacheMisses,
    BranchInstructions,
    BranchMisses,
    CpuMigrations,
}

/// One user-facing metric.
#[derive(Clone, Copy, Debug, PartialEq, Eq, Structural)]
pub enum Metric {
    Instructions,
    InstructionsPerCycle,
    LastLevelCacheHitRate,
    L1DataCacheHitRate,
    L1InstructionCacheMisses,
    BranchMissRatio,
    CpuMigrations,
}

impl CounterKind {
    /// Position of this kind in the canonical order of counters.
    pub open spec fn index_spec(self) -> nat {
        match self {
            CounterKind::Cycles => 0,
            CounterKind::Instructions => 1,
            CounterKind::LastLevelCacheReferences => 2,
            CounterKind::LastLevelCacheMisses => 3,
            CounterKind::L1DataCacheReads => 4,
            CounterKind::L1DataCacheMisses => 5,
            CounterKind::L1InstructionCacheMisses => 6,
            CounterKind::BranchInstructions => 7,
            CounterKind::BranchMisses => 8,
            CounterKind::CpuMigrations => 9,
        }
    }

    /// The kind at position `i` of the canonical order.
    pub open spec fn at_spec(i: nat) -> CounterKind {
        if i == 0 {
            CounterKind::Cycles
        } else if i == 1 {
            CounterKind::Instructions
        } else if i == 2 {
            CounterKind::LastLevelCacheReferences
        } else if i == 3 {
            CounterKind::LastLevelCacheMisses
        } else if i == 4 {
            CounterKind::L1DataCacheReads
        } else if i == 5 {
            CounterKind::L1DataCacheMisses
        } else if i == 6 {
            CounterKind::L1InstructionCacheMisses
        } else if i == 7 {
            CounterKind::BranchInstructions
        } else if i == 8 {
            CounterKind::BranchMisses
        } else {
            CounterKind::CpuMigrations
        }
    }

    pub fn index(self) -> (r: usize)
        ensures
            r == self.index_spec(),
            r < COUNTER_KINDS,
    {
        match self {
            CounterKind::Cycles => 0,
            CounterKind::Instructions => 1,
            CounterKind::LastLevelCacheReferences => 2,
            CounterKind::LastLevelCacheMisses => 3,
            CounterKind::L1DataCacheReads => 4,
            CounterKind::L1DataCacheMisses => 5,
            CounterKind::L1InstructionCacheMisses => 6,
            CounterKind::BranchInstructions => 7,
            CounterKind::BranchMisses => 8,
            CounterKind::CpuMigrations => 9,
        }
    }

    pub fn at(i: usize) -> (r: CounterKind)
        requires
            i < COUNTER_KINDS,
        ensures
            r == CounterKind::at_spec(i as nat),
            r.index_spec() == i,
    {
        if i == 0 {
            CounterKind::Cycles
        } else if i == 1 {
            CounterKind::Instructions
        } else if i == 2 {
            CounterKind::LastLevelCacheReferences
        } else if i == 3 {
            CounterKind::LastLevelCacheMisses
        } else if i == 4 {
            CounterKind::L1DataCacheReads
        } else if i == 5 {
            CounterKind::L1DataCacheMisses
        } else if i == 6 {
            CounterKind::L1InstructionCacheMisses
        } else if i == 7 {
            CounterKind::BranchInstructions
        } else if i == 8 {
            CounterKind::BranchMisses
        } else {
            CounterKind::CpuMigrations
        }
    }
}

/// The canonical order and the index agree in both directions.
pub proof fn lemma_counter_index(k: CounterKind)
    ensures
        k.index_spec() < COUNTER_KINDS,
        CounterKind::at_spec(k.index_spec()) == k,
{
}

impl Metric {
    /// Position of this metric in the canonical order of metrics.
    pub open spec fn index_spec(self) -> nat {
        match self {
            Metric::Instructions => 0,
            Metric::InstructionsPerCycle => 1,
            Metric::LastLevelCacheHitRate => 2,
            Metric::L1DataCacheHitRate => 3,
            Metric::L1InstructionCacheMisses => 4,
            Metric::BranchMissRatio => 5,
            Metric::CpuMigrations => 6,
        }
    }

    pub open spec fn at_spec(i: nat) -> Metric {
        if i == 0 {
            Metric::Instructions
        } else if i == 1 {
            Metric::InstructionsPerCycle
        } else if i == 2 {
            Metric::LastLevelCacheHitRate
        } else if i == 3 {
            Metric::L1DataCacheHitRate
        } else if i == 4 {
            Metric::L1InstructionCacheMisses
        } else if i == 5 {
            Metric::BranchMissRatio
        } else {
            Metric::CpuMigrations
        }
    }

    pub fn at(i: usize) -> (r: Metric)
        requires
            i < METRIC_KINDS,
        ensures
            r == Metric::at_spec(i as nat),
            r.index_spec() == i,
    {
        if i == 0 {
            Metric::Instructions
        } else if i == 1 {
            Metric::InstructionsPerCycle
        } else if i == 2 {
            Metric::LastLevelCacheHitRate
        } else if i == 3 {
            Metric::L1DataCacheHitRate
        } else if i == 4 {
            Metric::L1InstructionCacheMisses
        } else if i == 5 {
            Metric::BranchMissRatio
        } else {
            Metric::CpuMigrations
        }
    }

    /// The mapping table: whether computing this metric needs counter `k`.
    pub open spec fn uses(self, k: CounterKind) -> bool {
        match self {
            Metric::Instructions => k == CounterKind::Instructions,
            Metric::InstructionsPerCycle => k == CounterKind::Cycles || k
                == CounterKind::Instructions,
            Metric::LastLevelCacheHitRate => k == CounterKind::LastLevelCacheReferences || k
                == CounterKind::LastLevelCacheMisses,
            Metric::L1DataCacheHitRate => k == CounterKind::L1DataCacheReads || k
                == CounterKind::L1DataCacheMisses,
            Metric::L1InstructionCacheMisses => k == CounterKind::L1InstructionCacheMisses,
            Metric::BranchMissRatio => k == CounterKind::BranchInstructions || k
                == CounterKind::BranchMisses,
            Metric::CpuMigrations => k == CounterKind::CpuMigrations,
        }
    }

    /// The counters this metric is computed from, each listed once.
    pub fn counters(self) -> (r: Vec<CounterKind>)
        ensures
            forall|k: CounterKind| r@.contains(k) <==> self.uses(k),
    {
        let r = match self {
            Metric::Instructions => vec![CounterKind::Instructions],
            Metric::InstructionsPerCycle => vec![CounterKind::Cycles, CounterKind::Instructions],
            Metric::LastLevelCacheHitRate => vec![
                CounterKind::LastLevelCacheReferences,
                CounterKind::LastLevelCacheMisses,
            ],
            Metric::L1DataCacheHitRate => vec![
                CounterKind::L1DataCacheReads,
                CounterKind::L1DataCacheMisses,
            ],
            Metric::L1InstructionCacheMisses => vec![CounterKind::L1InstructionCacheMisses],
            Metric::BranchMissRatio => vec![
                CounterKind::BranchInstructions,
                CounterKind::BranchMisses,
            ],
            Metric::CpuMigrations => vec![CounterKind::CpuMigrations],
        };
        proof {
            assert forall|k: CounterKind| r@.contains(k) <==> self.uses(k) by {
                if self.uses(k) {
                    assert(r@[0] == k || r@[1] == k);
                }
            }
        }
        r
    }
}

/// The metrics a caller asks for, one flag each. No flag set means that no
/// performance report is wanted.
#[derive(Clone, Copy, Debug, PartialEq, Eq, Structural)]
pub struct PerfReportConfig {
    pub instructions: bool,
    pub instructions_per_cycle: bool,
    pub last_level_cache_hit_rate: bool,
    pub l1_data_cache_hit_rate: bool,
    pub l1_instruction_cache_misses: bool,
    pub branch_miss_ratio: bool,
    pub cpu_migrations: bool,
}

impl PerfReportConfig {
    pub open spec fn wants(self, m: Metric) -> bool {
        match m {
            Metric::Instructions => self.instructions,
            Metric::InstructionsPerCycle => self.instructions_per_cycle,
            Metric::LastLevelCacheHitRate => self.last_level_cache_hit_rate,
            Metric::L1DataCacheHitRate => self.l1_data_cache_hit_rate,
            Metric::L1InstructionCacheMisses => self.l1_instruction_cache_misses,
            Metric::BranchMissRatio => self.branch_miss_ratio,
            Metric::CpuMigrations => self.cpu_migrations,
        }
    }

    /// No metric is requested.
    pub open spec fn is_empty_spec(self) -> bool {
        forall|m: Metric| !self.wants(m)
    }

    /// Whether counter `k` is needed by some requested metric, row by row of
    /// the table.
    pub open spec fn needs(self, k: CounterKind) -> bool {
        ||| self.instructions && Metric::Instructions.uses(k)
        ||| self.instructions_per_cycle && Metric::InstructionsPerCycle.uses(k)
        ||| self.last_level_cache_hit_rate && Metric::LastLevelCacheHitRate.uses(k)
        ||| self.l1_data_cache_hit_rate && Metric::L1DataCacheHitRate.uses(k)
        ||| self.l1_instruction_cache_misses && Metric::L1InstructionCacheMisses.uses(k)
        ||| self.branch_miss_ratio && Metric::BranchMissRatio.uses(k)
        ||| self.cpu_migrations && Metric::CpuMigrations.uses(k)
    }

    /// A config that requests nothing.
    pub fn none() -> (r: PerfReportConfig)
        ensures
            r.is_empty_spec(),
            !r.instructions && !r.instructions_per_cycle && !r.last_level_cache_hit_rate
                && !r.l1_data_cache_hit_rate && !r.l1_instruction_cache_misses
                && !r.branch_miss_ratio && !r.cpu_migrations,
    {
        PerfReportConfig {
            instructions: false,
            instructions_per_cycle: false,
            last_level_cache_hit_rate: false,
            l1_data_cache_hit_rate: false,
            l1_instruction_cache_misses: false,
            branch_miss_ratio: false,
            cpu_migrations: false,
        }
    }

    pub fn wants_metric(&self, m: Metric) -> (r: bool)
        ensures
            r == self.wants(m),
    {
        match m {
            Metric::Instructions => self.instructions,
            Metric::InstructionsPerCycle => self.instructions_per_cycle,
            Metric::LastLevelCacheHitRate => self.last_level_cache_hit_rate,
            Metric::L1DataCacheHitRate => self.l1_data_cache_hit_rate,
            Metric::L1InstructionCacheMisses => self.l1_instruction_cache_misses,
            Metric::BranchMissRatio => self.branch_miss_ratio,
            Metric::CpuMigrations => self.cpu_migrations,
        }
    }

    pub fn is_empty(&self) -> (r: bool)
        ensures
            r == self.is_empty_spec(),
    {
        let r = !(self.instructions || self.instructions_per_cycle
            || self.last_level_cache_hit_rate || self.l1_data_cache_hit_rate
            || self.l1_instruction_cache_misses || self.branch_miss_ratio || self.cpu_migrations);
        proof {
            if !r {
                assert(!self.is_empty_spec()) by {
                    if self.instructions {
                        assert(self.wants(Metric::Instructions));
                    } else if self.instructions_per_cycle {
                        assert(self.wants(Metric::InstructionsPerCycle));
                    } else if self.last_level_cache_hit_rate {
                        assert(self.wants(Metric::LastLevelCacheHitRate));
                    } else if self.l1_data_cache_hit_rate {
                        assert(self.wants(Metric::L1DataCacheHitRate));
                    } else if self.l1_instruction_cache_misses {
                        assert(self.wants(Metric::L1InstructionCacheMisses));
                    } else if self.branch_miss_ratio {
                        assert(self.wants(Metric::BranchMissRatio));
                    } else {
                        assert(self.wants(Metric::CpuMigrations));
                    }
                }
            }
        }
        r
    }
}

/// A counter is needed exactly when some requested metric uses it.
pub proof fn lemma_needs_some_metric(requested: PerfReportConfig, k: CounterKind)
    ensures
        requested.needs(k) <==> exists|m: Metric| requested.wants(m) && m.uses(k),
{
    if requested.needs(k) {
        if requested.instructions && Metric::Instructions.uses(k) {
            assert(requested.wants(Metric::Instructions));
        } else if requested.instructions_per_cycle && Metric::InstructionsPerCycle.uses(k) {
            assert(requested.wants(Metric::InstructionsPerCycle));
        } else if requested.last_level_cache_hit_rate && Metric::LastLevelCacheHitRate.uses(k) {
            assert(requested.wants(Metric::LastLevelCacheHitRate));
        } else if requested.l1_data_cache_hit_rate && Metric::L1DataCacheHitRate.uses(k) {
            assert(requested.wants(Metric::L1DataCacheHitRate));
        } else if requested.l1_instruction_cache_misses && Metric::L1InstructionCacheMisses.uses(
            k,
        ) {
            assert(requested.wants(Metric::L1InstructionCacheMisses));
        } else if requested.branch_miss_ratio && Metric::BranchMissRatio.uses(k) {
            assert(requested.wants(Metric::BranchMissRatio));
        } else {
            assert(requested.wants(Metric::CpuMigrations));
        }
    }
}

/// The hardware counters to program, one flag each.
#[derive(Clone, Copy, Debug, PartialEq, Eq, Structural)]
pub struct PerfEventConfig {
    pub cycles: bool,
    pub instructions: bool,
    pub last_level_cache_references: bool,
    pub last_level_cache_misses: bool,
    pub l1_data_cache_reads: bool,
    pub l1_data_cache_misses: bool,
    pub l1_instruction_cache_misses: bool,
    pub branch_instructions: bool,
    pub branch_misses: bool,
    pub cpu_migrations: bool,
}

impl PerfEventConfig {
    pub open spec fn has(self, k: CounterKind) -> bool {
        match k {
            CounterKind::Cycles => self.cycles,
            CounterKind::Instructions => self.instructions,
            CounterKind::LastLevelCacheReferences => self.last_level_cache_references,
            CounterKind::LastLevelCacheMisses => self.last_level_cache_misses,
            CounterKind::L1DataCacheReads => self.l1_data_cache_reads,
            CounterKind::L1DataCacheMisses => self.l1_data_cache_misses,
            CounterKind::L1InstructionCacheMisses => self.l1_instruction_cache_misses,
            CounterKind::BranchInstructions => self.branch_instructions,
            CounterKind::BranchMisses => self.branch_misses,
            CounterKind::CpuMigrations => self.cpu_migrations,
        }
    }

    /// The counters that `requested` needs, as a pure function of it.
    pub open spec fn resolve_spec(requested: PerfReportConfig) -> PerfEventConfig {
        PerfEventConfig {
            cycles: requested.needs(CounterKind::Cycles),
            instructions: requested.needs(CounterKind::Instructions),
            last_level_cache_references: requested.needs(CounterKind::LastLevelCacheReferences),
            last_level_cache_misses: requested.needs(CounterKind::LastLevelCacheMisses),
            l1_data_cache_reads: requested.needs(CounterKind::L1DataCacheReads),
            l1_data_cache_misses: requested.needs(CounterKind::L1DataCacheMisses),
            l1_instruction_cache_misses: requested.needs(CounterKind::L1InstructionCacheMisses),
            branch_instructions: requested.needs(CounterKind::BranchInstructions),
            branch_misses: requested.needs(CounterKind::BranchMisses),
            cpu_migrations: requested.needs(CounterKind::CpuMigrations),
        }
    }

    /// No counter at all.
    pub fn empty() -> (r: PerfEventConfig)
        ensures
            forall|k: CounterKind| !r.has(k),
    {
        PerfEventConfig {
            cycles: false,
            instructions: false,
            last_level_cache_references: false,
            last_level_cache_misses: false,
            l1_data_cache_reads: false,
            l1_data_cache_misses: false,
            l1_instruction_cache_misses: false,
            branch_instructions: false,
            branch_misses: false,
            cpu_migrations: false,
        }
    }

    pub fn is_set(&self, k: CounterKind) -> (r: bool)
        ensures
            r == self.has(k),
    {
        match k {
            CounterKind::Cycles => self.cycles,
            CounterKind::Instructions => self.instructions,
            CounterKind::LastLevelCacheReferences => self.last_level_cache_references,
            CounterKind::LastLevelCacheMisses => self.last_level_cache_misses,
            CounterKind::L1DataCacheReads => self.l1_data_cache_reads,
            CounterKind::L1DataCacheMisses => self.l1_data_cache_misses,
            CounterKind::L1InstructionCacheMisses => self.l1_instruction_cache_misses,
            CounterKind::BranchInstructions => self.branch_instructions,
            CounterKind::BranchMisses => self.branch_misses,
            CounterKind::CpuMigrations => self.cpu_migrations,
        }
    }

    /// Turns on counter `k`, leaving the others as they were.
    pub fn set(&mut self, k: CounterKind)
        ensures
            forall|j: CounterKind| final(self).has(j) == (old(self).has(j) || j == k),
    {
        match k {
            CounterKind::Cycles => self.cycles = true,
            CounterKind::Instructions => self.instructions = true,
            CounterKind::LastLevelCacheReferences => self.last_level_cache_references = true,
            CounterKind::LastLevelCacheMisses => self.last_level_cache_misses = true,
            CounterKind::L1DataCacheReads => self.l1_data_cache_reads = true,
            CounterKind::L1DataCacheMisses => self.l1_data_cache_misses = true,
            CounterKind::L1InstructionCacheMisses => self.l1_instruction_cache_misses = true,
            CounterKind::BranchInstructions => self.branch_instructions = true,
            CounterKind::BranchMisses => self.branch_misses = true,
            CounterKind::CpuMigrations => self.cpu_migrations = true,
        }
    }

    /// Whether no counter is set.
    pub fn is_empty(&self) -> (r: bool)
        ensures
            r == (forall|k: CounterKind| !self.has(k)),
    {
        let r = !(self.cycles || self.instructions || self.last_level_cache_references
            || self.last_level_cache_misses || self.l1_data_cache_reads
            || self.l1_data_cache_misses || self.l1_instruction_cache_misses
            || self.branch_instructions || self.branch_misses || self.cpu_migrations);
        proof {
            if !r {
                let k = if self.cycles {
                    CounterKind::Cycles
                } else if self.instructions {
                    CounterKind::Instructions
                } else if self.last_level_cache_references {
                    CounterKind::LastLevelCacheReferences
                } else if self.last_level_cache_misses {
                    CounterKind::LastLevelCacheMisses
                } else if self.l1_data_cache_reads {
                    CounterKind::L1DataCacheReads
                } else if self.l1_data_cache_misses {
                    CounterKind::L1DataCacheMisses
                } else if self.l1_instruction_cache_misses {
                    CounterKind::L1InstructionCacheMisses
                } else if self.branch_instructions {
                    CounterKind::BranchInstructions
                } else if self.branch_misses {
                    CounterKind::BranchMisses
                } else {
                    CounterKind::CpuMigrations
                };
                assert(self.has(k));
            }
        }
        r
    }

    /// Maps the requested metrics onto the counters they need, walking the
    /// metric table once and setting every counter that a requested metric
    /// lists. A counter shared by several metrics is set once.
    pub fn resolve(requested: &PerfReportConfig) -> (r: PerfEventConfig)
        ensures
            r == PerfEventConfig::resolve_spec(*requested),
            forall|k: CounterKind| r.has(k) == requested.needs(k),
    {
        let mut config = PerfEventConfig::empty();
        let mut i: usize = 0;
        while i < METRIC_KINDS
            invariant
                i <= METRIC_KINDS,
                forall|k: CounterKind|
                    config.has(k) <==> exists|j: nat|
                        j < i && requested.wants(#[trigger] Metric::at_spec(j)) && Metric::at_spec(
                            j,
                        ).uses(k),
            decreases METRIC_KINDS - i,
        {
            let m = Metric::at(i);
            if requested.wants_metric(m) {
                let list = m.counters();
                let ghost before = config;
                let mut t: usize = 0;
                while t < list.len()
                    invariant
                        t <= list@.len(),
                        forall|k: CounterKind|
                            config.has(k) <==> (before.has(k) || exists|q: int|
                                0 <= q < t && list@[q] == k),
                    decreases list.len() - t,
                {
                    config.set(list[t]);
                    proof {
                        assert forall|k: CounterKind|
                            config.has(k) <==> (before.has(k) || exists|q: int|
                                0 <= q < t + 1 && list@[q] == k) by {
                            if k == list@[t as int] {
                                assert(list@[t as int] == k);
                            }
                        }
                    }
                    t = t + 1;
                }
                proof {
                    assert forall|k: CounterKind|
                        config.has(k) <==> exists|j: nat|
                            j < i + 1 && requested.wants(#[trigger] Metric::at_spec(j))
                                && Metric::at_spec(j).uses(k) by {
                        if m.uses(k) {
                            assert(list@.contains(k));
                            assert(config.has(k));
                        }
                        if config.has(k) && !before.has(k) {
                            assert(list@.contains(k));
                            assert(Metric::at_spec(i as nat).uses(k));
                        }
                    }
                }
            } else {
                proof {
                    assert forall|k: CounterKind|
                        config.has(k) <==> exists|j: nat|
                            j < i + 1 && requested.wants(#[trigger] Metric::at_spec(j))
                                && Metric::at_spec(j).uses(k) by {
                        if exists|j: nat|
                            j < i + 1 && requested.wants(#[trigger] Metric::at_spec(j))
                                && Metric::at_spec(j).uses(k) {
                            let j = choose|j: nat|
                                j < i + 1 && requested.wants(#[trigger] Metric::at_spec(j))
                                    && Metric::at_spec(j).uses(k);
                            assert(j != i);
                        }
                    }
                }
            }
            i = i + 1;
        }
        proof {
            assert forall|k: CounterKind| config.has(k) == requested.needs(k) by {
                lemma_needs_some_metric(*requested, k);
                if exists|m: Metric| requested.wants(m) && m.uses(k) {
                    let m = choose|m: Metric| requested.wants(m) && m.uses(k);
                    assert(Metric::at_spec(m.index_spec()) == m);
                }
            }
            let spec_r = PerfEventConfig::resolve_spec(*requested);
            assert(config.has(CounterKind::Cycles) == spec_r.cycles);
            assert(config.has(CounterKind::Instructions) == spec_r.instructions);
            assert(config.has(CounterKind::LastLevelCacheReferences) == spec_r.last_level_cache_references);
            assert(config.has(CounterKind::LastLevelCacheMisses) == spec_r.last_level_cache_misses);
            assert(config.has(CounterKind::L1DataCacheReads) == spec_r.l1_data_cache_reads);
            assert(config.has(CounterKind::L1DataCacheMisses) == spec_r.l1_data_cache_misses);
            assert(config.has(CounterKind::L1InstructionCacheMisses) == spec_r.l1_instruction_cache_misses);
            assert(config.has(CounterKind::BranchInstructions) == spec_r.branch_instructions);
            assert(config.has(CounterKind::BranchMisses) == spec_r.branch_misses);
            assert(config.has(CounterKind::CpuMigrations) == spec_r.cpu_migrations);
        }
        config
    }
}

impl From<PerfReportConfig> for PerfEventConfig {
    fn from(value: PerfReportConfig) -> (r: PerfEventConfig)
        ensures
            r == PerfEventConfig::resolve_spec(value),
    {
        PerfEventConfig::resolve(&value)
    }
}

impl vstd::std_specs::convert::FromSpecImpl<PerfReportConfig> for PerfEventConfig {
    open spec fn obeys_from_spec() -> bool {
        true
    }

    open spec fn from_spec(v: PerfReportConfig) -> PerfEventConfig {
        PerfEventConfig::resolve_spec(v)
    }
}

/// Resolving is deterministic: equal requests give equal counter sets, so
/// resolving the same request twice gives the same answer.
pub proof fn lemma_resolve_deterministic(a: PerfReportConfig, b: PerfReportConfig)
    requires
        a == b,
    ensures
        PerfEventConfig::resolve_spec(a) == PerfEventConfig::resolve_spec(b),
        forall|k: CounterKind|
            PerfEventConfig::resolve_spec(a).has(k) == PerfEventConfig::resolve_spec(b).has(k),
{
}

/// A request that needs nothing resolves to no counter at all.
pub proof fn lemma_resolve_empty(requested: PerfReportConfig)
    requires
        requested.is_empty_spec(),
    ensures
        forall|k: CounterKind| !PerfEventConfig::resolve_spec(requested).has(k),
{
    assert(!requested.wants(Metric::Instructions));
    assert(!requested.wants(Metric::InstructionsPerCycle));
    assert(!requested.wants(Metric::LastLevelCacheHitRate));
    assert(!requested.wants(Metric::L1DataCacheHitRate));
    assert(!requested.wants(Metric::L1InstructionCacheMisses));
    assert(!requested.wants(Metric::BranchMissRatio));
    assert(!requested.wants(Metric::CpuMigrations));
}

/// Asking for instructions alone needs exactly the instruction counter;
/// adding instructions-per-cycle needs exactly instructions and cycles, the
/// shared instruction counter being set once.
pub proof fn lemma_resolve_instructions(requested: PerfReportConfig)
    requires
        requested.instructions,
        !requested.last_level_cache_hit_rate,
        !requested.l1_data_cache_hit_rate,
        !requested.l1_instruction_cache_misses,
        !requested.branch_miss_ratio,
        !requested.cpu_migrations,
    ensures
        !requested.instructions_per_cycle ==> forall|k: CounterKind|
            PerfEventConfig::resolve_spec(requested).has(k) == (k == CounterKind::Instructions),
        requested.instructions_per_cycle ==> forall|k: CounterKind|
            PerfEventConfig::resolve_spec(requested).has(k) == (k == CounterKind::Instructions || k
                == CounterKind::Cycles),
{
    assert(requested.wants(Metric::Instructions));
    assert(Metric::Instructions.uses(CounterKind::Instructions));
    if requested.instructions_per_cycle {
        assert(requested.wants(Metric::InstructionsPerCycle));
        assert(Metric::InstructionsPerCycle.uses(CounterKind::Cycles));
    }
}

} // verus!
