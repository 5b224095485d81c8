//! A group of hardware counters attached to the calling thread, started,
//! read and stopped together.
use vstd::prelude::*;
use perf_event::events::{Cache, CacheOp, CacheResult, Hardware, Software, WhichCache};
use crate::error::HarnessError;
use crate::metrics::{CounterKind, PerfEventConfig, PerfReportConfig, COUNTER_KINDS};
use crate::report::{count_in, derive_spec, CounterSnapshot, PerfReport};

verus! {

#[verifier::external_type_specification]
#[verifier::external_body]
pub struct ExGroup(perf_event::Group);

#[verifier::external_type_specification]
#[verifier::external_body]
pub struct ExCounter(perf_event::Counter);

#[verifier::external_type_specification]
#[verifier::external_body]
pub struct ExCounts(perf_event::Counts);

#[verifier::external_type_specification]
#[verifier::external_body]
pub struct ExEvent(perf_event::events::Event);

#[verifier::external_type_specification]
#[verifier::external_body]
pub struct ExIoError(std::io::Error);

/// Relies on perf_event::Group::new: opens an empty group on the calling
/// thread, or fails where the host or its permissions allow no counters.
pub assume_specification[ perf_event::Group::new ]() -> std::io::Result<perf_event::Group>;

/// Relies on perf_event::Group::enable: starts every counter of the group at once.
pub assume_specification[ perf_event::Group::enable ](group: &mut perf_event::Group) -> std::io::Result<()>;

/// Relies on perf_event::Group::disable: stops every counter of the group at once.
pub assume_specification[ perf_event::Group::disable ](group: &mut perf_event::Group) -> std::io::Result<()>;

/// Relies on perf_event::Group::read: one consistent read of every counter
/// of the group. Its own assertions check only what the kernel hands back.
pub assume_specification[ perf_event::Group::read ](group: &mut perf_event::Group) -> std::io::Result<perf_event::Counts>;

/// Relies on perf_event's event types: names the kernel event that counts `kind`.
#[verifier::external_body]
fn counter_event(kind: CounterKind) -> perf_event::events::Event {
    let l1 = |which: WhichCache, result: CacheResult| Cache { which, operation: CacheOp::READ, result };
    match kind {
        CounterKind::Cycles => Hardware::CPU_CYCLES.into(),
        CounterKind::Instructions => Hardware::INSTRUCTIONS.into(),
        CounterKind::LastLevelCacheReferences => Hardware::CACHE_REFERENCES.into(),
        CounterKind::LastLevelCacheMisses => Hardware::CACHE_MISSES.into(),
        CounterKind::L1DataCacheReads => l1(WhichCache::L1D, CacheResult::ACCESS).into(),
        CounterKind::L1DataCacheMisses => l1(WhichCache::L1D, CacheResult::MISS).into(),
        CounterKind::L1InstructionCacheMisses => l1(WhichCache::L1I, CacheResult::MISS).into(),
        CounterKind::BranchInstructions => Hardware::BRANCH_INSTRUCTIONS.into(),
        CounterKind::BranchMisses => Hardware::BRANCH_MISSES.into(),
        CounterKind::CpuMigrations => Software::CPU_MIGRATIONS.into(),
    }
}

/// Relies on perf_event::Builder::build: programs one counter of `event`
/// into `group`, or fails where the host cannot count that event.
#[verifier::external_body]
fn add_counter(group: &mut perf_event::Group, event: perf_event::events::Event) -> std::io::Result<perf_event::Counter> {
    perf_event::Builder::new().group(group).kind(event).build()
}

/// Relies on perf_event::Counts::get: the value read for `counter`, if the
/// read holds one for it.
#[verifier::external_body]
fn count_of(counts: &perf_event::Counts, counter: &perf_event::Counter) -> Option<u64> {
    counts.get(counter).copied()
}

/// A counter group together with the handle of each counter programmed into
/// it, one slot per `CounterKind`.
pub struct PerfEventCollector {
    group: perf_event::Group,
    counters: Vec<Option<perf_event::Counter>>,
}

impl PerfEventCollector {
    pub closed spec fn wf(&self) -> bool {
        self.counters@.len() == COUNTER_KINDS
    }

    /// Whether a counter of kind `k` is in the group.
    pub closed spec fn armed(&self, k: CounterKind) -> bool {
        self.counters@[k.index_spec() as int] is Some
    }

    /// Opens a group holding exactly one counter of each kind that `config`
    /// sets. Any counter that cannot be programmed fails the whole group.
    pub fn new(config: &PerfEventConfig) -> (r: Result<PerfEventCollector, HarnessError>)
        ensures
            r is Ok ==> r->Ok_0.wf() && forall|k: CounterKind| r->Ok_0.armed(k) == config.has(k),
            r is Err ==> r->Err_0 == HarnessError::CollectorUnavailable,
    {
        let mut group = match perf_event::Group::new() {
            Ok(g) => g,
            Err(_) => return Err(HarnessError::CollectorUnavailable),
        };
        let mut counters: Vec<Option<perf_event::Counter>> = Vec::new();
        let mut i: usize = 0;
        while i < COUNTER_KINDS
            invariant
                i <= COUNTER_KINDS,
                counters@.len() == i,
                forall|j: int|
                    0 <= j < i ==> (counters@[j] is Some <==> config.has(
                        CounterKind::at_spec(j as nat),
                    )),
            decreases COUNTER_KINDS - i,
        {
            let kind = CounterKind::at(i);
            if config.is_set(kind) {
                match add_counter(&mut group, counter_event(kind)) {
                    Ok(c) => counters.push(Some(c)),
                    Err(_) => return Err(HarnessError::CollectorUnavailable),
                }
            } else {
                counters.push(None);
            }
            i = i + 1;
        }
        let r = PerfEventCollector { group, counters };
        proof {
            assert forall|k: CounterKind| r.armed(k) == config.has(k) by {
                crate::metrics::lemma_counter_index(k);
            }
        }
        Ok(r)
    }

    /// Starts every counter of the group at once.
    pub fn enable(&mut self) -> (r: Result<(), HarnessError>)
        requires
            old(self).wf(),
        ensures
            final(self).wf(),
            forall|k: CounterKind| final(self).armed(k) == old(self).armed(k),
            r is Err ==> r->Err_0 == HarnessError::CollectorUnavailable,
    {
        match self.group.enable() {
            Ok(()) => Ok(()),
            Err(_) => Err(HarnessError::CollectorUnavailable),
        }
    }

    /// Stops every counter of the group at once.
    pub fn disable(&mut self) -> (r: Result<(), HarnessError>)
        requires
            old(self).wf(),
        ensures
            final(self).wf(),
            forall|k: CounterKind| final(self).armed(k) == old(self).armed(k),
            r is Err ==> r->Err_0 == HarnessError::CollectorReadError,
    {
        match self.group.disable() {
            Ok(()) => Ok(()),
            Err(_) => Err(HarnessError::CollectorReadError),
        }
    }

    /// Reads every counter of the group in one read. The snapshot holds a
    /// value for exactly the counters in the group; a counter missing from
    /// the read fails it.
    pub fn read(&mut self) -> (r: Result<CounterSnapshot, HarnessError>)
        requires
            old(self).wf(),
        ensures
            final(self).wf(),
            forall|k: CounterKind| final(self).armed(k) == old(self).armed(k),
            r is Ok ==> r->Ok_0.wf() && forall|k: CounterKind|
                (count_in(r->Ok_0@, k) is Some <==> old(self).armed(k)),
            r is Err ==> r->Err_0 == HarnessError::CollectorReadError,
    {
        let counts = match self.group.read() {
            Ok(c) => c,
            Err(_) => return Err(HarnessError::CollectorReadError),
        };
        let mut snapshot = CounterSnapshot::new();
        let mut i: usize = 0;
        while i < COUNTER_KINDS
            invariant
                i <= COUNTER_KINDS,
                self.counters@ == old(self).counters@,
                self.wf(),
                snapshot.wf(),
                forall|j: nat|
                    j < COUNTER_KINDS ==> (count_in(snapshot@, #[trigger] CounterKind::at_spec(j))
                        is Some <==> (j < i && self.counters@[j as int] is Some)),
            decreases COUNTER_KINDS - i,
        {
            let kind = CounterKind::at(i);
            match &self.counters[i] {
                Some(c) => match count_of(&counts, c) {
                    Some(v) => snapshot.record(kind, v),
                    None => return Err(HarnessError::CollectorReadError),
                },
                None => {},
            }
            proof {
                assert forall|j: nat| j < COUNTER_KINDS implies (count_in(
                    snapshot@,
                    #[trigger] CounterKind::at_spec(j),
                ) is Some <==> (j < i + 1 && self.counters@[j as int] is Some)) by {
                    assert(CounterKind::at_spec(j).index_spec() == j);
                }
            }
            i = i + 1;
        }
        proof {
            assert forall|k: CounterKind|
                (count_in(snapshot@, k) is Some <==> old(self).armed(k)) by {
                crate::metrics::lemma_counter_index(k);
            }
        }
        Ok(snapshot)
    }

    /// Reads the group, stops it, and derives the requested metrics from
    /// what was read.
    pub fn report(&mut self, requested: &PerfReportConfig) -> (r: Result<
        PerfReport,
        HarnessError,
    >)
        requires
            old(self).wf(),
        ensures
            final(self).wf(),
            r is Ok ==> exists|s: Seq<Option<u64>>|
                #![trigger derive_spec(s, *requested)]
                s.len() == COUNTER_KINDS && (forall|k: CounterKind|
                    (count_in(s, k) is Some <==> old(self).armed(k))) && r->Ok_0 == derive_spec(
                    s,
                    *requested,
                ),
            r is Err ==> r->Err_0 == HarnessError::CollectorReadError,
    {
        let snapshot = self.read()?;
        self.disable()?;
        Ok(PerfReport::derive(&snapshot, requested))
    }
}

} // verus!
