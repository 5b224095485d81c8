use revm_bench::{CounterKind, Metric, PerfEventConfig, PerfReportConfig};

fn only_instructions() -> PerfReportConfig {
    PerfReportConfig { instructions: true, ..PerfReportConfig::none() }
}

fn set_counters(config: &PerfEventConfig) -> Vec<CounterKind> {
    (0..10).map(CounterKind::at).filter(|k| config.is_set(*k)).collect()
}

#[test]
fn instructions_alone_need_the_instruction_counter() {
    let required = PerfEventConfig::resolve(&only_instructions());
    assert_eq!(set_counters(&required), vec![CounterKind::Instructions]);
}

#[test]
fn instructions_and_ipc_share_the_instruction_counter() {
    let requested = PerfReportConfig { instructions_per_cycle: true, ..only_instructions() };
    let required = PerfEventConfig::resolve(&requested);
    assert_eq!(set_counters(&required), vec![CounterKind::Cycles, CounterKind::Instructions]);
}

#[test]
fn resolving_twice_gives_the_same_counters() {
    let requested = PerfReportConfig {
        last_level_cache_hit_rate: true,
        branch_miss_ratio: true,
        ..PerfReportConfig::none()
    };
    let first = PerfEventConfig::resolve(&requested);
    let second = PerfEventConfig::resolve(&requested);
    assert_eq!(first, second);
    assert_eq!(
        set_counters(&first),
        vec![
            CounterKind::LastLevelCacheReferences,
            CounterKind::LastLevelCacheMisses,
            CounterKind::BranchInstructions,
            CounterKind::BranchMisses,
        ]
    );
}

#[test]
fn nothing_requested_needs_no_counter() {
    let required = PerfEventConfig::resolve(&PerfReportConfig::none());
    assert!(required.is_empty());
    assert!(PerfReportConfig::none().is_empty());
    assert_eq!(required, PerfEventConfig::empty());
}

#[test]
fn every_metric_needs_every_counter() {
    let requested = PerfReportConfig {
        instructions: true,
        instructions_per_cycle: true,
        last_level_cache_hit_rate: true,
        l1_data_cache_hit_rate: true,
        l1_instruction_cache_misses: true,
        branch_miss_ratio: true,
        cpu_migrations: true,
    };
    let required: PerfEventConfig = requested.into();
    assert_eq!(set_counters(&required).len(), 10);
    assert!(!requested.is_empty());
}

#[test]
fn each_metric_maps_to_its_table_row() {
    let rows = [
        (Metric::L1DataCacheHitRate, vec![CounterKind::L1DataCacheReads, CounterKind::L1DataCacheMisses]),
        (Metric::L1InstructionCacheMisses, vec![CounterKind::L1InstructionCacheMisses]),
        (Metric::CpuMigrations, vec![CounterKind::CpuMigrations]),
    ];
    for (metric, counters) in rows {
        assert_eq!(metric.counters(), counters);
    }
    let requested = PerfReportConfig { cpu_migrations: true, ..PerfReportConfig::none() };
    assert_eq!(set_counters(&PerfEventConfig::from(requested)), vec![CounterKind::CpuMigrations]);
}

#[test]
fn counter_kinds_round_trip_through_their_index() {
    for i in 0..10 {
        assert_eq!(CounterKind::at(i).index(), i);
    }
    for i in 0..7 {
        assert!(PerfReportConfig::none().wants_metric(Metric::at(i)) == false);
    }
}
