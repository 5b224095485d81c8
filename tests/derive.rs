use revm_bench::{CounterKind, CounterSnapshot, PerfReport, PerfReportConfig, Ratio};

fn value(r: Option<Ratio>) -> Option<f64> {
    r.map(|r| r.numerator as f64 / r.denominator as f64)
}

fn all_metrics() -> PerfReportConfig {
    PerfReportConfig {
        instructions: true,
        instructions_per_cycle: true,
        last_level_cache_hit_rate: true,
        l1_data_cache_hit_rate: true,
        l1_instruction_cache_misses: true,
        branch_miss_ratio: true,
        cpu_migrations: true,
    }
}

#[test]
fn zero_references_leave_the_hit_rate_absent() {
    let mut snapshot = CounterSnapshot::new();
    snapshot.record(CounterKind::LastLevelCacheReferences, 0);
    snapshot.record(CounterKind::LastLevelCacheMisses, 0);
    let report = PerfReport::derive(&snapshot, &all_metrics());
    assert_eq!(report.last_level_cache_hit_rate, None);
}

#[test]
fn instructions_per_cycle_is_exact() {
    let mut snapshot = CounterSnapshot::new();
    snapshot.record(CounterKind::Instructions, 1000);
    snapshot.record(CounterKind::Cycles, 500);
    let report = PerfReport::derive(&snapshot, &all_metrics());
    assert_eq!(report.instructions_per_cycle, Some(Ratio { numerator: 1000, denominator: 500 }));
    assert_eq!(value(report.instructions_per_cycle), Some(2.0));
    assert_eq!(value(report.instructions), Some(1000.0));
}

#[test]
fn zero_cycles_leave_instructions_per_cycle_absent() {
    let mut snapshot = CounterSnapshot::new();
    snapshot.record(CounterKind::Instructions, 1000);
    snapshot.record(CounterKind::Cycles, 0);
    let report = PerfReport::derive(&snapshot, &all_metrics());
    assert_eq!(report.instructions_per_cycle, None);
    assert_eq!(value(report.instructions), Some(1000.0));
}

#[test]
fn hit_rates_are_one_minus_the_miss_share() {
    let mut snapshot = CounterSnapshot::new();
    snapshot.record(CounterKind::LastLevelCacheReferences, 200);
    snapshot.record(CounterKind::LastLevelCacheMisses, 50);
    snapshot.record(CounterKind::L1DataCacheReads, 1000);
    snapshot.record(CounterKind::L1DataCacheMisses, 100);
    let report = PerfReport::derive(&snapshot, &all_metrics());
    assert_eq!(value(report.last_level_cache_hit_rate), Some(0.75));
    assert_eq!(value(report.l1_data_cache_hit_rate), Some(0.9));
}

#[test]
fn branch_miss_ratio_and_raw_counts() {
    let mut snapshot = CounterSnapshot::new();
    snapshot.record(CounterKind::BranchInstructions, 100);
    snapshot.record(CounterKind::BranchMisses, 5);
    snapshot.record(CounterKind::L1InstructionCacheMisses, 42);
    snapshot.record(CounterKind::CpuMigrations, 0);
    let report = PerfReport::derive(&snapshot, &all_metrics());
    assert_eq!(value(report.branch_miss_ratio), Some(0.05));
    assert_eq!(value(report.l1_instruction_cache_misses), Some(42.0));
    assert_eq!(value(report.cpu_migrations), Some(0.0));
    assert_eq!(report.instructions, None);
    assert_eq!(report.last_level_cache_hit_rate, None);
}

#[test]
fn unrequested_metrics_stay_absent() {
    let mut snapshot = CounterSnapshot::new();
    for i in 0..10 {
        snapshot.record(CounterKind::at(i), 7);
    }
    let requested = PerfReportConfig { branch_miss_ratio: true, ..PerfReportConfig::none() };
    let report = PerfReport::derive(&snapshot, &requested);
    assert_eq!(value(report.branch_miss_ratio), Some(1.0));
    assert_eq!(report.instructions, None);
    assert_eq!(report.instructions_per_cycle, None);
    assert_eq!(report.cpu_migrations, None);
}

#[test]
fn snapshot_records_one_counter_at_a_time() {
    let mut snapshot = CounterSnapshot::new();
    assert_eq!(snapshot.count(CounterKind::Cycles), None);
    snapshot.record(CounterKind::Cycles, 3);
    assert_eq!(snapshot.count(CounterKind::Cycles), Some(3));
    assert_eq!(snapshot.count(CounterKind::Instructions), None);
}
