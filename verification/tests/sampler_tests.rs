use metrics_agent::error::MetricsError;
use metrics_agent::metrics::{
    CpuLoadMetric, CpuMetrics, MemoryDetailedMetrics, MemoryMetrics, Metrics,
};
use metrics_agent::percent::Percent;
use metrics_agent::sampler::{
    build_metrics, sample_memory, utilization_between, Collection, CpuSnapshot, CpuTimes,
    SamplerState,
};

fn times(busy: u64, idle: u64) -> CpuTimes {
    CpuTimes { busy, idle }
}

fn snapshot(total: (u64, u64), cores: &[(u64, u64)]) -> CpuSnapshot {
    CpuSnapshot {
        total: times(total.0, total.1),
        cores: cores.iter().map(|c| times(c.0, c.1)).collect(),
    }
}

fn pct(hundredths: u32) -> Percent {
    Percent::new(hundredths).unwrap()
}

fn load_of(metrics: CpuMetrics) -> CpuLoadMetric {
    metrics.load.unwrap()
}

#[test]
fn utilization_is_busy_share_of_elapsed() {
    assert_eq!(utilization_between(&times(100, 100), &times(150, 150)), pct(5000));
    assert_eq!(utilization_between(&times(0, 0), &times(1, 2)), pct(3333));
    assert_eq!(utilization_between(&times(10, 10), &times(20, 10)), pct(10000));
    assert_eq!(utilization_between(&times(10, 10), &times(11, 1009)), pct(10));
}

#[test]
fn utilization_without_progress_is_zero() {
    assert_eq!(utilization_between(&times(100, 100), &times(100, 100)), pct(0));
    assert_eq!(utilization_between(&times(100, 100), &times(100, 500)), pct(0));
    // counters that went backwards
    assert_eq!(utilization_between(&times(100, 100), &times(50, 500)), pct(0));
    assert_eq!(utilization_between(&times(100, 100), &times(101, 10)), pct(0));
}

#[test]
fn utilization_with_idle_going_back_is_capped() {
    assert_eq!(utilization_between(&times(100, 100), &times(200, 90)), pct(10000));
}

#[test]
fn utilization_at_the_counter_limits() {
    let top = u64::MAX;
    assert_eq!(utilization_between(&times(0, 0), &times(top, top)), pct(5000));
    assert_eq!(utilization_between(&times(top - 1, top), &times(top, top)), pct(10000));
    assert_eq!(utilization_between(&times(top, top), &times(top, top)), pct(0));
}

#[test]
fn first_sample_is_all_zero() {
    let mut sampler = SamplerState::new(Collection::everything());
    assert!(!sampler.has_baseline());
    let first = sampler.sample_cpu(Some(snapshot((500, 500), &[(300, 200), (200, 300)])));
    let load = load_of(first.unwrap());
    assert_eq!(load.average, pct(0));
    assert_eq!(load.per_core, Some(vec![pct(0), pct(0)]));
    assert!(sampler.has_baseline());
}

#[test]
fn second_sample_is_the_delta_against_the_first() {
    let mut sampler = SamplerState::new(Collection::everything());
    sampler.sample_cpu(Some(snapshot((500, 500), &[(300, 200), (200, 300)]))).unwrap();
    let second = sampler.sample_cpu(Some(snapshot((600, 800), &[(400, 200), (200, 600)])));
    let load = load_of(second.unwrap());
    assert_eq!(load.average, pct(2500));
    assert_eq!(load.per_core, Some(vec![pct(10000), pct(0)]));
}

#[test]
fn second_sample_ignores_older_history() {
    let first = snapshot((1000, 1000), &[(1000, 1000)]);
    let second = snapshot((1010, 1030), &[(1030, 1010)]);

    let mut fresh = SamplerState::new(Collection::everything());
    fresh.sample_cpu(Some(first.clone())).unwrap();
    let from_fresh = fresh.sample_cpu(Some(second.clone())).unwrap();

    let mut used = SamplerState::new(Collection::everything());
    used.sample_cpu(Some(snapshot((1, 1), &[(7, 7), (8, 8)]))).unwrap();
    used.sample_cpu(Some(first)).unwrap();
    let from_used = used.sample_cpu(Some(second)).unwrap();

    assert_eq!(from_fresh, from_used);
    let load = load_of(from_fresh);
    assert_eq!(load.average, pct(2500));
    assert_eq!(load.per_core, Some(vec![pct(7500)]));
}

#[test]
fn two_samples_without_load_change_are_zero_and_in_range() {
    let reading = snapshot((12345, 67890), &[(12000, 60000), (345, 7890)]);
    let mut sampler = SamplerState::new(Collection::everything());
    let first = load_of(sampler.sample_cpu(Some(reading.clone())).unwrap());
    let second = load_of(sampler.sample_cpu(Some(reading)).unwrap());
    for load in [first, second] {
        assert!(load.average.hundredths() <= 10000);
        assert_eq!(load.average, pct(0));
        assert_eq!(load.per_core, Some(vec![pct(0), pct(0)]));
    }
}

#[test]
fn failed_read_is_unavailable_and_clears_the_baseline() {
    let mut sampler = SamplerState::new(Collection::everything());
    sampler.sample_cpu(Some(snapshot((100, 100), &[(100, 100)]))).unwrap();
    assert!(sampler.has_baseline());
    assert_eq!(sampler.sample_cpu(None), Err(MetricsError::SamplerUnavailable));
    assert!(!sampler.has_baseline());
    // the next reading has nothing to be measured against
    let next = load_of(sampler.sample_cpu(Some(snapshot((900, 100), &[(900, 100)]))).unwrap());
    assert_eq!(next.average, pct(0));
    assert_eq!(next.per_core, Some(vec![pct(0)]));
}

#[test]
fn per_core_has_one_value_for_each_core_read() {
    let mut sampler = SamplerState::new(Collection::everything());
    sampler.sample_cpu(Some(snapshot((10, 10), &[(10, 10)]))).unwrap();
    let load = load_of(
        sampler.sample_cpu(Some(snapshot((20, 20), &[(15, 15), (5, 5), (1, 1)]))).unwrap(),
    );
    // the cores that the baseline did not hold are at zero
    assert_eq!(load.per_core, Some(vec![pct(5000), pct(0), pct(0)]));
    let fewer = load_of(sampler.sample_cpu(Some(snapshot((30, 20), &[(16, 18)]))).unwrap());
    assert_eq!(fewer.average, pct(10000));
    assert_eq!(fewer.per_core, Some(vec![pct(2500)]));
    let none = load_of(sampler.sample_cpu(Some(snapshot((31, 21), &[]))).unwrap());
    assert_eq!(none.per_core, Some(vec![]));
}

#[test]
fn average_is_measured_on_the_total_counters() {
    let mut sampler = SamplerState::new(Collection::everything());
    sampler.sample_cpu(Some(snapshot((0, 0), &[(0, 0), (0, 0)]))).unwrap();
    let load = load_of(sampler.sample_cpu(Some(snapshot((1, 9), &[(5, 5), (5, 5)]))).unwrap());
    assert_eq!(load.average, pct(1000));
    assert_eq!(load.per_core, Some(vec![pct(5000), pct(5000)]));
}

#[test]
fn collection_switches_leave_parts_out() {
    let no_cores = Collection { cpu_load: true, per_core: false, memory_detailed: true };
    let mut sampler = SamplerState::new(no_cores);
    assert_eq!(sampler.collection(), no_cores);
    sampler.sample_cpu(Some(snapshot((0, 0), &[(0, 0)]))).unwrap();
    let load = load_of(sampler.sample_cpu(Some(snapshot((3, 1), &[(3, 1)]))).unwrap());
    assert_eq!(load, CpuLoadMetric { average: pct(7500), per_core: None });

    let no_load = Collection { cpu_load: false, per_core: true, memory_detailed: true };
    let mut sampler = SamplerState::new(no_load);
    let metrics = sampler.sample_cpu(Some(snapshot((3, 1), &[(3, 1)]))).unwrap();
    assert_eq!(metrics, CpuMetrics { load: None });
    // the baseline is kept all the same
    assert!(sampler.has_baseline());
    assert_eq!(sampler.sample_cpu(None), Err(MetricsError::SamplerUnavailable));
}

#[test]
fn memory_half_used_is_fifty_percent() {
    let counters =
        MemoryDetailedMetrics { total: 8_000_000_000, used: 4_000_000_000, free: 4_000_000_000 };
    let metrics = sample_memory(Some(counters), Collection::everything()).unwrap();
    assert_eq!(metrics.perc_used.hundredths(), 5000);
    assert_eq!(metrics.perc_used.hundredths() as f64 / 100.0, 50.0);
    assert_eq!(metrics.detailed, Some(counters));
}

#[test]
fn memory_share_is_rounded() {
    let counters = MemoryDetailedMetrics { total: 3, used: 2, free: 1 };
    let metrics = sample_memory(Some(counters), Collection::everything()).unwrap();
    assert_eq!(metrics.perc_used, pct(6667));
    let all = MemoryDetailedMetrics { total: u64::MAX, used: u64::MAX, free: 0 };
    assert_eq!(sample_memory(Some(all), Collection::everything()).unwrap().perc_used, pct(10000));
}

#[test]
fn memory_without_detail() {
    let counters = MemoryDetailedMetrics { total: 1000, used: 125, free: 800 };
    let off = Collection { cpu_load: true, per_core: true, memory_detailed: false };
    assert_eq!(
        sample_memory(Some(counters), off),
        Ok(MemoryMetrics { perc_used: pct(1250), detailed: None })
    );
}

#[test]
fn memory_of_empty_total_is_zero() {
    let counters = MemoryDetailedMetrics { total: 0, used: 0, free: 0 };
    let metrics = sample_memory(Some(counters), Collection::everything()).unwrap();
    assert_eq!(metrics.perc_used, pct(0));
}

#[test]
fn memory_failures_are_unavailable() {
    let everything = Collection::everything();
    assert_eq!(sample_memory(None, everything), Err(MetricsError::SamplerUnavailable));
    let too_much_used = MemoryDetailedMetrics { total: 10, used: 11, free: 0 };
    assert!(!too_much_used.is_consistent());
    assert_eq!(sample_memory(Some(too_much_used), everything), Err(MetricsError::SamplerUnavailable));
    let too_much_free = MemoryDetailedMetrics { total: 10, used: 1, free: 11 };
    assert_eq!(sample_memory(Some(too_much_free), everything), Err(MetricsError::SamplerUnavailable));
    let fine = MemoryDetailedMetrics { total: 10, used: 10, free: 10 };
    assert!(fine.is_consistent());
    assert!(sample_memory(Some(fine), everything).is_ok());
}

#[test]
fn build_metrics_holds_both_halves() {
    let mut sampler = SamplerState::new(Collection::everything());
    sampler.sample_cpu(Some(snapshot((0, 0), &[(0, 0)]))).unwrap();
    let counters = MemoryDetailedMetrics { total: 400, used: 100, free: 300 };
    let metrics =
        build_metrics(&mut sampler, Some(snapshot((1, 1), &[(1, 3)])), Some(counters)).unwrap();
    assert_eq!(
        metrics,
        Metrics {
            cpu: CpuMetrics {
                load: Some(CpuLoadMetric { average: pct(5000), per_core: Some(vec![pct(2500)]) }),
            },
            memory: MemoryMetrics { perc_used: pct(2500), detailed: Some(counters) },
        }
    );
}

#[test]
fn build_metrics_fails_as_a_whole() {
    let counters = MemoryDetailedMetrics { total: 400, used: 100, free: 300 };
    let reading = snapshot((1, 1), &[(1, 3)]);

    let mut sampler = SamplerState::new(Collection::everything());
    assert_eq!(
        build_metrics(&mut sampler, None, Some(counters)),
        Err(MetricsError::SamplerUnavailable)
    );
    assert!(!sampler.has_baseline());

    assert_eq!(
        build_metrics(&mut sampler, Some(reading.clone()), None),
        Err(MetricsError::SamplerUnavailable)
    );
    // the processors were sampled before the memory failed
    assert!(sampler.has_baseline());

    assert_eq!(build_metrics(&mut sampler, None, None), Err(MetricsError::SamplerUnavailable));
    assert!(build_metrics(&mut sampler, Some(reading), Some(counters)).is_ok());
}

#[test]
fn counters_from_millis_saturate() {
    assert_eq!(CpuTimes::from_millis(1500, 250), times(1500, 250));
    assert_eq!(CpuTimes::from_millis(0, u64::MAX as u128), times(0, u64::MAX));
    assert_eq!(CpuTimes::from_millis(u64::MAX as u128 + 1, 7), times(u64::MAX, 7));
    assert_eq!(CpuTimes::from_millis(u128::MAX, u128::MAX), times(u64::MAX, u64::MAX));
}
