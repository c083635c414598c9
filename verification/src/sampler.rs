//! The samplers: the stateful one for the processors, the stateless one for
//! memory, and the assembly of both into one snapshot.
//!
//! The samplers do not read the operating system themselves. The caller
//! reads the counters and hands them in: `Some` for what was read, `None`
//! where the read failed. What is computed from them is decided here.
//!
//! The processor utilisation is a rate. It is measured between two readings
//! of the cumulative busy and idle counters: the busy time that was added,
//! as a share of the time that passed, which is the busy and idle time that
//! was added. The earlier reading is the baseline, which the sampler keeps.
//!
//! Policy for the first call: a sampler without a baseline reports 0 % for
//! every value and makes the reading its baseline. It never waits.

use vstd::prelude::*;
use crate::error::MetricsError;
use crate::metrics::{
    CpuLoadMetric, CpuLoadModel, CpuMetrics, CpuModel, MemoryDetailedMetrics, MemoryMetrics,
    MemoryModel, Metrics, MetricsModel,
};
use crate::percent::Percent;
use crate::ratio::{lemma_rounded_share_bounded, rounded_share};

verus! {

/// Cumulative processor time, in the unit of the system's clock: the time
/// spent working and the time spent idle since the system started.
#[derive(Clone, Copy, Debug, PartialEq, Eq, Structural)]
pub struct CpuTimes {
    pub busy: u64,
    pub idle: u64,
}

/// A time in milliseconds as a counter holds it: itself where it fits into
/// 64 bits, the largest counter value where it does not.
pub open spec fn saturated(millis: u128) -> u64 {
    if millis <= u64::MAX {
        millis as u64
    } else {
        u64::MAX
    }
}

impl CpuTimes {
    /// The counters for a busy and an idle time in milliseconds. A time
    /// beyond 64 bits is held at the largest counter value.
    pub fn from_millis(busy: u128, idle: u128) -> (r: CpuTimes)
        ensures
            r == (CpuTimes { busy: saturated(busy), idle: saturated(idle) }),
    {
        let top: u128 = u64::MAX as u128;
        CpuTimes {
            busy: if busy <= top {
                busy as u64
            } else {
                u64::MAX
            },
            idle: if idle <= top {
                idle as u64
            } else {
                u64::MAX
            },
        }
    }
}

/// One reading of the processor counters: system-wide, and of each logical
/// core.
#[derive(Clone, Debug, PartialEq, Eq)]
pub struct CpuSnapshot {
    pub total: CpuTimes,
    pub cores: Vec<CpuTimes>,
}

/// Model of `CpuSnapshot`.
pub struct SnapshotModel {
    pub total: CpuTimes,
    pub cores: Seq<CpuTimes>,
}

impl View for CpuSnapshot {
    type V = SnapshotModel;

    open spec fn view(&self) -> SnapshotModel {
        SnapshotModel { total: self.total, cores: self.cores@ }
    }
}

/// The model of a reading that may have failed.
pub open spec fn reading_model(reading: Option<CpuSnapshot>) -> Option<SnapshotModel> {
    match reading {
        Some(snapshot) => Some(snapshot@),
        None => None,
    }
}

/// Which optional parts of the metrics are collected.
#[derive(Clone, Copy, Debug, PartialEq, Eq, Structural)]
pub struct Collection {
    /// Whether the CPU load is collected at all.
    pub cpu_load: bool,
    /// Whether the CPU load holds a value for each logical core.
    pub per_core: bool,
    /// Whether the memory metrics hold the byte counts.
    pub memory_detailed: bool,
}

impl Collection {
    /// Everything is collected.
    pub fn everything() -> (r: Collection)
        ensures
            r == (Collection { cpu_load: true, per_core: true, memory_detailed: true }),
    {
        Collection { cpu_load: true, per_core: true, memory_detailed: true }
    }
}

/// The utilisation between two readings of one counter pair, in hundredths
/// of a percent.
///
/// It is 0 where the counters did not advance: where no busy time was added,
/// or no time passed.
pub open spec fn utilization(earlier: CpuTimes, later: CpuTimes) -> nat {
    let before = earlier.busy + earlier.idle;
    let after = later.busy + later.idle;
    if later.busy <= earlier.busy || after <= before {
        0
    } else {
        rounded_share((later.busy - earlier.busy) as nat, (after - before) as nat)
    }
}

/// The utilisation of the core with the given index. A core that the
/// baseline does not hold has no earlier reading, and is at 0 %.
pub open spec fn core_utilization(
    baseline: Option<SnapshotModel>,
    current: SnapshotModel,
    core: int,
) -> nat {
    match baseline {
        Some(earlier) => if core < earlier.cores.len() {
            utilization(earlier.cores[core], current.cores[core])
        } else {
            0
        },
        None => 0,
    }
}

/// The CPU load that a reading shows against a baseline.
pub open spec fn load_between(
    baseline: Option<SnapshotModel>,
    current: SnapshotModel,
    per_core: bool,
) -> CpuLoadModel {
    CpuLoadModel {
        average: match baseline {
            Some(earlier) => utilization(earlier.total, current.total),
            None => 0,
        },
        per_core: if per_core {
            Some(
                Seq::new(
                    current.cores.len(),
                    |core: int| core_utilization(baseline, current, core),
                ),
            )
        } else {
            None
        },
    }
}

/// What a request for the processor metrics returns.
pub open spec fn cpu_outcome(
    baseline: Option<SnapshotModel>,
    reading: Option<SnapshotModel>,
    collection: Collection,
) -> Result<CpuModel, MetricsError> {
    match reading {
        None => Err(MetricsError::SamplerUnavailable),
        Some(current) => Ok(
            CpuModel {
                load: if collection.cpu_load {
                    Some(load_between(baseline, current, collection.per_core))
                } else {
                    None
                },
            },
        ),
    }
}

/// Whether a reading of the memory counters can be used: neither the used
/// nor the free memory exceeds the total.
pub open spec fn usable(reading: Option<MemoryDetailedMetrics>) -> bool {
    reading matches Some(counters) && counters.consistent()
}

/// What a request for the memory metrics returns. A reading whose counters
/// contradict each other counts as a failed read.
pub open spec fn memory_outcome(
    reading: Option<MemoryDetailedMetrics>,
    collection: Collection,
) -> Result<MemoryModel, MetricsError> {
    match reading {
        Some(counters) if counters.consistent() => Ok(
            MemoryModel {
                perc_used: rounded_share(counters.used as nat, counters.total as nat),
                detailed: if collection.memory_detailed {
                    Some(counters)
                } else {
                    None
                },
            },
        ),
        _ => Err(MetricsError::SamplerUnavailable),
    }
}

/// What a request for the whole snapshot returns: both halves, or the
/// failure of the one that failed.
pub open spec fn metrics_outcome(
    baseline: Option<SnapshotModel>,
    cpu_reading: Option<SnapshotModel>,
    memory_reading: Option<MemoryDetailedMetrics>,
    collection: Collection,
) -> Result<MetricsModel, MetricsError> {
    match (
        cpu_outcome(baseline, cpu_reading, collection),
        memory_outcome(memory_reading, collection),
    ) {
        (Ok(cpu), Ok(memory)) => Ok(MetricsModel { cpu, memory }),
        _ => Err(MetricsError::SamplerUnavailable),
    }
}

/// Computes `utilization`.
pub fn utilization_between(earlier: &CpuTimes, later: &CpuTimes) -> (r: Percent)
    ensures
        r@ == utilization(*earlier, *later),
        r.in_range(),
{
    let before: u128 = earlier.busy as u128 + earlier.idle as u128;
    let after: u128 = later.busy as u128 + later.idle as u128;
    if later.busy <= earlier.busy || after <= before {
        Percent::zero()
    } else {
        Percent::from_wide_ratio((later.busy - earlier.busy) as u128, after - before)
    }
}

/// Model of `SamplerState`.
pub struct SamplerModel {
    pub baseline: Option<SnapshotModel>,
    pub collection: Collection,
}

/// The sampler after a call that was handed `reading`: the reading is the
/// new baseline, whether it succeeded or not.
pub open spec fn after_sample(state: SamplerModel, reading: Option<SnapshotModel>) -> SamplerModel {
    SamplerModel { baseline: reading, collection: state.collection }
}

/// The state of the processor sampler: the baseline, which is the reading
/// that the last call was given, and what is collected.
///
/// A process holds one value of this type. Every call that samples the
/// processors takes it by `&mut`, so that no two calls can touch the
/// baseline at once: a caller that shares it between threads keeps it
/// behind a lock and holds the lock for the call.
#[derive(Debug)]
pub struct SamplerState {
    baseline: Option<CpuSnapshot>,
    collection: Collection,
}

impl View for SamplerState {
    type V = SamplerModel;

    closed spec fn view(&self) -> SamplerModel {
        SamplerModel { baseline: reading_model(self.baseline), collection: self.collection }
    }
}

impl SamplerState {
    /// A sampler without a baseline.
    pub fn new(collection: Collection) -> (r: SamplerState)
        ensures
            r@ == (SamplerModel { baseline: None, collection }),
    {
        SamplerState { baseline: None, collection }
    }

    /// What is collected.
    pub fn collection(&self) -> (r: Collection)
        ensures
            r == self@.collection,
    {
        self.collection
    }

    /// Whether an earlier reading is kept.
    pub fn has_baseline(&self) -> (r: bool)
        ensures
            r == (self@.baseline is Some),
    {
        self.baseline.is_some()
    }

    /// The CPU load that `current` shows against the baseline.
    fn load(&self, current: &CpuSnapshot) -> (r: CpuLoadMetric)
        ensures
            r@ == load_between(self@.baseline, current@, self@.collection.per_core),
    {
        let average = match &self.baseline {
            Some(earlier) => utilization_between(&earlier.total, &current.total),
            None => Percent::zero(),
        };
        let per_core = if self.collection.per_core {
            let mut cores: Vec<Percent> = Vec::new();
            let mut i: usize = 0;
            while i < current.cores.len()
                invariant
                    i <= current.cores.len(),
                    cores.len() == i,
                    forall|k: int|
                        0 <= k < i ==> (#[trigger] cores[k])@ == core_utilization(
                            self@.baseline,
                            current@,
                            k,
                        ),
                decreases current.cores.len() - i,
            {
                let share = match &self.baseline {
                    Some(earlier) => if i < earlier.cores.len() {
                        utilization_between(&earlier.cores[i], &current.cores[i])
                    } else {
                        Percent::zero()
                    },
                    None => Percent::zero(),
                };
                cores.push(share);
                i += 1;
            }
            Some(cores)
        } else {
            None
        };
        let r = CpuLoadMetric { average, per_core };
        proof {
            let want = load_between(self@.baseline, current@, self@.collection.per_core);
            if self.collection.per_core {
                assert(r@.per_core->0 =~= want.per_core->0);
            }
        }
        r
    }

    /// Samples the processors.
    ///
    /// `reading` is the reading of the counters that the caller has just
    /// taken, `None` where it failed. With a reading, the result holds the
    /// utilisation between the baseline and the reading; without one, the
    /// call fails with `SamplerUnavailable`. Either way the baseline is
    /// replaced by what was handed in: after a failed read there is none,
    /// and the next call starts afresh.
    pub fn sample_cpu(&mut self, reading: Option<CpuSnapshot>) -> (r: Result<
        CpuMetrics,
        MetricsError,
    >)
        ensures
            final(self)@ == after_sample(old(self)@, reading_model(reading)),
            match r {
                Ok(metrics) => cpu_outcome(
                    old(self)@.baseline,
                    reading_model(reading),
                    old(self)@.collection,
                ) == Ok::<CpuModel, MetricsError>(metrics@),
                Err(e) => cpu_outcome(
                    old(self)@.baseline,
                    reading_model(reading),
                    old(self)@.collection,
                ) == Err::<CpuModel, MetricsError>(e),
            },
    {
        match reading {
            None => {
                self.baseline = None;
                Err(MetricsError::SamplerUnavailable)
            },
            Some(current) => {
                let load = if self.collection.cpu_load {
                    Some(self.load(&current))
                } else {
                    None
                };
                self.baseline = Some(current);
                Ok(CpuMetrics { load })
            },
        }
    }
}

/// Samples the memory. It keeps no state and needs no lock.
///
/// `reading` holds the byte counts that the caller has just read, `None`
/// where the read failed. The call fails with `SamplerUnavailable` without
/// a reading, and on one whose used or free memory exceeds the total.
/// Otherwise the used share of the total is reported, 0 % of a total of 0.
pub fn sample_memory(reading: Option<MemoryDetailedMetrics>, collection: Collection) -> (r: Result<
    MemoryMetrics,
    MetricsError,
>)
    ensures
        match r {
            Ok(metrics) => memory_outcome(reading, collection) == Ok::<MemoryModel, MetricsError>(
                metrics@,
            ),
            Err(e) => memory_outcome(reading, collection) == Err::<MemoryModel, MetricsError>(e),
        },
{
    match reading {
        Some(counters) => {
            if counters.is_consistent() {
                let perc_used = Percent::from_ratio(counters.used, counters.total);
                let detailed = if collection.memory_detailed {
                    Some(counters)
                } else {
                    None
                };
                Ok(MemoryMetrics { perc_used, detailed })
            } else {
                Err(MetricsError::SamplerUnavailable)
            }
        },
        None => Err(MetricsError::SamplerUnavailable),
    }
}

/// Takes one snapshot of processors and memory: first the processors, then
/// the memory.
///
/// It returns the complete snapshot or fails; it never returns a part. The
/// baseline is replaced by the processor reading in every case, also where
/// the memory could not be read.
pub fn build_metrics(
    sampler: &mut SamplerState,
    cpu_reading: Option<CpuSnapshot>,
    memory_reading: Option<MemoryDetailedMetrics>,
) -> (r: Result<Metrics, MetricsError>)
    ensures
        final(sampler)@ == after_sample(old(sampler)@, reading_model(cpu_reading)),
        match r {
            Ok(metrics) => metrics_outcome(
                old(sampler)@.baseline,
                reading_model(cpu_reading),
                memory_reading,
                old(sampler)@.collection,
            ) == Ok::<MetricsModel, MetricsError>(metrics@),
            Err(e) => metrics_outcome(
                old(sampler)@.baseline,
                reading_model(cpu_reading),
                memory_reading,
                old(sampler)@.collection,
            ) == Err::<MetricsModel, MetricsError>(e),
        },
{
    let collection = sampler.collection();
    let cpu = sampler.sample_cpu(cpu_reading);
    let memory = sample_memory(memory_reading, collection);
    match (cpu, memory) {
        (Ok(cpu), Ok(memory)) => Ok(Metrics { cpu, memory }),
        _ => Err(MetricsError::SamplerUnavailable),
    }
}

/// The utilisation between two readings is at most 100 %.
pub proof fn lemma_utilization_bounded(earlier: CpuTimes, later: CpuTimes)
    ensures
        utilization(earlier, later) <= 10000,
{
    let before = earlier.busy + earlier.idle;
    let after = later.busy + later.idle;
    if !(later.busy <= earlier.busy || after <= before) {
        lemma_rounded_share_bounded(
            (later.busy - earlier.busy) as nat,
            (after - before) as nat,
        );
    }
}

/// Counters that did not move show no load: a reading measured against
/// itself is at 0 %.
pub proof fn lemma_no_progress_is_idle(times: CpuTimes)
    ensures
        utilization(times, times) == 0,
{
}

/// Every processor metric that a sample returns is valid: each percentage
/// is at most 100 %, and the per-core values, where present, are as many as
/// the reading has cores.
pub proof fn lemma_cpu_outcome_valid(
    baseline: Option<SnapshotModel>,
    reading: Option<SnapshotModel>,
    collection: Collection,
)
    ensures
        cpu_outcome(baseline, reading, collection) matches Ok(cpu) ==> {
            &&& cpu.valid()
            &&& cpu.load is Some <==> collection.cpu_load
            &&& cpu.load matches Some(load) ==> (load.per_core is Some <==> collection.per_core)
            &&& cpu.load matches Some(load) ==> (load.per_core matches Some(cores)
                ==> cores.len() == reading->0.cores.len())
        },
{
    if let Some(current) = reading {
        if collection.cpu_load {
            let load = load_between(baseline, current, collection.per_core);
            if let Some(earlier) = baseline {
                lemma_utilization_bounded(earlier.total, current.total);
            }
            if collection.per_core {
                let cores = load.per_core->0;
                assert forall|i: int| 0 <= i < cores.len() implies #[trigger] cores[i] <= 10000 by {
                    if let Some(earlier) = baseline {
                        if i < earlier.cores.len() {
                            lemma_utilization_bounded(earlier.cores[i], current.cores[i]);
                        }
                    }
                }
            }
        }
    }
}

/// Every memory metric that a sample returns is valid, and its percentage
/// is the used share of the total.
pub proof fn lemma_memory_outcome_valid(
    reading: Option<MemoryDetailedMetrics>,
    collection: Collection,
)
    ensures
        memory_outcome(reading, collection) is Ok <==> usable(reading),
        memory_outcome(reading, collection) matches Ok(memory) ==> {
            &&& memory.valid()
            &&& memory.perc_used == rounded_share(reading->0.used as nat, reading->0.total as nat)
            &&& memory.detailed is Some <==> collection.memory_detailed
        },
{
    if let Some(counters) = reading {
        lemma_rounded_share_bounded(counters.used as nat, counters.total as nat);
    }
}

/// A snapshot is complete or it is a failure: it succeeds exactly when both
/// reads succeeded, and then holds what each sampler returns on its own.
pub proof fn lemma_metrics_outcome_complete(
    baseline: Option<SnapshotModel>,
    cpu_reading: Option<SnapshotModel>,
    memory_reading: Option<MemoryDetailedMetrics>,
    collection: Collection,
)
    ensures
        metrics_outcome(baseline, cpu_reading, memory_reading, collection) is Ok <==> (
        cpu_reading is Some && usable(memory_reading)),
        metrics_outcome(baseline, cpu_reading, memory_reading, collection) matches Ok(metrics)
            ==> {
            &&& metrics.valid()
            &&& cpu_outcome(baseline, cpu_reading, collection) == Ok::<CpuModel, MetricsError>(
                metrics.cpu,
            )
            &&& memory_outcome(memory_reading, collection) == Ok::<MemoryModel, MetricsError>(
                metrics.memory,
            )
        },
        metrics_outcome(baseline, cpu_reading, memory_reading, collection) matches Err(e) ==> e
            == MetricsError::SamplerUnavailable,
{
    lemma_cpu_outcome_valid(baseline, cpu_reading, collection);
    lemma_memory_outcome_valid(memory_reading, collection);
}

/// The first sample of a sampler without a baseline reports 0 % throughout.
pub proof fn lemma_first_sample_is_zero(current: SnapshotModel, per_core: bool)
    ensures
        load_between(None, current, per_core).average == 0,
        load_between(None, current, per_core).per_core matches Some(cores) ==> forall|i: int|
            0 <= i < cores.len() ==> #[trigger] cores[i] == 0,
{
}

/// Of two samples in a row, the second is measured against the first
/// reading and against nothing else: whatever the sampler held before the
/// first call, the second call returns the load between the two readings,
/// and every value of it is valid.
pub proof fn lemma_second_sample_measures_from_first(
    before: SamplerModel,
    first: SnapshotModel,
    second: SnapshotModel,
)
    ensures
        ({
            let between = after_sample(before, Some(first));
            let outcome = cpu_outcome(between.baseline, Some(second), between.collection);
            &&& outcome == cpu_outcome(Some(first), Some(second), before.collection)
            &&& outcome matches Ok(cpu) && cpu.valid()
            &&& after_sample(between, Some(second)).baseline == Some(second)
        }),
{
    lemma_cpu_outcome_valid(Some(first), Some(second), before.collection);
}

} // verus!
