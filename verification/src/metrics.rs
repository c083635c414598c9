//! The metrics model: what a snapshot of the host's utilisation holds.
//!
//! Each executable type has a mathematical model as its view, in which a
//! percentage is its number of hundredths and a vector is a sequence.

use vstd::prelude::*;
use crate::percent::Percent;

verus! {

/// The hundredths that a sequence of percentages counts, in order.
pub open spec fn hundredths_of(percents: Seq<Percent>) -> Seq<nat> {
    Seq::new(percents.len(), |i: int| percents[i]@)
}

/// Model of `CpuLoadMetric`.
pub struct CpuLoadModel {
    pub average: nat,
    pub per_core: Option<Seq<nat>>,
}

impl CpuLoadModel {
    /// Every percentage is at most 100 %.
    pub open spec fn valid(self) -> bool {
        &&& self.average <= 10000
        &&& self.per_core matches Some(cores) ==> forall|i: int|
            0 <= i < cores.len() ==> #[trigger] cores[i] <= 10000
    }
}

/// Model of `CpuMetrics`.
pub struct CpuModel {
    pub load: Option<CpuLoadModel>,
}

impl CpuModel {
    /// Every percentage is at most 100 %.
    pub open spec fn valid(self) -> bool {
        self.load matches Some(load) ==> load.valid()
    }
}

/// Model of `MemoryMetrics`.
pub struct MemoryModel {
    pub perc_used: nat,
    pub detailed: Option<MemoryDetailedMetrics>,
}

impl MemoryModel {
    /// The percentage is at most 100 % and the byte counts are consistent.
    pub open spec fn valid(self) -> bool {
        &&& self.perc_used <= 10000
        &&& self.detailed matches Some(detail) ==> detail.consistent()
    }
}

/// Model of `Metrics`.
pub struct MetricsModel {
    pub cpu: CpuModel,
    pub memory: MemoryModel,
}

impl MetricsModel {
    /// Both halves are valid.
    pub open spec fn valid(self) -> bool {
        self.cpu.valid() && self.memory.valid()
    }
}

/// The utilisation of the processors: over all of them, and optionally of
/// each logical core in the order in which the system numbers them.
///
/// The average is measured on the system-wide counters. It is not derived
/// from the per-core values and need not equal their mean.
#[derive(Clone, Debug, PartialEq, Eq)]
pub struct CpuLoadMetric {
    pub average: Percent,
    pub per_core: Option<Vec<Percent>>,
}

impl View for CpuLoadMetric {
    type V = CpuLoadModel;

    open spec fn view(&self) -> CpuLoadModel {
        CpuLoadModel {
            average: self.average@,
            per_core: match self.per_core {
                Some(cores) => Some(hundredths_of(cores@)),
                None => None,
            },
        }
    }
}

/// The processor metrics. `load` is absent only where the collection of the
/// CPU load is switched off.
#[derive(Clone, Debug, PartialEq, Eq)]
pub struct CpuMetrics {
    pub load: Option<CpuLoadMetric>,
}

impl View for CpuMetrics {
    type V = CpuModel;

    open spec fn view(&self) -> CpuModel {
        CpuModel {
            load: match self.load {
                Some(load) => Some(load@),
                None => None,
            },
        }
    }
}

/// Memory quantities in bytes.
#[derive(Clone, Copy, Debug, PartialEq, Eq, Structural)]
pub struct MemoryDetailedMetrics {
    pub total: u64,
    pub used: u64,
    pub free: u64,
}

impl MemoryDetailedMetrics {
    /// Neither the used nor the free memory exceeds the total.
    pub open spec fn consistent(self) -> bool {
        self.used <= self.total && self.free <= self.total
    }

    /// Whether neither the used nor the free memory exceeds the total.
    pub fn is_consistent(&self) -> (r: bool)
        ensures
            r == self.consistent(),
    {
        self.used <= self.total && self.free <= self.total
    }
}

/// The memory metrics: the used share of the total, and optionally the byte
/// counts that it was computed from.
#[derive(Clone, Copy, Debug, PartialEq, Eq, Structural)]
pub struct MemoryMetrics {
    pub perc_used: Percent,
    pub detailed: Option<MemoryDetailedMetrics>,
}

impl View for MemoryMetrics {
    type V = MemoryModel;

    open spec fn view(&self) -> MemoryModel {
        MemoryModel { perc_used: self.perc_used@, detailed: self.detailed }
    }
}

/// One snapshot of processor and memory metrics. The two halves are sampled
/// one after the other, not at one instant.
#[derive(Clone, Debug, PartialEq, Eq)]
pub struct Metrics {
    pub cpu: CpuMetrics,
    pub memory: MemoryMetrics,
}

impl View for Metrics {
    type V = MetricsModel;

    open spec fn view(&self) -> MetricsModel {
        MetricsModel { cpu: self.cpu@, memory: self.memory@ }
    }
}

} // verus!
