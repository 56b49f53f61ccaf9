//! The memory metrics collector: six fixed descriptors built at
//! construction, and a collection operation that refreshes the locked OS
//! snapshot and returns one sample per descriptor, all from that refresh.

use vstd::prelude::*;

use crate::metrics::{
    DescriptorModel, MemoryReading, MetricDescriptor, MetricKind, MetricSample, SampleModel,
};
use crate::names::{
    fq_name, is_valid_metric_name, spec_fq_name, valid_metric_name,
};
use crate::sysmem;

verus! {

/// The namespace shared by every collector of this process.
pub const NAMESPACE: &'static str = "aptos";

/// A descriptor model is the series `<ns>_<short>` with the given help text
/// and kind.
pub open spec fn descriptor_built(
    d: DescriptorModel,
    ns: Seq<char>,
    short: Seq<char>,
    help: Seq<char>,
    kind: MetricKind,
) -> bool {
    &&& d.name == spec_fq_name(ns, short)
    &&& d.help == help
    &&& d.kind == kind
}

/// Exposes system memory and swap utilization as six metric samples.
pub struct MemoryMetricsCollector {
    pub system: std::sync::Mutex<sysinfo::System>,
    pub mem_total: MetricDescriptor,
    pub mem_used: MetricDescriptor,
    pub mem_free: MetricDescriptor,
    pub swap_total: MetricDescriptor,
    pub swap_used: MetricDescriptor,
    pub swap_free: MetricDescriptor,
}

impl MemoryMetricsCollector {
    /// The collector's descriptors are exactly the six memory series under
    /// namespace `ns`: fixed short names, fixed help texts, totals as
    /// counters, the rest as gauges.
    pub open spec fn built_with(self, ns: Seq<char>) -> bool {
        &&& descriptor_built(
            self.mem_total@,
            ns,
            "system_mem_total"@,
            "Memory total."@,
            MetricKind::Counter,
        )
        &&& descriptor_built(
            self.mem_used@,
            ns,
            "system_mem_used"@,
            "Memory used."@,
            MetricKind::Gauge,
        )
        &&& descriptor_built(
            self.mem_free@,
            ns,
            "system_mem_free"@,
            "Memory free."@,
            MetricKind::Gauge,
        )
        &&& descriptor_built(
            self.swap_total@,
            ns,
            "system_swap_total"@,
            "Swap memory total."@,
            MetricKind::Counter,
        )
        &&& descriptor_built(
            self.swap_used@,
            ns,
            "system_swap_used"@,
            "Swap memory used."@,
            MetricKind::Gauge,
        )
        &&& descriptor_built(
            self.swap_free@,
            ns,
            "system_swap_free"@,
            "Swap memory free."@,
            MetricKind::Gauge,
        )
    }

    /// The descriptors in describe order: memory total, used, free, then
    /// swap total, used, free.
    pub open spec fn descriptor_models(self) -> Seq<DescriptorModel> {
        seq![
            self.mem_total@,
            self.mem_used@,
            self.mem_free@,
            self.swap_total@,
            self.swap_used@,
            self.swap_free@,
        ]
    }

    /// The samples a single reading yields: one per descriptor, in describe
    /// order, each value the reading's counter, unscaled.
    pub open spec fn samples_for(self, rd: MemoryReading) -> Seq<SampleModel> {
        seq![
            SampleModel { descriptor: self.mem_total@, value: rd.mem_total },
            SampleModel { descriptor: self.mem_used@, value: rd.mem_used },
            SampleModel { descriptor: self.mem_free@, value: rd.mem_free },
            SampleModel { descriptor: self.swap_total@, value: rd.swap_total },
            SampleModel { descriptor: self.swap_used@, value: rd.swap_used },
            SampleModel { descriptor: self.swap_free@, value: rd.swap_free },
        ]
    }

    /// Builds the collector for the given namespace: a memory-only OS stat
    /// handle behind a lock, and the six descriptors, eagerly. A malformed
    /// namespace is a programmer error and is excluded up front, so
    /// construction cannot fail.
    pub fn new(namespace: &str) -> (r: Self)
        requires
            valid_metric_name(namespace@),
        ensures
            r.built_with(namespace@),
    {
        let system = sysmem::new_system_lock(sysmem::new_memory_system());
        MemoryMetricsCollector {
            system,
            mem_total: MetricDescriptor {
                name: fq_name(namespace, "system_mem_total"),
                help: "Memory total.".to_owned(),
                kind: MetricKind::Counter,
            },
            mem_used: MetricDescriptor {
                name: fq_name(namespace, "system_mem_used"),
                help: "Memory used.".to_owned(),
                kind: MetricKind::Gauge,
            },
            mem_free: MetricDescriptor {
                name: fq_name(namespace, "system_mem_free"),
                help: "Memory free.".to_owned(),
                kind: MetricKind::Gauge,
            },
            swap_total: MetricDescriptor {
                name: fq_name(namespace, "system_swap_total"),
                help: "Swap memory total.".to_owned(),
                kind: MetricKind::Counter,
            },
            swap_used: MetricDescriptor {
                name: fq_name(namespace, "system_swap_used"),
                help: "Swap memory used.".to_owned(),
                kind: MetricKind::Gauge,
            },
            swap_free: MetricDescriptor {
                name: fq_name(namespace, "system_swap_free"),
                help: "Swap memory free.".to_owned(),
                kind: MetricKind::Gauge,
            },
        }
    }

    /// Guarded construction: succeeds exactly when the namespace lies in
    /// the metric-name grammar.
    pub fn try_new(namespace: &str) -> (r: Option<Self>)
        ensures
            r.is_some() <==> valid_metric_name(namespace@),
            r.is_some() ==> r.unwrap().built_with(namespace@),
    {
        if is_valid_metric_name(namespace) {
            Some(Self::new(namespace))
        } else {
            None
        }
    }

    /// Returns the six fixed descriptors, in describe order. No refresh, no
    /// side effect; the result is determined by the collector alone.
    pub fn describe(&self) -> (r: Vec<MetricDescriptor>)
        ensures
            r.deep_view() == self.descriptor_models(),
    {
        let mut v: Vec<MetricDescriptor> = Vec::new();
        v.push(self.mem_total.clone());
        v.push(self.mem_used.clone());
        v.push(self.mem_free.clone());
        v.push(self.swap_total.clone());
        v.push(self.swap_used.clone());
        v.push(self.swap_free.clone());
        proof {
            assert(v.deep_view() =~= self.descriptor_models());
        }
        v
    }

    /// Refreshes the snapshot under its lock and returns the six samples
    /// that refresh yields, in describe order. Whatever the host reports,
    /// all six values of one call come from one reading.
    pub fn collect(&self) -> (r: Vec<MetricSample>)
        ensures
            exists|rd: MemoryReading| r.deep_view() == self.samples_for(rd),
    {
        let reading = sysmem::refresh_and_read(&self.system);
        let samples = self.samples_from_reading(reading);
        proof {
            assert(samples.deep_view() == self.samples_for(reading));
        }
        samples
    }

    /// Builds the six samples a given reading yields, in describe order,
    /// each value passed through unscaled.
    pub fn samples_from_reading(&self, rd: MemoryReading) -> (r: Vec<MetricSample>)
        ensures
            r.deep_view() == self.samples_for(rd),
    {
        let mut v: Vec<MetricSample> = Vec::new();
        v.push(MetricSample { descriptor: self.mem_total.clone(), value: rd.mem_total });
        v.push(MetricSample { descriptor: self.mem_used.clone(), value: rd.mem_used });
        v.push(MetricSample { descriptor: self.mem_free.clone(), value: rd.mem_free });
        v.push(MetricSample { descriptor: self.swap_total.clone(), value: rd.swap_total });
        v.push(MetricSample { descriptor: self.swap_used.clone(), value: rd.swap_used });
        v.push(MetricSample { descriptor: self.swap_free.clone(), value: rd.swap_free });
        proof {
            assert(v.deep_view() =~= self.samples_for(rd));
        }
        v
    }
}

impl Default for MemoryMetricsCollector {
    /// The collector under the process-wide namespace.
    fn default() -> (r: Self)
        ensures
            r.built_with(NAMESPACE@),
    {
        proof {
            reveal_strlit("aptos");
            assert(valid_metric_name("aptos"@));
        }
        MemoryMetricsCollector::new(NAMESPACE)
    }
}

} // verus!
