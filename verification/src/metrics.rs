//! The data model: metric kinds, descriptors, samples, and the raw memory
//! reading they are built from.

use vstd::prelude::*;

verus! {

/// The kind of a series: a counter is conventionally non-decreasing over the
/// process lifetime, a gauge may rise and fall freely.
#[derive(Clone, Copy, Debug, PartialEq, Eq, Structural)]
pub enum MetricKind {
    Counter,
    Gauge,
}

/// The immutable identity of one exposed series: fully-qualified name, help
/// text and kind. Built once at collector construction and never changed.
#[derive(Debug)]
pub struct MetricDescriptor {
    pub name: String,
    pub help: String,
    pub kind: MetricKind,
}

/// The mathematical value of a descriptor: its strings as character
/// sequences, and its kind.
pub struct DescriptorModel {
    pub name: Seq<char>,
    pub help: Seq<char>,
    pub kind: MetricKind,
}

impl View for MetricDescriptor {
    type V = DescriptorModel;

    open spec fn view(&self) -> DescriptorModel {
        DescriptorModel { name: self.name@, help: self.help@, kind: self.kind }
    }
}

impl DeepView for MetricDescriptor {
    type V = DescriptorModel;

    open spec fn deep_view(&self) -> DescriptorModel {
        self.view()
    }
}

impl Clone for MetricDescriptor {
    /// The clone carries the same name, help and kind.
    fn clone(&self) -> (r: Self)
        ensures
            r@ == self@,
    {
        MetricDescriptor {
            name: self.name.clone(),
            help: self.help.clone(),
            kind: self.kind,
        }
    }
}

/// One instantaneous value bound to a descriptor, produced fresh on every
/// collection call. The value is in the stat source's native units,
/// passed through without scaling.
#[derive(Debug)]
pub struct MetricSample {
    pub descriptor: MetricDescriptor,
    pub value: u64,
}

/// The mathematical value of a sample.
pub struct SampleModel {
    pub descriptor: DescriptorModel,
    pub value: u64,
}

impl View for MetricSample {
    type V = SampleModel;

    open spec fn view(&self) -> SampleModel {
        SampleModel { descriptor: self.descriptor@, value: self.value }
    }
}

impl DeepView for MetricSample {
    type V = SampleModel;

    open spec fn deep_view(&self) -> SampleModel {
        self.view()
    }
}

/// One refresh's worth of raw counters, in the stat source's native units:
/// total, used and free memory, and total, used and free swap.
#[derive(Clone, Copy, Debug, PartialEq, Eq, Structural)]
pub struct MemoryReading {
    pub mem_total: u64,
    pub mem_used: u64,
    pub mem_free: u64,
    pub swap_total: u64,
    pub swap_used: u64,
    pub swap_free: u64,
}

} // verus!
