//! The properties the collector promises its registry, stated over the
//! model and proved once and for all.

use vstd::prelude::*;

use crate::collector::MemoryMetricsCollector;
use crate::metrics::{DescriptorModel, MemoryReading, MetricKind, SampleModel};
use crate::names::{
    all_name_chars, lemma_fq_name_injective, lemma_fq_name_valid, spec_fq_name,
    valid_metric_name,
};

verus! {

/// Descriptor count and stability: any two description results of the same
/// collector are equal, and each holds exactly six descriptors.
pub proof fn lemma_describe_stable(
    c: MemoryMetricsCollector,
    s1: Seq<DescriptorModel>,
    s2: Seq<DescriptorModel>,
)
    requires
        s1 == c.descriptor_models(),
        s2 == c.descriptor_models(),
    ensures
        s1 == s2,
        s1.len() == 6,
{
}

/// Collection count and correspondence: every reading yields exactly six
/// samples, the i-th bound to the i-th descriptor, name, help and kind
/// included.
pub proof fn lemma_collection_shape(c: MemoryMetricsCollector, rd: MemoryReading)
    ensures
        c.samples_for(rd).len() == 6,
        forall|i: int|
            0 <= i < 6 ==> (#[trigger] c.samples_for(rd)[i]).descriptor
                == c.descriptor_models()[i],
{
}

/// Non-negativity at the boundary: every sample value is an unsigned
/// counter of the reading, hence at least zero.
pub proof fn lemma_values_nonnegative(c: MemoryMetricsCollector, rd: MemoryReading)
    ensures
        forall|i: int| 0 <= i < c.samples_for(rd).len()
            ==> (#[trigger] c.samples_for(rd)[i]).value >= 0,
{
}

/// Consistency of kind: on every collection the two totals are counters
/// and the four used/free series are gauges.
pub proof fn lemma_sample_kinds(c: MemoryMetricsCollector, ns: Seq<char>, rd: MemoryReading)
    requires
        c.built_with(ns),
    ensures
        c.samples_for(rd)[0].descriptor.kind == MetricKind::Counter,
        c.samples_for(rd)[3].descriptor.kind == MetricKind::Counter,
        c.samples_for(rd)[1].descriptor.kind == MetricKind::Gauge,
        c.samples_for(rd)[2].descriptor.kind == MetricKind::Gauge,
        c.samples_for(rd)[4].descriptor.kind == MetricKind::Gauge,
        c.samples_for(rd)[5].descriptor.kind == MetricKind::Gauge,
{
}

/// Freshness: a collection's values are exactly the counters of the
/// reading taken in that call, so two calls whose readings differ in used
/// memory return samples that differ the same way; nothing stale survives.
pub proof fn lemma_freshness(c: MemoryMetricsCollector, r1: MemoryReading, r2: MemoryReading)
    ensures
        c.samples_for(r1)[1].value == r1.mem_used,
        c.samples_for(r2)[1].value == r2.mem_used,
        r1.mem_used != r2.mem_used ==> c.samples_for(r1)[1].value != c.samples_for(r2)[1].value,
{
}

/// Per-call consistency: a collection result carries the six counters of
/// one single reading, in describe order — no result mixes the memory
/// fields of one refresh with the swap fields of another. Together with
/// the lock held across refresh and reads, this is what overlapping
/// collection calls rely on.
pub proof fn lemma_single_reading_consistency(
    c: MemoryMetricsCollector,
    s: Seq<SampleModel>,
    rd: MemoryReading,
)
    requires
        s == c.samples_for(rd),
    ensures
        s.len() == 6,
        s[0].value == rd.mem_total,
        s[1].value == rd.mem_used,
        s[2].value == rd.mem_free,
        s[3].value == rd.swap_total,
        s[4].value == rd.swap_used,
        s[5].value == rd.swap_free,
{
}

/// Well-formed, pairwise-distinct names: under a valid namespace every
/// offered name lies in the metric-name grammar, and no two descriptors
/// share a name. This is what lets a fresh collector register and makes a
/// second registration of the same names collide in the registry, not here.
pub proof fn lemma_names_valid_and_unique(c: MemoryMetricsCollector, ns: Seq<char>)
    requires
        c.built_with(ns),
        valid_metric_name(ns),
    ensures
        forall|i: int|
            0 <= i < 6 ==> valid_metric_name((#[trigger] c.descriptor_models()[i]).name),
        forall|i: int, j: int|
            0 <= i < 6 && 0 <= j < 6 && i != j ==> c.descriptor_models()[i].name
                != c.descriptor_models()[j].name,
{
    reveal_strlit("system_mem_total");
    reveal_strlit("system_mem_used");
    reveal_strlit("system_mem_free");
    reveal_strlit("system_swap_total");
    reveal_strlit("system_swap_used");
    reveal_strlit("system_swap_free");
    let shorts: Seq<Seq<char>> = seq![
        "system_mem_total"@,
        "system_mem_used"@,
        "system_mem_free"@,
        "system_swap_total"@,
        "system_swap_used"@,
        "system_swap_free"@,
    ];
    let m = c.descriptor_models();
    assert(all_name_chars("system_mem_total"@));
    assert(all_name_chars("system_mem_used"@));
    assert(all_name_chars("system_mem_free"@));
    assert(all_name_chars("system_swap_total"@));
    assert(all_name_chars("system_swap_used"@));
    assert(all_name_chars("system_swap_free"@));
    lemma_fq_name_valid(ns, "system_mem_total"@);
    lemma_fq_name_valid(ns, "system_mem_used"@);
    lemma_fq_name_valid(ns, "system_mem_free"@);
    lemma_fq_name_valid(ns, "system_swap_total"@);
    lemma_fq_name_valid(ns, "system_swap_used"@);
    lemma_fq_name_valid(ns, "system_swap_free"@);
    // The four pairs of equal-length short names differ at a witness index;
    // all other pairs already differ in length.
    assert("system_mem_total"@[7] != "system_swap_used"@[7]);
    assert("system_mem_total"@[7] != "system_swap_free"@[7]);
    assert("system_mem_used"@[11] != "system_mem_free"@[11]);
    assert("system_swap_used"@[12] != "system_swap_free"@[12]);
    assert forall|i: int, j: int|
        0 <= i < 6 && 0 <= j < 6 && i != j implies m[i].name != m[j].name by {
        assert(m[i].name == spec_fq_name(ns, shorts[i]));
        assert(m[j].name == spec_fq_name(ns, shorts[j]));
        if m[i].name == m[j].name {
            lemma_fq_name_injective(ns, shorts[i], shorts[j]);
            assert(shorts[i] == shorts[j]);
            assert(false);
        }
    }
}

} // verus!
