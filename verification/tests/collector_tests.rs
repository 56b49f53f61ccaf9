use std::collections::HashMap;

use memory_metrics::collector::{MemoryMetricsCollector, NAMESPACE};
use memory_metrics::metrics::{MemoryReading, MetricKind, MetricSample};
use memory_metrics::names::is_valid_metric_name;
use prometheus::proto;
use prometheus::Registry;

/// Adapts the library collector to the registry's collector interface:
/// descriptors become `Desc`s, samples become one-metric families.
struct PromAdapter {
    inner: MemoryMetricsCollector,
    descs: Vec<prometheus::core::Desc>,
}

impl PromAdapter {
    fn new(inner: MemoryMetricsCollector) -> PromAdapter {
        let descs = inner
            .describe()
            .into_iter()
            .map(|d| prometheus::core::Desc::new(d.name, d.help, vec![], HashMap::new()).unwrap())
            .collect();
        PromAdapter { inner, descs }
    }
}

impl prometheus::core::Collector for PromAdapter {
    fn desc(&self) -> Vec<&prometheus::core::Desc> {
        self.descs.iter().collect()
    }

    fn collect(&self) -> Vec<proto::MetricFamily> {
        self.inner.collect().into_iter().map(sample_to_family).collect()
    }
}

fn sample_to_family(s: MetricSample) -> proto::MetricFamily {
    let mut fam = proto::MetricFamily::new();
    fam.set_name(s.descriptor.name.clone());
    fam.set_help(s.descriptor.help.clone());
    let mut metric = proto::Metric::new();
    match s.descriptor.kind {
        MetricKind::Counter => {
            fam.set_field_type(proto::MetricType::COUNTER);
            let mut c = proto::Counter::new();
            c.set_value(s.value as f64);
            metric.set_counter(c);
        }
        MetricKind::Gauge => {
            fam.set_field_type(proto::MetricType::GAUGE);
            let mut g = proto::Gauge::new();
            g.set_value(s.value as f64);
            metric.set_gauge(g);
        }
    }
    fam.mut_metric().push(metric);
    fam
}

#[test]
fn test_cpu_collector_register() {
    let collector = MemoryMetricsCollector::default();

    let r = Registry::new();
    let res = r.register(Box::new(PromAdapter::new(collector)));
    assert!(res.is_ok());
}

#[test]
fn test_duplicate_registration_fails() {
    let r = Registry::new();
    let first = r.register(Box::new(PromAdapter::new(MemoryMetricsCollector::default())));
    assert!(first.is_ok());
    let second = r.register(Box::new(PromAdapter::new(MemoryMetricsCollector::default())));
    assert!(matches!(second, Err(prometheus::Error::AlreadyReg)));
}

#[test]
fn test_describe_six_and_stable() {
    let collector = MemoryMetricsCollector::default();
    let d1 = collector.describe();
    let d2 = collector.describe();
    assert_eq!(d1.len(), 6);
    assert_eq!(d2.len(), 6);
    for i in 0..6 {
        assert_eq!(d1[i].name, d2[i].name);
        assert_eq!(d1[i].help, d2[i].help);
        assert_eq!(d1[i].kind, d2[i].kind);
    }
}

#[test]
fn test_collect_six_matching_descriptors() {
    let collector = MemoryMetricsCollector::default();
    let descs = collector.describe();
    let samples = collector.collect();
    assert_eq!(samples.len(), 6);
    for i in 0..6 {
        assert_eq!(samples[i].descriptor.name, descs[i].name);
        assert_eq!(samples[i].descriptor.help, descs[i].help);
        assert_eq!(samples[i].descriptor.kind, descs[i].kind);
    }
}

#[test]
fn test_values_nonnegative() {
    let collector = MemoryMetricsCollector::default();
    for s in collector.collect() {
        assert!((s.value as f64) >= 0.0);
    }
}

#[test]
fn test_kinds_totals_counter_rest_gauge() {
    let collector = MemoryMetricsCollector::default();
    for _ in 0..2 {
        let samples = collector.collect();
        assert_eq!(samples[0].descriptor.kind, MetricKind::Counter);
        assert_eq!(samples[3].descriptor.kind, MetricKind::Counter);
        assert_eq!(samples[1].descriptor.kind, MetricKind::Gauge);
        assert_eq!(samples[2].descriptor.kind, MetricKind::Gauge);
        assert_eq!(samples[4].descriptor.kind, MetricKind::Gauge);
        assert_eq!(samples[5].descriptor.kind, MetricKind::Gauge);
    }
}

fn reading(
    mem_total: u64,
    mem_used: u64,
    mem_free: u64,
    swap_total: u64,
    swap_used: u64,
    swap_free: u64,
) -> MemoryReading {
    MemoryReading { mem_total, mem_used, mem_free, swap_total, swap_used, swap_free }
}

#[test]
fn test_freshness_two_readings() {
    let collector = MemoryMetricsCollector::default();
    let first = collector.samples_from_reading(reading(4000, 1000, 3000, 100, 0, 100));
    let second = collector.samples_from_reading(reading(4000, 2000, 2000, 100, 0, 100));
    assert_eq!(first[1].value, 1000);
    assert_eq!(second[1].value, 2000);
}

#[test]
fn test_end_to_end_example() {
    assert_eq!(NAMESPACE, "aptos");
    let collector = MemoryMetricsCollector::default();
    let samples =
        collector.samples_from_reading(reading(16000000, 8000000, 8000000, 2000000, 0, 2000000));
    let expected: [(&str, u64); 6] = [
        ("aptos_system_mem_total", 16000000),
        ("aptos_system_mem_used", 8000000),
        ("aptos_system_mem_free", 8000000),
        ("aptos_system_swap_total", 2000000),
        ("aptos_system_swap_used", 0),
        ("aptos_system_swap_free", 2000000),
    ];
    for i in 0..6 {
        assert_eq!(samples[i].descriptor.name, expected[i].0);
        assert_eq!(samples[i].value, expected[i].1);
    }
    let fam = sample_to_family(
        collector
            .samples_from_reading(reading(16000000, 8000000, 8000000, 2000000, 0, 2000000))
            .remove(0),
    );
    assert_eq!(fam.get_name(), "aptos_system_mem_total");
    assert_eq!(fam.get_field_type(), proto::MetricType::COUNTER);
    assert_eq!(fam.get_metric()[0].get_counter().get_value(), 16000000.0);
}

#[test]
fn test_descriptor_names_unique() {
    let collector = MemoryMetricsCollector::default();
    let descs = collector.describe();
    for i in 0..6 {
        for j in 0..6 {
            if i != j {
                assert_ne!(descs[i].name, descs[j].name);
            }
        }
    }
}

#[test]
fn test_valid_metric_name_checker() {
    assert!(is_valid_metric_name("aptos"));
    assert!(is_valid_metric_name("_private"));
    assert!(is_valid_metric_name(":colon"));
    assert!(is_valid_metric_name("a2:b_3"));
    assert!(!is_valid_metric_name(""));
    assert!(!is_valid_metric_name("9leading_digit"));
    assert!(!is_valid_metric_name("has-dash"));
    assert!(!is_valid_metric_name("has space"));
}

#[test]
fn test_try_new_checks_namespace() {
    assert!(MemoryMetricsCollector::try_new("aptos").is_some());
    assert!(MemoryMetricsCollector::try_new("").is_none());
    assert!(MemoryMetricsCollector::try_new("bad name").is_none());
    let c = MemoryMetricsCollector::try_new("ns2").unwrap();
    assert_eq!(c.describe()[5].name, "ns2_system_swap_free");
}

#[test]
fn test_registration_rejects_malformed_namespace_descs() {
    let collector = MemoryMetricsCollector::try_new("ok_ns").unwrap();
    let descs = collector.describe();
    for d in descs {
        assert!(is_valid_metric_name(&d.name));
        assert!(prometheus::core::Desc::new(d.name, d.help, vec![], HashMap::new()).is_ok());
    }
}
