//! Tests of the individual components: topology, channel, counters,
//! processors.

use multi_cpu::aggregator::OutcomeAggregator;
use multi_cpu::channel::{QueueItem, WorkChannel};
use multi_cpu::task::{ScriptedProcessor, TaskDescriptor, TaskProcessor};
use multi_cpu::topology::{derive_topology, MultiCpuConfig};

#[test]
fn total_threads_is_units_times_lanes() {
    let config = MultiCpuConfig { num_cpus: 2, cores_per_cpu: 8, enable_numa: true };
    assert_eq!(config.total_threads(), 16);
    let single = MultiCpuConfig { num_cpus: 1, cores_per_cpu: 1, enable_numa: false };
    assert_eq!(single.total_threads(), 1);
}

#[test]
fn validity_requires_both_dimensions_positive() {
    assert!(MultiCpuConfig { num_cpus: 1, cores_per_cpu: 1, enable_numa: false }.is_valid());
    assert!(!MultiCpuConfig { num_cpus: 0, cores_per_cpu: 4, enable_numa: false }.is_valid());
    assert!(!MultiCpuConfig { num_cpus: 4, cores_per_cpu: 0, enable_numa: false }.is_valid());
}

#[test]
fn lanes_map_to_contiguous_units() {
    let config = MultiCpuConfig { num_cpus: 2, cores_per_cpu: 4, enable_numa: false };
    assert_eq!(config.unit_of(0), 0);
    assert_eq!(config.unit_of(3), 0);
    assert_eq!(config.unit_of(4), 1);
    assert_eq!(config.unit_of(7), 1);
}

#[test]
fn host_derivation_is_idempotent() {
    let first = MultiCpuConfig::from_system();
    let second = MultiCpuConfig::from_system();
    assert_eq!(first.num_cpus, second.num_cpus);
    assert_eq!(first.cores_per_cpu, second.cores_per_cpu);
    assert!(first.enable_numa);
    assert!(first.num_cpus >= 1);
}

#[test]
fn derivation_captures_the_smt_ratio() {
    let config = derive_topology(16, 8);
    assert_eq!(config.num_cpus, 8);
    assert_eq!(config.cores_per_cpu, 2);
    assert!(config.enable_numa);
    // A host that reports fewer logical than physical cores derives an
    // invalid topology, reported later rather than clamped silently.
    let degenerate = derive_topology(2, 4);
    assert_eq!(degenerate.cores_per_cpu, 0);
    assert!(!degenerate.is_valid());
}

#[test]
fn channel_is_first_in_first_out() {
    let mut channel = WorkChannel::new();
    channel.send(QueueItem::Task(TaskDescriptor::new(String::from("a"))));
    channel.send(QueueItem::Task(TaskDescriptor::new(String::from("b"))));
    channel.send(QueueItem::Terminate);
    match channel.receive() {
        Some(QueueItem::Task(t)) => assert_eq!(t.id, "a"),
        other => panic!("expected the first task, got {:?}", kind_of(&other)),
    }
    match channel.receive() {
        Some(QueueItem::Task(t)) => assert_eq!(t.id, "b"),
        other => panic!("expected the second task, got {:?}", kind_of(&other)),
    }
    assert!(matches!(channel.receive(), Some(QueueItem::Terminate)));
    assert!(channel.receive().is_none());
}

fn kind_of(item: &Option<QueueItem>) -> &'static str {
    match item {
        None => "empty",
        Some(QueueItem::Terminate) => "terminate",
        Some(QueueItem::Task(_)) => "task",
    }
}

#[test]
fn aggregator_accounts_every_outcome() {
    let mut agg = OutcomeAggregator::new(2);
    assert_eq!(agg.total_processed, 0);
    assert_eq!(agg.per_unit, vec![0, 0]);
    agg.record(0, true);
    agg.record(1, true);
    agg.record(1, false);
    assert_eq!(agg.total_processed, 3);
    assert_eq!(agg.successful, 2);
    assert_eq!(agg.failed, 1);
    assert_eq!(agg.per_unit, vec![1, 2]);
}

#[test]
fn scripted_processor_fails_exactly_the_listed_tasks() {
    let processor = ScriptedProcessor::new(vec![String::from("bad")]);
    assert!(processor.process(&TaskDescriptor::new(String::from("good"))).is_ok());
    let err = processor.process(&TaskDescriptor::new(String::from("bad"))).unwrap_err();
    assert_eq!(err.message, "bad");
}
