//! End-to-end batch runs over both scheduling policies.

use multi_cpu::dispatcher::{MultiCpuProcessor, SchedulingPolicy};
use multi_cpu::outcome::{CpuStats, RunError};
use multi_cpu::task::{ScriptedProcessor, TaskDescriptor};
use multi_cpu::topology::MultiCpuConfig;

fn tasks_named(n: usize) -> Vec<TaskDescriptor> {
    let mut tasks = Vec::new();
    for i in 0..n {
        tasks.push(TaskDescriptor::new(format!("task{}", i)));
    }
    tasks
}

fn all_succeed() -> ScriptedProcessor {
    ScriptedProcessor::new(Vec::new())
}

#[test]
fn empty_batch_two_units() {
    let config = MultiCpuConfig { num_cpus: 2, cores_per_cpu: 1, enable_numa: false };
    let processor = all_succeed();
    let result = MultiCpuProcessor::new(config)
        .process_precursors_distributed(tasks_named(0), &processor)
        .unwrap();
    assert_eq!(result.total_processed, 0);
    assert_eq!(result.successful, 0);
    assert_eq!(result.failed, 0);
    assert_eq!(
        result.cpu_stats,
        vec![
            CpuStats { precursors_processed: 0 },
            CpuStats { precursors_processed: 0 }
        ]
    );
}

#[test]
fn ten_tasks_all_succeed_four_lanes_unpinned() {
    let config = MultiCpuConfig { num_cpus: 1, cores_per_cpu: 4, enable_numa: false };
    let processor = all_succeed();
    let result = MultiCpuProcessor::new(config)
        .process_precursors_distributed(tasks_named(10), &processor)
        .unwrap();
    assert_eq!(result.total_processed, 10);
    assert_eq!(result.successful, 10);
    assert_eq!(result.failed, 0);
    assert_eq!(result.cpu_stats, vec![CpuStats { precursors_processed: 10 }]);
}

#[test]
fn five_tasks_one_failure_single_lane() {
    let config = MultiCpuConfig { num_cpus: 1, cores_per_cpu: 1, enable_numa: false };
    let processor = ScriptedProcessor::new(vec![String::from("task3")]);
    let result = MultiCpuProcessor::new(config)
        .process_precursors_distributed(tasks_named(5), &processor)
        .unwrap();
    assert_eq!(result.total_processed, 5);
    assert_eq!(result.successful, 4);
    assert_eq!(result.failed, 1);
    assert_eq!(result.cpu_stats, vec![CpuStats { precursors_processed: 5 }]);
}

#[test]
fn zero_cores_per_cpu_is_refused() {
    let config = MultiCpuConfig { num_cpus: 2, cores_per_cpu: 0, enable_numa: false };
    let processor = all_succeed();
    let result =
        MultiCpuProcessor::new(config).process_precursors_distributed(tasks_named(3), &processor);
    assert_eq!(result.unwrap_err(), RunError::InvalidTopology);
}

#[test]
fn zero_units_is_refused() {
    let config = MultiCpuConfig { num_cpus: 0, cores_per_cpu: 8, enable_numa: false };
    let processor = all_succeed();
    let result = MultiCpuProcessor::new(config).run(
        SchedulingPolicy::HierarchicalPinned,
        tasks_named(1),
        &processor,
    );
    assert_eq!(result.unwrap_err(), RunError::InvalidTopology);
}

#[test]
fn flat_policy_is_refused_on_invalid_topology_too() {
    let config = MultiCpuConfig { num_cpus: 0, cores_per_cpu: 0, enable_numa: false };
    let processor = all_succeed();
    let result = MultiCpuProcessor::new(config).run(
        SchedulingPolicy::Flat { parallelism: 4 },
        tasks_named(1),
        &processor,
    );
    assert_eq!(result.unwrap_err(), RunError::InvalidTopology);
}

#[test]
fn pinned_run_still_counts_every_task() {
    // Pinning is best-effort: whether or not the host lets the lanes bind,
    // the statistics must be the same.
    let config = MultiCpuConfig { num_cpus: 1, cores_per_cpu: 2, enable_numa: true };
    let processor = all_succeed();
    let result = MultiCpuProcessor::new(config)
        .process_precursors_distributed(tasks_named(6), &processor)
        .unwrap();
    assert_eq!(result.total_processed, 6);
    assert_eq!(result.successful, 6);
    assert_eq!(result.failed, 0);
    assert_eq!(result.cpu_stats, vec![CpuStats { precursors_processed: 6 }]);
}

#[test]
fn both_policies_agree_on_the_same_batch() {
    let config = MultiCpuConfig { num_cpus: 2, cores_per_cpu: 2, enable_numa: false };
    let processor = ScriptedProcessor::new(vec![String::from("task1"), String::from("task4")]);
    let hierarchical = MultiCpuProcessor::new(config)
        .run(SchedulingPolicy::HierarchicalPinned, tasks_named(7), &processor)
        .unwrap();
    let flat = MultiCpuProcessor::new(config)
        .run(SchedulingPolicy::Flat { parallelism: 3 }, tasks_named(7), &processor)
        .unwrap();
    assert_eq!(hierarchical.total_processed, flat.total_processed);
    assert_eq!(hierarchical.successful, flat.successful);
    assert_eq!(hierarchical.failed, flat.failed);
    assert_eq!(hierarchical.total_processed, 7);
    assert_eq!(hierarchical.successful, 5);
    assert_eq!(hierarchical.failed, 2);
}

#[test]
fn flat_degree_does_not_change_the_outcome() {
    let config = MultiCpuConfig { num_cpus: 1, cores_per_cpu: 8, enable_numa: false };
    let processor = ScriptedProcessor::new(vec![String::from("task0")]);
    let mut seen = Vec::new();
    for parallelism in [1usize, 2, 16] {
        let result = MultiCpuProcessor::new(config)
            .run(SchedulingPolicy::Flat { parallelism }, tasks_named(4), &processor)
            .unwrap();
        seen.push((result.total_processed, result.successful, result.failed));
    }
    assert_eq!(seen, vec![(4, 3, 1), (4, 3, 1), (4, 3, 1)]);
}

#[test]
fn per_unit_counts_always_sum_to_the_total() {
    let config = MultiCpuConfig { num_cpus: 3, cores_per_cpu: 2, enable_numa: false };
    let processor = all_succeed();
    let result = MultiCpuProcessor::new(config)
        .process_precursors_distributed(tasks_named(11), &processor)
        .unwrap();
    assert_eq!(result.cpu_stats.len(), 3);
    let summed: usize = result.cpu_stats.iter().map(|s| s.precursors_processed).sum();
    assert_eq!(summed, result.total_processed);
    assert_eq!(result.successful + result.failed, result.total_processed);
}
