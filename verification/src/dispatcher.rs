//! The dispatcher: orchestrates one batch run. It refuses an invalid
//! topology before any work starts, feeds the work channel according to the
//! producer protocol, runs every lane to completion, and only then reads the
//! counters out into the immutable result snapshot.

use vstd::prelude::*;
use crate::aggregator::{lemma_sum_entry_bound, sum_of, OutcomeAggregator};
use crate::channel::{
    after_first_terminate, as_task_items, channel_items, lemma_protocol_queue, protocol_queue,
    tasks_before_terminate, term_markers, QueueItem, WorkChannel,
};
use crate::outcome::{BatchResults, RunError};
use crate::pinning::pin_lane;
use crate::task::{success_count, TaskDescriptor, TaskProcessor};
use crate::topology::MultiCpuConfig;

verus! {

/// The two scheduling policies offered over the same task list and the same
/// per-task contract.
pub enum SchedulingPolicy {
    /// One shared pool of the given degree (1 is fully sequential) consumes
    /// the list with no topology awareness. The degree balances the very same
    /// work over more or fewer threads, so the outcome statistics do not
    /// depend on it.
    Flat { parallelism: usize },
    /// The two-level engine: a shared FIFO, one lane per core, each lane
    /// optionally pinned. Lanes pull from the one queue, so faster lanes
    /// naturally process more items than slower ones.
    HierarchicalPinned,
}

/// One worker lane: it optionally pins itself, then consumes items from the
/// shared channel until it personally observes a termination marker — or the
/// channel is unexpectedly drained, which it treats the same way rather than
/// block forever. Every task consumed is recorded against this lane's
/// compute unit.
pub fn run_lane<P: TaskProcessor>(
    lane_id: usize,
    config: &MultiCpuConfig,
    channel: &mut WorkChannel,
    agg: &mut OutcomeAggregator,
    processor: &P,
)
    requires
        config.spec_is_valid(),
        lane_id < config.spec_total_threads(),
        old(agg).wf(),
        old(agg).per_unit@.len() == config.num_cpus,
        old(agg).total_processed + tasks_before_terminate(
            channel_items(*old(channel)),
        ).len() <= usize::MAX,
    ensures
        final(agg).wf(),
        final(agg).per_unit@.len() == config.num_cpus,
        channel_items(*final(channel)) == after_first_terminate(channel_items(*old(channel))),
        ({
            let consumed = tasks_before_terminate(channel_items(*old(channel)));
            let unit = config.spec_unit_of(lane_id as int);
            &&& final(agg).total_processed == old(agg).total_processed + consumed.len()
            &&& final(agg).successful == old(agg).successful + success_count(processor, consumed)
            &&& final(agg).failed == old(agg).failed + consumed.len() - success_count(
                processor,
                consumed,
            )
            &&& final(agg).per_unit@[unit] == old(agg).per_unit@[unit] + consumed.len()
            &&& forall|u: int|
                0 <= u < config.num_cpus && u != unit ==> final(agg).per_unit@[u] == old(
                    agg,
                ).per_unit@[u]
        }),
{
    if config.enable_numa {
        pin_lane(lane_id);
    }
    let unit: usize = config.unit_of(lane_id);
    let ghost q0 = channel_items(*channel);
    let ghost mut done: Seq<TaskDescriptor> = Seq::empty();
    loop
        invariant_except_break
            config.spec_is_valid(),
            unit == config.spec_unit_of(lane_id as int),
            unit < config.num_cpus,
            agg.wf(),
            agg.per_unit@.len() == config.num_cpus,
            tasks_before_terminate(q0) == done + tasks_before_terminate(channel_items(*channel)),
            after_first_terminate(q0) == after_first_terminate(channel_items(*channel)),
            agg.total_processed == old(agg).total_processed + done.len(),
            agg.successful == old(agg).successful + success_count(processor, done),
            agg.failed == old(agg).failed + done.len() - success_count(processor, done),
            agg.per_unit@[unit as int] == old(agg).per_unit@[unit as int] + done.len(),
            forall|u: int|
                0 <= u < config.num_cpus && u != unit ==> agg.per_unit@[u] == old(
                    agg,
                ).per_unit@[u],
            old(agg).total_processed + tasks_before_terminate(q0).len() <= usize::MAX,
        ensures
            agg.wf(),
            agg.per_unit@.len() == config.num_cpus,
            channel_items(*channel) == after_first_terminate(q0),
            agg.total_processed == old(agg).total_processed + tasks_before_terminate(q0).len(),
            agg.successful == old(agg).successful + success_count(
                processor,
                tasks_before_terminate(q0),
            ),
            agg.failed == old(agg).failed + tasks_before_terminate(q0).len() - success_count(
                processor,
                tasks_before_terminate(q0),
            ),
            agg.per_unit@[config.spec_unit_of(lane_id as int)] == old(agg).per_unit@[config.spec_unit_of(
                lane_id as int,
            )] + tasks_before_terminate(q0).len(),
            forall|u: int|
                0 <= u < config.num_cpus && u != config.spec_unit_of(lane_id as int) ==> agg.per_unit@[u]
                    == old(agg).per_unit@[u],
        decreases channel_items(*channel).len(),
    {
        let ghost before = channel_items(*channel);
        let received = channel.receive();
        match received {
            None => {
                proof {
                    assert(tasks_before_terminate(before) =~= Seq::<TaskDescriptor>::empty());
                    assert(done + tasks_before_terminate(before) =~= done);
                }
                break ;
            },
            Some(item) => {
                match item {
                    QueueItem::Terminate => {
                        proof {
                            assert(tasks_before_terminate(before) =~= Seq::<
                                TaskDescriptor,
                            >::empty());
                            assert(done + tasks_before_terminate(before) =~= done);
                        }
                        break ;
                    },
                    QueueItem::Task(task) => {
                        proof {
                            assert(before[0] == QueueItem::Task(task));
                            assert(tasks_before_terminate(before) == seq![task]
                                + tasks_before_terminate(before.drop_first()));
                            assert(tasks_before_terminate(before).len() >= 1);
                            lemma_sum_entry_bound(agg.per_unit@, unit as int);
                        }
                        let result = processor.process(&task);
                        let success = result.is_ok();
                        agg.record(unit, success);
                        proof {
                            let stepped = done.push(task);
                            assert(stepped.drop_last() =~= done);
                            assert(done + tasks_before_terminate(before) =~= stepped
                                + tasks_before_terminate(before.drop_first()));
                            done = stepped;
                        }
                    },
                }
            },
        }
    }
}

/// The orchestrator of batch runs over one fixed topology.
pub struct MultiCpuProcessor {
    pub config: MultiCpuConfig,
}

impl MultiCpuProcessor {
    pub fn new(config: MultiCpuConfig) -> (r: Self)
        ensures
            r.config == config,
    {
        MultiCpuProcessor { config }
    }

    /// The flat policy: the task list is consumed in list order with no
    /// topology awareness; completions are accounted to the first unit.
    fn run_flat<P: TaskProcessor>(&self, tasks: Vec<TaskDescriptor>, processor: &P) -> (r:
        BatchResults)
        requires
            self.config.spec_is_valid(),
        ensures
            r.total_processed == tasks@.len(),
            r.successful == success_count(processor, tasks@),
            r.failed == tasks@.len() - success_count(processor, tasks@),
            r.spec_per_unit().len() == self.config.num_cpus,
            sum_of(r.spec_per_unit()) == r.total_processed,
    {
        let n: usize = tasks.len();
        let mut agg = OutcomeAggregator::new(self.config.num_cpus);
        let mut i: usize = 0;
        while i < n
            invariant
                i <= n,
                n == tasks@.len(),
                self.config.spec_is_valid(),
                agg.wf(),
                agg.per_unit@.len() == self.config.num_cpus,
                agg.total_processed == i,
                agg.successful == success_count(processor, tasks@.take(i as int)),
                agg.failed == i - success_count(processor, tasks@.take(i as int)),
            decreases n - i,
        {
            let result = processor.process(&tasks[i]);
            agg.record(0, result.is_ok());
            proof {
                let stepped = tasks@.take(i + 1 as int);
                assert(stepped.drop_last() =~= tasks@.take(i as int));
                assert(stepped.last() == tasks@[i as int]);
            }
            i = i + 1;
        }
        proof {
            assert(tasks@.take(n as int) =~= tasks@);
        }
        BatchResults::from_aggregator(&agg)
    }

    /// The hierarchical pinned policy: enqueue the whole list, then one
    /// termination marker per lane, then run every lane over the shared
    /// channel, and read the counters out once the last lane is done.
    fn run_hierarchical<P: TaskProcessor>(&self, tasks: Vec<TaskDescriptor>, processor: &P) -> (r:
        BatchResults)
        requires
            self.config.spec_is_valid(),
            self.config.spec_total_threads() <= usize::MAX,
        ensures
            r.total_processed == tasks@.len(),
            r.successful == success_count(processor, tasks@),
            r.failed == tasks@.len() - success_count(processor, tasks@),
            r.spec_per_unit().len() == self.config.num_cpus,
            sum_of(r.spec_per_unit()) == r.total_processed,
    {
        let ghost ts = tasks@;
        let n: usize = tasks.len();
        let mut tasks = tasks;
        let mut channel = WorkChannel::new();

        // Feed the channel: the whole task list first, in list order.
        let ghost mut fed: int = 0;
        proof {
            assert(channel_items(channel) =~= as_task_items(ts.take(0)));
        }
        while tasks.len() > 0
            invariant
                0 <= fed <= ts.len(),
                ts.len() == n,
                tasks@ == ts.skip(fed),
                channel_items(channel) == as_task_items(ts.take(fed)),
            decreases tasks@.len(),
        {
            let ghost before = channel_items(channel);
            let task = tasks.remove(0);
            channel.send(QueueItem::Task(task));
            proof {
                assert(task == ts[fed]);
                assert(tasks@ =~= ts.skip(fed + 1));
                assert(channel_items(channel) =~= as_task_items(ts.take(fed + 1)));
                fed = fed + 1;
            }
        }
        proof {
            assert(ts.take(ts.len() as int) =~= ts);
            assert(channel_items(channel) =~= protocol_queue(ts, 0));
        }

        // Then exactly one termination marker per lane.
        let lanes: usize = self.config.total_threads();
        let mut j: usize = 0;
        while j < lanes
            invariant
                j <= lanes,
                channel_items(channel) == protocol_queue(ts, j as int),
            decreases lanes - j,
        {
            channel.send(QueueItem::Terminate);
            proof {
                assert(channel_items(channel) =~= protocol_queue(ts, j + 1 as int));
            }
            j = j + 1;
        }

        // Run every lane; each consumes until it observes one marker.
        let mut agg = OutcomeAggregator::new(self.config.num_cpus);
        let mut lane: usize = 0;
        while lane < lanes
            invariant
                lane <= lanes,
                ts.len() == n,
                lanes == self.config.spec_total_threads(),
                self.config.spec_is_valid(),
                agg.wf(),
                agg.per_unit@.len() == self.config.num_cpus,
                lane == 0 ==> channel_items(channel) == protocol_queue(ts, lanes as int)
                    && agg.total_processed == 0 && agg.successful == 0 && agg.failed == 0,
                lane > 0 ==> channel_items(channel) == term_markers(lanes - lane)
                    && agg.total_processed == ts.len() && agg.successful == success_count(
                    processor,
                    ts,
                ) && agg.failed == ts.len() - success_count(processor, ts),
            decreases lanes - lane,
        {
            proof {
                if lane == 0 {
                    lemma_protocol_queue(ts, lanes as int);
                } else {
                    lemma_protocol_queue(Seq::<TaskDescriptor>::empty(), (lanes - lane) as int);
                    assert(protocol_queue(Seq::<TaskDescriptor>::empty(), (lanes - lane) as int)
                        =~= term_markers(lanes - lane));
                    assert(tasks_before_terminate(term_markers(lanes - lane)) =~= Seq::<
                        TaskDescriptor,
                    >::empty());
                }
            }
            run_lane(lane, &self.config, &mut channel, &mut agg, processor);
            lane = lane + 1;
        }
        BatchResults::from_aggregator(&agg)
    }

    /// Runs the whole batch under the chosen policy. An invalid topology is
    /// refused before any task runs or any lane starts; a completed run
    /// always yields a result snapshot, however many tasks failed.
    pub fn run<P: TaskProcessor>(
        &self,
        policy: SchedulingPolicy,
        tasks: Vec<TaskDescriptor>,
        processor: &P,
    ) -> (r: Result<BatchResults, RunError>)
        requires
            self.config.spec_total_threads() <= usize::MAX,
        ensures
            r is Ok <==> self.config.spec_is_valid(),
            !self.config.spec_is_valid() ==> r == Err::<BatchResults, RunError>(
                RunError::InvalidTopology,
            ),
            r is Ok ==> ({
                let b = r->Ok_0;
                &&& b.total_processed == tasks@.len()
                &&& b.successful == success_count(processor, tasks@)
                &&& b.failed == tasks@.len() - success_count(processor, tasks@)
                &&& b.successful + b.failed == b.total_processed
                &&& b.spec_per_unit().len() == self.config.num_cpus
                &&& sum_of(b.spec_per_unit()) == b.total_processed
            }),
    {
        if !self.config.is_valid() {
            return Err(RunError::InvalidTopology);
        }
        match policy {
            SchedulingPolicy::Flat { parallelism: _ } => Ok(self.run_flat(tasks, processor)),
            SchedulingPolicy::HierarchicalPinned => Ok(self.run_hierarchical(tasks, processor)),
        }
    }

    /// The hierarchical pinned run over the full task list: the channel is
    /// fed with every task and one marker per lane, every lane runs and is
    /// joined, and the counters come back as one immutable snapshot.
    pub fn process_precursors_distributed<P: TaskProcessor>(
        &self,
        tasks: Vec<TaskDescriptor>,
        processor: &P,
    ) -> (r: Result<BatchResults, RunError>)
        requires
            self.config.spec_total_threads() <= usize::MAX,
        ensures
            r is Ok <==> self.config.spec_is_valid(),
            !self.config.spec_is_valid() ==> r == Err::<BatchResults, RunError>(
                RunError::InvalidTopology,
            ),
            r is Ok ==> ({
                let b = r->Ok_0;
                &&& b.total_processed == tasks@.len()
                &&& b.successful == success_count(processor, tasks@)
                &&& b.failed == tasks@.len() - success_count(processor, tasks@)
                &&& b.successful + b.failed == b.total_processed
                &&& b.spec_per_unit().len() == self.config.num_cpus
                &&& sum_of(b.spec_per_unit()) == b.total_processed
            }),
    {
        self.run(SchedulingPolicy::HierarchicalPinned, tasks, processor)
    }
}

} // verus!
