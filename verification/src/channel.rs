//! The work channel: an unbounded FIFO carrying task descriptors and explicit
//! termination markers, together with the ghost model of its protocol.
//!
//! Producer protocol for one run: every task of the list is enqueued first,
//! in list order, then exactly one termination marker per lane; nothing is
//! sent afterwards. A lane consumes items until it personally observes one
//! marker (or the channel is unexpectedly empty) and then stops for good.

use vstd::prelude::*;
use crate::task::TaskDescriptor;

verus! {

/// One item carried by the channel: a real task, or the termination marker of
/// which exactly one per lane is enqueued for a run.
pub enum QueueItem {
    Task(TaskDescriptor),
    Terminate,
}

/// The pending items of a work channel, oldest first.
pub uninterp spec fn channel_items(ch: WorkChannel) -> Seq<QueueItem>;

/// An unbounded multi-producer/multi-consumer FIFO. It owns both halves of a
/// crossbeam unbounded channel, so no operation can ever observe the channel
/// as disconnected while this value lives.
#[verifier::external_body]
pub struct WorkChannel {
    sender: crossbeam::channel::Sender<QueueItem>,
    receiver: crossbeam::channel::Receiver<QueueItem>,
}

impl WorkChannel {
    /// Relies on crossbeam_channel::unbounded: a fresh channel holds nothing.
    #[verifier::external_body]
    pub fn new() -> (c: WorkChannel)
        ensures
            channel_items(c) == Seq::<QueueItem>::empty(),
    {
        let (sender, receiver) = crossbeam::channel::unbounded();
        WorkChannel { sender, receiver }
    }

    /// Relies on crossbeam_channel::Sender::send: a send on an unbounded
    /// channel whose receiver is alive always succeeds and appends the item.
    #[verifier::external_body]
    pub fn send(&mut self, item: QueueItem)
        ensures
            channel_items(*final(self)) == channel_items(*old(self)).push(item),
    {
        let _ = self.sender.send(item);
    }

    /// Relies on crossbeam_channel::Receiver::try_recv: it hands out the
    /// oldest pending item, or reports an empty channel without blocking.
    #[verifier::external_body]
    pub fn receive(&mut self) -> (r: Option<QueueItem>)
        ensures
            channel_items(*old(self)).len() == 0 ==> r is None
                && channel_items(*final(self)) == channel_items(*old(self)),
            channel_items(*old(self)).len() > 0 ==> r == Some(channel_items(*old(self))[0])
                && channel_items(*final(self)) == channel_items(*old(self)).drop_first(),
    {
        match self.receiver.try_recv() {
            Ok(item) => Some(item),
            Err(_) => None,
        }
    }
}

/// The tasks a lane consumes from the front of `q`: everything before the
/// first termination marker (or everything, if no marker is pending).
pub open spec fn tasks_before_terminate(q: Seq<QueueItem>) -> Seq<TaskDescriptor>
    decreases q.len(),
{
    if q.len() == 0 {
        Seq::empty()
    } else {
        match q[0] {
            QueueItem::Terminate => Seq::empty(),
            QueueItem::Task(t) => seq![t] + tasks_before_terminate(q.drop_first()),
        }
    }
}

/// What one lane leaves behind: the suffix after the first termination marker
/// (or nothing, if no marker is pending and the lane drains the channel).
pub open spec fn after_first_terminate(q: Seq<QueueItem>) -> Seq<QueueItem>
    decreases q.len(),
{
    if q.len() == 0 {
        Seq::empty()
    } else {
        match q[0] {
            QueueItem::Terminate => q.drop_first(),
            QueueItem::Task(_) => after_first_terminate(q.drop_first()),
        }
    }
}

/// How many real tasks are pending.
pub open spec fn task_count(q: Seq<QueueItem>) -> int
    decreases q.len(),
{
    if q.len() == 0 {
        0
    } else {
        task_count(q.drop_first()) + if q[0] is Task {
            1int
        } else {
            0int
        }
    }
}

/// How many termination markers are pending.
pub open spec fn terminate_count(q: Seq<QueueItem>) -> int
    decreases q.len(),
{
    if q.len() == 0 {
        0
    } else {
        terminate_count(q.drop_first()) + if q[0] is Terminate {
            1int
        } else {
            0int
        }
    }
}

/// `k` termination markers, one per lane.
pub open spec fn term_markers(k: int) -> Seq<QueueItem> {
    Seq::new(if k >= 0 { k as nat } else { 0 }, |i: int| QueueItem::Terminate)
}

/// The given tasks as channel items, in the same order.
pub open spec fn as_task_items(tasks: Seq<TaskDescriptor>) -> Seq<QueueItem> {
    tasks.map_values(|t: TaskDescriptor| QueueItem::Task(t))
}

/// The queue the producer protocol builds for a run: the whole task list in
/// list order, then one termination marker per lane.
pub open spec fn protocol_queue(tasks: Seq<TaskDescriptor>, lanes: int) -> Seq<QueueItem> {
    as_task_items(tasks) + term_markers(lanes)
}

/// What one lane makes of the protocol queue: it consumes the whole task list
/// and exactly one marker, leaving one marker fewer for the other lanes.
pub proof fn lemma_protocol_queue(tasks: Seq<TaskDescriptor>, lanes: int)
    requires
        lanes >= 0,
    ensures
        tasks_before_terminate(protocol_queue(tasks, lanes)) == tasks,
        after_first_terminate(protocol_queue(tasks, lanes)) == if lanes == 0 {
            Seq::<QueueItem>::empty()
        } else {
            term_markers(lanes - 1)
        },
        task_count(protocol_queue(tasks, lanes)) == tasks.len(),
        terminate_count(protocol_queue(tasks, lanes)) == lanes,
    decreases tasks.len(), lanes,
{
    let q = protocol_queue(tasks, lanes);
    if tasks.len() == 0 {
        assert(tasks =~= Seq::<TaskDescriptor>::empty());
        if lanes == 0 {
            assert(q =~= Seq::<QueueItem>::empty());
            assert(tasks_before_terminate(q) =~= tasks);
        } else {
            assert(q =~= term_markers(lanes));
            assert(q[0] is Terminate);
            assert(q.drop_first() =~= protocol_queue(Seq::<TaskDescriptor>::empty(), lanes - 1));
            assert(protocol_queue(Seq::<TaskDescriptor>::empty(), lanes - 1) =~= term_markers(
                lanes - 1,
            ));
            lemma_protocol_queue(Seq::<TaskDescriptor>::empty(), lanes - 1);
            assert(tasks_before_terminate(q) =~= tasks);
        }
    } else {
        assert(q[0] == QueueItem::Task(tasks[0]));
        assert(q.drop_first() =~= protocol_queue(tasks.drop_first(), lanes));
        lemma_protocol_queue(tasks.drop_first(), lanes);
        assert(tasks_before_terminate(q) == seq![tasks[0]] + tasks_before_terminate(
            q.drop_first(),
        ));
        assert(seq![tasks[0]] + tasks.drop_first() =~= tasks);
    }
}

/// How the pending queue looks after some number of lanes have each consumed
/// their share: every lane removes the tasks before the first marker and that
/// marker itself.
pub open spec fn drain_lanes(q: Seq<QueueItem>, lanes: int) -> Seq<QueueItem>
    decreases lanes,
{
    if lanes <= 0 {
        q
    } else {
        drain_lanes(after_first_terminate(q), lanes - 1)
    }
}

/// Draining markers one lane at a time: each of `j` lanes removes exactly one
/// of `m` pending markers.
proof fn lemma_drain_markers(m: int, j: int)
    requires
        0 <= j <= m,
    ensures
        drain_lanes(term_markers(m), j) == term_markers(m - j),
    decreases j,
{
    if j > 0 {
        lemma_protocol_queue(Seq::<TaskDescriptor>::empty(), m);
        assert(protocol_queue(Seq::<TaskDescriptor>::empty(), m) =~= term_markers(m));
        assert(after_first_terminate(term_markers(m)) == term_markers(m - 1));
        lemma_drain_markers(m - 1, j - 1);
    }
}

/// The termination protocol: the queue built for `k` lanes holds exactly `k`
/// markers; after any `j <= k` lanes have run, exactly `j` of the markers are
/// gone, one per lane; and after all `k` lanes have run the channel is empty,
/// so no marker is left over and no lane can ever block on the channel.
pub proof fn lemma_termination_protocol(tasks: Seq<TaskDescriptor>, k: int, j: int)
    requires
        1 <= k,
        0 <= j <= k,
    ensures
        terminate_count(protocol_queue(tasks, k)) == k,
        terminate_count(drain_lanes(protocol_queue(tasks, k), j)) == k - j,
        drain_lanes(protocol_queue(tasks, k), k).len() == 0,
{
    let q = protocol_queue(tasks, k);
    lemma_protocol_queue(tasks, k);
    lemma_drain_markers(k - 1, k - 1);
    if j > 0 {
        assert(drain_lanes(q, j) == drain_lanes(after_first_terminate(q), j - 1));
        lemma_drain_markers(k - 1, j - 1);
        lemma_protocol_queue(Seq::<TaskDescriptor>::empty(), k - j);
        assert(protocol_queue(Seq::<TaskDescriptor>::empty(), k - j) =~= term_markers(k - j));
    }
    assert(drain_lanes(q, k) == drain_lanes(after_first_terminate(q), k - 1));
    assert(term_markers(0).len() == 0);
}

} // verus!
