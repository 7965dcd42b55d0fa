//! The channel from the sync loop to the response receiver, as the two loops
//! rely on it.
//!
//! The channel itself is the caller's: a bounded queue between the network
//! side and the main thread. A send waits while the queue is full, a receive
//! waits while it is empty, and nothing else touches the queue. This module
//! states that behaviour as a model and proves what follows from it for the
//! receiver: it gets what was sent, in the order in which it was sent.
use vstd::prelude::*;

verus! {

/// The channel at one moment: the items that wait in it, oldest first, and
/// the number of items that it holds at most.
pub ghost struct ChannelView<T> {
    pub queue: Seq<T>,
    pub capacity: nat,
}

/// One operation on the channel.
pub ghost enum Operation<T> {
    /// A task on the network side puts an item in.
    Send(T),
    /// The receiver takes the oldest item out.
    Receive,
}

impl<T> ChannelView<T> {
    /// An empty channel.
    pub open spec fn new(capacity: nat) -> Self {
        ChannelView { queue: Seq::empty(), capacity }
    }

    /// Whether the operation can take place now. A send needs room and a
    /// receive needs an item; until then the task that asks for it waits.
    pub open spec fn admits(self, op: Operation<T>) -> bool {
        match op {
            Operation::Send(_) => self.queue.len() < self.capacity,
            Operation::Receive => self.queue.len() > 0,
        }
    }

    /// The channel after the operation.
    pub open spec fn apply(self, op: Operation<T>) -> Self {
        match op {
            Operation::Send(item) => ChannelView { queue: self.queue.push(item), ..self },
            Operation::Receive => ChannelView { queue: self.queue.drop_first(), ..self },
        }
    }

    /// The channel after a series of operations.
    pub open spec fn apply_all(self, ops: Seq<Operation<T>>) -> Self
        decreases ops.len(),
    {
        if ops.len() == 0 {
            self
        } else {
            self.apply_all(ops.drop_last()).apply(ops.last())
        }
    }

    /// Whether the operations can take place one after the other, each as
    /// the ones before it have left the channel. The sends may come from
    /// several tasks: the series is the order in which the channel took them.
    pub open spec fn admits_all(self, ops: Seq<Operation<T>>) -> bool
        decreases ops.len(),
    {
        ops.len() == 0 || (self.admits_all(ops.drop_last()) && self.apply_all(
            ops.drop_last(),
        ).admits(ops.last()))
    }

    /// The items that the receives of a series of operations hand out, in
    /// order.
    pub open spec fn received(self, ops: Seq<Operation<T>>) -> Seq<T>
        decreases ops.len(),
    {
        if ops.len() == 0 {
            Seq::empty()
        } else {
            match ops.last() {
                Operation::Send(_) => self.received(ops.drop_last()),
                Operation::Receive => self.received(ops.drop_last()).push(
                    self.apply_all(ops.drop_last()).queue[0],
                ),
            }
        }
    }
}

/// The items that the sends of a series of operations put in, in order.
pub open spec fn sent<T>(ops: Seq<Operation<T>>) -> Seq<T>
    decreases ops.len(),
{
    if ops.len() == 0 {
        Seq::empty()
    } else {
        match ops.last() {
            Operation::Send(item) => sent(ops.drop_last()).push(item),
            Operation::Receive => sent(ops.drop_last()),
        }
    }
}

/// The channel loses nothing and reorders nothing: what was in it and what
/// was sent is, in that order, what was received and what is still in it.
pub proof fn nothing_lost_or_reordered<T>(channel: ChannelView<T>, ops: Seq<Operation<T>>)
    requires
        channel.admits_all(ops),
    ensures
        channel.queue + sent(ops) == channel.received(ops) + channel.apply_all(ops).queue,
    decreases ops.len(),
{
    if ops.len() == 0 {
        assert(channel.queue + sent(ops) =~= channel.received(ops) + channel.apply_all(ops).queue);
    } else {
        let earlier = ops.drop_last();
        nothing_lost_or_reordered(channel, earlier);
        let before = channel.apply_all(earlier);
        match ops.last() {
            Operation::Send(item) => {
                assert(channel.queue + sent(ops) =~= (channel.queue + sent(earlier)).push(item));
                assert(channel.received(ops) + channel.apply_all(ops).queue =~= (channel.received(
                    earlier,
                ) + before.queue).push(item));
            },
            Operation::Receive => {
                assert(channel.received(ops) + channel.apply_all(ops).queue =~= channel.received(
                    earlier,
                ) + before.queue);
            },
        }
    }
}

/// The receiver sees the items in the order in which they were sent: what
/// it has received is a beginning of what was sent.
pub proof fn received_in_order_sent<T>(capacity: nat, ops: Seq<Operation<T>>)
    requires
        ChannelView::<T>::new(capacity).admits_all(ops),
    ensures
        ChannelView::<T>::new(capacity).received(ops).is_prefix_of(sent(ops)),
{
    let channel = ChannelView::<T>::new(capacity);
    nothing_lost_or_reordered(channel, ops);
    assert(channel.queue + sent(ops) =~= sent(ops));
    let got = channel.received(ops);
    assert(got =~= (got + channel.apply_all(ops).queue).subrange(0, got.len() as int));
}

/// As many receives as sends hand out exactly what was sent: every item
/// once, unchanged, in order. The same holds whenever the channel is empty
/// again.
pub proof fn all_sent_is_received<T>(capacity: nat, ops: Seq<Operation<T>>)
    requires
        ChannelView::<T>::new(capacity).admits_all(ops),
        ChannelView::<T>::new(capacity).received(ops).len() == sent(ops).len()
            || ChannelView::<T>::new(capacity).apply_all(ops).queue.len() == 0,
    ensures
        ChannelView::<T>::new(capacity).received(ops) == sent(ops),
        ChannelView::<T>::new(capacity).apply_all(ops).queue.len() == 0,
{
    let channel = ChannelView::<T>::new(capacity);
    nothing_lost_or_reordered(channel, ops);
    assert(channel.queue + sent(ops) =~= sent(ops));
    let left = channel.apply_all(ops).queue;
    assert((channel.received(ops) + left).len() == channel.received(ops).len() + left.len());
    assert(channel.received(ops) + left =~= channel.received(ops));
}

/// The channel never holds more than its capacity.
pub proof fn within_capacity<T>(channel: ChannelView<T>, ops: Seq<Operation<T>>)
    requires
        channel.queue.len() <= channel.capacity,
        channel.admits_all(ops),
    ensures
        channel.apply_all(ops).queue.len() <= channel.capacity,
        channel.apply_all(ops).capacity == channel.capacity,
    decreases ops.len(),
{
    if ops.len() > 0 {
        within_capacity(channel, ops.drop_last());
    }
}

} // verus!
