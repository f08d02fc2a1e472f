//! The runtime bridge: a suspending producer becomes a pull-based sequence.
//!
//! Two variants. The single-slot cooperative bridge shares a one-item slot
//! with the producer: each emission stores its value and suspends until the
//! slot is drained, and the consumer drives progress by resuming the producer
//! and draining the slot. The bounded-channel bridge runs the producer as an
//! independently schedulable task sending into a capacity-one queue; its
//! consumer-facing adapter is a three-state machine that checks the queue
//! before honouring completion, so the final item can never be lost to a
//! completion race.
//!
//! This module holds the decision logic of both variants as verified state
//! machines, and proves the delivery law: composed with a cooperative
//! producer, each bridge delivers exactly the emitted items, in emission
//! order, with never more than one item in flight.

use vstd::prelude::*;

verus! {

/// The one-item slot shared between a producer and the cooperative bridge.
/// At most one value is ever in flight: the slot is it.
pub struct FutureToStream<T> {
    pub slot: Option<T>,
}

/// The suspension a producer holds after emitting: it stays pending until
/// the slot has been drained by the consumer.
pub struct FutureToStreamYieldFuture {}

/// What polling a suspension reports.
#[derive(Clone, Copy, PartialEq, Eq, Structural, Debug)]
pub enum YieldPoll {
    Ready,
    Pending,
}

/// What polling the producer computation reports.
#[derive(Clone, Copy, PartialEq, Eq, Structural, Debug)]
pub enum ProducerPoll {
    Finished,
    Suspended,
}

/// What one pull of a bridge yields: the next item, the end of the sequence,
/// or nothing yet.
pub enum StreamPoll<T> {
    Item(T),
    End,
    Pending,
}

impl<T> FutureToStream<T> {
    /// An empty slot: nothing in flight.
    pub fn new() -> (r: Self)
        ensures
            r.slot is None,
    {
        FutureToStream { slot: None }
    }

    /// Emit a value: store it in the slot and hand back the suspension that
    /// stays pending until the slot is drained.
    pub fn _yield(&mut self, value: T) -> (r: FutureToStreamYieldFuture)
        ensures
            final(self).slot == Some(value),
    {
        self.slot = Some(value);
        FutureToStreamYieldFuture {  }
    }
}

impl FutureToStreamYieldFuture {
    /// The suspension is ready exactly when the slot has been drained.
    pub fn poll<T>(&self, stream: &FutureToStream<T>) -> (r: YieldPoll)
        ensures
            r is Ready <==> stream.slot is None,
    {
        if stream.slot.is_some() {
            YieldPoll::Pending
        } else {
            YieldPoll::Ready
        }
    }
}

/// The consumer-facing side of the cooperative bridge: it owns the slot and
/// is driven by pulls, each of which resumes the producer first and then
/// drains the slot.
pub struct TheStream<T> {
    pub future_to_stream: FutureToStream<T>,
}

impl<T> TheStream<T> {
    /// Wrap a slot into the pull-based sequence.
    pub fn new(future_to_stream: FutureToStream<T>) -> (r: Self)
        ensures
            r.future_to_stream.slot == future_to_stream.slot,
    {
        TheStream { future_to_stream }
    }

    /// One pull, after the producer has been resumed with the given result:
    /// a finished producer ends the sequence; otherwise the slot, if
    /// occupied, is drained and its value delivered; an empty slot under a
    /// suspended producer yields nothing yet.
    pub fn poll_next(&mut self, producer: ProducerPoll) -> (r: StreamPoll<T>)
        ensures
            producer is Finished ==> r is End && final(self).future_to_stream.slot
                == old(self).future_to_stream.slot,
            producer is Suspended && old(self).future_to_stream.slot is Some ==> r
                == StreamPoll::Item(old(self).future_to_stream.slot->0)
                && final(self).future_to_stream.slot is None,
            producer is Suspended && old(self).future_to_stream.slot is None ==> r is Pending
                && final(self).future_to_stream.slot is None,
    {
        match producer {
            ProducerPoll::Finished => StreamPoll::End,
            ProducerPoll::Suspended => {
                match self.future_to_stream.slot.take() {
                    Some(value) => StreamPoll::Item(value),
                    None => StreamPoll::Pending,
                }
            },
        }
    }
}

/// One resumption of a cooperative producer scripted to emit a fixed list of
/// items: while the slot is occupied it stays suspended; with the slot free
/// it emits its next item and suspends, or finishes when none is left.
pub fn scripted_producer_poll<T>(pending: &mut Vec<T>, stream: &mut FutureToStream<T>) -> (r:
    ProducerPoll)
    ensures
        old(stream).slot is Some ==> r is Suspended && final(stream).slot == old(stream).slot
            && final(pending)@ == old(pending)@,
        old(stream).slot is None && old(pending)@.len() > 0 ==> r is Suspended
            && final(stream).slot == Some(old(pending)@[0])
            && final(pending)@ == old(pending)@.drop_first(),
        old(stream).slot is None && old(pending)@.len() == 0 ==> r is Finished
            && final(stream).slot is None && final(pending)@ == old(pending)@,
{
    if stream.slot.is_some() {
        ProducerPoll::Suspended
    } else if pending.len() > 0 {
        let ghost orig = pending@;
        let v = pending.remove(0);
        proof {
            assert(pending@ =~= orig.drop_first());
        }
        let _ = stream._yield(v);
        ProducerPoll::Suspended
    } else {
        ProducerPoll::Finished
    }
}

/// Delivery law for the cooperative bridge: a producer that emits the given
/// items through the single-item slot, pulled to completion, delivers
/// exactly those items, in emission order. At most one item is ever in
/// flight, because the slot is the only buffer.
#[verifier::loop_isolation(false)]
pub fn the_stream_run<T>(items: Vec<T>) -> (r: Vec<T>)
    ensures
        r@ == items@,
{
    let ghost itemsg = items@;
    let mut pending = items;
    let mut the_stream = TheStream::new(FutureToStream::new());
    let mut out: Vec<T> = Vec::new();
    loop
        invariant
            the_stream.future_to_stream.slot is None,
            out@ + pending@ == itemsg,
        decreases pending@.len(),
    {
        let ghost outg = out@;
        let ghost pendingg = pending@;
        let producer = scripted_producer_poll(&mut pending, &mut the_stream.future_to_stream);
        let step = the_stream.poll_next(producer);
        match step {
            StreamPoll::Item(v) => {
                out.push(v);
                proof {
                    assert(out@ =~= outg.push(pendingg[0]));
                    assert(out@ + pending@ =~= itemsg);
                }
            },
            StreamPoll::End => {
                proof {
                    assert(out@ + pending@ =~= out@);
                    assert(out@ =~= itemsg);
                }
                return out;
            },
            StreamPoll::Pending => {
                proof {
                    assert(false);
                }
            },
        }
    }
}

/// The states of the bounded-channel bridge: while the producer task runs,
/// both it and the queue are polled; once the producer has completed and the
/// queue has shown empty, only the queue is drained; an empty queue in the
/// draining state ends the sequence.
#[derive(Clone, Copy, PartialEq, Eq, Structural, Debug)]
pub enum BridgeState {
    Running,
    Draining,
    Done,
}

/// What polling the producer task reports.
#[derive(Clone, Copy, PartialEq, Eq, Structural, Debug)]
pub enum TaskPoll {
    Complete,
    Progress,
}

/// What polling the queue reports.
pub enum QueuePoll<T> {
    Item(T),
    Empty,
}

/// The consumer-facing adapter of the bounded-channel bridge: a state
/// machine over the results of polling the producer task and the
/// capacity-one queue.
pub struct TemplateToStream {
    pub state: BridgeState,
}

impl TemplateToStream {
    /// A fresh bridge, with the producer task still to run.
    pub fn new() -> (r: Self)
        ensures
            r.state is Running,
    {
        TemplateToStream { state: BridgeState::Running }
    }

    /// One pull. The queue is checked before completion is honoured: an item
    /// from the queue is always delivered, even on the pull in which the
    /// producer reports completion, so the final item can never be dropped.
    /// Only after the producer has completed and the queue has shown empty
    /// does the bridge drain, and only an empty queue while draining ends
    /// the sequence.
    pub fn poll_next<T>(&mut self, task: TaskPoll, queue: QueuePoll<T>) -> (r: StreamPoll<T>)
        ensures
            old(self).state is Running && queue is Item ==> final(self).state is Running && r
                == StreamPoll::Item(queue->Item_0),
            old(self).state is Running && task is Progress && queue is Empty
                ==> final(self).state is Running && r is Pending,
            old(self).state is Running && task is Complete && queue is Empty
                ==> final(self).state is Draining && r is Pending,
            old(self).state is Draining && queue is Item ==> final(self).state is Draining && r
                == StreamPoll::Item(queue->Item_0),
            old(self).state is Draining && queue is Empty ==> final(self).state is Done && r
                is End,
            old(self).state is Done ==> final(self).state is Done && r is End,
    {
        match self.state {
            BridgeState::Running => {
                match queue {
                    QueuePoll::Item(v) => StreamPoll::Item(v),
                    QueuePoll::Empty => {
                        match task {
                            TaskPoll::Complete => {
                                self.state = BridgeState::Draining;
                                StreamPoll::Pending
                            },
                            TaskPoll::Progress => StreamPoll::Pending,
                        }
                    },
                }
            },
            BridgeState::Draining => {
                match queue {
                    QueuePoll::Item(v) => StreamPoll::Item(v),
                    QueuePoll::Empty => {
                        self.state = BridgeState::Done;
                        StreamPoll::End
                    },
                }
            },
            BridgeState::Done => StreamPoll::End,
        }
    }
}

/// One poll of a producer task scripted to send a fixed list of items into
/// the capacity-one queue: with the queue free it sends its next item, and
/// reports completion as soon as nothing is left to send — on the very poll
/// of the last send, which is the completion race the bridge must survive.
pub fn scripted_task_poll<T>(pending: &mut Vec<T>, queue: &mut Option<T>) -> (r: TaskPoll)
    requires
        (*old(queue)) is None,
    ensures
        old(pending)@.len() == 0 ==> r is Complete && (*final(queue)) is None && final(pending)@
            == old(pending)@,
        old(pending)@.len() > 0 ==> (*final(queue)) == Some(old(pending)@[0]) && final(pending)@
            == old(pending)@.drop_first() && (r is Complete <==> old(pending)@.len() == 1),
{
    if pending.len() == 0 {
        TaskPoll::Complete
    } else {
        let ghost orig = pending@;
        let v = pending.remove(0);
        proof {
            assert(pending@ =~= orig.drop_first());
        }
        *queue = Some(v);
        if pending.len() == 0 {
            TaskPoll::Complete
        } else {
            TaskPoll::Progress
        }
    }
}

/// Take whatever the capacity-one queue holds.
pub fn queue_take<T>(queue: &mut Option<T>) -> (r: QueuePoll<T>)
    ensures
        (*final(queue)) is None,
        (*old(queue)) is Some ==> r == QueuePoll::Item((*old(queue))->0),
        (*old(queue)) is None ==> r is Empty,
{
    match queue.take() {
        Some(v) => QueuePoll::Item(v),
        None => QueuePoll::Empty,
    }
}

/// The rank of a bridge state, for termination: it only ever falls.
pub open spec fn state_rank(s: BridgeState) -> int {
    match s {
        BridgeState::Running => 2,
        BridgeState::Draining => 1,
        BridgeState::Done => 0,
    }
}

/// Delivery law for the bounded-channel bridge: a producer task that sends
/// the given items through the capacity-one queue, pulled to completion,
/// delivers exactly those items, in emission order, and the sequence ends.
/// The final item is sent on the same poll that reports completion, so this
/// covers the completion race; the capacity-one queue is the only buffer, so
/// at most one item is ever in flight ahead of consumption.
#[verifier::loop_isolation(false)]
pub fn bridge_run<T>(items: Vec<T>) -> (r: Vec<T>)
    ensures
        r@ == items@,
{
    let ghost itemsg = items@;
    let mut pending = items;
    let mut queue: Option<T> = None;
    let mut bridge = TemplateToStream::new();
    let mut out: Vec<T> = Vec::new();
    loop
        invariant
            queue is None,
            out@ + pending@ == itemsg,
            bridge.state is Running || bridge.state is Draining,
            bridge.state is Draining ==> pending@.len() == 0,
        decreases pending@.len(), state_rank(bridge.state),
    {
        let ghost outg = out@;
        let ghost pendingg = pending@;
        let task = match bridge.state {
            BridgeState::Running => scripted_task_poll(&mut pending, &mut queue),
            _ => TaskPoll::Complete,
        };
        let qp = queue_take(&mut queue);
        let step = bridge.poll_next(task, qp);
        match step {
            StreamPoll::Item(v) => {
                out.push(v);
                proof {
                    assert(out@ =~= outg.push(pendingg[0]));
                    assert(out@ + pending@ =~= itemsg);
                }
            },
            StreamPoll::End => {
                proof {
                    assert(out@ + pending@ =~= out@);
                    assert(out@ =~= itemsg);
                }
                return out;
            },
            StreamPoll::Pending => {},
        }
    }
}

} // verus!
