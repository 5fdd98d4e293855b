//! The bounded queue of control messages.
use crate::daemon::ControlMessage;
use crossbeam::queue::ArrayQueue;
use vstd::prelude::*;

verus! {

/// A bounded queue.
#[verifier::external_type_specification]
#[verifier::external_body]
#[verifier::reject_recursive_types(T)]
pub struct ExArrayQueue<T>(crossbeam::queue::ArrayQueue<T>);

/// The messages in a queue, oldest first.
pub uninterp spec fn queued(queue: ArrayQueue<ControlMessage>) -> Seq<ControlMessage>;

/// How many messages a queue was made for.
pub uninterp spec fn queue_capacity(queue: ArrayQueue<ControlMessage>) -> nat;

/// `ArrayQueue::new`: an empty queue for `capacity` messages. It panics on
/// capacity zero and on capacities that cannot be allocated.
#[verifier::external_body]
pub(crate) fn new_queue(capacity: usize) -> (r: ArrayQueue<ControlMessage>)
    requires
        0 < capacity <= 0x1_0000,
    ensures
        queued(r) == Seq::<ControlMessage>::empty(),
        queue_capacity(r) == capacity,
{
    ArrayQueue::new(capacity)
}

/// `ArrayQueue::push`: appends a message, or hands it back where the queue is
/// full.
#[verifier::external_body]
pub(crate) fn push_message(queue: &mut ArrayQueue<ControlMessage>, message: ControlMessage) -> (r:
    Result<(), ControlMessage>)
    ensures
        queue_capacity(*final(queue)) == queue_capacity(*old(queue)),
        r is Ok <==> queued(*old(queue)).len() < queue_capacity(*old(queue)),
        r is Ok ==> queued(*final(queue)) == queued(*old(queue)).push(message),
        r matches Err(back) ==> back == message && queued(*final(queue)) == queued(*old(queue)),
{
    queue.push(message)
}

/// `ArrayQueue::pop`: takes the oldest message out, if there is one.
#[verifier::external_body]
pub(crate) fn pop_message(queue: &mut ArrayQueue<ControlMessage>) -> (r: Option<ControlMessage>)
    ensures
        queue_capacity(*final(queue)) == queue_capacity(*old(queue)),
        r is None <==> queued(*old(queue)).len() == 0,
        r is None ==> queued(*final(queue)) == queued(*old(queue)),
        r matches Some(message) ==> message == queued(*old(queue))[0] && queued(*final(queue))
            == queued(*old(queue)).skip(1),
{
    queue.pop()
}

/// `ArrayQueue::is_full`: whether the queue holds as many messages as it was
/// made for.
#[verifier::external_body]
pub(crate) fn queue_is_full(queue: &ArrayQueue<ControlMessage>) -> (r: bool)
    ensures
        r == (queued(*queue).len() >= queue_capacity(*queue)),
{
    queue.is_full()
}

} // verus!
