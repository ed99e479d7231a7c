//! The queue that carries events from the page to the worker.

use concurrent_queue::ConcurrentQueue;
use vstd::prelude::*;

use crate::event::{Event, PhysicalSize};

verus! {

/// An event on its way to the worker.
#[derive(Clone, Copy, Debug, PartialEq, Eq)]
pub struct ForwardedEvent {
    pub event: Event,
    /// For a change of the scale factor that the application can still answer: the details by
    /// which the answer is found, and the size that it started out as.
    pub size_reply: Option<(u64, PhysicalSize)>,
}

#[verifier::external_type_specification]
#[verifier::external_body]
#[verifier::reject_recursive_types(T)]
pub struct ExConcurrentQueue<T>(concurrent_queue::ConcurrentQueue<T>);

/// The events that a queue holds, the oldest first.
pub uninterp spec fn queued(queue: ConcurrentQueue<ForwardedEvent>) -> Seq<ForwardedEvent>;

/// Whether a queue takes every event: it was made without a bound and has not been closed.
pub uninterp spec fn unlimited(queue: ConcurrentQueue<ForwardedEvent>) -> bool;

/// `ConcurrentQueue::unbounded`: a new queue holds nothing and takes every event.
#[verifier::external_body]
pub(crate) fn new_queue() -> (queue: ConcurrentQueue<ForwardedEvent>)
    ensures
        queued(queue) == Seq::<ForwardedEvent>::empty(),
        unlimited(queue),
{
    ConcurrentQueue::unbounded()
}

/// `ConcurrentQueue::push`, by the only user of the queue at that moment: the event goes to the
/// end, or nothing changes. A queue that is open and has no bound does not refuse it.
#[verifier::external_body]
pub(crate) fn push(queue: &mut ConcurrentQueue<ForwardedEvent>, event: ForwardedEvent) -> (pushed:
    bool)
    ensures
        unlimited(*old(queue)) ==> pushed,
        queued(*final(queue)) == if pushed {
            queued(*old(queue)).push(event)
        } else {
            queued(*old(queue))
        },
        unlimited(*final(queue)) == unlimited(*old(queue)),
{
    queue.push(event).is_ok()
}

/// `ConcurrentQueue::pop`, by the only user of the queue at that moment: the oldest event leaves,
/// unless there is none.
#[verifier::external_body]
pub(crate) fn pop(queue: &mut ConcurrentQueue<ForwardedEvent>) -> (event: Option<ForwardedEvent>)
    ensures
        event == if queued(*old(queue)).len() > 0 {
            Some(queued(*old(queue))[0])
        } else {
            None
        },
        queued(*final(queue)) == if queued(*old(queue)).len() > 0 {
            queued(*old(queue)).drop_first()
        } else {
            queued(*old(queue))
        },
        unlimited(*final(queue)) == unlimited(*old(queue)),
{
    queue.pop().ok()
}

} // verus!
