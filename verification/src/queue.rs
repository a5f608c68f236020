use vstd::prelude::*;
use crate::event::InterruptEvent;

verus! {

/// How many events the queue can hold before enqueuing fails.
pub const QUEUE_CAPACITY: usize = 64;

/// The fixed-capacity FIFO that carries events from interrupt context to
/// the main loop. It wraps a lock-free bounded ring buffer so that
/// producers in interrupt context never block and no interrupt masking is
/// needed. Its contents are known to the verifier only through
/// `queue_contents`; the contracts below state the queue's behavior as the
/// single-hart system observes it, one completed operation at a time.
#[verifier::external_body]
pub struct EventQueue {
    inner: heapless::mpmc::Queue<InterruptEvent, 64>,
}

/// The events currently queued, oldest first.
pub uninterp spec fn queue_contents(q: EventQueue) -> Seq<InterruptEvent>;

impl EventQueue {
    /// Relies on heapless::mpmc::Queue::new: a freshly constructed queue
    /// is empty.
    #[verifier::external_body]
    pub fn new() -> (q: EventQueue)
        ensures
            queue_contents(q) == Seq::<InterruptEvent>::empty(),
    {
        #[allow(deprecated)]
        EventQueue { inner: heapless::mpmc::Queue::new() }
    }

    /// Relies on heapless::mpmc::Queue::enqueue: appends the item in FIFO
    /// order, and hands it back instead exactly when the queue already
    /// holds its full 64 items (the `N` of the bounded ring buffer).
    #[verifier::external_body]
    pub fn enqueue(&mut self, event: InterruptEvent) -> (r: Result<(), InterruptEvent>)
        ensures
            match r {
                Ok(()) => {
                    &&& queue_contents(*old(self)).len() < QUEUE_CAPACITY
                    &&& queue_contents(*final(self)) == queue_contents(*old(self)).push(event)
                },
                Err(rejected) => {
                    &&& queue_contents(*old(self)).len() >= QUEUE_CAPACITY
                    &&& queue_contents(*final(self)) == queue_contents(*old(self))
                    &&& rejected == event
                },
            },
    {
        self.inner.enqueue(event)
    }

    /// Relies on heapless::mpmc::Queue::dequeue: removes and returns the
    /// oldest item, or nothing when the queue is empty.
    #[verifier::external_body]
    pub fn dequeue(&mut self) -> (r: Option<InterruptEvent>)
        ensures
            match r {
                Some(event) => {
                    &&& queue_contents(*old(self)).len() > 0
                    &&& event == queue_contents(*old(self))[0]
                    &&& queue_contents(*final(self)) == queue_contents(*old(self)).skip(1)
                },
                None => {
                    &&& queue_contents(*old(self)).len() == 0
                    &&& queue_contents(*final(self)) == queue_contents(*old(self))
                },
            },
    {
        self.inner.dequeue()
    }
}

/// Hands an event from interrupt context to the main loop. Returns whether
/// the system must halt: a full queue means the consumer has stalled or
/// events arrive faster than they can ever be processed, and once an event
/// is lost the ordering guarantee the protocol state machines depend on is
/// gone. The caller reports the overflow and halts instead of running on;
/// it must never drop the event silently and continue.
pub fn dispatch_event(queue: &mut EventQueue, event: InterruptEvent) -> (halt: bool)
    ensures
        halt <==> queue_contents(*old(queue)).len() >= QUEUE_CAPACITY,
        !halt ==> queue_contents(*final(queue)) == queue_contents(*old(queue)).push(event),
        halt ==> queue_contents(*final(queue)) == queue_contents(*old(queue)),
{
    match queue.enqueue(event) {
        Ok(()) => false,
        Err(_) => true,
    }
}

} // verus!
