//! Bounded, ordered command queue between producers and the single consumer
//! loop.
//!
//! The bound gives backpressure: submitting into a full queue is a
//! recoverable, caller-visible condition, distinct from any session failure.
//! Closing the queue refuses all later submissions while the consumer drains
//! what is already queued.

use vstd::prelude::*;

use crate::command::SealerCommand;

verus! {

/// Why a submission was refused.
#[derive(Clone, Copy, Debug, PartialEq, Eq, Structural)]
pub enum EnqueueError {
    /// The queue has been closed; no further commands are accepted.
    QueueClosed,
    /// The queue is at capacity; the caller may retry later.
    QueueFull,
}

/// A capacity-bounded FIFO of pending commands.
pub struct CommandQueue {
    items: Vec<SealerCommand>,
    capacity: usize,
    closed: bool,
}

impl CommandQueue {
    /// Pending commands, oldest first.
    pub closed spec fn pending(self) -> Seq<SealerCommand> {
        self.items@
    }

    /// The capacity the queue was created with.
    pub closed spec fn spec_capacity(self) -> usize {
        self.capacity
    }

    /// Whether the queue has been closed.
    pub closed spec fn spec_closed(self) -> bool {
        self.closed
    }

    /// The queue never holds more than its capacity, and every pending
    /// command asks for a positive duration.
    pub open spec fn wf(self) -> bool {
        &&& self.pending().len() <= self.spec_capacity()
        &&& forall|i: int| 0 <= i < self.pending().len() ==> (#[trigger] self.pending()[i]).valid()
    }

    /// An empty, open queue with the given capacity.
    pub fn new(capacity: usize) -> (q: CommandQueue)
        ensures
            q.pending() =~= Seq::<SealerCommand>::empty(),
            q.spec_capacity() == capacity,
            !q.spec_closed(),
            q.wf(),
    {
        CommandQueue { items: Vec::new(), capacity, closed: false }
    }

    /// Submit a command. Refused with `QueueClosed` once the queue is
    /// closed, with `QueueFull` when it is at capacity; otherwise the
    /// command is appended after everything already pending.
    pub fn enqueue(&mut self, c: SealerCommand) -> (r: Result<(), EnqueueError>)
        requires
            old(self).wf(),
            c.valid(),
        ensures
            final(self).wf(),
            final(self).spec_capacity() == old(self).spec_capacity(),
            final(self).spec_closed() == old(self).spec_closed(),
            old(self).spec_closed() ==> {
                &&& r == Result::<(), EnqueueError>::Err(EnqueueError::QueueClosed)
                &&& final(self).pending() == old(self).pending()
            },
            (!old(self).spec_closed() && old(self).pending().len() == old(self).spec_capacity())
                ==> {
                &&& r == Result::<(), EnqueueError>::Err(EnqueueError::QueueFull)
                &&& final(self).pending() == old(self).pending()
            },
            (!old(self).spec_closed() && old(self).pending().len() < old(self).spec_capacity())
                ==> {
                &&& r == Result::<(), EnqueueError>::Ok(())
                &&& final(self).pending() == old(self).pending().push(c)
            },
    {
        if self.closed {
            Err(EnqueueError::QueueClosed)
        } else if self.items.len() == self.capacity {
            Err(EnqueueError::QueueFull)
        } else {
            self.items.push(c);
            Ok(())
        }
    }

    /// Remove and return the oldest pending command, if any.
    pub fn dequeue(&mut self) -> (r: Option<SealerCommand>)
        requires
            old(self).wf(),
        ensures
            final(self).wf(),
            final(self).spec_capacity() == old(self).spec_capacity(),
            final(self).spec_closed() == old(self).spec_closed(),
            old(self).pending().len() == 0 ==> {
                &&& r is None
                &&& final(self).pending() == old(self).pending()
            },
            old(self).pending().len() > 0 ==> {
                &&& r == Some(old(self).pending()[0])
                &&& final(self).pending() == old(self).pending().drop_first()
            },
    {
        if self.items.len() == 0 {
            None
        } else {
            let c = self.items.remove(0);
            assert(self.pending() =~= old(self).pending().drop_first());
            Some(c)
        }
    }

    /// Close the queue: later submissions are refused, what is pending
    /// stays to be drained.
    pub fn close(&mut self)
        requires
            old(self).wf(),
        ensures
            final(self).wf(),
            final(self).spec_closed(),
            final(self).pending() == old(self).pending(),
            final(self).spec_capacity() == old(self).spec_capacity(),
    {
        self.closed = true;
    }

    /// How many commands are pending.
    pub fn len(&self) -> (n: usize)
        ensures
            n == self.pending().len(),
    {
        self.items.len()
    }

    /// Whether nothing is pending.
    pub fn is_empty(&self) -> (b: bool)
        ensures
            b <==> self.pending().len() == 0,
    {
        self.items.len() == 0
    }

    /// Whether the queue has been closed.
    pub fn is_closed(&self) -> (b: bool)
        ensures
            b == self.spec_closed(),
    {
        self.closed
    }
}

} // verus!
