//! The session's send queue.
//!
//! All outbound frames of a connection pass through one queue whose only
//! consumer is the egress task.  The queue is FIFO: frames leave in
//! exactly the order they were enqueued, so the order on the wire is the
//! enqueue order.

use vstd::prelude::*;

use crate::codec::Frame;

verus! {

/// A FIFO queue of outbound frames, remembering everything ever enqueued.
pub struct SendQueue {
    buf: Vec<Frame>,
    history: Ghost<Seq<Frame>>,
    taken: Ghost<nat>,
}

impl SendQueue {
    /// The queue's pending frames are exactly the enqueued frames that
    /// have not been dequeued, in order.
    pub closed spec fn wf(self) -> bool {
        &&& self.taken@ + self.buf@.len() == self.history@.len()
        &&& self.buf@ == self.history@.subrange(self.taken@ as int, self.history@.len() as int)
    }

    /// Every frame ever enqueued, oldest first.
    pub closed spec fn enqueued(self) -> Seq<Frame> {
        self.history@
    }

    /// Every frame handed to the egress task so far, oldest first.
    pub closed spec fn delivered(self) -> Seq<Frame> {
        self.history@.take(self.taken@ as int)
    }

    pub fn new() -> (r: SendQueue)
        ensures
            r.wf(),
            r.enqueued() == Seq::<Frame>::empty(),
            r.delivered() == Seq::<Frame>::empty(),
    {
        let r = SendQueue { buf: Vec::new(), history: Ghost(Seq::empty()), taken: Ghost(0) };
        proof {
            assert(r.buf@ =~= r.history@.subrange(0, 0));
            assert(r.delivered() =~= Seq::<Frame>::empty());
        }
        r
    }

    /// Append a frame.
    pub fn enqueue(&mut self, frame: Frame) -> (r: ())
        requires
            old(self).wf(),
        ensures
            final (self).wf(),
            final (self).enqueued() == old(self).enqueued().push(frame),
            final (self).delivered() == old(self).delivered(),
    {
        let ghost f = frame;
        self.buf.push(frame);
        proof {
            self.history@ = self.history@.push(f);
            assert(self.buf@ =~= self.history@.subrange(
                self.taken@ as int,
                self.history@.len() as int,
            ));
            assert(self.delivered() =~= old(self).delivered());
        }
    }

    /// Hand the oldest pending frame to the egress task, if any.  Frames
    /// come out in enqueue order: the frame returned is always the one at
    /// position `delivered().len()` of the enqueue history.
    pub fn dequeue(&mut self) -> (r: Option<Frame>)
        requires
            old(self).wf(),
        ensures
            final (self).wf(),
            final (self).enqueued() == old(self).enqueued(),
            match r {
                Some(frame) => old(self).delivered().len() < old(self).enqueued().len() && frame
                    == old(self).enqueued()[old(self).delivered().len() as int] && final (
                self).delivered() == old(self).delivered().push(frame),
                None => old(self).delivered().len() == old(self).enqueued().len() && final (
                self).delivered() == old(self).delivered(),
            },
    {
        if self.buf.len() == 0 {
            return None;
        }
        let frame = self.buf.remove(0);
        proof {
            self.taken@ = self.taken@ + 1;
            assert(self.buf@ =~= self.history@.subrange(
                self.taken@ as int,
                self.history@.len() as int,
            ));
            assert(self.delivered() =~= old(self).delivered().push(frame));
        }
        Some(frame)
    }
}

/// Law: the egress task sees exactly a prefix of the enqueue history —
/// outbound frames leave in the order of their enqueue.
pub proof fn lemma_send_queue_fifo(q: SendQueue)
    requires
        q.wf(),
    ensures
        q.delivered().len() <= q.enqueued().len(),
        q.delivered() == q.enqueued().take(q.delivered().len() as int),
{
    assert(q.delivered() =~= q.enqueued().take(q.delivered().len() as int));
}

} // verus!
