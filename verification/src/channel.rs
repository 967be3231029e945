//! A bounded, single-producer single-consumer channel, modelled as a value.
//!
//! The running system moves submissions and events through bounded
//! asynchronous channels; each end has exactly one owner, so the pair's
//! whole behaviour is a function of one queue. This model owns that queue
//! directly. Suspension has no meaning in a sequential model, so `try_send`
//! answers `Full` where the real sender would suspend: the refused value
//! comes back untouched and the queue is unchanged, which is exactly the
//! backpressure promise — nothing is dropped and nothing errors, the
//! submitter merely waits until the consumer drains.

use vstd::prelude::*;

verus! {

/// Outcome of a non-blocking send. A refused value is handed back, so a
/// failed send can never lose it.
#[derive(Debug, PartialEq, Eq)]
pub enum SendAttempt<T> {
    /// The value was enqueued.
    Sent,
    /// The queue is at capacity; a real sender would suspend here.
    Full(T),
    /// The receiving end is gone; the channel will never accept again.
    Disconnected(T),
}

/// Outcome of a non-blocking receive.
#[derive(Debug, PartialEq, Eq)]
pub enum RecvAttempt<T> {
    /// The oldest queued value.
    Received(T),
    /// Nothing queued yet; a real receiver would suspend here.
    Empty,
    /// Nothing queued and the sending end is gone: the stream has ended.
    Disconnected,
}

/// A bounded FIFO channel with both ends in one place.
pub struct BoundedChan<T> {
    pub items: Vec<T>,
    pub capacity: usize,
    pub sender_open: bool,
    pub receiver_open: bool,
}

impl<T> BoundedChan<T> {
    /// What is queued, oldest first.
    pub open spec fn contents(self) -> Seq<T> {
        self.items@
    }

    pub open spec fn wf(self) -> bool {
        self.capacity >= 1 && self.items@.len() <= self.capacity
    }

    pub open spec fn is_full(self) -> bool {
        self.items@.len() == self.capacity
    }

    pub fn new(capacity: usize) -> (c: Self)
        requires
            capacity >= 1,
        ensures
            c.wf(),
            c.contents() == Seq::<T>::empty(),
            c.capacity == capacity,
            c.sender_open,
            c.receiver_open,
    {
        BoundedChan { items: Vec::new(), capacity, sender_open: true, receiver_open: true }
    }

    /// Enqueue `t` if there is room and a receiver; otherwise hand it back.
    pub fn try_send(&mut self, t: T) -> (r: SendAttempt<T>)
        requires
            old(self).wf(),
        ensures
            final(self).wf(),
            final(self).capacity == old(self).capacity,
            final(self).sender_open == old(self).sender_open,
            final(self).receiver_open == old(self).receiver_open,
            !old(self).receiver_open ==> r == SendAttempt::Disconnected(t)
                && *final(self) == *old(self),
            old(self).receiver_open && old(self).is_full() ==> r == SendAttempt::Full(t)
                && *final(self) == *old(self),
            old(self).receiver_open && !old(self).is_full() ==> r == SendAttempt::<T>::Sent
                && final(self).contents() == old(self).contents().push(t),
    {
        if !self.receiver_open {
            SendAttempt::Disconnected(t)
        } else if self.items.len() == self.capacity {
            SendAttempt::Full(t)
        } else {
            self.items.push(t);
            SendAttempt::Sent
        }
    }

    /// Dequeue the oldest value; report a closed stream only once drained.
    pub fn try_recv(&mut self) -> (r: RecvAttempt<T>)
        requires
            old(self).wf(),
        ensures
            final(self).wf(),
            final(self).capacity == old(self).capacity,
            final(self).sender_open == old(self).sender_open,
            final(self).receiver_open == old(self).receiver_open,
            old(self).contents().len() > 0 ==> r == RecvAttempt::Received(
                old(self).contents()[0],
            ) && final(self).contents() == old(self).contents().subrange(
                1,
                old(self).contents().len() as int,
            ),
            old(self).contents().len() == 0 && old(self).sender_open ==> r
                == RecvAttempt::<T>::Empty && *final(self) == *old(self),
            old(self).contents().len() == 0 && !old(self).sender_open ==> r
                == RecvAttempt::<T>::Disconnected && *final(self) == *old(self),
    {
        if self.items.len() > 0 {
            let t = self.items.remove(0);
            RecvAttempt::Received(t)
        } else if self.sender_open {
            RecvAttempt::Empty
        } else {
            RecvAttempt::Disconnected
        }
    }

    /// Drop the sending end: the receiver drains what is queued, then sees
    /// the stream end.
    pub fn close_sender(&mut self)
        requires
            old(self).wf(),
        ensures
            final(self).wf(),
            *final(self) == (BoundedChan { sender_open: false, ..*old(self) }),
    {
        self.sender_open = false;
    }

    /// Drop the receiving end: every later send is refused.
    pub fn close_receiver(&mut self)
        requires
            old(self).wf(),
        ensures
            final(self).wf(),
            *final(self) == (BoundedChan { receiver_open: false, ..*old(self) }),
    {
        self.receiver_open = false;
    }

    /// The backpressure discipline, in one round: a send against a full
    /// channel is refused without loss, and succeeds as soon as the consumer
    /// drains one value. The queue ends up shifted by one with the new value
    /// at the tail — nothing dropped, nothing reordered.
    pub fn resend_after_drain(&mut self, t: T) -> (drained: T)
        requires
            old(self).wf(),
            old(self).is_full(),
            old(self).sender_open,
            old(self).receiver_open,
        ensures
            final(self).wf(),
            drained == old(self).contents()[0],
            final(self).contents() == old(self).contents().subrange(
                1,
                old(self).contents().len() as int,
            ).push(t),
    {
        let first = self.try_send(t);
        let t = match first {
            SendAttempt::Full(t) => t,
            _ => vstd::pervasive::unreached(),
        };
        let drained = match self.try_recv() {
            RecvAttempt::Received(v) => v,
            _ => vstd::pervasive::unreached(),
        };
        let second = self.try_send(t);
        assert(second is Sent);
        drained
    }
}

} // verus!
