use std::collections::VecDeque;
use vstd::prelude::*;

use crate::error::{SendTimeoutError, TryRecvError, TrySendError};
use crate::head_state::{Claim, HeadState};

verus! {

/// The counters as they relate to the number of values held: `sends` runs
/// ahead of `recvs` by exactly `held`, modulo the word size.
pub open spec fn counters_match(sends: usize, recvs: usize, held: nat) -> bool {
    &&& held <= usize::MAX
    &&& (sends as int == recvs as int + held || sends as int + usize::MAX as int + 1
        == recvs as int + held)
}

/// What a non-blocking receive reports on a queue that held `items`.
pub open spec fn try_recv_spec<T>(items: Seq<T>, closed: bool) -> Result<T, TryRecvError> {
    if items.len() > 0 {
        Ok(items[0])
    } else if closed {
        Err(TryRecvError::Disconnected)
    } else {
        Err(TryRecvError::Empty)
    }
}

/// What a queue that held `items` holds after one receive.
pub open spec fn after_recv<T>(items: Seq<T>) -> Seq<T> {
    if items.len() > 0 {
        items.drop_first()
    } else {
        items
    }
}

/// An unbounded multi-producer multi-consumer queue.
///
/// Values leave in the order in which they came. Every value sent is received
/// once. The queue counts sends and receives with wrapping counters; their
/// difference is the number of values held. Once closed, it takes no more
/// values, but the values it holds can still be received.
pub struct Queue<T> {
    items: VecDeque<T>,
    sends: usize,
    recvs: usize,
    closed: bool,
    head: HeadState,
}

impl<T> View for Queue<T> {
    type V = Seq<T>;

    /// The values held, the next one to leave first.
    closed spec fn view(&self) -> Seq<T> {
        self.items@
    }
}

impl<T> Queue<T> {
    /// The queue's invariant.
    pub closed spec fn wf(&self) -> bool {
        &&& counters_match(self.sends, self.recvs, self.items@.len())
        &&& self.head != HeadState::FastBusy
    }

    /// The number of values sent so far, modulo the word size.
    pub closed spec fn sends_spec(&self) -> usize {
        self.sends
    }

    /// The number of values received so far, modulo the word size.
    pub closed spec fn recvs_spec(&self) -> usize {
        self.recvs
    }

    pub closed spec fn closed_spec(&self) -> bool {
        self.closed
    }

    /// The consumer mode of the head.
    pub closed spec fn head_spec(&self) -> HeadState {
        self.head
    }

    /// An open, empty queue in single-consumer mode.
    pub fn new() -> (r: Queue<T>)
        ensures
            r.wf(),
            r@ == Seq::<T>::empty(),
            r.sends_spec() == 0,
            r.recvs_spec() == 0,
            !r.closed_spec(),
            r.head_spec() == HeadState::FastFree,
    {
        Queue {
            items: VecDeque::new(),
            sends: 0,
            recvs: 0,
            closed: false,
            head: HeadState::new(),
        }
    }

    /// Appends `value` at the tail and counts the send.
    fn push(&mut self, value: T)
        requires
            old(self).wf(),
            old(self)@.len() < usize::MAX,
        ensures
            final(self).wf(),
            final(self)@ == old(self)@.push(value),
            final(self).sends_spec() == old(self).sends_spec().wrapping_add(1),
            final(self).recvs_spec() == old(self).recvs_spec(),
            final(self).closed_spec() == old(self).closed_spec(),
            final(self).head_spec() == old(self).head_spec(),
    {
        self.items.push_back(value);
        self.sends = self.sends.wrapping_add(1);
    }

    /// Removes the value at the head, if there is one, and counts the receive.
    ///
    /// In single-consumer mode the consumer claims the head for the time of
    /// the removal and hands it back afterwards; in multi-consumer mode it
    /// takes the value without a claim.
    fn pop(&mut self) -> (r: Option<T>)
        requires
            old(self).wf(),
        ensures
            final(self).wf(),
            final(self)@ == after_recv(old(self)@),
            r == (if old(self)@.len() > 0 { Some(old(self)@[0]) } else { None::<T> }),
            final(self).sends_spec() == old(self).sends_spec(),
            final(self).recvs_spec() == (if old(self)@.len() > 0 {
                old(self).recvs_spec().wrapping_add(1)
            } else {
                old(self).recvs_spec()
            }),
            final(self).closed_spec() == old(self).closed_spec(),
            final(self).head_spec() == old(self).head_spec(),
    {
        let fast = !self.head.is_slow();
        if fast {
            let c = self.head.claim();
            assert(c == Claim::Exclusive);
        }
        let r = self.items.pop_front();
        if r.is_some() {
            self.recvs = self.recvs.wrapping_add(1);
        }
        if fast {
            self.head.release();
        }
        r
    }

    /// Moves the queue to multi-consumer mode, for good: a second consumer
    /// found the head claimed by another.
    pub fn upgrade(&mut self)
        requires
            old(self).wf(),
        ensures
            final(self).wf(),
            final(self)@ == old(self)@,
            final(self).sends_spec() == old(self).sends_spec(),
            final(self).recvs_spec() == old(self).recvs_spec(),
            final(self).closed_spec() == old(self).closed_spec(),
            final(self).head_spec() == HeadState::Slow,
            old(self).head_spec().step_allowed(final(self).head_spec()),
    {
        self.head = HeadState::Slow;
    }

    /// Whether the queue is in multi-consumer mode.
    pub fn is_multi_consumer(&self) -> (r: bool)
        ensures
            r == self.head_spec().is_slow_spec(),
    {
        self.head.is_slow()
    }

    /// Sends `value` unless the queue is closed, in which case it comes back.
    pub fn try_send(&mut self, value: T) -> (r: Result<(), TrySendError<T>>)
        requires
            old(self).wf(),
            old(self)@.len() < usize::MAX,
        ensures
            final(self).wf(),
            final(self).closed_spec() == old(self).closed_spec(),
            final(self).head_spec() == old(self).head_spec(),
            final(self).recvs_spec() == old(self).recvs_spec(),
            old(self).closed_spec() ==> r == Err::<(), TrySendError<T>>(
                TrySendError::Disconnected(value),
            ) && final(self)@ == old(self)@ && final(self).sends_spec()
                == old(self).sends_spec(),
            !old(self).closed_spec() ==> r is Ok && final(self)@ == old(self)@.push(value)
                && final(self).sends_spec() == old(self).sends_spec().wrapping_add(1),
    {
        if self.closed {
            Err(TrySendError::Disconnected(value))
        } else {
            self.push(value);
            Ok(())
        }
    }

    /// Sends `value` unless the queue is closed. The queue has no bound, so
    /// a send never waits and `deadline` plays no part.
    pub fn send_until(&mut self, value: T, deadline: Option<u64>) -> (r: Result<
        (),
        SendTimeoutError<T>,
    >)
        requires
            old(self).wf(),
            old(self)@.len() < usize::MAX,
        ensures
            final(self).wf(),
            final(self).closed_spec() == old(self).closed_spec(),
            final(self).head_spec() == old(self).head_spec(),
            final(self).recvs_spec() == old(self).recvs_spec(),
            old(self).closed_spec() ==> r == Err::<(), SendTimeoutError<T>>(
                SendTimeoutError::Disconnected(value),
            ) && final(self)@ == old(self)@ && final(self).sends_spec()
                == old(self).sends_spec(),
            !old(self).closed_spec() ==> r is Ok && final(self)@ == old(self)@.push(value)
                && final(self).sends_spec() == old(self).sends_spec().wrapping_add(1),
    {
        if self.closed {
            Err(SendTimeoutError::Disconnected(value))
        } else {
            self.push(value);
            Ok(())
        }
    }

    /// Receives the value at the head; without one, reports whether the
    /// queue is closed or merely empty.
    pub fn try_recv(&mut self) -> (r: Result<T, TryRecvError>)
        requires
            old(self).wf(),
        ensures
            final(self).wf(),
            r == try_recv_spec(old(self)@, old(self).closed_spec()),
            final(self)@ == after_recv(old(self)@),
            final(self).sends_spec() == old(self).sends_spec(),
            final(self).recvs_spec() == (if old(self)@.len() > 0 {
                old(self).recvs_spec().wrapping_add(1)
            } else {
                old(self).recvs_spec()
            }),
            final(self).closed_spec() == old(self).closed_spec(),
            final(self).head_spec() == old(self).head_spec(),
    {
        match self.pop() {
            None => {
                if self.closed {
                    Err(TryRecvError::Disconnected)
                } else {
                    Err(TryRecvError::Empty)
                }
            },
            Some(v) => Ok(v),
        }
    }

    /// The number of values held: sends less receives, modulo the word size.
    pub fn len(&self) -> (r: usize)
        requires
            self.wf(),
        ensures
            r == self@.len(),
            r == self.sends_spec().wrapping_sub(self.recvs_spec()),
    {
        self.sends.wrapping_sub(self.recvs)
    }

    pub fn is_empty(&self) -> (r: bool)
        requires
            self.wf(),
        ensures
            r == (self@.len() == 0),
    {
        self.len() == 0
    }

    /// An unbounded queue is never full.
    pub fn is_full(&self) -> (r: bool)
        ensures
            !r,
    {
        false
    }

    /// An unbounded queue has no capacity to report.
    pub fn capacity(&self) -> (r: Option<usize>)
        ensures
            r is None,
    {
        None
    }

    /// Closes the queue. Returns whether this call closed it: `false` if it
    /// already was closed.
    pub fn close(&mut self) -> (r: bool)
        requires
            old(self).wf(),
        ensures
            final(self).wf(),
            r == !old(self).closed_spec(),
            final(self).closed_spec(),
            final(self)@ == old(self)@,
            final(self).sends_spec() == old(self).sends_spec(),
            final(self).recvs_spec() == old(self).recvs_spec(),
            final(self).head_spec() == old(self).head_spec(),
    {
        if self.closed {
            false
        } else {
            self.closed = true;
            true
        }
    }

    pub fn is_closed(&self) -> (r: bool)
        ensures
            r == self.closed_spec(),
    {
        self.closed
    }
}

} // verus!
