use vstd::prelude::*;

verus! {

/// The consumer mode kept with the head of the queue.
///
/// `FastFree` and `FastBusy` are the single-consumer mode: a consumer claims
/// exclusive access (`FastBusy`) and hands it back (`FastFree`). Once a second
/// consumer finds the head claimed, the queue moves to `Slow`, the general
/// multi-consumer mode, and stays there.
#[derive(Clone, Copy, Debug, PartialEq, Eq, Structural)]
pub enum HeadState {
    FastFree,
    FastBusy,
    Slow,
}

/// What a consumer's attempt to claim the head led to.
#[derive(Clone, Copy, Debug, PartialEq, Eq, Structural)]
pub enum Claim {
    /// The consumer now holds the head exclusively (fast mode).
    Exclusive,
    /// Another consumer held the head: the queue is now in slow mode.
    Contended,
    /// The queue already was in slow mode.
    Shared,
}

impl HeadState {
    pub open spec fn is_slow_spec(self) -> bool {
        self is Slow
    }

    /// The state after a consumer tries to claim the head.
    pub open spec fn claim_spec(self) -> (HeadState, Claim) {
        match self {
            HeadState::FastFree => (HeadState::FastBusy, Claim::Exclusive),
            HeadState::FastBusy => (HeadState::Slow, Claim::Contended),
            HeadState::Slow => (HeadState::Slow, Claim::Shared),
        }
    }

    /// The state after the holder of the head hands it back.
    pub open spec fn release_spec(self) -> HeadState {
        match self {
            HeadState::FastBusy => HeadState::FastFree,
            other => other,
        }
    }

    /// Whether `to` can follow `self` in one transition.
    pub open spec fn step_allowed(self, to: HeadState) -> bool {
        match (self, to) {
            (HeadState::FastFree, HeadState::FastBusy) => true,
            (HeadState::FastBusy, HeadState::FastFree) => true,
            (_, HeadState::Slow) => true,
            (a, b) => a == b,
        }
    }

    pub fn new() -> (r: HeadState)
        ensures
            r == HeadState::FastFree,
    {
        HeadState::FastFree
    }

    pub fn is_slow(&self) -> (r: bool)
        ensures
            r == self.is_slow_spec(),
    {
        match self {
            HeadState::Slow => true,
            _ => false,
        }
    }

    /// A consumer tries to claim exclusive access to the head.
    pub fn claim(&mut self) -> (r: Claim)
        ensures
            (*final(self), r) == old(self).claim_spec(),
            old(self).step_allowed(*final(self)),
    {
        match *self {
            HeadState::FastFree => {
                *self = HeadState::FastBusy;
                Claim::Exclusive
            },
            HeadState::FastBusy => {
                *self = HeadState::Slow;
                Claim::Contended
            },
            HeadState::Slow => Claim::Shared,
        }
    }

    /// The consumer that claimed the head hands it back.
    pub fn release(&mut self)
        ensures
            *final(self) == old(self).release_spec(),
            old(self).step_allowed(*final(self)),
    {
        if let HeadState::FastBusy = *self {
            *self = HeadState::FastFree;
        }
    }
}

} // verus!
