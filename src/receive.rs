use vstd::prelude::*;

use crate::error::{RecvTimeoutError, TryRecvError};

verus! {

/// Where a blocking receive stands.
#[derive(Clone, Copy, Debug, PartialEq, Eq, Structural)]
pub enum RecvPhase {
    /// About to try a non-blocking receive.
    Trying,
    /// Registered with the wakeup registry; about to re-check the queue.
    Registered,
    /// Parked until woken or until the deadline.
    Parked,
    /// The receive has its result.
    Finished,
}

/// What the caller does next for a blocking receive.
#[derive(Debug, PartialEq, Eq)]
pub enum RecvAction<T> {
    /// Hand this result to the receiver; the receive is over.
    Deliver(Result<T, RecvTimeoutError>),
    /// Clear the waiter's pending wakeup, register with the wakeup registry,
    /// then re-check whether the queue is closed or empty.
    Register,
    /// Park until woken or until the deadline, if there is one.
    Park(Option<u64>),
    /// Try to receive again.
    Retry,
    /// Unregister from the wakeup registry, then try to receive again.
    UnregisterAndRetry,
    /// Unregister from the wakeup registry and end the receive with this error.
    UnregisterAndFail(RecvTimeoutError),
}

/// The decision after a non-blocking receive gave `result` at time `now`.
pub open spec fn after_try_spec<T>(
    deadline: Option<u64>,
    result: Result<T, TryRecvError>,
    now: u64,
) -> (RecvPhase, RecvAction<T>) {
    match result {
        Ok(v) => (RecvPhase::Finished, RecvAction::Deliver(Ok(v))),
        Err(TryRecvError::Disconnected) => (
            RecvPhase::Finished,
            RecvAction::Deliver(Err(RecvTimeoutError::Disconnected)),
        ),
        Err(TryRecvError::Empty) => match deadline {
            Some(end) if now >= end => (
                RecvPhase::Finished,
                RecvAction::Deliver(Err(RecvTimeoutError::Timeout)),
            ),
            _ => (RecvPhase::Registered, RecvAction::Register),
        },
    }
}

/// The decision after the re-check under registration found the queue
/// `closed` or not and `empty` or not.
pub open spec fn after_recheck_spec<T>(deadline: Option<u64>, closed: bool, empty: bool) -> (
    RecvPhase,
    RecvAction<T>,
) {
    if !closed && empty {
        (RecvPhase::Parked, RecvAction::Park(deadline))
    } else {
        (RecvPhase::Trying, RecvAction::UnregisterAndRetry)
    }
}

/// The decision after parking ended, by a wakeup (`woken`) or by the deadline.
pub open spec fn after_wait_spec<T>(woken: bool) -> (RecvPhase, RecvAction<T>) {
    if woken {
        (RecvPhase::Trying, RecvAction::Retry)
    } else {
        (RecvPhase::Finished, RecvAction::UnregisterAndFail(RecvTimeoutError::Timeout))
    }
}

/// The decisions of one blocking receive with an optional deadline.
///
/// The caller runs the loop: it tries a non-blocking receive, registers with
/// the wakeup registry, re-checks the queue, parks, and reports each outcome
/// here; each report returns the next action. Registering before the
/// re-check closes the window in which a send or a close could otherwise go
/// unnoticed.
pub struct Receiving {
    deadline: Option<u64>,
    phase: RecvPhase,
}

impl Receiving {
    pub closed spec fn deadline_spec(&self) -> Option<u64> {
        self.deadline
    }

    pub closed spec fn phase_spec(&self) -> RecvPhase {
        self.phase
    }

    /// A receive that gives up at `deadline`, or never if there is none.
    pub fn new(deadline: Option<u64>) -> (r: Receiving)
        ensures
            r.deadline_spec() == deadline,
            r.phase_spec() == RecvPhase::Trying,
    {
        Receiving { deadline, phase: RecvPhase::Trying }
    }

    pub fn phase(&self) -> (r: RecvPhase)
        ensures
            r == self.phase_spec(),
    {
        self.phase
    }

    pub fn deadline(&self) -> (r: Option<u64>)
        ensures
            r == self.deadline_spec(),
    {
        self.deadline
    }

    /// Reports what a non-blocking receive gave at time `now`.
    pub fn after_try<T>(&mut self, result: Result<T, TryRecvError>, now: u64) -> (r: RecvAction<T>)
        requires
            old(self).phase_spec() == RecvPhase::Trying,
        ensures
            (final(self).phase_spec(), r) == after_try_spec(old(self).deadline_spec(), result, now),
            final(self).deadline_spec() == old(self).deadline_spec(),
    {
        match result {
            Ok(v) => {
                self.phase = RecvPhase::Finished;
                RecvAction::Deliver(Ok(v))
            },
            Err(TryRecvError::Disconnected) => {
                self.phase = RecvPhase::Finished;
                RecvAction::Deliver(Err(RecvTimeoutError::Disconnected))
            },
            Err(TryRecvError::Empty) => {
                let expired = match self.deadline {
                    Some(end) => now >= end,
                    None => false,
                };
                if expired {
                    self.phase = RecvPhase::Finished;
                    RecvAction::Deliver(Err(RecvTimeoutError::Timeout))
                } else {
                    self.phase = RecvPhase::Registered;
                    RecvAction::Register
                }
            },
        }
    }

    /// Reports what the re-check under registration found.
    pub fn after_recheck<T>(&mut self, closed: bool, empty: bool) -> (r: RecvAction<T>)
        requires
            old(self).phase_spec() == RecvPhase::Registered,
        ensures
            (final(self).phase_spec(), r) == after_recheck_spec::<T>(
                old(self).deadline_spec(),
                closed,
                empty,
            ),
            final(self).deadline_spec() == old(self).deadline_spec(),
    {
        if !closed && empty {
            self.phase = RecvPhase::Parked;
            RecvAction::Park(self.deadline)
        } else {
            self.phase = RecvPhase::Trying;
            RecvAction::UnregisterAndRetry
        }
    }

    /// Reports how parking ended: by a wakeup, or by the deadline.
    pub fn after_wait<T>(&mut self, woken: bool) -> (r: RecvAction<T>)
        requires
            old(self).phase_spec() == RecvPhase::Parked,
        ensures
            (final(self).phase_spec(), r) == after_wait_spec::<T>(woken),
            final(self).deadline_spec() == old(self).deadline_spec(),
    {
        if woken {
            self.phase = RecvPhase::Trying;
            RecvAction::Retry
        } else {
            self.phase = RecvPhase::Finished;
            RecvAction::UnregisterAndFail(RecvTimeoutError::Timeout)
        }
    }
}

} // verus!
