use vstd::prelude::*;

verus! {

/// Why a non-blocking send failed; the value is handed back.
#[derive(Debug, PartialEq, Eq)]
pub enum TrySendError<T> {
    /// The queue had no room (never the case for an unbounded queue).
    Full(T),
    /// The queue was closed.
    Disconnected(T),
}

/// Why a send with a deadline failed; the value is handed back.
#[derive(Debug, PartialEq, Eq)]
pub enum SendTimeoutError<T> {
    /// The deadline passed first (never the case for an unbounded queue).
    Timeout(T),
    /// The queue was closed.
    Disconnected(T),
}

/// Why a non-blocking receive found no value.
#[derive(Clone, Copy, Debug, PartialEq, Eq, Structural)]
pub enum TryRecvError {
    /// The queue is open and holds no value.
    Empty,
    /// The queue is closed and holds no value.
    Disconnected,
}

/// Why a receive with a deadline gave no value.
#[derive(Clone, Copy, Debug, PartialEq, Eq, Structural)]
pub enum RecvTimeoutError {
    /// The deadline passed before a value came or the queue closed.
    Timeout,
    /// The queue is closed and holds no value.
    Disconnected,
}

/// A blocking receive without deadline found the queue closed and empty.
#[derive(Clone, Copy, Debug, PartialEq, Eq, Structural)]
pub struct RecvError;

} // verus!
