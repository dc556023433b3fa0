//! An unbounded multi-producer multi-consumer queue: the values it holds,
//! its send and receive accounting, its closed flag, the adaptive consumer
//! mode of its head, and the decisions of a blocking receive.
mod error;
mod head_state;
mod laws;
mod queue;
mod receive;

pub use error::{RecvError, RecvTimeoutError, SendTimeoutError, TryRecvError, TrySendError};
pub use head_state::{Claim, HeadState};
pub use queue::{after_recv, counters_match, try_recv_spec, Queue};
pub use receive::{
    after_recheck_spec, after_try_spec, after_wait_spec, RecvAction, RecvPhase, Receiving,
};
pub use laws::{
    allowed_run, lemma_close_idempotent, lemma_close_releases_waiters, lemma_fifo_delivery,
    lemma_fifo_order, lemma_length_accounting, lemma_no_loss_no_duplication,
    lemma_received_then_held_is_sent, lemma_timeout, lemma_upgrade_at_most_once, recvs, run,
    sends, step, upgrades, Op, Trace,
};
