use vstd::prelude::*;

use crate::error::{RecvTimeoutError, TryRecvError};
use crate::head_state::HeadState;
use crate::queue::{after_recv, try_recv_spec};
use crate::receive::{after_recheck_spec, after_try_spec, after_wait_spec, RecvAction, RecvPhase};

verus! {

broadcast use vstd::seq_lib::lemma_multiset_commutative;

/// One operation on a queue, as the queue's own contracts describe it.
pub enum Op<T> {
    Send(T),
    Recv,
    Close,
}

/// What a run of operations has done: the values held, the values sent
/// successfully, the values received, in order, and whether it is closed.
pub struct Trace<T> {
    pub held: Seq<T>,
    pub sent: Seq<T>,
    pub received: Seq<T>,
    pub closed: bool,
}

/// The trace after one more operation, following the contracts of
/// `Queue::try_send`, `Queue::try_recv` and `Queue::close`.
pub open spec fn step<T>(t: Trace<T>, op: Op<T>) -> Trace<T> {
    match op {
        Op::Send(v) => if t.closed {
            t
        } else {
            Trace { held: t.held.push(v), sent: t.sent.push(v), ..t }
        },
        Op::Recv => match try_recv_spec(t.held, t.closed) {
            Ok(v) => Trace { held: after_recv(t.held), received: t.received.push(v), ..t },
            Err(_) => t,
        },
        Op::Close => Trace { closed: true, ..t },
    }
}

/// The trace of `ops` run in order on a new queue.
pub open spec fn run<T>(ops: Seq<Op<T>>) -> Trace<T>
    decreases ops.len(),
{
    if ops.len() == 0 {
        Trace { held: Seq::empty(), sent: Seq::empty(), received: Seq::empty(), closed: false }
    } else {
        step(run(ops.drop_last()), ops.last())
    }
}

/// One send for each value of `s`, in order.
pub open spec fn sends<T>(s: Seq<T>) -> Seq<Op<T>> {
    s.map_values(|v: T| Op::Send(v))
}

/// `n` receives.
pub open spec fn recvs<T>(n: nat) -> Seq<Op<T>> {
    Seq::new(n, |i: int| Op::Recv)
}

/// What was received, followed by what is still held, is exactly what was
/// sent: no value is lost, none is duplicated, and values leave in the order
/// in which they came.
pub proof fn lemma_received_then_held_is_sent<T>(ops: Seq<Op<T>>)
    ensures
        run(ops).received + run(ops).held == run(ops).sent,
    decreases ops.len(),
{
    if ops.len() > 0 {
        lemma_received_then_held_is_sent(ops.drop_last());
        let t = run(ops.drop_last());
        match ops.last() {
            Op::Send(v) => {
                if !t.closed {
                    assert(t.received + t.held.push(v) =~= (t.received + t.held).push(v));
                }
            },
            Op::Recv => {
                if t.held.len() > 0 {
                    assert(t.received.push(t.held[0]) + t.held.drop_first() =~= t.received
                        + t.held);
                }
            },
            Op::Close => {},
        }
    }
}

/// No loss, no duplication: the values received together with those still
/// held are, as a multiset, the values sent.
pub proof fn lemma_no_loss_no_duplication<T>(ops: Seq<Op<T>>)
    ensures
        run(ops).received.to_multiset().add(run(ops).held.to_multiset())
            == run(ops).sent.to_multiset(),
{
    lemma_received_then_held_is_sent(ops);
}

/// Values are received in the order in which they were sent: what has been
/// received is a prefix of what has been sent.
pub proof fn lemma_fifo_order<T>(ops: Seq<Op<T>>)
    ensures
        run(ops).received.len() <= run(ops).sent.len(),
        run(ops).received == run(ops).sent.take(run(ops).received.len() as int),
{
    lemma_received_then_held_is_sent(ops);
    let t = run(ops);
    assert(t.sent.take(t.received.len() as int) =~= t.received);
}

/// The number of values held is the number sent less the number received.
pub proof fn lemma_length_accounting<T>(ops: Seq<Op<T>>)
    ensures
        run(ops).held.len() == run(ops).sent.len() - run(ops).received.len(),
{
    lemma_received_then_held_is_sent(ops);
}

proof fn lemma_run_sends<T>(s: Seq<T>)
    ensures
        run(sends(s)) == (Trace { held: s, sent: s, received: Seq::<T>::empty(), closed: false }),
    decreases s.len(),
{
    if s.len() > 0 {
        lemma_run_sends(s.drop_last());
        assert(sends(s).drop_last() =~= sends(s.drop_last()));
        assert(s.drop_last().push(s.last()) =~= s);
    } else {
        assert(sends(s) =~= Seq::<Op<T>>::empty());
        assert(s =~= Seq::<T>::empty());
    }
}

proof fn lemma_run_sends_then_recvs<T>(s: Seq<T>, k: nat)
    ensures
        run(sends(s) + recvs(k)) == (Trace {
            held: s.skip(if k <= s.len() { k as int } else { s.len() as int }),
            sent: s,
            received: s.take(if k <= s.len() { k as int } else { s.len() as int }),
            closed: false,
        }),
    decreases k,
{
    if k == 0 {
        assert(sends(s) + recvs::<T>(0) =~= sends(s));
        lemma_run_sends(s);
        assert(s.skip(0) =~= s);
        assert(s.take(0) =~= Seq::<T>::empty());
    } else {
        let ops = sends(s) + recvs::<T>(k);
        assert(ops.drop_last() =~= sends(s) + recvs::<T>((k - 1) as nat));
        lemma_run_sends_then_recvs(s, (k - 1) as nat);
        let j: int = if k - 1 <= s.len() { k - 1 } else { s.len() as int };
        if j < s.len() {
            assert(s.skip(j).drop_first() =~= s.skip(j + 1));
            assert(s.take(j).push(s.skip(j)[0]) =~= s.take(j + 1));
        }
    }
}

/// FIFO delivery: a single producer sends the values of `s` to a new queue,
/// then a single consumer receives at least as many times; it receives
/// exactly `s`, in order, and the queue is left empty.
pub proof fn lemma_fifo_delivery<T>(s: Seq<T>, n: nat)
    requires
        n >= s.len(),
    ensures
        run(sends(s) + recvs(n)).received == s,
        run(sends(s) + recvs(n)).held.len() == 0,
{
    lemma_run_sends_then_recvs(s, n);
    assert(s.take(s.len() as int) =~= s);
}

/// Closing is idempotent: a second close finds the queue closed (and so
/// reports `false`), the queue stays closed, and a send after a close leaves
/// the queue as it was. A closed queue that holds no value reports
/// `Disconnected` to every receive.
pub proof fn lemma_close_idempotent<T>(t: Trace<T>, v: T)
    ensures
        step(step(t, Op::Close), Op::Close).closed,
        step(step(t, Op::Close), Op::Close) == step(t, Op::Close),
        step(step(t, Op::Close), Op::Send(v)) == step(t, Op::Close),
        step(t, Op::Close).held.len() == 0 ==> try_recv_spec(step(t, Op::Close).held, true)
            == Err::<T, TryRecvError>(TryRecvError::Disconnected),
{
}

/// Closing wakes every waiter for good: a waiter that re-checks a closed
/// queue never parks, and a receive on a closed, empty queue ends with
/// `Disconnected`, whatever its deadline and whatever the time.
pub proof fn lemma_close_releases_waiters<T>(deadline: Option<u64>, empty: bool, now: u64)
    ensures
        after_recheck_spec::<T>(deadline, true, empty) == (
            RecvPhase::Trying,
            RecvAction::<T>::UnregisterAndRetry,
        ),
        after_try_spec(deadline, try_recv_spec(Seq::<T>::empty(), true), now) == (
            RecvPhase::Finished,
            RecvAction::<T>::Deliver(Err(RecvTimeoutError::Disconnected)),
        ),
{
}

/// Deadlines: a receive that finds the queue empty at or after its deadline
/// ends with `Timeout`, and before it goes on to wait; a wait that ends by the
/// deadline ends the receive with `Timeout`; a value found is delivered
/// whatever the time; a receive without a deadline never times out.
pub proof fn lemma_timeout<T>(end: u64, now: u64, v: T, result: Result<T, TryRecvError>)
    ensures
        now >= end ==> after_try_spec(Some(end), Err::<T, TryRecvError>(TryRecvError::Empty), now)
            == (RecvPhase::Finished, RecvAction::<T>::Deliver(Err(RecvTimeoutError::Timeout))),
        now < end ==> after_try_spec(Some(end), Err::<T, TryRecvError>(TryRecvError::Empty), now)
            == (RecvPhase::Registered, RecvAction::<T>::Register),
        after_wait_spec::<T>(false) == (
            RecvPhase::Finished,
            RecvAction::<T>::UnregisterAndFail(RecvTimeoutError::Timeout),
        ),
        after_try_spec(Some(end), Ok::<T, TryRecvError>(v), now) == (
            RecvPhase::Finished,
            RecvAction::<T>::Deliver(Ok(v)),
        ),
        after_try_spec(None, result, now).1 != RecvAction::<T>::Deliver(
            Err(RecvTimeoutError::Timeout),
        ),
{
}

/// Whether each state of `s` can follow the one before it.
pub open spec fn allowed_run(s: Seq<HeadState>) -> bool {
    forall|i: int| 0 <= i < s.len() - 1 ==> #[trigger] s[i].step_allowed(s[i + 1])
}

/// The number of moves from a fast state to the slow state in `s`.
pub open spec fn upgrades(s: Seq<HeadState>) -> nat
    decreases s.len(),
{
    if s.len() < 2 {
        0
    } else {
        (if !s[0].is_slow_spec() && s[1].is_slow_spec() {
            1nat
        } else {
            0nat
        }) + upgrades(s.drop_first())
    }
}

/// The move to multi-consumer mode happens at most once in the life of a
/// queue, and never once the queue is in that mode.
pub proof fn lemma_upgrade_at_most_once(s: Seq<HeadState>)
    requires
        allowed_run(s),
    ensures
        upgrades(s) <= 1,
        s.len() > 0 && s[0].is_slow_spec() ==> upgrades(s) == 0,
    decreases s.len(),
{
    if s.len() >= 2 {
        let rest = s.drop_first();
        assert forall|i: int| 0 <= i < rest.len() - 1 implies #[trigger] rest[i].step_allowed(
            rest[i + 1],
        ) by {
            let j = i + 1;
            assert(s[j].step_allowed(s[j + 1]));
            assert(rest[i] == s[j] && rest[i + 1] == s[j + 1]);
        }
        let z: int = 0;
        assert(s[z].step_allowed(s[z + 1]));
        lemma_upgrade_at_most_once(rest);
    }
}

} // verus!
