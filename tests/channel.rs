use list_queue::{Queue, RecvAction, RecvError, RecvTimeoutError, Receiving, TryRecvError};

/// Runs one blocking receive on `q` by its decisions, with the clock at
/// `now`. A park that has a deadline ends by the deadline, at which the clock
/// then stands; a park without one cannot end here, so it is reported.
fn blocking_recv(q: &mut Queue<i32>, deadline: Option<u64>, now: &mut u64) -> Option<Result<i32, RecvTimeoutError>> {
    let mut r = Receiving::new(deadline);
    loop {
        match r.after_try(q.try_recv(), *now) {
            RecvAction::Deliver(res) => return Some(res),
            RecvAction::Register => {}
            other => panic!("unexpected action {:?}", other),
        }
        match r.after_recheck::<i32>(q.is_closed(), q.is_empty()) {
            RecvAction::Park(Some(end)) => {
                *now = end;
                match r.after_wait::<i32>(false) {
                    RecvAction::UnregisterAndFail(e) => return Some(Err(e)),
                    other => panic!("unexpected action {:?}", other),
                }
            }
            RecvAction::Park(None) => return None,
            RecvAction::UnregisterAndRetry => {}
            other => panic!("unexpected action {:?}", other),
        }
    }
}

fn recv_blocking(q: &mut Queue<i32>) -> Result<i32, RecvError> {
    let mut now: u64 = 0;
    match blocking_recv(q, None, &mut now) {
        Some(Ok(v)) => Ok(v),
        Some(Err(_)) => Err(RecvError),
        None => panic!("receive would wait for ever"),
    }
}

#[test]
fn smoke() {
    let mut q = Queue::new();
    q.try_send(7).unwrap();
    assert_eq!(q.try_recv().unwrap(), 7);

    assert!(q.send_until(8, None).is_ok());
    assert_eq!(recv_blocking(&mut q).unwrap(), 8);

    assert_eq!(q.try_recv(), Err(TryRecvError::Empty));
    let mut now: u64 = 0;
    assert_eq!(blocking_recv(&mut q, Some(100), &mut now), Some(Err(RecvTimeoutError::Timeout)));
    assert!(now >= 100);
}

#[test]
fn recv() {
    let mut q = Queue::new();
    let mut r = Receiving::new(None);
    // The queue is empty at first: the receiver parks.
    assert_eq!(r.after_try(q.try_recv(), 0), RecvAction::Register);
    assert_eq!(r.after_recheck::<i32>(q.is_closed(), q.is_empty()), RecvAction::Park(None));
    // At 150 the sender sends 7, 8 and 9 and wakes the receiver.
    assert_eq!(q.try_send(7), Ok(()));
    assert_eq!(q.try_send(8), Ok(()));
    assert_eq!(q.try_send(9), Ok(()));
    assert_eq!(r.after_wait::<i32>(true), RecvAction::Retry);
    assert_eq!(r.after_try(q.try_recv(), 150), RecvAction::Deliver(Ok(7)));
    assert_eq!(recv_blocking(&mut q), Ok(8));
    assert_eq!(recv_blocking(&mut q), Ok(9));
    // The sender is gone: the queue closes.
    assert!(q.close());
    assert_eq!(recv_blocking(&mut q), Err(RecvError));
}

#[test]
fn recv_timeout() {
    let mut q = Queue::new();
    let mut now: u64 = 0;
    assert_eq!(blocking_recv(&mut q, Some(100), &mut now), Some(Err(RecvTimeoutError::Timeout)));
    assert_eq!(now, 100);

    // The second receive parks until 200; the send at 150 wakes it.
    let mut r = Receiving::new(Some(now + 100));
    assert_eq!(r.after_try(q.try_recv(), now), RecvAction::Register);
    assert_eq!(r.after_recheck::<i32>(q.is_closed(), q.is_empty()), RecvAction::Park(Some(200)));
    assert_eq!(q.try_send(7), Ok(()));
    assert_eq!(r.after_wait::<i32>(true), RecvAction::Retry);
    assert_eq!(r.after_try(q.try_recv(), 150), RecvAction::Deliver(Ok(7)));

    assert!(q.close());
    let mut now: u64 = 150;
    assert_eq!(
        blocking_recv(&mut q, Some(250), &mut now),
        Some(Err(RecvTimeoutError::Disconnected))
    );
}

#[test]
fn try_recv() {
    let mut q = Queue::new();
    assert_eq!(q.try_recv(), Err(TryRecvError::Empty));
    assert_eq!(q.try_send(7), Ok(()));
    assert_eq!(q.try_recv(), Ok(7));
    assert!(q.close());
    assert_eq!(q.try_recv(), Err(TryRecvError::Disconnected));
}

#[test]
fn recv_after_close() {
    let mut q = Queue::new();
    q.try_send(1).unwrap();
    q.try_send(2).unwrap();
    q.try_send(3).unwrap();

    assert!(q.close());

    assert_eq!(recv_blocking(&mut q), Ok(1));
    assert_eq!(recv_blocking(&mut q), Ok(2));
    assert_eq!(recv_blocking(&mut q), Ok(3));
    assert_eq!(recv_blocking(&mut q), Err(RecvError));
}

#[test]
fn close_signals_receiver() {
    let mut q: Queue<i32> = Queue::new();
    let mut r = Receiving::new(None);
    assert_eq!(r.after_try(q.try_recv(), 0), RecvAction::Register);
    assert_eq!(r.after_recheck::<i32>(q.is_closed(), q.is_empty()), RecvAction::Park(None));
    // At 100 the queue closes and wakes every waiter.
    assert!(q.close());
    assert_eq!(r.after_wait::<i32>(true), RecvAction::Retry);
    assert_eq!(
        r.after_try(q.try_recv(), 100),
        RecvAction::Deliver(Err(RecvTimeoutError::Disconnected))
    );
}

#[test]
fn spsc() {
    const COUNT: usize = 100_000;
    let mut q: Queue<usize> = Queue::new();
    for i in 0..COUNT {
        q.try_send(i).unwrap();
    }
    for i in 0..COUNT {
        assert_eq!(q.try_recv(), Ok(i));
    }
    assert!(q.close());
    assert_eq!(q.try_recv(), Err(TryRecvError::Disconnected));
}

#[test]
fn mpmc() {
    const COUNT: usize = 25_000;
    const THREADS: usize = 4;
    let mut q: Queue<usize> = Queue::new();
    let mut v = vec![0usize; COUNT];
    // Producers and consumers take turns; the second consumer to arrive
    // moves the queue to multi-consumer mode.
    q.upgrade();
    for i in 0..COUNT {
        for _ in 0..THREADS {
            q.try_send(i).unwrap();
        }
        for _ in 0..THREADS {
            let n = q.try_recv().unwrap();
            v[n] += 1;
        }
    }
    for c in v {
        assert_eq!(c, THREADS);
    }
}
