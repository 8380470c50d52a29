use qs::pool::worker::{PoolAction, PoolState, Pooled};
use qs::pool::{deadline_as_timeout, PoolTimedOut};

type State = PoolState<&'static str, u32>;

#[test]
fn acquire_with_no_idle_connection_connects_once() {
    let mut s = State::new(2);
    assert!(matches!(s.on_acquire(1), PoolAction::Connect));
    assert!(matches!(s.on_acquire(2), PoolAction::Nothing));
    assert_eq!(s.waiting(), 2);
    // the new connection goes to the first waiter
    match s.on_connected("a", 10) {
        PoolAction::Deliver(d) => {
            assert_eq!(d.waiter, 1);
            assert_eq!(d.conn.conn, "a");
            assert!(!d.back_to_front);
        }
        other => panic!("unexpected {other:?}"),
    }
    assert_eq!(s.actives(), 1);
    // the second waiter gets another connection opened
    assert!(matches!(s.drain_step(), PoolAction::Connect));
    assert!(matches!(s.on_connected("b", 20), PoolAction::Deliver(_)));
    assert_eq!(s.actives(), 2);
    assert_eq!(s.waiting(), 0);
}

#[test]
fn never_more_connections_than_allowed() {
    let mut s = State::new(1);
    assert!(matches!(s.on_acquire(1), PoolAction::Connect));
    assert!(matches!(s.on_connected("a", 0), PoolAction::Deliver(_)));
    assert!(matches!(s.on_acquire(2), PoolAction::Nothing));
    assert!(matches!(s.drain_step(), PoolAction::Nothing));
    assert_eq!(s.actives(), 1);
}

#[test]
fn released_connection_is_checked_then_served() {
    let mut s = State::new(4);
    match s.on_release("a", 5, 100) {
        PoolAction::Healthcheck(p) => {
            assert_eq!(p.healthc_at, 100);
            assert_eq!(p.created_at, 5);
            let (action, _) = s.on_healthcheck(p, true, 110);
            assert!(matches!(action, PoolAction::Nothing));
        }
        other => panic!("unexpected {other:?}"),
    }
    assert_eq!(s.idle(), 1);
    match s.on_acquire(7) {
        PoolAction::Deliver(d) => {
            assert_eq!(d.waiter, 7);
            assert_eq!(d.conn.healthc_at, 110);
            assert!(d.back_to_front);
            // the waiter is gone: the connection goes back in front
            s.undelivered(d.conn.conn, d.conn.created_at, d.conn.healthc_at, d.back_to_front, 120);
        }
        other => panic!("unexpected {other:?}"),
    }
    assert_eq!(s.idle(), 1);
}

#[test]
fn second_release_during_a_check_is_idle() {
    let mut s = State::new(4);
    assert!(matches!(s.on_release("a", 0, 1), PoolAction::Healthcheck(_)));
    assert!(matches!(s.on_release("b", 0, 2), PoolAction::Nothing));
    assert_eq!(s.idle(), 1);
}

#[test]
fn unhealthy_connection_is_closed() {
    let mut s = State::new(4);
    assert!(matches!(s.on_acquire(1), PoolAction::Connect));
    assert!(matches!(s.on_connected("a", 0), PoolAction::Deliver(_)));
    let p = match s.on_release("a", 0, 5) {
        PoolAction::Healthcheck(p) => p,
        other => panic!("unexpected {other:?}"),
    };
    let (action, sleep) = s.on_healthcheck(p, false, 6);
    assert!(matches!(action, PoolAction::Close(_)));
    assert_eq!(sleep, 30000);
    s.on_closed();
    assert_eq!(s.actives(), 0);
}

#[test]
fn unhealthy_connection_during_a_close_is_dropped() {
    let mut s = State::new(4);
    assert!(matches!(s.on_acquire(1), PoolAction::Connect));
    assert!(matches!(s.on_connected("a", 0), PoolAction::Deliver(_)));
    assert!(matches!(s.on_acquire(2), PoolAction::Connect));
    assert!(matches!(s.on_connected("b", 0), PoolAction::Deliver(_)));
    assert_eq!(s.actives(), 2);
    let p = match s.on_release("a", 0, 5) {
        PoolAction::Healthcheck(p) => p,
        other => panic!("unexpected {other:?}"),
    };
    assert!(matches!(s.on_healthcheck(p, false, 6).0, PoolAction::Close(_)));
    let q = match s.on_release("b", 0, 7) {
        PoolAction::Healthcheck(q) => q,
        other => panic!("unexpected {other:?}"),
    };
    // a close is running: "b" is dropped, and no longer counts
    match s.on_healthcheck(q, false, 8).0 {
        PoolAction::Drop(d) => assert_eq!(d.conn, "b"),
        other => panic!("unexpected {other:?}"),
    }
    assert_eq!(s.actives(), 1);
    s.on_closed();
    assert_eq!(s.actives(), 0);
}

#[test]
fn sleep_time_tracks_the_oldest_connection() {
    let mut s = State::new(4);
    assert_eq!(s.sleep_time(0), 30000);
    s.undelivered("a", 1000, 1000, false, 0);
    s.undelivered("b", 0, 0, false, 0);
    assert_eq!(s.sleep_time(10000), 20000);
    assert_eq!(s.sleep_time(40000), 0);
}

#[test]
fn sleep_checks_a_due_connection() {
    let mut s = State::new(4);
    s.undelivered("old", 0, 0, false, 0);
    s.undelivered("new", 35000, 35000, false, 0);
    // "old" was checked more than half a minute ago: it is the one
    // taken out and checked, "new" taking its place
    let (action, _) = s.on_sleep(40000);
    match action {
        PoolAction::Healthcheck(Pooled { conn, .. }) => assert_eq!(conn, "old"),
        other => panic!("unexpected {other:?}"),
    }
    assert_eq!(s.idle(), 1);
    let (again, _) = s.on_sleep(40000);
    assert!(matches!(again, PoolAction::Nothing));
}

#[test]
fn deadline_left_or_timed_out() {
    assert_eq!(deadline_as_timeout(100, 40), Ok(60));
    assert_eq!(deadline_as_timeout(100, 100), Ok(0));
    assert_eq!(deadline_as_timeout(100, 101), Err(PoolTimedOut));
}
