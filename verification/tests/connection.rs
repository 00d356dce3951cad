use docs_sync::keys::{NamespaceId, PeerId};
use docs_sync::net::connection::{
    connect_within_bound, Accept, AcceptAction, AcceptInput, AcceptWatch, Dial, DialAction,
    DialInput, Exchanged,
};
use docs_sync::net::{
    AbortReason, AcceptError, Cause, ConnectError, NetMetrics, SyncFinished, SyncOutcome, Timings,
    SYNC_SESSION_TIMEOUT,
};

fn ns(n: u8) -> NamespaceId {
    NamespaceId { bytes: [n; 32] }
}

fn peer(n: u8) -> PeerId {
    PeerId { bytes: [n; 32] }
}

fn outcome(num_recv: usize, num_sent: usize) -> SyncOutcome {
    SyncOutcome { heads_received: vec![], num_recv, num_sent }
}

type DialErr = ConnectError<&'static str>;
type AcceptErr = AcceptError<&'static str>;

/// A dialed connection whose exchange came to `res` after 30.
fn dialed(res: Result<SyncOutcome, DialErr>) -> Dial<&'static str> {
    let (mut dial, action) = Dial::start(ns(4), peer(2));
    assert!(matches!(action, DialAction::Connect));
    assert!(matches!(dial.step(DialInput::Connected(Ok(()))), DialAction::Open));
    assert!(matches!(dial.step(DialInput::Opened(Ok(()), 30)), DialAction::Exchange));
    assert!(matches!(dial.step(DialInput::Exchanged(res)), DialAction::Finish));
    dial
}

fn done(action: DialAction<&'static str>) -> Result<SyncFinished, DialErr> {
    match action {
        DialAction::Done(r) => r,
        _ => panic!("the connection goes on"),
    }
}

#[test]
fn a_dialed_exchange_is_counted_once_the_connection_is_closed() {
    let mut dial = dialed(Ok(outcome(5, 6)));
    assert!(matches!(dial.step(DialInput::Finished(Ok(()))), DialAction::AwaitStop));
    assert!(matches!(dial.step(DialInput::Stopped(Ok(()))), DialAction::Drain));
    assert!(matches!(
        dial.step(DialInput::Drained(Ok(()))),
        DialAction::Count { success: true }
    ));
    let finished = done(dial.step(DialInput::Counted(100))).unwrap();
    assert_eq!((finished.namespace, finished.peer), (ns(4), peer(2)));
    assert_eq!((finished.outcome.num_recv, finished.outcome.num_sent), (5, 6));
    assert_eq!(finished.timings, Timings { connect: 30, process: 70 });
}

#[test]
fn a_dialed_exchange_that_failed_is_reported_once_the_connection_is_closed() {
    let mut dial = dialed(Err(ConnectError::remote_abort(AbortReason::NotFound)));
    dial.step(DialInput::Finished(Ok(())));
    dial.step(DialInput::Stopped(Ok(())));
    assert!(matches!(
        dial.step(DialInput::Drained(Ok(()))),
        DialAction::Count { success: false }
    ));
    assert!(matches!(
        done(dial.step(DialInput::Counted(100))),
        Err(ConnectError::RemoteAbort(AbortReason::NotFound))
    ));
}

#[test]
fn a_dialed_connection_that_cannot_be_closed_fails_as_such() {
    for res in [true, false] {
        let exchanged = || match res {
            true => Ok(outcome(1, 1)),
            false => Err(ConnectError::sync(Cause::UnexpectedInit)),
        };
        let mut dial = dialed(exchanged());
        assert!(matches!(
            done(dial.step(DialInput::Finished(Err("reset")))),
            Err(ConnectError::Close { error: Cause::Outside("reset") })
        ));
        let mut dial = dialed(exchanged());
        dial.step(DialInput::Finished(Ok(())));
        assert!(matches!(
            done(dial.step(DialInput::Stopped(Err("lost")))),
            Err(ConnectError::Close { error: Cause::Outside("lost") })
        ));
        let mut dial = dialed(exchanged());
        dial.step(DialInput::Finished(Ok(())));
        dial.step(DialInput::Stopped(Ok(())));
        assert!(matches!(
            done(dial.step(DialInput::Drained(Err("too long")))),
            Err(ConnectError::Close { error: Cause::Outside("too long") })
        ));
    }
}

#[test]
fn a_connection_that_cannot_be_established_fails_as_such() {
    let (mut dial, _) = Dial::start(ns(4), peer(2));
    assert!(matches!(
        done(dial.step(DialInput::Connected(Err("unreachable")))),
        Err(ConnectError::Connect { error: Cause::Outside("unreachable") })
    ));
    let (mut dial, _) = Dial::start(ns(4), peer(2));
    dial.step(DialInput::Connected(Ok(())));
    assert!(matches!(
        done(dial.step(DialInput::Opened(Err("no stream"), 1))),
        Err(ConnectError::Connect { error: Cause::Outside("no stream") })
    ));
}

/// An accepted connection whose exchange came to `res`, and was counted.
fn accepted(res: Result<NamespaceId, AcceptErr>, allowed: bool) -> Accept<&'static str> {
    let (mut accept, action) = Accept::start(peer(1));
    assert!(matches!(action, AcceptAction::Open));
    assert!(matches!(accept.step(AcceptInput::Opened(Ok(()), 10)), AcceptAction::Exchange));
    let success = res.is_ok();
    let namespace = if allowed { Some(ns(4)) } else { None };
    let exchanged = Exchanged { res, namespace, outcome: outcome(2, 3) };
    match accept.step(AcceptInput::Exchanged(exchanged)) {
        AcceptAction::Count { success: counted } => assert_eq!(counted, success),
        _ => panic!("the exchange was not counted"),
    }
    assert!(matches!(accept.step(AcceptInput::Counted), AcceptAction::Finish));
    accept
}

fn ended(action: AcceptAction<&'static str>) -> Result<SyncFinished, AcceptErr> {
    match action {
        AcceptAction::Done(r) => r,
        _ => panic!("the connection goes on"),
    }
}

#[test]
fn an_accepted_exchange_is_reported_once_the_connection_is_closed() {
    let mut accept = accepted(Ok(ns(4)), true);
    assert!(matches!(accept.step(AcceptInput::Finished(Ok(()))), AcceptAction::AwaitStop));
    assert!(matches!(accept.step(AcceptInput::Stopped(Ok(()))), AcceptAction::Drain));
    let finished = ended(accept.step(AcceptInput::Drained(Ok(()), 25))).unwrap();
    assert_eq!((finished.namespace, finished.peer), (ns(4), peer(1)));
    assert_eq!((finished.outcome.num_recv, finished.outcome.num_sent), (2, 3));
    assert_eq!(finished.timings, Timings { connect: 10, process: 15 });
}

#[test]
fn the_error_of_an_accepted_exchange_wins_over_that_of_closing() {
    let refusal = || {
        Err(AcceptError::Abort { peer: peer(1), namespace: ns(4), reason: AbortReason::NotFound })
    };
    let mut accept = accepted(refusal(), false);
    assert!(matches!(
        ended(accept.step(AcceptInput::Finished(Err("reset")))),
        Err(AcceptError::Abort { .. })
    ));
    let mut accept = accepted(refusal(), false);
    accept.step(AcceptInput::Finished(Ok(())));
    assert!(matches!(
        ended(accept.step(AcceptInput::Stopped(Err("lost")))),
        Err(AcceptError::Abort { .. })
    ));
    for drained in [Ok(()), Err("too long")] {
        let mut accept = accepted(refusal(), false);
        accept.step(AcceptInput::Finished(Ok(())));
        accept.step(AcceptInput::Stopped(Ok(())));
        assert!(matches!(
            ended(accept.step(AcceptInput::Drained(drained, 20))),
            Err(AcceptError::Abort { .. })
        ));
    }
}

#[test]
fn a_failure_to_close_after_an_exchange_without_error_is_reported() {
    let mut accept = accepted(Ok(ns(4)), true);
    let e = ended(accept.step(AcceptInput::Finished(Err("reset")))).unwrap_err();
    assert_eq!((e.peer(), e.namespace()), (Some(peer(1)), Some(ns(4))));
    assert!(matches!(e, AcceptError::Close { error: Cause::Outside("reset"), .. }));
    let mut accept = accepted(Ok(ns(4)), true);
    accept.step(AcceptInput::Finished(Ok(())));
    accept.step(AcceptInput::Stopped(Ok(())));
    assert!(matches!(
        ended(accept.step(AcceptInput::Drained(Err("too long"), 20))),
        Err(AcceptError::Close { .. })
    ));
}

#[test]
fn a_stream_that_is_not_opened_fails_without_a_replica() {
    let (mut accept, _) = Accept::start(peer(1));
    let e = ended(accept.step(AcceptInput::Opened(Err("closed"), 1))).unwrap_err();
    assert_eq!((e.peer(), e.namespace()), (Some(peer(1)), None));
    assert!(matches!(e, AcceptError::Open { error: Cause::Outside("closed"), .. }));
    let e: AcceptErr = AcceptError::Connect { error: Cause::Outside("refused") };
    assert_eq!((e.peer(), e.namespace()), (None, None));
}

#[test]
fn a_dialed_connection_is_bounded_in_time() {
    assert_eq!(SYNC_SESSION_TIMEOUT, 300_000_000_000);
    let late: Result<SyncFinished, DialErr> = connect_within_bound(None);
    match late {
        Err(ConnectError::Connect { error }) => {
            assert_eq!(error.text(), Some("sync exchange timed out after 300s"));
        }
        _ => panic!("the bound was not reported"),
    }
    let in_time: Result<SyncFinished, DialErr> =
        connect_within_bound(Some(Err(ConnectError::close(Cause::Outside("reset")))));
    assert!(matches!(in_time, Err(ConnectError::Close { .. })));
}

#[test]
fn an_accepted_connection_at_its_bound_names_the_first_request() {
    let mut watch = AcceptWatch::new();
    let e = watch.accept_within_bound::<&str>(peer(1), None).unwrap_err();
    assert_eq!((e.peer(), e.namespace()), (Some(peer(1)), None));
    watch.observe(ns(4));
    watch.observe(ns(5));
    let e = watch.accept_within_bound::<&str>(peer(1), None).unwrap_err();
    assert_eq!(e.namespace(), Some(ns(4)));
    assert!(matches!(e, AcceptError::Sync { error: Cause::TimedOut, .. }));
    let own: Result<SyncFinished, AcceptErr> =
        watch.accept_within_bound(peer(1), Some(Err(AcceptError::open(peer(1), Cause::DoubleInit))));
    assert!(matches!(own, Err(AcceptError::Open { .. })));
}

#[test]
fn connections_are_counted_by_end_and_result() {
    let mut metrics = NetMetrics::new();
    metrics.count_connect(true);
    metrics.count_connect(false);
    metrics.count_connect(true);
    metrics.count_accept(false);
    metrics.count_accept(true);
    metrics.count_accept(false);
    assert_eq!(
        metrics,
        NetMetrics {
            sync_via_connect_success: 2,
            sync_via_connect_failure: 1,
            sync_via_accept_success: 1,
            sync_via_accept_failure: 2,
        }
    );
    assert_eq!(Timings::default(), Timings { connect: 0, process: 0 });
}
