use std::sync::Arc;

use docs_sync::actor::machine::Actor;
use docs_sync::actor::replicas::{OpenOpts, ReplicaInfo};
use docs_sync::actor::request::{Backend, Done, ReplicaAction, Step};
use docs_sync::actor::session::{SyncSession, SyncSessionId};
use docs_sync::keys::{NamespaceId, PeerId};
use docs_sync::net::alice::{AliceAction, AliceInput, AliceState};
use docs_sync::net::bob::{BobAction, BobInput, BobState};
use docs_sync::net::codec::Message;
use docs_sync::net::{AbortReason, AcceptError, AcceptOutcome, Cause, ConnectError, SyncOutcome};

struct NoStore;

impl Backend for NoStore {
    type Info = ();
    type Tables = ();
    type Alive = ();
    type Subscriber = ();
    type AuthorId = ();
    type Author = ();
    type Capability = ();
    type Key = ();
    type Hash = ();
    type Entry = ();
    type ContentStatus = ();
    type Message = ();
    type Outcome = ();
    type Filter = ();
    type Query = ();
    type Heads = ();
    type Policy = ();
    type Error = ();
}

type Bob = BobState<&'static str, u8>;
type Answer = BobAction<&'static str, u8, &'static str>;
type Told = BobInput<&'static str, u8, &'static str>;
type Alice = AliceState<u8>;
type Move = AliceAction<&'static str, u8, &'static str>;
type News = AliceInput<&'static str, &'static str>;

fn ns(n: u8) -> NamespaceId {
    NamespaceId { bytes: [n; 32] }
}

fn peer(n: u8) -> PeerId {
    PeerId { bytes: [n; 32] }
}

fn outcome(num_recv: usize, num_sent: usize) -> SyncOutcome {
    SyncOutcome { heads_received: vec![([3; 32], 17)], num_recv, num_sent }
}

/// A session on a replica, as an actor gives it out.
fn session(n: u8) -> SyncSession {
    let mut actor: Actor<NoStore> = Actor::new(5, 0);
    let info = ReplicaInfo { capability: ns(n), rest: () };
    actor.replica_loaded(ns(n), OpenOpts::default().sync(), Ok(info));
    actor.on_replica_action(ns(n), ReplicaAction::SyncSessionStart);
    match actor.snapshot_taken(ns(n), Ok(((), ()))) {
        Step::Reply(Ok(Done::Session(id))) => SyncSession { id, namespace: ns(n) },
        _ => panic!("no session"),
    }
}

fn session_id(n: u8) -> SyncSessionId {
    session(n).id()
}

fn init(n: u8, message: &'static str) -> Told {
    BobInput::Frame(Message::Init { namespace: ns(n), message })
}

/// The accepting end with a running session, its first message processed and answered.
fn exchanging() -> Bob {
    let mut bob = Bob::new(peer(1));
    bob.step(init(4, "first"));
    bob.step(Told::Decided(AcceptOutcome::Allow { filter: Some(Arc::new(6)) }));
    bob.step(Told::Started(Ok(session(4))));
    bob.step(Told::Processed(Ok((Some("reply"), outcome(1, 2)))));
    bob.step(Told::Sent(Ok(())));
    bob
}

fn failed(answer: Answer) -> AcceptError<&'static str> {
    match answer {
        BobAction::Finish(Err(e)) => e,
        _ => panic!("the exchange did not fail"),
    }
}

#[test]
fn an_allowed_request_is_served_from_its_own_session() {
    let mut bob = Bob::new(peer(1));
    match bob.step::<&str>(init(4, "first")) {
        BobAction::Decide { namespace, peer: p } => assert_eq!((namespace, p), (ns(4), peer(1))),
        _ => panic!("the request was not decided about"),
    }
    assert_eq!(bob.namespace(), None);
    match bob.step(Told::Decided(AcceptOutcome::Allow { filter: Some(Arc::new(6)) })) {
        BobAction::Start { namespace } => assert_eq!(namespace, ns(4)),
        _ => panic!("no session was started"),
    }
    assert_eq!(bob.namespace(), Some(ns(4)));
    match bob.step(Told::Started(Ok(session(4)))) {
        BobAction::Process { namespace, message, from, progress, session, filter } => {
            assert_eq!((namespace, message, from), (ns(4), "first", peer(1)));
            assert_eq!((session, filter), (session_id(4), Some(Arc::new(6))));
            assert_eq!((progress.num_recv, progress.num_sent), (0, 0));
            assert!(progress.heads_received.is_empty());
        }
        _ => panic!("nothing was processed"),
    }
    assert!(matches!(
        bob.step(Told::Processed(Ok((Some("reply"), outcome(1, 2))))),
        BobAction::Send(Message::Sync("reply"))
    ));
    assert!(matches!(bob.step(Told::Sent(Ok(()))), BobAction::Receive));
    // The second round gets along what the first achieved.
    match bob.step(Told::Frame(Message::Sync("second"))) {
        BobAction::Process { namespace, message, progress, session, filter, .. } => {
            assert_eq!((namespace, message), (ns(4), "second"));
            assert_eq!((session, filter), (session_id(4), Some(Arc::new(6))));
            assert_eq!((progress.num_recv, progress.num_sent), (1, 2));
            assert_eq!(progress.heads_received, vec![([3; 32], 17)]);
        }
        _ => panic!("nothing was processed"),
    }
    // No reply is due: the exchange is over.
    match bob.step(Told::Processed(Ok((None, outcome(3, 4))))) {
        BobAction::Finish(Ok(namespace)) => assert_eq!(namespace, ns(4)),
        _ => panic!("the exchange did not end"),
    }
    let achieved = bob.into_outcome();
    assert_eq!((achieved.num_recv, achieved.num_sent), (3, 4));
}

#[test]
fn an_exchange_may_end_with_the_stream() {
    let mut bob = exchanging();
    assert!(matches!(bob.step(Told::End), BobAction::Finish(Ok(_))));
    assert_eq!(bob.into_outcome().num_sent, 2);
}

#[test]
fn a_refused_request_is_answered_and_starts_no_session() {
    for reason in
        [AbortReason::NotFound, AbortReason::AlreadySyncing, AbortReason::InternalServerError]
    {
        let mut bob = Bob::new(peer(1));
        bob.step::<&str>(init(4, "first"));
        match bob.step(Told::Decided(AcceptOutcome::Reject(reason))) {
            BobAction::Send(Message::Abort { reason: sent }) => assert_eq!(sent, reason),
            _ => panic!("the request was not answered"),
        }
        match failed(bob.step(Told::Sent(Ok(())))) {
            AcceptError::Abort { peer: p, namespace, reason: r } => {
                assert_eq!((p, namespace, r), (peer(1), ns(4), reason));
            }
            _ => panic!("the refusal was not reported"),
        }
        assert_eq!(bob.namespace(), None);
    }
    // A refusal that cannot be sent fails without naming the replica.
    let mut bob = Bob::new(peer(1));
    bob.step::<&str>(init(4, "first"));
    bob.step(Told::Decided(AcceptOutcome::Reject(AbortReason::NotFound)));
    let e = failed(bob.step(Told::Sent(Err("gone"))));
    assert_eq!((e.peer(), e.namespace()), (Some(peer(1)), None));
    assert!(matches!(e, AcceptError::Sync { error: Cause::Outside("gone"), .. }));
}

#[test]
fn a_failure_names_the_replica_once_the_request_was_allowed() {
    // A session that is refused after the request was allowed.
    let mut bob = Bob::new(peer(1));
    bob.step::<&str>(init(4, "first"));
    bob.step(Told::Decided(AcceptOutcome::Allow { filter: None }));
    let e = failed(bob.step(Told::Started(Err("sync is not enabled for replica"))));
    assert_eq!((e.peer(), e.namespace()), (Some(peer(1)), Some(ns(4))));
    // A first frame that is malformed.
    let mut bob = Bob::new(peer(1));
    let e = failed(bob.step(Told::Broken("malformed")));
    assert_eq!((e.peer(), e.namespace()), (Some(peer(1)), None));
    // Rounds and replies that fail.
    let mut bob = exchanging();
    assert_eq!(failed(bob.step(Told::Broken("malformed"))).namespace(), Some(ns(4)));
    let mut bob = exchanging();
    bob.step::<&str>(Told::Frame(Message::Sync("second")));
    bob.step(Told::Processed(Ok((Some("reply"), outcome(1, 1)))));
    assert_eq!(failed(bob.step(Told::Sent(Err("gone")))).namespace(), Some(ns(4)));
}

#[test]
fn a_failed_round_leaves_an_outcome_that_can_be_read() {
    let mut bob = exchanging();
    bob.step::<&str>(Told::Frame(Message::Sync("second")));
    let e = failed(bob.step(Told::Processed(Err("range of another namespace"))));
    assert!(matches!(
        e,
        AcceptError::Sync { error: Cause::Outside("range of another namespace"), .. }
    ));
    let left = bob.into_outcome();
    assert_eq!((left.num_sent, left.num_recv), (2, 1));
    assert_eq!(left.heads_received, vec![([3; 32], 17)]);
    // Without a completed round, there is nothing.
    let mut bob = Bob::new(peer(1));
    bob.step::<&str>(init(4, "first"));
    bob.step::<&str>(Told::Decided(AcceptOutcome::Allow { filter: None }));
    bob.step::<&str>(Told::Started(Ok(session(4))));
    failed(bob.step(Told::Processed(Err("range of another namespace"))));
    let left = bob.into_outcome();
    assert_eq!((left.num_sent, left.num_recv), (0, 0));
    assert!(left.heads_received.is_empty());
}

fn cause_of(e: AcceptError<&'static str>) -> Option<&'static str> {
    match e {
        AcceptError::Sync { error, .. } => error.text(),
        _ => panic!("not a failure of the exchange"),
    }
}

#[test]
fn frames_out_of_turn_end_the_exchange() {
    let mut bob = Bob::new(peer(1));
    let e = failed(bob.step(Told::Frame(Message::Sync("early"))));
    assert_eq!(e.namespace(), None);
    assert_eq!(cause_of(e), Some("unexpected sync message before init"));
    let mut bob = Bob::new(peer(1));
    let abort = || Told::Frame(Message::Abort { reason: AbortReason::NotFound });
    assert_eq!(cause_of(failed(bob.step(abort()))), Some("unexpected sync abort message"));
    let mut bob = Bob::new(peer(1));
    assert_eq!(cause_of(failed(bob.step(Told::End))), Some("Stream closed before init message"));
    let mut bob = exchanging();
    let e = failed(bob.step(init(9, "again")));
    assert_eq!(e.namespace(), Some(ns(4)));
    assert_eq!(cause_of(e), Some("double init message"));
    let mut bob = exchanging();
    assert_eq!(cause_of(failed(bob.step(abort()))), Some("unexpected sync abort message"));
    let bob = Bob::new(peer(1));
    assert_eq!(cause_of(bob.fail(Cause::TimedOut)), Some("sync exchange timed out after 300s"));
    assert_eq!(Cause::Outside("x").text(), None);
}

/// The dialing end, having opened the exchange.
fn dialed() -> Alice {
    let (mut alice, start): (Alice, Move) = Alice::start(ns(4), peer(2), Some(Arc::new(9)));
    match start {
        AliceAction::Start { namespace } => assert_eq!(namespace, ns(4)),
        _ => panic!("no session was started"),
    }
    match alice.step(News::Started(Ok(session(4)))) {
        AliceAction::Open { namespace, session, filter } => {
            assert_eq!((namespace, session), (ns(4), session_id(4)));
            assert_eq!(filter, Some(Arc::new(9)));
        }
        _ => panic!("no first message was asked for"),
    }
    match alice.step(News::Opened(Ok("first"))) {
        AliceAction::Send(Message::Init { namespace, message: "first" }) => {
            assert_eq!(namespace, ns(4));
        }
        _ => panic!("the exchange was not opened"),
    }
    assert!(matches!(alice.step(News::Sent(Ok(()))), AliceAction::Receive));
    alice
}

#[test]
fn the_dialing_end_processes_until_no_reply_is_due() {
    let mut alice = dialed();
    match alice.step(News::Frame(Message::Sync("one"))) {
        AliceAction::Process { namespace, message, from, progress, session, filter } => {
            assert_eq!((namespace, message, from), (ns(4), "one", peer(2)));
            assert_eq!((session, filter), (session_id(4), Some(Arc::new(9))));
            assert_eq!((progress.num_recv, progress.num_sent), (0, 0));
        }
        _ => panic!("nothing was processed"),
    }
    assert!(matches!(
        alice.step(News::Processed(Ok((Some("reply"), outcome(5, 6))))),
        AliceAction::Send(Message::Sync("reply"))
    ));
    alice.step(News::Sent(Ok(())));
    match alice.step(News::Frame(Message::Sync("two"))) {
        AliceAction::Process { progress, .. } => {
            assert_eq!((progress.num_recv, progress.num_sent), (5, 6));
        }
        _ => panic!("nothing was processed"),
    }
    match alice.step(News::Processed(Ok((None, outcome(7, 8))))) {
        AliceAction::Finish(Ok(achieved)) => {
            assert_eq!((achieved.num_recv, achieved.num_sent), (7, 8));
        }
        _ => panic!("the exchange did not end"),
    }
}

#[test]
fn the_dialing_end_may_end_with_the_stream() {
    let mut alice = dialed();
    alice.step(News::Frame(Message::Sync("one")));
    alice.step(News::Processed(Ok((Some("reply"), outcome(5, 6)))));
    alice.step(News::Sent(Ok(())));
    match alice.step(News::End) {
        AliceAction::Finish(Ok(achieved)) => assert_eq!(achieved.num_recv, 5),
        _ => panic!("the exchange did not end"),
    }
}

fn dial_failed(action: Move) -> Cause<&'static str> {
    match action {
        AliceAction::Finish(Err(ConnectError::Sync { error })) => error,
        _ => panic!("the exchange did not fail"),
    }
}

#[test]
fn the_dialing_end_fails_as_a_failed_exchange() {
    let (mut alice, _): (Alice, Move) = Alice::start(ns(4), peer(2), Some(Arc::new(9)));
    let cause = dial_failed(alice.step(News::Started(Err("replica not open"))));
    assert!(matches!(cause, Cause::Outside("replica not open")));
    let (mut alice, _): (Alice, Move) = Alice::start(ns(4), peer(2), Some(Arc::new(9)));
    alice.step(News::Started(Ok(session(4))));
    assert!(matches!(dial_failed(alice.step(News::Opened(Err("disk")))), Cause::Outside("disk")));
    let mut alice = dialed();
    assert!(matches!(dial_failed(alice.step(News::Broken("cut"))), Cause::Outside("cut")));
    let mut alice = dialed();
    alice.step(News::Frame(Message::Sync("one")));
    let cause = dial_failed(alice.step(News::Processed(Err("refused"))));
    assert!(matches!(cause, Cause::Outside("refused")));
    let mut alice = dialed();
    alice.step(News::Frame(Message::Sync("one")));
    alice.step(News::Processed(Ok((Some("reply"), outcome(0, 0)))));
    assert!(matches!(dial_failed(alice.step(News::Sent(Err("cut")))), Cause::Outside("cut")));
    let mut alice = dialed();
    let init = Message::Init { namespace: ns(4), message: "mine" };
    let cause = dial_failed(alice.step(News::Frame(init)));
    assert_eq!(cause.text(), Some("unexpected init message"));
}

#[test]
fn a_refusal_reaches_the_dialing_end() {
    let mut bob = Bob::new(peer(1));
    bob.step::<&str>(init(4, "first"));
    let answer = bob.step::<&str>(Told::Decided(AcceptOutcome::Reject(AbortReason::AlreadySyncing)));
    let frame = match answer {
        BobAction::Send(frame) => frame,
        _ => panic!("the request was not answered"),
    };
    let mut alice = dialed();
    match alice.step(News::Frame(frame)) {
        AliceAction::Finish(Err(ConnectError::RemoteAbort(reason))) => {
            assert_eq!(reason, AbortReason::AlreadySyncing);
        }
        _ => panic!("the refusal was not reported"),
    }
}

#[test]
fn decisions_show_nothing_of_their_filter() {
    let allow: AcceptOutcome<u8> = AcceptOutcome::Allow { filter: None };
    assert_eq!(allow.debug(), "Allow");
    assert_eq!(AcceptOutcome::Allow { filter: Some(3) }.debug(), "Allow(filtered)");
    let reject = |reason| AcceptOutcome::<u8>::Reject(reason).debug();
    assert_eq!(reject(AbortReason::NotFound), "Reject(NotFound)");
    assert_eq!(reject(AbortReason::AlreadySyncing), "Reject(AlreadySyncing)");
    assert_eq!(reject(AbortReason::InternalServerError), "Reject(InternalServerError)");
}
