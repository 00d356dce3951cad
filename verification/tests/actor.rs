use std::sync::{Arc, Weak};

use docs_sync::actor::error::{get_author, send_reply_error, ActorError, SendReplyError};
use docs_sync::actor::machine::{Actor, Event, Tick};
use docs_sync::actor::metrics::{advance, Metrics};
use docs_sync::actor::replicas::{OpenOpts, OpenReplicas, OpenState, ReadView, ReplicaInfo};
use docs_sync::actor::request::{
    Action, Backend, Done, ImportNamespaceOutcome, ReplicaAction, Step, StoreCall, StreamCall,
    Write,
};
use docs_sync::actor::session::{session_snapshot, SessionSnapshot, SyncSession, SyncSessionId};
use docs_sync::actor::stream::{ReplyStream, StreamAction};
use docs_sync::actor::view::MAX_COMMIT_DELAY;
use docs_sync::id_map::IdMap;
use docs_sync::keys::{Id, NamespaceId, PeerId};

struct TestStore;

impl Backend for TestStore {
    type Info = Vec<u8>;
    type Tables = u32;
    type Alive = Weak<()>;
    type Subscriber = u8;
    type AuthorId = u8;
    type Author = &'static str;
    type Capability = u8;
    type Key = &'static str;
    type Hash = u8;
    type Entry = u8;
    type ContentStatus = ();
    type Message = u8;
    type Outcome = u32;
    type Filter = u8;
    type Query = u8;
    type Heads = u8;
    type Policy = u8;
    type Error = &'static str;
}

type TestActor = Actor<TestStore>;

fn ns(n: u8) -> NamespaceId {
    NamespaceId { bytes: [n; 32] }
}

fn peer(n: u8) -> PeerId {
    PeerId { bytes: [n; 32] }
}

fn ask(actor: &mut TestActor, n: u8, action: ReplicaAction<TestStore>) -> Step<TestStore> {
    actor.on_action(Action::Replica(ns(n), action))
}

/// Opens a replica, whose store info is the one byte `n`.
fn open(actor: &mut TestActor, n: u8, opts: OpenOpts<u8>) -> Option<u8> {
    let step = match ask(actor, n, ReplicaAction::Open { opts }) {
        Step::LoadReplica { namespace, opts } => {
            let info = ReplicaInfo { capability: namespace, rest: vec![n] };
            actor.replica_loaded(namespace, opts, Ok(info))
        }
        step => step,
    };
    match step {
        Step::Reply(Ok(Done::Opened { subscribe })) => subscribe,
        _ => panic!("the replica was not opened"),
    }
}

fn close(actor: &mut TestActor, n: u8) -> bool {
    match ask(actor, n, ReplicaAction::Close) {
        Step::Close { namespace, closed } => {
            assert_eq!(namespace, ns(n));
            closed
        }
        _ => panic!("close was not answered"),
    }
}

fn refused(step: Step<TestStore>) -> ActorError<&'static str> {
    match step {
        Step::Reply(Err(e)) => e,
        Step::Stream(Err(e)) => e,
        _ => panic!("the request was not refused"),
    }
}

/// Starts a session; what it returns first keeps the session alive.
fn start_session(actor: &mut TestActor, n: u8, tables: u32) -> (Arc<()>, SyncSession) {
    let namespace = match ask(actor, n, ReplicaAction::SyncSessionStart) {
        Step::TakeSnapshot { namespace } => namespace,
        _ => panic!("no session was started"),
    };
    let alive = Arc::new(());
    match actor.snapshot_taken(namespace, Ok((tables, Arc::downgrade(&alive)))) {
        Step::Reply(Ok(Done::Session(id))) => (alive, SyncSession { id, namespace }),
        _ => panic!("no session was registered"),
    }
}

fn initial(actor: &mut TestActor, n: u8, session: SyncSessionId) -> Step<TestStore> {
    ask(actor, n, ReplicaAction::SyncInitialMessage { session, filter: Some(Arc::new(7)) })
}

fn count(alive: &Weak<()>) -> usize {
    alive.strong_count()
}

#[test]
fn an_open_replica_is_closed_by_its_last_handle() {
    let mut actor = TestActor::new(0, 0);
    assert_eq!(open(&mut actor, 1, OpenOpts::default()), None);
    assert_eq!(open(&mut actor, 1, OpenOpts::default().subscribe(9)), Some(9));
    assert_eq!(open(&mut actor, 1, OpenOpts::default()), None);
    assert_eq!(actor.replica(&ns(1)).unwrap().handles, 3);
    assert!(!close(&mut actor, 1));
    assert!(!close(&mut actor, 1));
    assert!(close(&mut actor, 1));
    assert!(actor.replica(&ns(1)).is_err());
    // Closing a replica that is not open reports it closed.
    assert!(close(&mut actor, 1));
}

#[test]
fn opening_again_never_turns_sync_off() {
    let mut actor = TestActor::new(0, 0);
    open(&mut actor, 1, OpenOpts::default());
    assert!(!actor.replica(&ns(1)).unwrap().sync);
    open(&mut actor, 1, OpenOpts::default().sync());
    assert!(actor.replica(&ns(1)).unwrap().sync);
    open(&mut actor, 1, OpenOpts::default());
    assert!(actor.replica(&ns(1)).unwrap().sync);
    assert!(matches!(
        ask(&mut actor, 1, ReplicaAction::SetSync { sync: false }),
        Step::Reply(Ok(Done::Nothing))
    ));
    assert!(!actor.replica(&ns(1)).unwrap().sync);
}

#[test]
fn a_replica_that_cannot_be_loaded_is_not_opened() {
    let mut actor = TestActor::new(0, 0);
    let opts = OpenOpts::default().sync();
    let opts = match ask(&mut actor, 1, ReplicaAction::Open { opts }) {
        Step::LoadReplica { opts, .. } => opts,
        _ => panic!("the store was not asked"),
    };
    let step = actor.replica_loaded(ns(1), opts, Err("disk"));
    assert!(matches!(refused(step), ActorError::Store("disk")));
    assert!(actor.replica(&ns(1)).is_err());
}

#[test]
fn open_with_loads_only_what_is_not_open() {
    let mut replicas: OpenReplicas<u8> = OpenReplicas::new();
    let load = || Ok::<_, &'static str>(ReplicaInfo { capability: ns(5), rest: 3 });
    assert_eq!(replicas.open_with(ns(5), OpenOpts::default().subscribe(1), load), Ok(Some(1)));
    let not_asked = || -> Result<ReplicaInfo<u8>, &'static str> { panic!("asked") };
    assert_eq!(replicas.open_with(ns(5), OpenOpts::<u8>::default().sync(), not_asked), Ok(None));
    let fail = || Err("disk");
    assert_eq!(replicas.open_with(ns(6), OpenOpts::<u8>::default(), fail), Err("disk"));
    assert!(replicas.is_open(&ns(5)));
    assert!(!replicas.is_open(&ns(6)));
    let state = replicas.get::<()>(&ns(5)).unwrap();
    assert_eq!((state.handles, state.sync, state.info.rest), (2, true, 3));
    replicas.get_mut::<()>(&ns(5)).unwrap().info.rest = 4;
    assert_eq!(replicas.get::<()>(&ns(5)).unwrap().info.rest, 4);
    assert!(matches!(replicas.get_mut::<()>(&ns(6)), Err(ActorError::NotOpen)));
    assert!(replicas.ensure_open::<()>(&ns(5)).is_ok());
    assert!(matches!(replicas.ensure_open::<()>(&ns(6)), Err(ActorError::NotOpen)));
    assert_eq!(replicas.replica::<()>(ns(5)).unwrap().view, ReadView::Live);
    assert!(matches!(replicas.replica::<()>(ns(6)), Err(ActorError::NotOpen)));
    assert!(replicas.ensure_syncing::<()>(&ns(5)).is_ok());
    assert!(!replicas.close(ns(5)));
    assert_eq!(replicas.close_all(), vec![ns(5)]);
    assert!(!replicas.is_open(&ns(5)));
}

#[test]
fn the_replica_of_another_capability_is_named_by_it() {
    let mut replicas: OpenReplicas<u8> = OpenReplicas::new();
    let load = || Ok::<_, ()>(ReplicaInfo { capability: ns(8), rest: 0 });
    replicas.open_with(ns(5), OpenOpts::<u8>::default().sync(), load).unwrap();
    assert_eq!(replicas.replica::<()>(ns(5)).unwrap().id, ns(8));
    let replica = replicas.replica_if_syncing::<()>(&ns(5), None).unwrap();
    assert_eq!((replica.id, replica.view), (ns(8), ReadView::Live));
}

#[test]
fn the_state_of_a_replica_counts_handles_and_subscribers() {
    let mut actor = TestActor::new(0, 0);
    open(&mut actor, 1, OpenOpts::default().sync());
    open(&mut actor, 1, OpenOpts::default());
    assert!(matches!(
        ask(&mut actor, 1, ReplicaAction::GetState),
        Step::CountSubscribers { .. }
    ));
    match actor.subscribers_counted(ns(1), 4) {
        Step::Reply(Ok(Done::State(state))) => {
            assert_eq!(state, OpenState { sync: true, subscribers: 4, handles: 2 });
        }
        _ => panic!("no state"),
    }
    assert_eq!(OpenState::default(), OpenState { sync: false, subscribers: 0, handles: 0 });
    assert!(matches!(refused(actor.subscribers_counted(ns(2), 4)), ActorError::NotOpen));
}

#[test]
fn requests_on_a_closed_replica_are_refused() {
    let mut actor = TestActor::new(0, 0);
    let requests: Vec<ReplicaAction<TestStore>> = vec![
        ReplicaAction::GetState,
        ReplicaAction::SetSync { sync: true },
        ReplicaAction::Subscribe { sender: 1 },
        ReplicaAction::Unsubscribe { sender: 1 },
        ReplicaAction::InsertRemote { entry: 1, len: 1, from: peer(1), content_status: () },
        ReplicaAction::SyncSessionStart,
        ReplicaAction::GetSyncPeers,
        ReplicaAction::GetExact { author: 1, key: "k", include_empty: true },
        ReplicaAction::RetractEntry { author: 1, key: "k", up_to_timestamp: 3 },
        ReplicaAction::GetMany { query: 1 },
        ReplicaAction::ExportSecretKey,
    ];
    for request in requests {
        assert!(matches!(refused(ask(&mut actor, 1, request)), ActorError::NotOpen));
    }
    // These do not ask for an open replica.
    assert!(matches!(
        ask(&mut actor, 1, ReplicaAction::RegisterUsefulPeer { peer: peer(2) }),
        Step::Answer(StoreCall::RegisterUsefulPeer { .. })
    ));
    assert!(matches!(
        ask(&mut actor, 1, ReplicaAction::HasNewsForUs { heads: 2 }),
        Step::Answer(StoreCall::HasNewsForUs { heads: 2, .. })
    ));
    assert!(matches!(
        ask(&mut actor, 1, ReplicaAction::SetDownloadPolicy { policy: 3 }),
        Step::Answer(StoreCall::SetDownloadPolicy { policy: 3, .. })
    ));
    assert!(matches!(
        ask(&mut actor, 1, ReplicaAction::GetDownloadPolicy),
        Step::Answer(StoreCall::GetDownloadPolicy { .. })
    ));
    assert!(matches!(
        ask(&mut actor, 1, ReplicaAction::DropReplica),
        Step::Drop { closed: true, .. }
    ));
}

#[test]
fn requests_on_an_open_replica_reach_the_store() {
    let mut actor = TestActor::new(0, 0);
    open(&mut actor, 1, OpenOpts::default());
    assert!(matches!(
        ask(&mut actor, 1, ReplicaAction::Subscribe { sender: 5 }),
        Step::Subscribe { sender: 5, .. }
    ));
    assert!(matches!(
        ask(&mut actor, 1, ReplicaAction::Unsubscribe { sender: 5 }),
        Step::Unsubscribe { sender: 5, .. }
    ));
    assert!(matches!(
        ask(&mut actor, 1, ReplicaAction::GetSyncPeers),
        Step::Answer(StoreCall::GetSyncPeers { .. })
    ));
    assert!(matches!(
        ask(&mut actor, 1, ReplicaAction::GetExact { author: 1, key: "k", include_empty: true }),
        Step::Answer(StoreCall::GetExact { author: 1, key: "k", include_empty: true, .. })
    ));
    assert!(matches!(
        ask(&mut actor, 1, ReplicaAction::RetractEntry { author: 1, key: "k", up_to_timestamp: 3 }),
        Step::Answer(StoreCall::RetractEntry { author: 1, key: "k", up_to_timestamp: 3, .. })
    ));
    assert!(matches!(
        ask(&mut actor, 1, ReplicaAction::GetMany { query: 8 }),
        Step::Stream(Ok(StreamCall::Entries { query: 8, .. }))
    ));
    assert!(matches!(
        ask(&mut actor, 1, ReplicaAction::ExportSecretKey),
        Step::Answer(StoreCall::ExportSecretKey { .. })
    ));
    // Open, but not for sync.
    let request = ReplicaAction::InsertRemote { entry: 1, len: 1, from: peer(1), content_status: () };
    assert!(matches!(refused(ask(&mut actor, 1, request)), ActorError::SyncDisabled));
    assert!(matches!(
        ask(&mut actor, 1, ReplicaAction::DropReplica),
        Step::Drop { closed: true, .. }
    ));
    assert!(actor.replica(&ns(1)).is_err());
}

#[test]
fn requests_on_the_store_as_a_whole_reach_it() {
    let mut actor = TestActor::new(0, 0);
    assert!(matches!(
        actor.on_action(Action::ExportAuthor { author: 3 }),
        Step::Answer(StoreCall::ExportAuthor { author: 3 })
    ));
    assert!(matches!(
        actor.on_action(Action::DeleteAuthor { author: 3 }),
        Step::Answer(StoreCall::DeleteAuthor { author: 3 })
    ));
    assert!(matches!(
        actor.on_action(Action::ContentHashes),
        Step::Answer(StoreCall::ContentHashes)
    ));
    assert!(matches!(actor.on_action(Action::FlushStore), Step::Answer(StoreCall::Flush)));
    assert!(matches!(actor.on_action(Action::ListAuthors), Step::Stream(Ok(StreamCall::Authors))));
    assert!(matches!(
        actor.on_action(Action::ListReplicas),
        Step::Stream(Ok(StreamCall::Replicas))
    ));
    match actor.on_action(Action::ImportAuthor { id: 4, author: "ada" }) {
        Step::ImportAuthor { id, author: "ada" } => {
            assert!(matches!(
                actor.author_imported(id, Ok(())),
                Step::Reply(Ok(Done::Author(4)))
            ));
            assert!(matches!(
                refused(actor.author_imported(id, Err("disk"))),
                ActorError::Store("disk")
            ));
        }
        _ => panic!("the author was not imported"),
    }
}

#[test]
fn an_upgraded_capability_is_merged_into_an_open_replica() {
    let mut actor = TestActor::new(0, 0);
    let (id, capability) = match actor.on_action(Action::ImportNamespace {
        id: ns(1),
        capability: 6,
    }) {
        Step::ImportNamespace { id, capability } => (id, capability),
        _ => panic!("the replica was not imported"),
    };
    let upgraded = Ok(ImportNamespaceOutcome::Upgraded);
    // Not open: there is nothing to merge into.
    assert!(matches!(
        actor.namespace_imported(id, capability, upgraded),
        Step::Reply(Ok(Done::Namespace(_)))
    ));
    open(&mut actor, 1, OpenOpts::default());
    for outcome in [ImportNamespaceOutcome::Inserted, ImportNamespaceOutcome::NoChange] {
        assert!(matches!(
            actor.namespace_imported(id, capability, Ok(outcome)),
            Step::Reply(Ok(Done::Namespace(_)))
        ));
    }
    assert!(matches!(
        actor.namespace_imported(id, capability, upgraded),
        Step::MergeCapability { capability: 6, .. }
    ));
    assert!(matches!(
        refused(actor.namespace_imported(id, capability, Err("disk"))),
        ActorError::Store("disk")
    ));
    assert!(matches!(
        actor.capability_merged(id, Ok(())),
        Step::Reply(Ok(Done::Namespace(_)))
    ));
    assert!(matches!(
        refused(actor.capability_merged(id, Err("other key"))),
        ActorError::Store("other key")
    ));
}

#[test]
fn a_write_needs_its_author_and_then_its_replica() {
    let mut actor = TestActor::new(0, 0);
    let insert = || Write::Insert { key: "k", hash: 2, len: 10 };
    let request = ReplicaAction::InsertLocal { author: 1, key: "k", hash: 2, len: 10 };
    assert!(matches!(
        ask(&mut actor, 1, request),
        Step::FindAuthor { author: 1, write: Write::Insert { key: "k", hash: 2, len: 10 }, .. }
    ));
    let request = ReplicaAction::DeletePrefix { author: 1, key: "k" };
    assert!(matches!(
        ask(&mut actor, 1, request),
        Step::FindAuthor { author: 1, write: Write::DeletePrefix { key: "k" }, .. }
    ));
    // The author is missed before the replica is.
    assert!(matches!(
        refused(actor.author_found(ns(1), insert(), Ok(None))),
        ActorError::AuthorNotFound
    ));
    assert!(matches!(
        refused(actor.author_found(ns(1), insert(), Err("disk"))),
        ActorError::Store("disk")
    ));
    assert!(matches!(
        refused(actor.author_found(ns(1), insert(), Ok(Some("ada")))),
        ActorError::NotOpen
    ));
    open(&mut actor, 1, OpenOpts::default());
    match actor.author_found(ns(1), insert(), Ok(Some("ada"))) {
        Step::InsertLocal { replica, author, key, hash, len } => {
            assert_eq!((replica.id, replica.view), (ns(1), ReadView::Live));
            assert_eq!((author, key, hash, len), ("ada", "k", 2, 10));
        }
        _ => panic!("nothing was inserted"),
    }
    assert!(matches!(
        actor.author_found(ns(1), Write::DeletePrefix { key: "k" }, Ok(Some("ada"))),
        Step::Answer(StoreCall::DeletePrefix { author: "ada", key: "k", .. })
    ));
    assert_eq!(get_author::<u8, ()>(Ok(Some(3))).unwrap(), 3);
}

#[test]
fn entries_are_counted_once_the_store_took_them() {
    let mut actor = TestActor::new(0, 0);
    assert!(matches!(refused(actor.inserted_local(10, Err("disk"))), ActorError::Store("disk")));
    assert!(matches!(refused(actor.inserted_remote(7, Err("disk"))), ActorError::Store("disk")));
    assert_eq!(actor.metrics(), Metrics::new());
    assert!(matches!(actor.inserted_local(10, Ok(())), Step::Reply(Ok(Done::Nothing))));
    assert!(matches!(actor.inserted_local(5, Ok(())), Step::Reply(Ok(Done::Nothing))));
    assert!(matches!(actor.inserted_remote(7, Ok(())), Step::Reply(Ok(Done::Nothing))));
    let metrics = actor.metrics();
    assert_eq!((metrics.new_entries_local, metrics.new_entries_local_size), (2, 15));
    assert_eq!((metrics.new_entries_remote, metrics.new_entries_remote_size), (1, 7));
}

#[test]
fn counters_wrap_around() {
    assert_eq!(advance(3, 4), 7);
    assert_eq!(advance(u64::MAX, 1), 0);
    assert_eq!(advance(u64::MAX - 1, 5), 3);
}

#[test]
fn received_entries_are_judged_against_the_live_store() {
    let mut actor = TestActor::new(0, 0);
    open(&mut actor, 1, OpenOpts::default().sync());
    let _session = start_session(&mut actor, 1, 100);
    let request = ReplicaAction::InsertRemote { entry: 6, len: 9, from: peer(3), content_status: () };
    match ask(&mut actor, 1, request) {
        Step::InsertRemote { replica, entry, len, from, .. } => {
            assert_eq!((replica.id, replica.view), (ns(1), ReadView::Live));
            assert_eq!((entry, len, from), (6, 9, peer(3)));
        }
        _ => panic!("the entry was not inserted"),
    }
}

#[test]
fn a_session_id_is_refused_by_an_actor_that_did_not_issue_it() {
    let mut issuer = TestActor::new(0, 0);
    let mut other = TestActor::new(1, 0);
    open(&mut issuer, 1, OpenOpts::default().sync());
    open(&mut other, 1, OpenOpts::default().sync());
    let (_alive, session) = start_session(&mut issuer, 1, 100);
    let (_other_alive, other_session) = start_session(&mut other, 1, 200);
    assert_eq!(session.id(), session.id());
    assert_ne!(session.id(), other_session.id());
    assert!(!session.id().same(&other_session.id()));
    match initial(&mut issuer, 1, session.id()) {
        Step::Answer(StoreCall::SyncInitialMessage { filter, .. }) => {
            assert_eq!(filter, Some(Arc::new(7)));
        }
        _ => panic!("the session was not served"),
    }
    assert!(matches!(
        refused(initial(&mut other, 1, session.id())),
        ActorError::ForeignSession
    ));
}

#[test]
fn sessions_live_and_die_with_their_replica() {
    let mut actor = TestActor::new(0, 0);
    // Not open: no session.
    assert!(matches!(
        refused(ask(&mut actor, 1, ReplicaAction::SyncSessionStart)),
        ActorError::NotOpen
    ));
    // Open without sync: no session.
    open(&mut actor, 1, OpenOpts::default());
    assert!(matches!(
        refused(ask(&mut actor, 1, ReplicaAction::SyncSessionStart)),
        ActorError::SyncDisabled
    ));
    assert!(close(&mut actor, 1));
    // Open for sync: a session starts and is registered.
    open(&mut actor, 1, OpenOpts::default().sync());
    open(&mut actor, 2, OpenOpts::default().sync());
    let (_alive, session) = start_session(&mut actor, 1, 100);
    assert_eq!(session.namespace(), ns(1));
    assert_eq!(actor.session_count(), 1);
    assert_eq!(actor.metrics().sync_sessions_open, 1);
    assert_eq!(actor.tables(&session.id()), Some(&100));
    // A session id is bound to its replica.
    assert!(matches!(
        refused(initial(&mut actor, 2, session.id())),
        ActorError::SessionOfOtherNamespace
    ));
    // The bound replica serves through the snapshot.
    match initial(&mut actor, 1, session.id()) {
        Step::Answer(StoreCall::SyncInitialMessage { replica, .. }) => {
            assert_eq!((replica.id, replica.view), (ns(1), ReadView::Session(session.id())));
        }
        _ => panic!("the session was not served"),
    }
    let request = ReplicaAction::SyncProcessMessage {
        message: 4,
        from: peer(2),
        state: 9,
        session: session.id(),
        filter: None,
    };
    match ask(&mut actor, 1, request) {
        Step::Answer(StoreCall::SyncProcessMessage { replica, message, from, state, filter }) => {
            assert_eq!(replica.view, ReadView::Session(session.id()));
            assert_eq!((message, from, state, filter), (4, peer(2), 9, None));
        }
        _ => panic!("the session was not served"),
    }
    // Sync turned off: the session is not served, but stays.
    ask(&mut actor, 1, ReplicaAction::SetSync { sync: false });
    assert!(matches!(refused(initial(&mut actor, 1, session.id())), ActorError::SyncDisabled));
    ask(&mut actor, 1, ReplicaAction::SetSync { sync: true });
    assert_eq!(actor.session_count(), 1);
    // Closing the replica sweeps its sessions.
    assert!(close(&mut actor, 1));
    assert_eq!(actor.session_count(), 0);
    assert_eq!(actor.metrics().sync_sessions_open, 0);
    // A stale id fails rather than resolving to whatever now sits at its number.
    open(&mut actor, 1, OpenOpts::default().sync());
    let (_next_alive, next) = start_session(&mut actor, 1, 101);
    assert_ne!(next.id(), session.id());
    assert!(matches!(
        refused(initial(&mut actor, 1, session.id())),
        ActorError::SessionNotRegistered
    ));
    // The late release of the swept session changes nothing.
    assert!(matches!(
        actor.on_action(Action::SyncSessionEnd { session: session.id() }),
        Step::Silent
    ));
    assert_eq!(actor.session_count(), 1);
    // A release in time ends the session.
    actor.on_action(Action::SyncSessionEnd { session: next.id() });
    assert_eq!(actor.session_count(), 0);
    assert_eq!(actor.metrics().sync_sessions_open, 0);
    assert_eq!(actor.metrics().sync_sessions_reclaimed, 0);
}

#[test]
fn a_snapshot_that_cannot_be_taken_starts_no_session() {
    let mut actor = TestActor::new(0, 0);
    open(&mut actor, 1, OpenOpts::default().sync());
    assert!(matches!(
        refused(actor.snapshot_taken(ns(1), Err("disk"))),
        ActorError::Store("disk")
    ));
    assert_eq!(actor.session_count(), 0);
}

#[test]
fn a_session_whose_handle_never_arrived_is_swept() {
    let mut actor = TestActor::new(0, 0);
    open(&mut actor, 1, OpenOpts::default().sync());
    let (alive, _session) = start_session(&mut actor, 1, 100);
    drop(alive);
    // Not yet due.
    let early = actor.on_event(Event::Timeout, MAX_COMMIT_DELAY - 1, count);
    assert!(matches!(early, Tick::Flush));
    assert_eq!(actor.session_count(), 1);
    assert!(matches!(actor.on_event(Event::Timeout, MAX_COMMIT_DELAY, count), Tick::Flush));
    assert_eq!(actor.session_count(), 0);
    assert_eq!(actor.metrics().sync_sessions_reclaimed, 1);
    assert_eq!(actor.metrics().sync_sessions_open, 0);
    // A session that is held is not swept out from under its handle.
    let (alive, session) = start_session(&mut actor, 1, 101);
    actor.reclaim_abandoned_sessions(4 * MAX_COMMIT_DELAY, count);
    assert_eq!(actor.session_count(), 1);
    assert_eq!(actor.metrics().sync_sessions_open, 1);
    assert_eq!(actor.metrics().sync_sessions_reclaimed, 1);
    assert!(matches!(initial(&mut actor, 1, session.id()), Step::Answer(_)));
    // The sweep moves on its own time, even though it found nothing.
    drop(alive);
    actor.reclaim_abandoned_sessions(5 * MAX_COMMIT_DELAY - 1, count);
    assert_eq!(actor.session_count(), 1);
    actor.reclaim_abandoned_sessions(5 * MAX_COMMIT_DELAY, count);
    assert_eq!(actor.session_count(), 0);
    assert_eq!(actor.metrics().sync_sessions_reclaimed, 2);
}

#[test]
fn a_sweep_that_has_no_sessions_is_not_made() {
    let mut actor = TestActor::new(0, 0);
    open(&mut actor, 1, OpenOpts::default().sync());
    // Nothing to sweep, so the time of the last sweep stays.
    actor.reclaim_abandoned_sessions(10 * MAX_COMMIT_DELAY, count);
    let (alive, _session) = start_session(&mut actor, 1, 100);
    drop(alive);
    actor.reclaim_abandoned_sessions(MAX_COMMIT_DELAY, count);
    assert_eq!(actor.session_count(), 0);
}

#[test]
fn requests_are_counted_and_sweep_too() {
    let mut actor = TestActor::new(0, 0);
    open(&mut actor, 1, OpenOpts::default().sync());
    let (alive, _session) = start_session(&mut actor, 1, 100);
    drop(alive);
    let tick = actor.on_event(Event::Received(Action::FlushStore), MAX_COMMIT_DELAY, count);
    assert!(matches!(tick, Tick::Handle(Action::FlushStore)));
    assert_eq!(actor.metrics().actor_tick_main, 1);
    assert_eq!(actor.session_count(), 0);
    let tick = actor.on_event(Event::TaskJoined, MAX_COMMIT_DELAY, count);
    assert!(matches!(tick, Tick::Wait));
    let tick = actor.on_event(Event::Received(Action::Shutdown), MAX_COMMIT_DELAY, count);
    assert!(matches!(tick, Tick::Stop));
    assert_eq!(actor.metrics().actor_tick_main, 2);
    let tick = actor.on_event(Event::Disconnected, MAX_COMMIT_DELAY, count);
    assert!(matches!(tick, Tick::Stop));
    assert_eq!(actor.metrics().actor_tick_main, 2);
}

#[test]
fn closing_everything_leaves_nothing() {
    let mut actor = TestActor::new(0, 0);
    open(&mut actor, 1, OpenOpts::default().sync());
    open(&mut actor, 1, OpenOpts::default());
    open(&mut actor, 2, OpenOpts::default().sync());
    let _one = start_session(&mut actor, 1, 100);
    let _two = start_session(&mut actor, 2, 200);
    assert_eq!(actor.metrics().sync_sessions_open, 2);
    let closed = actor.close_all();
    assert_eq!(closed.len(), 2);
    assert!(closed.contains(&ns(1)) && closed.contains(&ns(2)));
    assert_eq!(actor.session_count(), 0);
    assert_eq!(actor.metrics().sync_sessions_open, 0);
    assert!(actor.replica(&ns(1)).is_err() && actor.replica(&ns(2)).is_err());
}

#[test]
fn a_request_on_one_replica_leaves_another_alone() {
    let mut actor = TestActor::new(0, 0);
    open(&mut actor, 1, OpenOpts::default().sync());
    open(&mut actor, 2, OpenOpts::default().sync());
    let _one = start_session(&mut actor, 1, 100);
    let (_alive, two) = start_session(&mut actor, 2, 200);
    assert!(actor.close(ns(1)));
    assert_eq!(actor.session_count(), 1);
    assert_eq!(actor.tables(&two.id()), Some(&200));
    assert!(actor.session_replica(&ns(2), two.id()).is_ok());
}

#[test]
fn store_info_of_an_open_replica_can_be_changed() {
    let mut actor = TestActor::new(0, 0);
    open(&mut actor, 1, OpenOpts::default().sync());
    actor.info_mut(&ns(1)).unwrap().push(5);
    let state = actor.replica(&ns(1)).unwrap();
    assert_eq!(state.info.rest, vec![1, 5]);
    assert!(state.sync);
    assert!(matches!(actor.info_mut(&ns(2)), Err(ActorError::NotOpen)));
}

#[test]
fn session_snapshots_resolve_in_order_of_refusal() {
    let mut actor = TestActor::new(3, 0);
    open(&mut actor, 1, OpenOpts::default().sync());
    let (_alive, session) = start_session(&mut actor, 1, 100);
    let mut sessions: IdMap<SyncSessionId, SessionSnapshot<u32, ()>> = IdMap::new();
    let look = |sessions: &IdMap<_, _>, actor_id: u64, n: u8| -> Result<u32, ActorError<()>> {
        session_snapshot(sessions, actor_id, session.id(), &ns(n)).copied()
    };
    assert!(matches!(look(&sessions, 4, 1), Err(ActorError::ForeignSession)));
    assert!(matches!(look(&sessions, 3, 1), Err(ActorError::SessionNotRegistered)));
    let snapshot = SessionSnapshot { namespace: ns(1), tables: 55, alive: () };
    assert!(sessions.insert(session.id(), snapshot).is_none());
    assert!(matches!(look(&sessions, 3, 2), Err(ActorError::SessionOfOtherNamespace)));
    assert_eq!(look(&sessions, 3, 1).unwrap(), 55);
}

#[test]
fn errors_of_the_actor_have_texts() {
    let texts: Vec<(ActorError<()>, Option<&str>)> = vec![
        (ActorError::NotOpen, Some("replica not open")),
        (ActorError::SyncDisabled, Some("sync is not enabled for replica")),
        (ActorError::ForeignSession, Some("sync session was issued by another actor")),
        (ActorError::SessionNotRegistered, Some("sync session not registered")),
        (
            ActorError::SessionOfOtherNamespace,
            Some("sync session belongs to another namespace"),
        ),
        (ActorError::AuthorNotFound, Some("author not found")),
        (ActorError::Store(()), None),
    ];
    for (error, text) in texts {
        assert_eq!(error.text(), text);
    }
    assert_eq!(send_reply_error("a reply"), SendReplyError);
}

#[test]
fn streamed_replies_send_every_item_or_the_error_alone() {
    let (stream, action) = ReplyStream::iter_to_irpc::<u8, &str>(Ok(()));
    assert!(matches!(action, StreamAction::Pull));
    assert!(matches!(
        stream.pulled::<u8, &str>(Some(Ok(1))),
        StreamAction::Send(Ok(1))
    ));
    assert!(matches!(stream.sent::<u8, &str, ()>(Ok(())), StreamAction::Pull));
    assert!(matches!(
        stream.pulled::<u8, &str>(Some(Err("bad row"))),
        StreamAction::Send(Err("bad row"))
    ));
    assert!(matches!(stream.sent::<u8, &str, ()>(Ok(())), StreamAction::Pull));
    assert!(matches!(stream.pulled::<u8, &str>(None), StreamAction::Stop(Ok(()))));
    // Nobody is left to receive.
    assert!(matches!(
        stream.sent::<u8, &str, ()>(Err(())),
        StreamAction::Stop(Err(SendReplyError))
    ));
    // Nothing to be had.
    let (stream, action) = ReplyStream::iter_to_irpc::<u8, &str>(Err("not open"));
    assert!(matches!(action, StreamAction::Send(Err("not open"))));
    assert!(matches!(stream.sent::<u8, &str, ()>(Ok(())), StreamAction::Stop(Ok(()))));
    assert!(matches!(stream.sent::<u8, &str, ()>(Err(())), StreamAction::Stop(Err(_))));
}

#[test]
fn maps_hold_one_value_per_identifier() {
    let mut map: IdMap<NamespaceId, u8> = IdMap::new();
    assert!(map.is_empty());
    assert_eq!(map.insert(ns(1), 10), None);
    assert_eq!(map.insert(ns(2), 20), None);
    assert_eq!(map.insert(ns(1), 11), Some(10));
    assert_eq!(map.len(), 2);
    assert_eq!(map.get(&ns(1)), Some(&11));
    assert_eq!(map.get(&ns(3)), None);
    *map.get_mut(&ns(2)).unwrap() = 21;
    assert!(map.contains_key(&ns(2)));
    assert_eq!(map.insert(ns(3), 30), None);
    map.retain(|k, v| *k != ns(2) && *v != 0);
    assert_eq!(map.remove(&ns(2)), None);
    assert_eq!(map.remove(&ns(3)), Some(30));
    assert_eq!(map.drain(), vec![(ns(1), 11)]);
    assert!(map.is_empty());
}
