//! What becomes of a request: what reaches the store of it, and what it changes of the actor.

use vstd::prelude::*;

use crate::actor::error::ActorError;
use crate::actor::laws::is_exchange;
use crate::actor::machine::{Actor, Event, Tick};
use crate::actor::metrics::Metrics;
use crate::actor::replicas::{OpenOpts, ReadView, Replica, ReplicaInfo};
use crate::actor::request::{
    Action, Backend, Done, ImportNamespaceOutcome, ReplicaAction, Step, StoreCall, StreamCall,
};
use crate::actor::session::SyncSessionId;
use crate::actor::view::{reclaimed, ActorView};
use crate::keys::{NamespaceId, PeerId};

verus! {

broadcast use {vstd::map::group_map_axioms, vstd::set::group_set_axioms};

/// Whether the step refuses a request for this reason.
pub open spec fn refuses<B: Backend>(step: Step<B>, reason: ActorError<B::Error>) -> bool {
    step matches Step::Reply(Err(e)) && e == reason
}

/// Whether a replica is the open one of this name, reading so.
pub open spec fn is_replica<B: Backend>(
    v: ActorView<B>,
    namespace: NamespaceId,
    replica: Replica,
    view: ReadView,
) -> bool {
    &&& v.states.contains_key(namespace)
    &&& replica.id == v.states[namespace].info.capability
    &&& replica.view == view
}

/// Whether two actors differ in their open replicas alone.
pub open spec fn same_but_states<B: Backend>(v: ActorView<B>, w: ActorView<B>) -> bool {
    &&& w.actor_id == v.actor_id
    &&& w.sessions == v.sessions
    &&& w.next_session_id == v.next_session_id
    &&& w.last_session_sweep == v.last_session_sweep
    &&& w.metrics == v.metrics
}

/// Whether two actors differ in what they counted alone.
pub open spec fn same_but_metrics<B: Backend>(v: ActorView<B>, w: ActorView<B>) -> bool {
    &&& w.actor_id == v.actor_id
    &&& w.states == v.states
    &&& w.sessions == v.sessions
    &&& w.next_session_id == v.next_session_id
    &&& w.last_session_sweep == v.last_session_sweep
}

/// An exchange is asked of the store just as it was requested: with the same filter, and for a
/// received message with the same message, sender and progress; of the replica that was named,
/// reading the session's snapshot. So a filter is never lost on the way.
pub proof fn law_exchanges_reach_the_store_as_requested<B: Backend>(
    v: ActorView<B>,
    session: SyncSessionId,
    namespace: NamespaceId,
    action: ReplicaAction<B>,
)
    requires
        v.wf(),
        is_exchange(action, session),
    ensures
        match (action, v.on_replica_action(namespace, action).1) {
            (
                ReplicaAction::SyncInitialMessage { filter, .. },
                Step::Answer(StoreCall::SyncInitialMessage { replica, filter: asked }),
            ) => asked == filter && is_replica(v, namespace, replica, ReadView::Session(session)),
            (
                ReplicaAction::SyncProcessMessage { message, from, state, filter, .. },
                Step::Answer(
                    StoreCall::SyncProcessMessage {
                        replica,
                        message: asked_message,
                        from: asked_from,
                        state: asked_state,
                        filter: asked_filter,
                    },
                ),
            ) => {
                &&& asked_message == message
                &&& asked_from == from
                &&& asked_state == state
                &&& asked_filter == filter
                &&& is_replica(v, namespace, replica, ReadView::Session(session))
            },
            (_, step) => {
                &&& step matches Step::Reply(Err(_))
                &&& !(v.sessions.contains_key(session) && v.sessions[session].namespace == namespace
                    && v.states[namespace].sync)
            },
        },
{
}

/// A read of an open replica is asked of the store just as it was requested: of the same replica,
/// for the same author, key and query, with or without empty entries as requested. A replica that
/// is not open is not read.
pub proof fn law_reads_reach_the_store_as_requested<B: Backend>(
    v: ActorView<B>,
    namespace: NamespaceId,
    author: B::AuthorId,
    key: B::Key,
    include_empty: bool,
    query: B::Query,
)
    ensures
        ({
            let open = v.states.contains_key(namespace);
            let exact = v.on_replica_action(
                namespace,
                ReplicaAction::GetExact { author, key, include_empty },
            ).1;
            let many = v.on_replica_action(namespace, ReplicaAction::GetMany { query }).1;
            let peers = v.on_replica_action(namespace, ReplicaAction::GetSyncPeers).1;
            let secret = v.on_replica_action(namespace, ReplicaAction::ExportSecretKey).1;
            &&& match exact {
                Step::Answer(
                    StoreCall::GetExact { namespace: n, author: a, key: k, include_empty: empty },
                ) => open && n == namespace && a == author && k == key && empty == include_empty,
                _ => !open && refuses(exact, ActorError::NotOpen),
            }
            &&& match many {
                Step::Stream(Ok(StreamCall::Entries { namespace: n, query: q })) => open && n
                    == namespace && q == query,
                _ => !open && (many matches Step::Stream(Err(ActorError::NotOpen))),
            }
            &&& match peers {
                Step::Answer(StoreCall::GetSyncPeers { namespace: n }) => open && n == namespace,
                _ => !open && refuses(peers, ActorError::NotOpen),
            }
            &&& match secret {
                Step::Answer(StoreCall::ExportSecretKey { namespace: n }) => open && n == namespace,
                _ => !open && refuses(secret, ActorError::NotOpen),
            }
        }),
{
}

/// A retraction on an open replica is asked of the store just as it was requested.
pub proof fn law_retractions_reach_the_store_as_requested<B: Backend>(
    v: ActorView<B>,
    namespace: NamespaceId,
    author: B::AuthorId,
    key: B::Key,
    up_to_timestamp: u64,
)
    ensures
        ({
            let step = v.on_replica_action(
                namespace,
                ReplicaAction::RetractEntry { author, key, up_to_timestamp },
            ).1;
            match step {
                Step::Answer(
                    StoreCall::RetractEntry {
                        namespace: n,
                        author: a,
                        key: k,
                        up_to_timestamp: time,
                    },
                ) => v.states.contains_key(namespace) && n == namespace && a == author && k == key
                    && time == up_to_timestamp,
                _ => !v.states.contains_key(namespace) && refuses(step, ActorError::NotOpen),
            }
        }),
{
}

/// What the store keeps of a replica beside its entries can be read and set whether or not the
/// replica is open, and is asked for just as requested.
pub proof fn law_settings_reach_the_store_as_requested<B: Backend>(
    v: ActorView<B>,
    namespace: NamespaceId,
    peer: PeerId,
    heads: B::Heads,
    policy: B::Policy,
)
    ensures
        v.on_replica_action(namespace, ReplicaAction::RegisterUsefulPeer { peer }).1 matches
            Step::Answer(StoreCall::RegisterUsefulPeer { namespace: n, peer: p }) && n == namespace
            && p == peer,
        v.on_replica_action(namespace, ReplicaAction::HasNewsForUs { heads }).1 matches
            Step::Answer(StoreCall::HasNewsForUs { namespace: n, heads: h }) && n == namespace
            && h == heads,
        v.on_replica_action(namespace, ReplicaAction::SetDownloadPolicy { policy }).1 matches
            Step::Answer(StoreCall::SetDownloadPolicy { namespace: n, policy: p }) && n == namespace
            && p == policy,
        v.on_replica_action(namespace, ReplicaAction::GetDownloadPolicy).1 matches
            Step::Answer(StoreCall::GetDownloadPolicy { namespace: n }) && n == namespace,
{
}

/// A local insert is made under the author that was looked up for it, with the key, hash and length
/// requested, in the live store of the open replica that was named. It is refused where the lookup
/// failed, where there is no such author, and where the replica is not open.
pub proof fn law_local_inserts_reach_the_store_as_requested<B: Backend>(
    v: ActorView<B>,
    namespace: NamespaceId,
    id: B::AuthorId,
    key: B::Key,
    hash: B::Hash,
    len: u64,
    found: Result<Option<B::Author>, B::Error>,
)
    ensures
        match v.on_replica_action(
            namespace,
            ReplicaAction::InsertLocal { author: id, key, hash, len },
        ).1 {
            Step::FindAuthor { author, namespace: n, write } => {
                let step = v.author_found(n, write, found);
                &&& author == id
                &&& n == namespace
                &&& match found {
                    Err(e) => refuses(step, ActorError::Store(e)),
                    Ok(None) => refuses(step, ActorError::AuthorNotFound),
                    Ok(Some(author)) => match step {
                        Step::InsertLocal { replica, author: a, key: k, hash: h, len: l } => {
                            &&& a == author
                            &&& k == key
                            &&& h == hash
                            &&& l == len
                            &&& is_replica(v, namespace, replica, ReadView::Live)
                        },
                        _ => !v.states.contains_key(namespace) && refuses(
                            step,
                            ActorError::NotOpen,
                        ),
                    },
                }
            },
            _ => false,
        },
{
}

/// A deletion under a prefix is made under the author that was looked up for it, with the prefix
/// requested, in the live store of the open replica that was named. It is refused where the lookup
/// failed, where there is no such author, and where the replica is not open.
pub proof fn law_deletions_reach_the_store_as_requested<B: Backend>(
    v: ActorView<B>,
    namespace: NamespaceId,
    id: B::AuthorId,
    key: B::Key,
    found: Result<Option<B::Author>, B::Error>,
)
    ensures
        match v.on_replica_action(
            namespace,
            ReplicaAction::DeletePrefix { author: id, key },
        ).1 {
            Step::FindAuthor { author, namespace: n, write } => {
                let step = v.author_found(n, write, found);
                &&& author == id
                &&& n == namespace
                &&& match found {
                    Err(e) => refuses(step, ActorError::Store(e)),
                    Ok(None) => refuses(step, ActorError::AuthorNotFound),
                    Ok(Some(author)) => match step {
                        Step::Answer(StoreCall::DeletePrefix { replica, author: a, key: k }) => {
                            &&& a == author
                            &&& k == key
                            &&& is_replica(v, namespace, replica, ReadView::Live)
                        },
                        _ => !v.states.contains_key(namespace) && refuses(
                            step,
                            ActorError::NotOpen,
                        ),
                    },
                }
            },
            _ => false,
        },
{
}

/// A received entry is inserted just as it was received, into the live store of the replica that
/// was named, if that replica is open and accepts sync.
pub proof fn law_received_entries_reach_the_store_as_received<B: Backend>(
    v: ActorView<B>,
    namespace: NamespaceId,
    entry: B::Entry,
    len: u64,
    from: PeerId,
    content_status: B::ContentStatus,
)
    ensures
        ({
            let step = v.on_replica_action(
                namespace,
                ReplicaAction::InsertRemote { entry, len, from, content_status },
            ).1;
            match step {
                Step::InsertRemote {
                    replica,
                    entry: e,
                    len: l,
                    from: f,
                    content_status: c,
                } => {
                    &&& e == entry
                    &&& l == len
                    &&& f == from
                    &&& c == content_status
                    &&& is_replica(v, namespace, replica, ReadView::Live)
                    &&& v.states[namespace].sync
                },
                _ => if v.states.contains_key(namespace) {
                    !v.states[namespace].sync && refuses(step, ActorError::SyncDisabled)
                } else {
                    refuses(step, ActorError::NotOpen)
                },
            }
        }),
{
}

/// Subscribers are attached to and detached from the open replica that was named.
pub proof fn law_subscribers_reach_the_replica<B: Backend>(
    v: ActorView<B>,
    namespace: NamespaceId,
    sender: B::Subscriber,
)
    ensures
        ({
            let open = v.states.contains_key(namespace);
            let on = v.on_replica_action(namespace, ReplicaAction::Subscribe { sender }).1;
            let off = v.on_replica_action(namespace, ReplicaAction::Unsubscribe { sender }).1;
            &&& match on {
                Step::Subscribe { namespace: n, sender: s } => open && n == namespace && s
                    == sender,
                _ => !open && refuses(on, ActorError::NotOpen),
            }
            &&& match off {
                Step::Unsubscribe { namespace: n, sender: s } => open && n == namespace && s
                    == sender,
                _ => !open && refuses(off, ActorError::NotOpen),
            }
        }),
{
}

/// Opening a replica that is open takes one handle more on it, and can only turn sync on; what the
/// store knows of it stays. Opening one that is not open asks the store for it, and takes the first
/// handle on what the store gives; if the store fails, nothing is opened. Either way the subscriber
/// is the one that was requested.
pub proof fn law_opening_takes_a_handle<B: Backend>(
    v: ActorView<B>,
    namespace: NamespaceId,
    opts: OpenOpts<B::Subscriber>,
    loaded: Result<ReplicaInfo<B::Info>, B::Error>,
    other: NamespaceId,
)
    requires
        v.countable(Action::Replica(namespace, ReplicaAction::Open { opts })),
        other != namespace,
    ensures
        ({
            let (w, step) = v.on_replica_action(namespace, ReplicaAction::Open { opts });
            if v.states.contains_key(namespace) {
                &&& step matches Step::Reply(Ok(Done::Opened { subscribe })) && subscribe
                    == opts.subscribe
                &&& same_but_states(v, w)
                &&& w.states.dom() == v.states.dom()
                &&& w.states[namespace].handles == v.states[namespace].handles + 1
                &&& w.states[namespace].sync == (v.states[namespace].sync || opts.sync)
                &&& w.states[namespace].info == v.states[namespace].info
                &&& w.states[other] == v.states[other]
            } else {
                let (x, end) = w.replica_loaded(namespace, opts, loaded);
                &&& step matches Step::LoadReplica { namespace: n, opts: o } && n == namespace && o
                    == opts
                &&& w == v
                &&& same_but_states(v, x)
                &&& match loaded {
                    Err(e) => x == v && refuses(end, ActorError::Store(e)),
                    Ok(info) => {
                        &&& end matches Step::Reply(Ok(Done::Opened { subscribe })) && subscribe
                            == opts.subscribe
                        &&& x.states.dom() == v.states.dom().insert(namespace)
                        &&& x.states[namespace].handles == 1
                        &&& x.states[namespace].sync == opts.sync
                        &&& x.states[namespace].info == info
                        &&& x.states[other] == v.states[other]
                    },
                }
            }
        }),
{
    let (w, step) = v.on_replica_action(namespace, ReplicaAction::Open { opts });
    if v.states.contains_key(namespace) {
        assert(w.states.dom() =~= v.states.dom());
    }
}

/// A replica that was opened meanwhile is opened once more when the store's answer arrives, and the
/// answer is not needed; it is the same as opening an open replica.
pub proof fn law_late_answers_are_not_needed<B: Backend>(
    v: ActorView<B>,
    namespace: NamespaceId,
    opts: OpenOpts<B::Subscriber>,
    loaded: Result<ReplicaInfo<B::Info>, B::Error>,
)
    requires
        v.states.contains_key(namespace),
        v.countable(Action::Replica(namespace, ReplicaAction::Open { opts })),
    ensures
        v.replica_loaded(namespace, opts, loaded) == v.on_replica_action(
            namespace,
            ReplicaAction::Open { opts },
        ),
{
}

/// Closing a replica, or dropping it, gives up one handle on it; what is answered is whether it is
/// closed now. Its sessions end then, and only then; no other session ends.
pub proof fn law_closing_gives_up_a_handle<B: Backend>(
    v: ActorView<B>,
    namespace: NamespaceId,
    session: SyncSessionId,
)
    requires
        v.wf(),
    ensures
        ({
            let (w, close) = v.on_replica_action(namespace, ReplicaAction::Close);
            let (x, drop) = v.on_replica_action(namespace, ReplicaAction::DropReplica);
            &&& x == w
            &&& close matches Step::Close { namespace: n, closed } && n == namespace && closed
                == !w.states.contains_key(namespace)
            &&& drop matches Step::Drop { namespace: n, closed } && n == namespace && closed
                == !w.states.contains_key(namespace)
            &&& w.states.contains_key(namespace) <==> v.states.contains_key(namespace)
                && v.states[namespace].handles > 1
            &&& w.states.contains_key(namespace) ==> {
                &&& w.states[namespace].handles == v.states[namespace].handles - 1
                &&& w.states[namespace].sync == v.states[namespace].sync
                &&& w.states[namespace].info == v.states[namespace].info
            }
            &&& w.sessions.contains_key(session) <==> v.sessions.contains_key(session) && !(
            v.sessions[session].namespace == namespace && !w.states.contains_key(namespace))
            &&& w.sessions.contains_key(session) ==> w.sessions[session] == v.sessions[session]
        }),
{
}

/// What sync is set to is what the state shows and what decides about sessions and received
/// entries; nothing else of the replica changes. A state shows the subscribers that were counted.
pub proof fn law_sync_is_what_it_was_set_to<B: Backend>(
    v: ActorView<B>,
    namespace: NamespaceId,
    sync: bool,
    subscribers: usize,
)
    ensures
        ({
            let (w, set) = v.on_replica_action(namespace, ReplicaAction::SetSync { sync });
            let ask = w.on_replica_action(namespace, ReplicaAction::GetState).1;
            let state = w.subscribers_counted(namespace, subscribers);
            let start = w.on_replica_action(namespace, ReplicaAction::SyncSessionStart).1;
            &&& same_but_states(v, w)
            &&& if v.states.contains_key(namespace) {
                &&& set matches Step::Reply(Ok(Done::Nothing))
                &&& w.states.dom() == v.states.dom()
                &&& w.states[namespace].info == v.states[namespace].info
                &&& ask matches Step::CountSubscribers { namespace: n } && n == namespace
                &&& state matches Step::Reply(Ok(Done::State(shown))) && shown.sync == sync
                    && shown.handles == v.states[namespace].handles && shown.subscribers
                    == subscribers
                &&& if sync {
                    start matches Step::TakeSnapshot { namespace: n } && n == namespace
                } else {
                    refuses(start, ActorError::SyncDisabled)
                }
            } else {
                &&& w == v
                &&& refuses(set, ActorError::NotOpen)
                &&& refuses(ask, ActorError::NotOpen)
                &&& refuses(state, ActorError::NotOpen)
                &&& refuses(start, ActorError::NotOpen)
            }
        }),
{
    let (w, set) = v.on_replica_action(namespace, ReplicaAction::SetSync { sync });
    if v.states.contains_key(namespace) {
        assert(w.states.dom() =~= v.states.dom());
    }
}

/// Whether a request can change an actor.
pub open spec fn changes<B: Backend>(action: ReplicaAction<B>) -> bool {
    action is Open || action is Close || action is DropReplica || action is SetSync
}

/// Only opening, closing and setting sync change the actor; all other requests leave it as it is.
/// None changes what the actor is called, how it numbers sessions, when it swept, or what it
/// counted but for the gauge of sessions.
pub proof fn law_few_requests_change_the_actor<B: Backend>(
    v: ActorView<B>,
    namespace: NamespaceId,
    action: ReplicaAction<B>,
)
    ensures
        ({
            let w = v.on_replica_action(namespace, action).0;
            &&& !changes(action) ==> w == v
            &&& w.actor_id == v.actor_id
            &&& w.next_session_id == v.next_session_id
            &&& w.last_session_sweep == v.last_session_sweep
            &&& w.metrics == (Metrics {
                sync_sessions_open: w.metrics.sync_sessions_open,
                ..v.metrics
            })
        }),
{
}

/// A session that was registered is answered with its id, and the next gets the number behind it;
/// if freezing the snapshot failed, nothing is registered.
pub proof fn law_sessions_are_answered_with_their_id<B: Backend>(
    v: ActorView<B>,
    namespace: NamespaceId,
    taken: Result<(B::Tables, B::Alive), B::Error>,
    id: SyncSessionId,
)
    requires
        v.next_session_id < u64::MAX,
    ensures
        ({
            let (w, step) = v.snapshot_taken(namespace, taken, id);
            &&& w.states == v.states
            &&& w.actor_id == v.actor_id
            &&& w.last_session_sweep == v.last_session_sweep
            &&& match taken {
                Err(e) => w == v && refuses(step, ActorError::Store(e)),
                Ok((tables, alive)) => {
                    &&& step matches Step::Reply(Ok(Done::Session(answered))) && answered == id
                    &&& w.next_session_id == v.next_session_id + 1
                    &&& w.sessions.dom() == v.sessions.dom().insert(id)
                    &&& w.sessions[id].namespace == namespace
                    &&& w.sessions[id].tables == tables
                    &&& w.sessions[id].alive == alive
                },
            }
        }),
{
}

/// An entry that the store took is counted once, with its bytes, as local or as received; one that
/// it did not take is not counted, and its error is the answer. Counters wrap around.
pub proof fn law_inserts_are_counted_once<B: Backend>(
    v: ActorView<B>,
    len: u64,
    result: Result<(), B::Error>,
)
    ensures
        ({
            let (w, local) = v.inserted_local(len, result);
            let (x, remote) = v.inserted_remote(len, result);
            &&& same_but_metrics(v, w)
            &&& same_but_metrics(v, x)
            &&& match result {
                Err(e) => {
                    &&& w == v
                    &&& x == v
                    &&& refuses(local, ActorError::Store(e))
                    &&& refuses(remote, ActorError::Store(e))
                },
                Ok(()) => {
                    &&& local matches Step::Reply(Ok(Done::Nothing))
                    &&& remote matches Step::Reply(Ok(Done::Nothing))
                    &&& w.metrics.new_entries_local == (v.metrics.new_entries_local + 1)
                        % 0x1_0000_0000_0000_0000
                    &&& w.metrics.new_entries_local_size == (v.metrics.new_entries_local_size + len)
                        % 0x1_0000_0000_0000_0000
                    &&& w.metrics == (Metrics {
                        new_entries_local: w.metrics.new_entries_local,
                        new_entries_local_size: w.metrics.new_entries_local_size,
                        ..v.metrics
                    })
                    &&& x.metrics.new_entries_remote == (v.metrics.new_entries_remote + 1)
                        % 0x1_0000_0000_0000_0000
                    &&& x.metrics.new_entries_remote_size == (v.metrics.new_entries_remote_size
                        + len) % 0x1_0000_0000_0000_0000
                    &&& x.metrics == (Metrics {
                        new_entries_remote: x.metrics.new_entries_remote,
                        new_entries_remote_size: x.metrics.new_entries_remote_size,
                        ..v.metrics
                    })
                },
            }
        }),
{
}

/// A request that wakes the actor is counted once, and nothing else of the actor changes by that.
pub proof fn law_requests_are_counted_once<B: Backend>(v: ActorView<B>)
    ensures
        same_but_metrics(v, v.ticked()),
        v.ticked().metrics.actor_tick_main == (v.metrics.actor_tick_main + 1)
            % 0x1_0000_0000_0000_0000,
        v.ticked().metrics == (Metrics {
            actor_tick_main: v.ticked().metrics.actor_tick_main,
            ..v.metrics
        }),
{
}

/// Requests about authors and about the node as a whole are asked of the store just as they were
/// made, and change nothing of the actor; what is asked of a replica is asked of that replica.
pub proof fn law_node_requests_reach_the_store_as_made<B: Backend>(
    v: ActorView<B>,
    id: B::AuthorId,
    author: B::Author,
    namespace: NamespaceId,
    capability: B::Capability,
    action: ReplicaAction<B>,
)
    ensures
        ({
            let (w, step) = v.on_action(Action::ImportAuthor { id, author });
            w == v && (step matches Step::ImportAuthor { id: i, author: a } && i == id && a
                == author)
        }),
        ({
            let (w, step) = v.on_action(Action::ExportAuthor { author: id });
            w == v && (step matches Step::Answer(StoreCall::ExportAuthor { author: i }) && i == id)
        }),
        ({
            let (w, step) = v.on_action(Action::DeleteAuthor { author: id });
            w == v && (step matches Step::Answer(StoreCall::DeleteAuthor { author: i }) && i == id)
        }),
        ({
            let (w, step) = v.on_action(Action::ImportNamespace { id: namespace, capability });
            w == v && (step matches Step::ImportNamespace { id: n, capability: c } && n == namespace
                && c == capability)
        }),
        ({
            let (w, step) = v.on_action(Action::ListAuthors);
            w == v && (step matches Step::Stream(Ok(StreamCall::Authors)))
        }),
        ({
            let (w, step) = v.on_action(Action::ListReplicas);
            w == v && (step matches Step::Stream(Ok(StreamCall::Replicas)))
        }),
        ({
            let (w, step) = v.on_action(Action::ContentHashes);
            w == v && (step matches Step::Answer(StoreCall::ContentHashes))
        }),
        ({
            let (w, step) = v.on_action(Action::FlushStore);
            w == v && (step matches Step::Answer(StoreCall::Flush))
        }),
        v.on_action(Action::Replica(namespace, action)) == v.on_replica_action(namespace, action),
{
}

/// Releasing a session needs no answer, and changes nothing but the sessions and their gauge.
pub proof fn law_releases_are_silent<B: Backend>(v: ActorView<B>, session: SyncSessionId)
    ensures
        ({
            let (w, step) = v.on_action(Action::SyncSessionEnd { session });
            &&& step is Silent
            &&& w.sessions == v.sessions.remove(session)
            &&& w.states == v.states
            &&& w.actor_id == v.actor_id
            &&& w.next_session_id == v.next_session_id
            &&& w.last_session_sweep == v.last_session_sweep
            &&& w.metrics == (Metrics {
                sync_sessions_open: w.metrics.sync_sessions_open,
                ..v.metrics
            })
        }),
{
}

/// A capability that was added is merged into an open replica if and only if the store holds more
/// right by it than before; then, as otherwise, the replica that was added is the answer. A failure
/// of the store is the answer instead.
pub proof fn law_upgrades_reach_open_replicas<B: Backend>(
    v: ActorView<B>,
    id: NamespaceId,
    capability: B::Capability,
    outcome: Result<ImportNamespaceOutcome, B::Error>,
)
    ensures
        ({
            let step = v.namespace_imported(id, capability, outcome);
            match (outcome, step) {
                (Err(e), _) => refuses(step, ActorError::Store(e)),
                (Ok(o), Step::MergeCapability { id: n, capability: c }) => {
                    &&& o is Upgraded
                    &&& v.states.contains_key(id)
                    &&& n == id
                    &&& c == capability
                },
                (Ok(o), Step::Reply(Ok(Done::Namespace(n)))) => {
                    &&& n == id
                    &&& !(o is Upgraded && v.states.contains_key(id))
                },
                _ => false,
            }
        }),
{
}

/// Changing what the store knows of an open replica changes nothing else.
pub proof fn law_information_changes_alone<B: Backend>(
    v: ActorView<B>,
    namespace: NamespaceId,
    rest: B::Info,
    other: NamespaceId,
)
    requires
        v.states.contains_key(namespace),
        other != namespace,
    ensures
        ({
            let w = v.with_info(namespace, rest);
            &&& same_but_states(v, w)
            &&& w.states.dom() == v.states.dom()
            &&& w.states[namespace].info.rest == rest
            &&& w.states[namespace].info.capability == v.states[namespace].info.capability
            &&& w.states[namespace].sync == v.states[namespace].sync
            &&& w.states[namespace].handles == v.states[namespace].handles
            &&& w.states[other] == v.states[other]
        }),
{
    assert(v.with_info(namespace, rest).states.dom() =~= v.states.dom());
}

/// A sweep is made if and only if there are sessions and half a second has passed since the last
/// one; without one, nothing changes. It changes the sessions, when the last sweep was, and what is
/// counted of sessions; and it invents no session and changes none.
pub proof fn law_sweeps_are_half_a_second_apart<B: Backend, F: Fn(&B::Alive) -> usize>(
    before: ActorView<B>,
    now: u64,
    strong_count: F,
    after: ActorView<B>,
    session: SyncSessionId,
)
    requires
        before.wf(),
        reclaimed(before, now, strong_count, after),
    ensures
        before.sessions.len() > 0 && now - before.last_session_sweep >= 500_000_000
            ==> after.last_session_sweep == now,
        before.sessions.len() == 0 || now - before.last_session_sweep < 500_000_000 ==> after
            == before,
        after.wf(),
        after.states == before.states,
        after.actor_id == before.actor_id,
        after.next_session_id == before.next_session_id,
        after.metrics == (Metrics {
            sync_sessions_open: after.metrics.sync_sessions_open,
            sync_sessions_reclaimed: after.metrics.sync_sessions_reclaimed,
            ..before.metrics
        }),
        after.metrics.sync_sessions_reclaimed == (before.metrics.sync_sessions_reclaimed + (
        before.sessions.len() - after.sessions.len()) as u64) % 0x1_0000_0000_0000_0000,
        after.sessions.contains_key(session) ==> before.sessions.contains_key(session)
            && after.sessions[session] == before.sessions[session],
{
    if before.sessions.len() == 0 {
        assert(before.sessions.dom() =~= Set::empty());
        assert(before.sessions =~= Map::empty());
    }
    if before.sweep_due(now) {
        assert(before.sessions.restrict(after.sessions.dom()).dom().subset_of(
            before.sessions.dom(),
        ));
        vstd::set_lib::lemma_len_subset(
            before.sessions.restrict(after.sessions.dom()).dom(),
            before.sessions.dom(),
        );
    }
}

/// An author or a replica that the store took is answered with its id; otherwise the store's
/// failure is the answer.
pub proof fn law_imports_are_answered_with_the_id<B: Backend>(
    actor: Actor<B>,
    author: B::AuthorId,
    namespace: NamespaceId,
    result: Result<(), B::Error>,
    of_author: Step<B>,
    of_replica: Step<B>,
)
    requires
        call_ensures(Actor::<B>::author_imported, (&actor, author, result), of_author),
        call_ensures(Actor::<B>::capability_merged, (&actor, namespace, result), of_replica),
    ensures
        match result {
            Ok(()) => {
                &&& of_author matches Step::Reply(Ok(Done::Author(id))) && id == author
                &&& of_replica matches Step::Reply(Ok(Done::Namespace(id))) && id == namespace
            },
            Err(e) => {
                &&& refuses(of_author, ActorError::Store(e))
                &&& refuses(of_replica, ActorError::Store(e))
            },
        },
{
}

/// Closing everything leaves no replica open and no session running, and lists every replica that
/// was open, each once, and no other.
pub proof fn law_closing_everything_leaves_nothing<B: Backend>(
    actor: &mut Actor<B>,
    ids: Vec<NamespaceId>,
    namespace: NamespaceId,
    session: SyncSessionId,
)
    requires
        call_ensures(Actor::<B>::close_all, (actor,), ids),
    ensures
        !final(actor)@.states.contains_key(namespace),
        !final(actor)@.sessions.contains_key(session),
        final(actor)@.metrics.sync_sessions_open == 0,
        old(actor)@.states.contains_key(namespace) <==> ids@.contains(namespace),
        ids@.no_duplicates(),
        final(actor)@.next_session_id == old(actor)@.next_session_id,
        final(actor)@.actor_id == old(actor)@.actor_id,
{
}

/// What wakes the actor decides what it does: a request is taken up as it came, but for the one to
/// stop, which stops it as does the loss of every requester; a timeout persists what is pending.
/// Only a request is counted.
pub proof fn law_events_decide_what_is_done<B: Backend, F: Fn(&B::Alive) -> usize>(
    actor: &mut Actor<B>,
    event: Event<B>,
    now: u64,
    strong_count: F,
    tick: Tick<B>,
)
    requires
        call_ensures(Actor::<B>::on_event::<F>, (actor, event, now, strong_count), tick),
    ensures
        match event {
            Event::Timeout => tick is Flush,
            Event::TaskJoined => tick is Wait,
            Event::Disconnected => tick is Stop,
            Event::Received(action) => if action is Shutdown {
                tick is Stop
            } else {
                tick matches Tick::Handle(taken) && taken == action
            },
        },
        final(actor)@.states == old(actor)@.states,
        final(actor)@.metrics.actor_tick_main == (old(actor)@.metrics.actor_tick_main + if event
            is Received {
            1int
        } else {
            0
        }) % 0x1_0000_0000_0000_0000,
{
}

} // verus!
