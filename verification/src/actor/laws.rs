//! What holds of an actor over any run of operations.

use vstd::prelude::*;

use crate::actor::error::ActorError;
use crate::actor::metrics::advanced;
use crate::actor::replicas::{
    closed, held, opened, OpenOpts, OpenReplica, ReadView, ReplicaInfo,
};
use crate::actor::request::{Action, Backend, ReplicaAction, Step, StoreCall, Write};
use crate::actor::session::{SessionSnapshot, SyncSessionId};
use crate::actor::view::{reclaimed, ActorView, MAX_COMMIT_DELAY};
use crate::keys::NamespaceId;

verus! {

broadcast use {vstd::map::group_map_axioms, vstd::set::group_set_axioms};

/// One operation of an actor.
#[verifier::reject_recursive_types(B)]
pub enum Move<B: Backend> {
    /// A request is taken up.
    Act(Action<B>),
    /// The store was asked for a replica that is to be opened.
    Load(NamespaceId, OpenOpts<B::Subscriber>, Result<ReplicaInfo<B::Info>, B::Error>),
    /// A snapshot was frozen for a session.
    Snapshot(NamespaceId, Result<(B::Tables, B::Alive), B::Error>, SyncSessionId),
    /// An entry was inserted locally.
    InsertLocal(u64, Result<(), B::Error>),
    /// A received entry was inserted.
    InsertRemote(u64, Result<(), B::Error>),
    /// What the store knows of an open replica changed.
    Info(NamespaceId, B::Info),
    /// A request was counted.
    Tick,
    /// A sweep left these sessions.
    Sweep(u64, Set<SyncSessionId>),
    /// Every replica was closed.
    CloseAll,
}

impl<B: Backend> ActorView<B> {
    /// Whether the operation can be asked of the actor.
    pub open spec fn allows(self, m: Move<B>) -> bool {
        match m {
            Move::Act(action) => !(action is Shutdown) && self.countable(action),
            Move::Load(n, _, _) => self.states.contains_key(n) ==> self.states[n].handles
                < usize::MAX,
            Move::Snapshot(n, _, id) => self.states.contains_key(n) && self.next_session_id
                < u64::MAX && id.issuer() == self.actor_id && id.number() == self.next_session_id,
            Move::Info(n, _) => self.states.contains_key(n),
            _ => true,
        }
    }

    /// The actor after the operation.
    pub open spec fn moved(self, m: Move<B>) -> ActorView<B> {
        match m {
            Move::Act(action) => self.on_action(action).0,
            Move::Load(n, opts, loaded) => self.replica_loaded(n, opts, loaded).0,
            Move::Snapshot(n, taken, id) => self.snapshot_taken(n, taken, id).0,
            Move::InsertLocal(len, result) => self.inserted_local(len, result).0,
            Move::InsertRemote(len, result) => self.inserted_remote(len, result).0,
            Move::Info(n, rest) => self.with_info(n, rest),
            Move::Tick => self.ticked(),
            Move::Sweep(now, kept) => self.swept(now, kept),
            Move::CloseAll => ActorView {
                states: Map::empty(),
                ..self.with_sessions(Map::empty())
            },
        }
    }

    /// The actor after a run of operations.
    pub open spec fn after(self, moves: Seq<Move<B>>) -> ActorView<B>
        decreases moves.len(),
    {
        if moves.len() == 0 {
            self
        } else {
            self.after(moves.drop_last()).moved(moves.last())
        }
    }

    /// Whether each operation of the run can be asked of the actor when its turn comes.
    pub open spec fn allows_all(self, moves: Seq<Move<B>>) -> bool
        decreases moves.len(),
    {
        moves.len() > 0 ==> self.allows_all(moves.drop_last()) && self.after(
            moves.drop_last(),
        ).allows(moves.last())
    }
}

/// Every operation keeps what holds of an actor at all times.
pub proof fn law_operations_keep_the_invariant<B: Backend>(v: ActorView<B>, m: Move<B>)
    requires
        v.wf(),
        v.allows(m),
    ensures
        v.moved(m).wf(),
        v.moved(m).actor_id == v.actor_id,
        v.moved(m).next_session_id >= v.next_session_id,
{
    let w = v.moved(m);
    match m {
        Move::Act(Action::Replica(n, action)) => {
            assert(held(closed(v.states, n).0));
            assert(v.sessions_elsewhere(n).dom().subset_of(v.sessions.dom()));
        },
        Move::Act(_) => {},
        Move::Load(n, opts, loaded) => {
            assert(held(opened(v.states, n, opts, loaded).0));
        },
        Move::Sweep(now, kept) => {
            assert(v.sessions.restrict(kept).dom().subset_of(v.sessions.dom()));
        },
        _ => {},
    }
}

/// Every run of operations keeps what holds of an actor at all times.
pub proof fn law_runs_keep_the_invariant<B: Backend>(v: ActorView<B>, moves: Seq<Move<B>>)
    requires
        v.wf(),
        v.allows_all(moves),
    ensures
        v.after(moves).wf(),
        v.after(moves).actor_id == v.actor_id,
        v.after(moves).next_session_id >= v.next_session_id,
    decreases moves.len(),
{
    if moves.len() > 0 {
        law_runs_keep_the_invariant(v, moves.drop_last());
        law_operations_keep_the_invariant(v.after(moves.drop_last()), moves.last());
    }
}

/// The gauge of open sessions shows how many snapshots are held, whatever operations came before.
pub proof fn law_gauge_counts_sessions<B: Backend>(v: ActorView<B>, moves: Seq<Move<B>>)
    requires
        v.wf(),
        v.allows_all(moves),
        v.after(moves).sessions.len() <= i64::MAX,
    ensures
        v.after(moves).metrics.sync_sessions_open == v.after(moves).sessions.len(),
{
    law_runs_keep_the_invariant(v, moves);
}

/// A running session is of an open replica, whatever operations came before.
pub proof fn law_sessions_are_of_open_replicas<B: Backend>(
    v: ActorView<B>,
    moves: Seq<Move<B>>,
    session: SyncSessionId,
)
    requires
        v.wf(),
        v.allows_all(moves),
        v.after(moves).sessions.contains_key(session),
    ensures
        v.after(moves).states.contains_key(v.after(moves).sessions[session].namespace),
{
    law_runs_keep_the_invariant(v, moves);
}

/// Two sessions never get the same id: not while both run, and not after the first has ended.
pub proof fn law_session_ids_are_never_reused<B: Backend>(
    v: ActorView<B>,
    first: Move<B>,
    between: Seq<Move<B>>,
    second: Move<B>,
)
    requires
        v.wf(),
        v.allows(first),
        v.moved(first).allows_all(between),
        v.moved(first).after(between).allows(second),
        first matches Move::Snapshot(_, taken, _) && taken is Ok,
        second matches Move::Snapshot(_, taken, _) && taken is Ok,
    ensures
        first->Snapshot_2 != second->Snapshot_2,
        !v.sessions.contains_key(first->Snapshot_2),
        !v.moved(first).after(between).sessions.contains_key(second->Snapshot_2),
{
    law_operations_keep_the_invariant(v, first);
    law_runs_keep_the_invariant(v.moved(first), between);
}

/// Whether an actor gave out the id, but no longer holds a session under it.
pub open spec fn stale<B: Backend>(v: ActorView<B>, session: SyncSessionId) -> bool {
    &&& session.issuer() == v.actor_id
    &&& session.number() < v.next_session_id
    &&& !v.sessions.contains_key(session)
}

/// The id of a session that has ended names nothing ever after: no later operation brings the
/// session back or puts another in its place.
pub proof fn law_ended_sessions_stay_ended<B: Backend>(
    v: ActorView<B>,
    moves: Seq<Move<B>>,
    session: SyncSessionId,
)
    requires
        v.wf(),
        v.allows_all(moves),
        stale(v, session),
    ensures
        stale(v.after(moves), session),
    decreases moves.len(),
{
    if moves.len() > 0 {
        let w = v.after(moves.drop_last());
        law_ended_sessions_stay_ended(v, moves.drop_last(), session);
        law_runs_keep_the_invariant(v, moves.drop_last());
        law_operations_keep_the_invariant(w, moves.last());
    }
}

/// What a session reads never changes while it runs: whatever operations come in between, its
/// snapshot is the one that was frozen for it.
pub proof fn law_snapshots_never_change<B: Backend>(
    v: ActorView<B>,
    moves: Seq<Move<B>>,
    session: SyncSessionId,
)
    requires
        v.wf(),
        v.allows_all(moves),
        v.sessions.contains_key(session),
        v.after(moves).sessions.contains_key(session),
    ensures
        v.after(moves).sessions[session] == v.sessions[session],
    decreases moves.len(),
{
    if moves.len() > 0 {
        let before = moves.drop_last();
        law_runs_keep_the_invariant(v, before);
        if v.after(before).sessions.contains_key(session) {
            law_snapshots_never_change(v, before, session);
        }
    }
}

/// A request to make a session's first message, or to process one that it received.
pub open spec fn is_exchange<B: Backend>(action: ReplicaAction<B>, session: SyncSessionId) -> bool {
    match action {
        ReplicaAction::SyncInitialMessage { session: s, .. } => s == session,
        ReplicaAction::SyncProcessMessage { session: s, .. } => s == session,
        _ => false,
    }
}

/// An exchange under the id of a session that has ended is refused, however the replica was opened
/// since; it never falls back to another view.
pub proof fn law_ended_sessions_are_refused<B: Backend>(
    v: ActorView<B>,
    moves: Seq<Move<B>>,
    session: SyncSessionId,
    namespace: NamespaceId,
    action: ReplicaAction<B>,
)
    requires
        v.wf(),
        v.allows_all(moves),
        stale(v, session),
        is_exchange(action, session),
    ensures
        v.after(moves).on_replica_action(namespace, action) == (
            v.after(moves),
            Step::<B>::Reply(Err(ActorError::SessionNotRegistered)),
        ),
{
    law_ended_sessions_stay_ended(v, moves, session);
}

/// An exchange under an id that another actor gave out is refused, whatever sessions of its own
/// the actor holds.
pub proof fn law_foreign_sessions_are_refused<B: Backend>(
    v: ActorView<B>,
    session: SyncSessionId,
    namespace: NamespaceId,
    action: ReplicaAction<B>,
)
    requires
        session.issuer() != v.actor_id,
        is_exchange(action, session),
    ensures
        v.on_replica_action(namespace, action) == (
            v,
            Step::<B>::Reply(Err(ActorError::ForeignSession)),
        ),
{
}

/// A session id is bound to its replica: an exchange with another one is refused.
pub proof fn law_sessions_are_bound_to_their_replica<B: Backend>(
    v: ActorView<B>,
    session: SyncSessionId,
    namespace: NamespaceId,
    action: ReplicaAction<B>,
)
    requires
        v.wf(),
        v.sessions.contains_key(session),
        v.sessions[session].namespace != namespace,
        is_exchange(action, session),
    ensures
        v.on_replica_action(namespace, action) == (
            v,
            Step::<B>::Reply(Err(ActorError::SessionOfOtherNamespace)),
        ),
{
}

/// What an exchange reads, if the step is one.
pub open spec fn exchange_view<B: Backend>(step: Step<B>) -> Option<ReadView> {
    match step {
        Step::Answer(StoreCall::SyncInitialMessage { replica, .. }) => Some(replica.view),
        Step::Answer(StoreCall::SyncProcessMessage { replica, .. }) => Some(replica.view),
        _ => None,
    }
}

/// An exchange reads the snapshot of its own session, never the live store or another session's
/// snapshot; and it runs if and only if the session is registered for this replica, and the
/// replica accepts sync.
pub proof fn law_exchanges_read_their_own_snapshot<B: Backend>(
    v: ActorView<B>,
    session: SyncSessionId,
    namespace: NamespaceId,
    action: ReplicaAction<B>,
)
    requires
        v.wf(),
        is_exchange(action, session),
    ensures
        exchange_view(v.on_replica_action(namespace, action).1) == (if v.sessions.contains_key(
            session,
        ) && v.sessions[session].namespace == namespace && v.states[namespace].sync {
            Some(ReadView::Session(session))
        } else {
            None
        }),
{
}

/// A received entry is judged against the live store, whatever sessions are running.
pub proof fn law_ingest_reads_live<B: Backend>(
    v: ActorView<B>,
    namespace: NamespaceId,
    action: ReplicaAction<B>,
)
    requires
        action is InsertRemote,
    ensures
        v.on_replica_action(namespace, action).1 matches Step::InsertRemote { replica, .. } ==> {
            &&& replica.view == ReadView::Live
            &&& v.states.contains_key(namespace)
            &&& v.states[namespace].sync
        },
        (v.on_replica_action(namespace, action).1 is InsertRemote) == (v.states.contains_key(
            namespace,
        ) && v.states[namespace].sync),
{
}

/// A session starts only on a replica that is open and accepts sync.
pub proof fn law_sessions_need_an_open_syncing_replica<B: Backend>(
    v: ActorView<B>,
    namespace: NamespaceId,
)
    ensures
        v.on_replica_action(namespace, ReplicaAction::SyncSessionStart) == (
            v,
            if !v.states.contains_key(namespace) {
                Step::<B>::Reply(Err(ActorError::NotOpen))
            } else if !v.states[namespace].sync {
                Step::Reply(Err(ActorError::SyncDisabled))
            } else {
                Step::TakeSnapshot { namespace }
            },
        ),
{
}

/// A session that was just registered resolves to the snapshot frozen for it, and every other
/// session to what it resolved to before.
pub proof fn law_registered_sessions_resolve<B: Backend>(
    v: ActorView<B>,
    namespace: NamespaceId,
    tables: B::Tables,
    alive: B::Alive,
    id: SyncSessionId,
    other: SyncSessionId,
)
    requires
        v.wf(),
        v.allows(Move::Snapshot(namespace, Ok((tables, alive)), id)),
        other != id,
    ensures
        ({
            let w = v.moved(Move::Snapshot(namespace, Ok((tables, alive)), id));
            &&& w.sessions.contains_key(id)
            &&& w.sessions[id] == (SessionSnapshot { namespace, tables, alive })
            &&& w.sessions.contains_key(other) == v.sessions.contains_key(other)
            &&& v.sessions.contains_key(other) ==> w.sessions[other] == v.sessions[other]
            &&& w.sessions.len() == v.sessions.len() + 1
        }),
{
}

/// Closing a replica for good ends all its sessions, and no other session.
pub proof fn law_closing_ends_the_sessions<B: Backend>(
    v: ActorView<B>,
    namespace: NamespaceId,
    session: SyncSessionId,
)
    requires
        v.wf(),
        v.sessions.contains_key(session),
    ensures
        ({
            let w = v.after_close(namespace);
            let last = closed(v.states, namespace).1;
            if last && v.sessions[session].namespace == namespace {
                stale(w, session)
            } else {
                w.sessions.contains_key(session) && w.sessions[session] == v.sessions[session]
            }
        }),
{
}

/// Releasing a session ends it and no other.
pub proof fn law_release_ends_the_session<B: Backend>(
    v: ActorView<B>,
    session: SyncSessionId,
    other: SyncSessionId,
)
    requires
        v.wf(),
        v.sessions.contains_key(session),
        other != session,
    ensures
        ({
            let w = v.moved(Move::Act(Action::SyncSessionEnd { session }));
            &&& stale(w, session)
            &&& w.sessions.contains_key(other) == v.sessions.contains_key(other)
            &&& v.sessions.contains_key(other) ==> w.sessions[other] == v.sessions[other]
        }),
{
}

/// Releasing a session that is gone already changes nothing.
pub proof fn law_late_release_changes_nothing<B: Backend>(v: ActorView<B>, session: SyncSessionId)
    requires
        v.wf(),
        !v.sessions.contains_key(session),
    ensures
        v.on_action(Action::SyncSessionEnd { session }) == (v, Step::<B>::Silent),
{
    assert(v.sessions.remove(session) =~= v.sessions);
}

/// A session that something refers to is never swept away; one that nothing refers to is gone
/// after the next sweep that is due, and is counted.
pub proof fn law_sweeps_drop_the_abandoned<B: Backend, F: Fn(&B::Alive) -> usize>(
    before: ActorView<B>,
    now: u64,
    strong_count: F,
    after: ActorView<B>,
    session: SyncSessionId,
)
    requires
        before.wf(),
        reclaimed(before, now, strong_count, after),
        before.sessions.contains_key(session),
    ensures
        (forall|n: usize|
            strong_count.ensures((&before.sessions[session].alive,), n) ==> n > 0)
            ==> after.sessions.contains_key(session) && after.sessions[session]
            == before.sessions[session],
        (forall|n: usize|
            strong_count.ensures((&before.sessions[session].alive,), n) ==> n == 0)
            && now - before.last_session_sweep >= MAX_COMMIT_DELAY ==> stale(after, session),
        after.metrics.sync_sessions_reclaimed == advanced(
            before.metrics.sync_sessions_reclaimed,
            (before.sessions.len() - after.sessions.len()) as u64,
        ),
{
    if before.sweep_due(now) {
        if after.sessions.contains_key(session) {
            assert(after.sessions[session] == before.sessions[session]);
        }
    } else {
        assert(before.sessions.len() - after.sessions.len() == 0);
    }
}

/// The open replicas once `namespace` was closed so many times.
pub open spec fn closed_times<I>(
    states: Map<NamespaceId, OpenReplica<I>>,
    namespace: NamespaceId,
    times: nat,
) -> Map<NamespaceId, OpenReplica<I>>
    decreases times,
{
    if times == 0 {
        states
    } else {
        closed(closed_times(states, namespace, (times - 1) as nat), namespace).0
    }
}

/// A replica held by so many handles stays open, with one handle less each time, until it was
/// closed as often as it was opened; then it is closed.
pub proof fn law_each_handle_is_closed_once<I>(
    states: Map<NamespaceId, OpenReplica<I>>,
    namespace: NamespaceId,
    times: nat,
)
    requires
        states.contains_key(namespace),
        states[namespace].handles >= 1,
        times <= states[namespace].handles,
    ensures
        ({
            let after = closed_times(states, namespace, times);
            if times < states[namespace].handles {
                after.contains_key(namespace) && after[namespace] == (OpenReplica {
                    handles: (states[namespace].handles - times) as usize,
                    ..states[namespace]
                })
            } else {
                !after.contains_key(namespace)
            }
        }),
        times > 0 ==> closed(closed_times(states, namespace, (times - 1) as nat), namespace).1 == (
        times == states[namespace].handles),
    decreases times,
{
    if times > 0 {
        law_each_handle_is_closed_once(states, namespace, (times - 1) as nat);
    }
}

/// Opening an open replica adds one handle, keeps what the store knows of it, and never stops it
/// from accepting sync; opening one that is not open gives it its first handle.
pub proof fn law_opening_adds_a_handle<I, C, E>(
    states: Map<NamespaceId, OpenReplica<I>>,
    namespace: NamespaceId,
    opts: OpenOpts<C>,
    loaded: Result<ReplicaInfo<I>, E>,
)
    requires
        states.contains_key(namespace) ==> states[namespace].handles < usize::MAX,
    ensures
        ({
            let (after, res) = opened(states, namespace, opts, loaded);
            if states.contains_key(namespace) {
                &&& res is Ok
                &&& after.contains_key(namespace)
                &&& after[namespace].handles == states[namespace].handles + 1
                &&& after[namespace].info == states[namespace].info
                &&& after[namespace].sync == (states[namespace].sync || opts.sync)
            } else if loaded is Ok {
                &&& res is Ok
                &&& after.contains_key(namespace)
                &&& after[namespace] == (OpenReplica {
                    info: loaded->Ok_0,
                    sync: opts.sync,
                    handles: 1,
                })
            } else {
                &&& res == Err::<Option<C>, E>(loaded->Err_0)
                &&& after == states
            }
        }),
{
}

/// A request on one replica leaves the other replicas and their sessions as they are.
pub proof fn law_requests_touch_one_replica<B: Backend>(
    v: ActorView<B>,
    namespace: NamespaceId,
    action: ReplicaAction<B>,
    other: NamespaceId,
    session: SyncSessionId,
)
    requires
        v.wf(),
        other != namespace,
    ensures
        ({
            let w = v.on_replica_action(namespace, action).0;
            &&& w.states.contains_key(other) == v.states.contains_key(other)
            &&& v.states.contains_key(other) ==> w.states[other] == v.states[other]
            &&& v.sessions.contains_key(session) && v.sessions[session].namespace == other
                ==> w.sessions.contains_key(session) && w.sessions[session] == v.sessions[session]
            &&& w.sessions.contains_key(session) ==> v.sessions.contains_key(session)
        }),
{
}

/// A write of an author that the store does not hold is refused as such, whether or not the
/// replica is open.
pub proof fn law_unknown_authors_are_refused_first<B: Backend>(
    v: ActorView<B>,
    namespace: NamespaceId,
    write: Write<B>,
)
    ensures
        v.author_found(namespace, write, Ok(None)) == Step::<B>::Reply(
            Err(ActorError::AuthorNotFound),
        ),
{
}

} // verus!
