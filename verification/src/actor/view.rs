//! What an actor holds, and what becomes of it.

use vstd::prelude::*;

use crate::actor::error::ActorError;
use crate::actor::metrics::{advanced, Metrics};
use crate::actor::replicas::{
    closed, held, opened, replica_of, syncing, syncing_replica, OpenOpts, OpenReplica, OpenState,
    Replica, ReplicaInfo,
};
use crate::actor::request::{
    Action, Backend, Done, ImportNamespaceOutcome, ReplicaAction, Step, StoreCall, StreamCall,
    Write,
};
use crate::actor::session::{resolved, SessionSnapshot, SyncSessionId};
use crate::keys::NamespaceId;

verus! {

/// How long the actor lets pending writes wait, and the least time between two sweeps for
/// abandoned sessions, in nanoseconds.
pub const MAX_COMMIT_DELAY: u64 = 500_000_000;

/// What an actor holds.
#[verifier::ext_equal]
#[verifier::reject_recursive_types(B)]
pub struct ActorView<B: Backend> {
    /// Its id.
    pub actor_id: u64,
    /// The open replicas.
    pub states: Map<NamespaceId, OpenReplica<B::Info>>,
    /// The sessions whose snapshot is held.
    pub sessions: Map<SyncSessionId, SessionSnapshot<B::Tables, B::Alive>>,
    /// The number of the next session.
    pub next_session_id: u64,
    /// When abandoned sessions were last swept for.
    pub last_session_sweep: u64,
    /// What was counted.
    pub metrics: Metrics,
}

/// The gauge of open sessions for so many of them.
pub open spec fn gauge(sessions: nat) -> i64 {
    sessions as i64
}

impl<B: Backend> ActorView<B> {
    /// What holds of an actor at all times.
    ///
    /// Every replica counted as open is held by a handle. Every session was issued by this actor,
    /// under a number given out before, and is of an open replica. The gauge of open sessions is
    /// the number of sessions.
    pub open spec fn wf(self) -> bool {
        &&& held(self.states)
        &&& self.sessions.dom().finite()
        &&& forall|s: SyncSessionId| #[trigger]
            self.sessions.contains_key(s) ==> {
                &&& s.issuer() == self.actor_id
                &&& s.number() < self.next_session_id
                &&& self.states.contains_key(self.sessions[s].namespace)
            }
        &&& self.metrics.sync_sessions_open == gauge(self.sessions.len())
    }

    /// With these sessions held, and the gauge set to their number.
    pub open spec fn with_sessions(
        self,
        sessions: Map<SyncSessionId, SessionSnapshot<B::Tables, B::Alive>>,
    ) -> ActorView<B> {
        ActorView {
            sessions,
            metrics: Metrics { sync_sessions_open: gauge(sessions.len()), ..self.metrics },
            ..self
        }
    }

    /// The sessions that are not of `namespace`.
    pub open spec fn sessions_elsewhere(self, namespace: NamespaceId) -> Map<
        SyncSessionId,
        SessionSnapshot<B::Tables, B::Alive>,
    > {
        self.sessions.restrict(
            Set::new(
                |s: SyncSessionId|
                    self.sessions.contains_key(s) && self.sessions[s].namespace != namespace,
            ),
        )
    }

    /// After one handle on `namespace` is given up: once the replica is closed, its sessions are
    /// gone too.
    pub open spec fn after_close(self, namespace: NamespaceId) -> ActorView<B> {
        let (states, res) = closed(self.states, namespace);
        if res {
            ActorView { states, ..self.with_sessions(self.sessions_elsewhere(namespace)) }
        } else {
            ActorView { states, ..self }
        }
    }

    /// The replica that a session's exchange runs against.
    pub open spec fn session_replica(self, namespace: NamespaceId, session: SyncSessionId) -> Result<
        Replica,
        ActorError<B::Error>,
    > {
        match resolved::<B::Tables, B::Alive, B::Error>(
            self.sessions,
            self.actor_id,
            session,
            namespace,
        ) {
            Err(e) => Err(e),
            Ok(_) => syncing_replica::<B::Info, B::Error>(self.states, namespace, Some(session)),
        }
    }

    /// Refuses a replica that is not open.
    pub open spec fn opened_or(self, namespace: NamespaceId, step: Step<B>) -> Step<B> {
        if self.states.contains_key(namespace) {
            step
        } else {
            Step::Reply(Err(ActorError::NotOpen))
        }
    }

    /// What a request on one replica changes, and what to do next about it.
    pub open spec fn on_replica_action(
        self,
        namespace: NamespaceId,
        action: ReplicaAction<B>,
    ) -> (ActorView<B>, Step<B>) {
        match action {
            ReplicaAction::Open { opts } => if self.states.contains_key(namespace) {
                let state = self.states[namespace];
                let state = OpenReplica {
                    handles: (state.handles + 1) as usize,
                    sync: state.sync || opts.sync,
                    ..state
                };
                (
                    ActorView { states: self.states.insert(namespace, state), ..self },
                    Step::Reply(Ok(Done::Opened { subscribe: opts.subscribe })),
                )
            } else {
                (self, Step::LoadReplica { namespace, opts })
            },
            ReplicaAction::Close => (
                self.after_close(namespace),
                Step::Close { namespace, closed: closed(self.states, namespace).1 },
            ),
            ReplicaAction::DropReplica => (
                self.after_close(namespace),
                Step::Drop { namespace, closed: closed(self.states, namespace).1 },
            ),
            ReplicaAction::SetSync { sync } => if self.states.contains_key(namespace) {
                let state = OpenReplica { sync, ..self.states[namespace] };
                (
                    ActorView { states: self.states.insert(namespace, state), ..self },
                    Step::Reply(Ok(Done::Nothing)),
                )
            } else {
                (self, Step::Reply(Err(ActorError::NotOpen)))
            },
            ReplicaAction::GetState => (
                self,
                self.opened_or(namespace, Step::CountSubscribers { namespace }),
            ),
            ReplicaAction::Subscribe { sender } => (
                self,
                self.opened_or(namespace, Step::Subscribe { namespace, sender }),
            ),
            ReplicaAction::Unsubscribe { sender } => (
                self,
                self.opened_or(namespace, Step::Unsubscribe { namespace, sender }),
            ),
            ReplicaAction::InsertLocal { author, key, hash, len } => (
                self,
                Step::FindAuthor { author, namespace, write: Write::Insert { key, hash, len } },
            ),
            ReplicaAction::DeletePrefix { author, key } => (
                self,
                Step::FindAuthor { author, namespace, write: Write::DeletePrefix { key } },
            ),
            ReplicaAction::InsertRemote { entry, len, from, content_status } => (
                self,
                match syncing_replica::<B::Info, B::Error>(self.states, namespace, None) {
                    Err(e) => Step::Reply(Err(e)),
                    Ok(replica) => Step::InsertRemote { replica, entry, len, from, content_status },
                },
            ),
            ReplicaAction::SyncSessionStart => (
                self,
                match syncing::<B::Info, B::Error>(self.states, namespace) {
                    Err(e) => Step::Reply(Err(e)),
                    Ok(()) => Step::TakeSnapshot { namespace },
                },
            ),
            ReplicaAction::SyncInitialMessage { session, filter } => (
                self,
                match self.session_replica(namespace, session) {
                    Err(e) => Step::Reply(Err(e)),
                    Ok(replica) => Step::Answer(StoreCall::SyncInitialMessage { replica, filter }),
                },
            ),
            ReplicaAction::SyncProcessMessage { message, from, state, session, filter } => (
                self,
                match self.session_replica(namespace, session) {
                    Err(e) => Step::Reply(Err(e)),
                    Ok(replica) => Step::Answer(
                        StoreCall::SyncProcessMessage { replica, message, from, state, filter },
                    ),
                },
            ),
            ReplicaAction::GetSyncPeers => (
                self,
                self.opened_or(namespace, Step::Answer(StoreCall::GetSyncPeers { namespace })),
            ),
            ReplicaAction::RegisterUsefulPeer { peer } => (
                self,
                Step::Answer(StoreCall::RegisterUsefulPeer { namespace, peer }),
            ),
            ReplicaAction::GetExact { author, key, include_empty } => (
                self,
                self.opened_or(
                    namespace,
                    Step::Answer(StoreCall::GetExact { namespace, author, key, include_empty }),
                ),
            ),
            ReplicaAction::RetractEntry { author, key, up_to_timestamp } => (
                self,
                self.opened_or(
                    namespace,
                    Step::Answer(
                        StoreCall::RetractEntry { namespace, author, key, up_to_timestamp },
                    ),
                ),
            ),
            ReplicaAction::GetMany { query } => (
                self,
                Step::Stream(
                    if self.states.contains_key(namespace) {
                        Ok(StreamCall::Entries { namespace, query })
                    } else {
                        Err(ActorError::NotOpen)
                    },
                ),
            ),
            ReplicaAction::ExportSecretKey => (
                self,
                self.opened_or(namespace, Step::Answer(StoreCall::ExportSecretKey { namespace })),
            ),
            ReplicaAction::HasNewsForUs { heads } => (
                self,
                Step::Answer(StoreCall::HasNewsForUs { namespace, heads }),
            ),
            ReplicaAction::SetDownloadPolicy { policy } => (
                self,
                Step::Answer(StoreCall::SetDownloadPolicy { namespace, policy }),
            ),
            ReplicaAction::GetDownloadPolicy => (
                self,
                Step::Answer(StoreCall::GetDownloadPolicy { namespace }),
            ),
        }
    }

    /// What a request changes, and what to do next about it.
    pub open spec fn on_action(self, action: Action<B>) -> (ActorView<B>, Step<B>) {
        match action {
            Action::ImportAuthor { id, author } => (self, Step::ImportAuthor { id, author }),
            Action::ExportAuthor { author } => (
                self,
                Step::Answer(StoreCall::ExportAuthor { author }),
            ),
            Action::DeleteAuthor { author } => (
                self,
                Step::Answer(StoreCall::DeleteAuthor { author }),
            ),
            Action::ImportNamespace { id, capability } => (
                self,
                Step::ImportNamespace { id, capability },
            ),
            Action::ListAuthors => (self, Step::Stream(Ok(StreamCall::Authors))),
            Action::ListReplicas => (self, Step::Stream(Ok(StreamCall::Replicas))),
            Action::ContentHashes => (self, Step::Answer(StoreCall::ContentHashes)),
            Action::FlushStore => (self, Step::Answer(StoreCall::Flush)),
            Action::Replica(namespace, action) => self.on_replica_action(namespace, action),
            Action::SyncSessionEnd { session } => (
                self.with_sessions(self.sessions.remove(session)),
                Step::Silent,
            ),
            Action::Shutdown => (self, Step::Silent),
        }
    }

    /// Whether the handles on an already open replica can still be counted once this action is
    /// taken up.
    pub open spec fn countable(self, action: Action<B>) -> bool {
        action matches Action::Replica(n, ReplicaAction::Open { .. }) ==> (self.states.contains_key(
            n,
        ) ==> self.states[n].handles < usize::MAX)
    }

    /// Once the store was asked for the replica `namespace`, which is to be opened.
    pub open spec fn replica_loaded(
        self,
        namespace: NamespaceId,
        opts: OpenOpts<B::Subscriber>,
        loaded: Result<ReplicaInfo<B::Info>, B::Error>,
    ) -> (ActorView<B>, Step<B>) {
        let (states, res) = opened(self.states, namespace, opts, loaded);
        (
            ActorView { states, ..self },
            match res {
                Ok(subscribe) => Step::Reply(Ok(Done::Opened { subscribe })),
                Err(e) => Step::Reply(Err(ActorError::Store(e))),
            },
        )
    }

    /// Once the subscribers of `namespace` were counted.
    pub open spec fn subscribers_counted(self, namespace: NamespaceId, subscribers: usize) -> Step<
        B,
    > {
        let state = self.states[namespace];
        self.opened_or(
            namespace,
            Step::Reply(
                Ok(
                    Done::State(
                        OpenState { sync: state.sync, subscribers, handles: state.handles },
                    ),
                ),
            ),
        )
    }

    /// Once the author of a write was looked up.
    pub open spec fn author_found(
        self,
        namespace: NamespaceId,
        write: Write<B>,
        found: Result<Option<B::Author>, B::Error>,
    ) -> Step<B> {
        match found {
            Err(e) => Step::Reply(Err(ActorError::Store(e))),
            Ok(None) => Step::Reply(Err(ActorError::AuthorNotFound)),
            Ok(Some(author)) => match replica_of::<B::Info, B::Error>(self.states, namespace) {
                Err(e) => Step::Reply(Err(e)),
                Ok(replica) => match write {
                    Write::Insert { key, hash, len } => Step::InsertLocal {
                        replica,
                        author,
                        key,
                        hash,
                        len,
                    },
                    Write::DeletePrefix { key } => Step::Answer(
                        StoreCall::DeletePrefix { replica, author, key },
                    ),
                },
            },
        }
    }

    /// Once an entry of `len` bytes was inserted locally.
    pub open spec fn inserted_local(self, len: u64, result: Result<(), B::Error>) -> (
        ActorView<B>,
        Step<B>,
    ) {
        match result {
            Err(e) => (self, Step::Reply(Err(ActorError::Store(e)))),
            Ok(()) => (
                ActorView {
                    metrics: Metrics {
                        new_entries_local: advanced(self.metrics.new_entries_local, 1),
                        new_entries_local_size: advanced(self.metrics.new_entries_local_size, len),
                        ..self.metrics
                    },
                    ..self
                },
                Step::Reply(Ok(Done::Nothing)),
            ),
        }
    }

    /// Once a received entry of `len` bytes was inserted.
    pub open spec fn inserted_remote(self, len: u64, result: Result<(), B::Error>) -> (
        ActorView<B>,
        Step<B>,
    ) {
        match result {
            Err(e) => (self, Step::Reply(Err(ActorError::Store(e)))),
            Ok(()) => (
                ActorView {
                    metrics: Metrics {
                        new_entries_remote: advanced(self.metrics.new_entries_remote, 1),
                        new_entries_remote_size: advanced(
                            self.metrics.new_entries_remote_size,
                            len,
                        ),
                        ..self.metrics
                    },
                    ..self
                },
                Step::Reply(Ok(Done::Nothing)),
            ),
        }
    }

    /// Once a snapshot of `namespace` was frozen for session `id`.
    pub open spec fn snapshot_taken(
        self,
        namespace: NamespaceId,
        taken: Result<(B::Tables, B::Alive), B::Error>,
        id: SyncSessionId,
    ) -> (ActorView<B>, Step<B>) {
        match taken {
            Err(e) => (self, Step::Reply(Err(ActorError::Store(e)))),
            Ok((tables, alive)) => (
                ActorView {
                    next_session_id: (self.next_session_id + 1) as u64,
                    ..self.with_sessions(
                        self.sessions.insert(id, SessionSnapshot { namespace, tables, alive }),
                    )
                },
                Step::Reply(Ok(Done::Session(id))),
            ),
        }
    }

    /// Once the replica `id` was added to the store.
    pub open spec fn namespace_imported(
        self,
        id: NamespaceId,
        capability: B::Capability,
        outcome: Result<ImportNamespaceOutcome, B::Error>,
    ) -> Step<B> {
        match outcome {
            Err(e) => Step::Reply(Err(ActorError::Store(e))),
            Ok(outcome) => if outcome == ImportNamespaceOutcome::Upgraded
                && self.states.contains_key(id) {
                Step::MergeCapability { id, capability }
            } else {
                Step::Reply(Ok(Done::Namespace(id)))
            },
        }
    }

    /// Whether a sweep for abandoned sessions is due: there are sessions, and the last sweep is
    /// long enough ago.
    pub open spec fn sweep_due(self, now: u64) -> bool {
        &&& self.sessions != Map::<SyncSessionId, SessionSnapshot<B::Tables, B::Alive>>::empty()
        &&& now - self.last_session_sweep >= MAX_COMMIT_DELAY
    }

    /// After a sweep that left the sessions `kept`.
    pub open spec fn swept(self, now: u64, kept: Set<SyncSessionId>) -> ActorView<B> {
        let sessions = self.sessions.restrict(kept);
        let reclaimed = (self.sessions.len() - sessions.len()) as u64;
        let swept = self.with_sessions(sessions);
        ActorView {
            last_session_sweep: now,
            metrics: Metrics {
                sync_sessions_reclaimed: advanced(self.metrics.sync_sessions_reclaimed, reclaimed),
                ..swept.metrics
            },
            ..swept
        }
    }

    /// With `rest` in place of what the store knows of an open replica.
    pub open spec fn with_info(self, namespace: NamespaceId, rest: B::Info) -> ActorView<B> {
        let state = self.states[namespace];
        ActorView {
            states: self.states.insert(
                namespace,
                OpenReplica { info: ReplicaInfo { rest, ..state.info }, ..state },
            ),
            ..self
        }
    }

    /// With one more request counted.
    pub open spec fn ticked(self) -> ActorView<B> {
        ActorView {
            metrics: Metrics {
                actor_tick_main: advanced(self.metrics.actor_tick_main, 1),
                ..self.metrics
            },
            ..self
        }
    }
}

/// Whether `after` is what a sweep for abandoned sessions makes of `before`, where `strong_count`
/// tells how many references to a session are left: a sweep that is due drops the sessions that
/// nothing refers to, and no others.
pub open spec fn reclaimed<B: Backend, F: Fn(&B::Alive) -> usize>(
    before: ActorView<B>,
    now: u64,
    strong_count: F,
    after: ActorView<B>,
) -> bool {
    if before.sweep_due(now) {
        &&& after == before.swept(now, after.sessions.dom())
        &&& forall|s: SyncSessionId| #[trigger]
            after.sessions.contains_key(s) ==> before.sessions.contains_key(s) && exists|n: usize|
                n > 0 && strong_count.ensures((&before.sessions[s].alive,), n)
        &&& forall|s: SyncSessionId| #[trigger]
            before.sessions.contains_key(s) && !after.sessions.contains_key(s)
                ==> strong_count.ensures((&before.sessions[s].alive,), 0)
    } else {
        after == before
    }
}

} // verus!
