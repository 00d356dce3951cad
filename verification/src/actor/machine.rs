//! The actor.

use vstd::prelude::*;

use crate::actor::error::{get_author, ActorError};
use crate::actor::metrics::{advance, nothing_counted, Metrics};
use crate::actor::replicas::{
    closed, opened, OpenOpts, OpenReplica, OpenReplicas, OpenState, Replica, ReplicaInfo,
};
use crate::actor::request::{
    Action, Backend, Done, ImportNamespaceOutcome, ReplicaAction, Step, StoreCall, StreamCall,
    Write,
};
use crate::actor::session::{session_snapshot, SessionSnapshot, SyncSessionId};
use crate::actor::view::{gauge, reclaimed, ActorView, MAX_COMMIT_DELAY};
use crate::id_map::IdMap;
use crate::keys::NamespaceId;

verus! {

/// What wakes the actor.
pub enum Event<B: Backend> {
    /// Nothing happened for a while.
    Timeout,
    /// A task that streamed a reply ended.
    TaskJoined,
    /// A request arrived.
    Received(Action<B>),
    /// Nobody is left to send requests.
    Disconnected,
}

/// What the actor does when woken.
pub enum Tick<B: Backend> {
    /// Wait on.
    Wait,
    /// Persist what is pending, then wait on.
    Flush,
    /// Take up this request with [`Actor::on_action`], then wait on.
    Handle(Action<B>),
    /// Persist what is pending, close every replica, end every task, and stop.
    Stop,
}

/// The actor: a node's open replicas and running sync sessions.
pub struct Actor<B: Backend> {
    actor_id: u64,
    states: OpenReplicas<B::Info>,
    sessions: IdMap<SyncSessionId, SessionSnapshot<B::Tables, B::Alive>>,
    next_session_id: u64,
    last_session_sweep: u64,
    metrics: Metrics,
}

impl<B: Backend> View for Actor<B> {
    type V = ActorView<B>;

    closed spec fn view(&self) -> ActorView<B> {
        ActorView {
            actor_id: self.actor_id,
            states: self.states@,
            sessions: self.sessions@,
            next_session_id: self.next_session_id,
            last_session_sweep: self.last_session_sweep,
            metrics: self.metrics,
        }
    }
}

impl<B: Backend> Actor<B> {
    /// No replica and no session is listed twice.
    pub closed spec fn listed_once(&self) -> bool {
        &&& self.states.listed_once()
        &&& self.sessions.wf()
    }

    /// What holds of an actor at all times.
    pub open spec fn wf(&self) -> bool {
        &&& self.listed_once()
        &&& self@.wf()
    }

    /// An actor with nothing open.
    pub fn new(actor_id: u64, now: u64) -> (a: Self)
        ensures
            a.wf(),
            a@ == (ActorView::<B> {
                actor_id,
                states: Map::empty(),
                sessions: Map::empty(),
                next_session_id: 0,
                last_session_sweep: now,
                metrics: nothing_counted(),
            }),
    {
        Actor {
            actor_id,
            states: OpenReplicas::new(),
            sessions: IdMap::new(),
            next_session_id: 0,
            last_session_sweep: now,
            metrics: Metrics::new(),
        }
    }

    /// Publishes how many snapshots are held, from the map rather than by counting the sites that
    /// change it, so the two cannot drift apart.
    fn record_open_sessions(&mut self)
        requires
            old(self).sessions.wf(),
        ensures
            *final(self) == (Actor {
                metrics: Metrics {
                    sync_sessions_open: gauge(old(self)@.sessions.len()),
                    ..old(self).metrics
                },
                ..*old(self)
            }),
            old(self)@.sessions.dom().finite(),
    {
        self.metrics.sync_sessions_open = self.sessions.len() as i64;
    }

    /// The replica that a session's exchange runs against, reading through the snapshot that the
    /// session registered.
    ///
    /// Resolving the session and naming its snapshot are one step on purpose: two call sites would
    /// be two places to leave the snapshot out and serve the peer live reads instead.
    pub fn session_replica(&self, namespace: &NamespaceId, session: SyncSessionId) -> (r: Result<
        Replica,
        ActorError<B::Error>,
    >)
        requires
            self.wf(),
        ensures
            r == self@.session_replica(*namespace, session),
    {
        match session_snapshot(&self.sessions, self.actor_id, session, namespace) {
            Err(e) => Err(e),
            Ok(_) => self.states.replica_if_syncing(namespace, Some(session)),
        }
    }

    /// Gives up one handle on a replica. Returns whether the replica is closed now, in which case
    /// its sessions are gone too.
    pub fn close(&mut self, namespace: NamespaceId) -> (res: bool)
        requires
            old(self).wf(),
        ensures
            final(self).wf(),
            final(self)@ == old(self)@.after_close(namespace),
            res == closed(old(self)@.states, namespace).1,
    {
        let res = self.states.close(namespace);
        if res {
            let keep = |_id: &SyncSessionId, s: &SessionSnapshot<B::Tables, B::Alive>| -> (b: bool)
                ensures
                    b == (s.namespace != namespace),
                { s.namespace != namespace };
            self.sessions.retain(keep);
            assert(self.sessions@ =~= old(self)@.sessions_elsewhere(namespace));
            self.record_open_sessions();
        }
        res
    }

    /// Closes every replica and ends every session. Lists the replicas to close in the store.
    pub fn close_all(&mut self) -> (ids: Vec<NamespaceId>)
        requires
            old(self).wf(),
        ensures
            final(self).wf(),
            final(self)@ == (ActorView {
                states: Map::empty(),
                ..old(self)@.with_sessions(Map::empty())
            }),
            ids@.no_duplicates(),
            forall|n: NamespaceId| #[trigger] ids@.contains(n) <==> old(self)@.states.contains_key(n),
    {
        let _ = self.sessions.drain();
        self.record_open_sessions();
        self.states.close_all()
    }

    /// Takes up a request on one replica.
    pub fn on_replica_action(&mut self, namespace: NamespaceId, action: ReplicaAction<B>) -> (r:
        Step<B>)
        requires
            old(self).wf(),
            old(self)@.countable(Action::Replica(namespace, action)),
        ensures
            final(self).wf(),
            (final(self)@, r) == old(self)@.on_replica_action(namespace, action),
    {
        match action {
            ReplicaAction::Open { opts } => {
                match self.states.get_mut::<B::Error>(&namespace) {
                    Err(_) => Step::LoadReplica { namespace, opts },
                    Ok(state) => {
                        state.handles = state.handles + 1;
                        state.sync = state.sync || opts.sync;
                        Step::Reply(Ok(Done::Opened { subscribe: opts.subscribe }))
                    },
                }
            },
            ReplicaAction::Close => {
                let closed = self.close(namespace);
                Step::Close { namespace, closed }
            },
            ReplicaAction::DropReplica => {
                let closed = self.close(namespace);
                Step::Drop { namespace, closed }
            },
            ReplicaAction::SetSync { sync } => {
                match self.states.get_mut(&namespace) {
                    Err(e) => Step::Reply(Err(e)),
                    Ok(state) => {
                        state.sync = sync;
                        Step::Reply(Ok(Done::Nothing))
                    },
                }
            },
            ReplicaAction::GetState => {
                match self.states.ensure_open(&namespace) {
                    Err(e) => Step::Reply(Err(e)),
                    Ok(()) => Step::CountSubscribers { namespace },
                }
            },
            ReplicaAction::Subscribe { sender } => {
                match self.states.ensure_open(&namespace) {
                    Err(e) => Step::Reply(Err(e)),
                    Ok(()) => Step::Subscribe { namespace, sender },
                }
            },
            ReplicaAction::Unsubscribe { sender } => {
                match self.states.ensure_open(&namespace) {
                    Err(e) => Step::Reply(Err(e)),
                    Ok(()) => Step::Unsubscribe { namespace, sender },
                }
            },
            ReplicaAction::InsertLocal { author, key, hash, len } => {
                Step::FindAuthor { author, namespace, write: Write::Insert { key, hash, len } }
            },
            ReplicaAction::DeletePrefix { author, key } => {
                Step::FindAuthor { author, namespace, write: Write::DeletePrefix { key } }
            },
            ReplicaAction::InsertRemote { entry, len, from, content_status } => {
                // Ingest reads live: an entry that the peer sends is judged against the store as
                // it is, never against a session's frozen view.
                match self.states.replica_if_syncing(&namespace, None) {
                    Err(e) => Step::Reply(Err(e)),
                    Ok(replica) => Step::InsertRemote { replica, entry, len, from, content_status },
                }
            },
            ReplicaAction::SyncSessionStart => {
                match self.states.ensure_syncing(&namespace) {
                    Err(e) => Step::Reply(Err(e)),
                    Ok(()) => Step::TakeSnapshot { namespace },
                }
            },
            ReplicaAction::SyncInitialMessage { session, filter } => {
                match self.session_replica(&namespace, session) {
                    Err(e) => Step::Reply(Err(e)),
                    Ok(replica) => Step::Answer(StoreCall::SyncInitialMessage { replica, filter }),
                }
            },
            ReplicaAction::SyncProcessMessage { message, from, state, session, filter } => {
                match self.session_replica(&namespace, session) {
                    Err(e) => Step::Reply(Err(e)),
                    Ok(replica) => Step::Answer(
                        StoreCall::SyncProcessMessage { replica, message, from, state, filter },
                    ),
                }
            },
            ReplicaAction::GetSyncPeers => {
                match self.states.ensure_open(&namespace) {
                    Err(e) => Step::Reply(Err(e)),
                    Ok(()) => Step::Answer(StoreCall::GetSyncPeers { namespace }),
                }
            },
            ReplicaAction::RegisterUsefulPeer { peer } => {
                Step::Answer(StoreCall::RegisterUsefulPeer { namespace, peer })
            },
            ReplicaAction::GetExact { author, key, include_empty } => {
                match self.states.ensure_open(&namespace) {
                    Err(e) => Step::Reply(Err(e)),
                    Ok(()) => Step::Answer(
                        StoreCall::GetExact { namespace, author, key, include_empty },
                    ),
                }
            },
            ReplicaAction::RetractEntry { author, key, up_to_timestamp } => {
                match self.states.ensure_open(&namespace) {
                    Err(e) => Step::Reply(Err(e)),
                    Ok(()) => Step::Answer(
                        StoreCall::RetractEntry { namespace, author, key, up_to_timestamp },
                    ),
                }
            },
            ReplicaAction::GetMany { query } => {
                match self.states.ensure_open(&namespace) {
                    Err(e) => Step::Stream(Err(e)),
                    Ok(()) => Step::Stream(Ok(StreamCall::Entries { namespace, query })),
                }
            },
            ReplicaAction::ExportSecretKey => {
                match self.states.ensure_open(&namespace) {
                    Err(e) => Step::Reply(Err(e)),
                    Ok(()) => Step::Answer(StoreCall::ExportSecretKey { namespace }),
                }
            },
            ReplicaAction::HasNewsForUs { heads } => {
                Step::Answer(StoreCall::HasNewsForUs { namespace, heads })
            },
            ReplicaAction::SetDownloadPolicy { policy } => {
                Step::Answer(StoreCall::SetDownloadPolicy { namespace, policy })
            },
            ReplicaAction::GetDownloadPolicy => {
                Step::Answer(StoreCall::GetDownloadPolicy { namespace })
            },
        }
    }

    /// Takes up a request. Stopping is not among them: [`Actor::on_event`] sees to that.
    pub fn on_action(&mut self, action: Action<B>) -> (r: Step<B>)
        requires
            old(self).wf(),
            old(self)@.countable(action),
            !(action is Shutdown),
        ensures
            final(self).wf(),
            (final(self)@, r) == old(self)@.on_action(action),
    {
        match action {
            Action::ImportAuthor { id, author } => Step::ImportAuthor { id, author },
            Action::ExportAuthor { author } => Step::Answer(StoreCall::ExportAuthor { author }),
            Action::DeleteAuthor { author } => Step::Answer(StoreCall::DeleteAuthor { author }),
            Action::ImportNamespace { id, capability } => Step::ImportNamespace { id, capability },
            Action::ListAuthors => Step::Stream(Ok(StreamCall::Authors)),
            Action::ListReplicas => Step::Stream(Ok(StreamCall::Replicas)),
            Action::ContentHashes => Step::Answer(StoreCall::ContentHashes),
            Action::FlushStore => Step::Answer(StoreCall::Flush),
            Action::Replica(namespace, action) => self.on_replica_action(namespace, action),
            Action::SyncSessionEnd { session } => {
                let _ = self.sessions.remove(&session);
                self.record_open_sessions();
                Step::Silent
            },
            Action::Shutdown => Step::Silent,
        }
    }

    /// Goes on with opening a replica, once the store was asked for it.
    pub fn replica_loaded(
        &mut self,
        namespace: NamespaceId,
        opts: OpenOpts<B::Subscriber>,
        loaded: Result<ReplicaInfo<B::Info>, B::Error>,
    ) -> (r: Step<B>)
        requires
            old(self).wf(),
            old(self)@.states.contains_key(namespace) ==> old(self)@.states[namespace].handles
                < usize::MAX,
        ensures
            final(self).wf(),
            (final(self)@, r) == old(self)@.replica_loaded(namespace, opts, loaded),
    {
        let load = move || -> (l: Result<ReplicaInfo<B::Info>, B::Error>)
            ensures
                l == loaded,
            { loaded };
        let ghost before = self@;
        let res = self.states.open_with(namespace, opts, load);
        assert((self.states@, res) == opened(before.states, namespace, opts, loaded));
        assert(forall|n: NamespaceId|
            before.states.contains_key(n) ==> #[trigger] self@.states.contains_key(n));
        match res {
            Ok(subscribe) => Step::Reply(Ok(Done::Opened { subscribe })),
            Err(e) => Step::Reply(Err(ActorError::Store(e))),
        }
    }

    /// Goes on with reading a replica's state, once its subscribers were counted.
    pub fn subscribers_counted(&self, namespace: NamespaceId, subscribers: usize) -> (r: Step<B>)
        requires
            self.wf(),
        ensures
            r == self@.subscribers_counted(namespace, subscribers),
    {
        match self.states.get(&namespace) {
            Err(e) => Step::Reply(Err(e)),
            Ok(state) => Step::Reply(
                Ok(
                    Done::State(
                        OpenState { sync: state.sync, subscribers, handles: state.handles },
                    ),
                ),
            ),
        }
    }

    /// Goes on with a write, once its author was looked up.
    pub fn author_found(
        &self,
        namespace: NamespaceId,
        write: Write<B>,
        found: Result<Option<B::Author>, B::Error>,
    ) -> (r: Step<B>)
        requires
            self.wf(),
        ensures
            r == self@.author_found(namespace, write, found),
    {
        let author = match get_author(found) {
            Err(e) => {
                return Step::Reply(Err(e));
            },
            Ok(author) => author,
        };
        match self.states.replica(namespace) {
            Err(e) => Step::Reply(Err(e)),
            Ok(replica) => match write {
                Write::Insert { key, hash, len } => {
                    Step::InsertLocal { replica, author, key, hash, len }
                },
                Write::DeletePrefix { key } => {
                    Step::Answer(StoreCall::DeletePrefix { replica, author, key })
                },
            },
        }
    }

    /// Goes on with a local insert of `len` bytes, once the store took it or not.
    pub fn inserted_local(&mut self, len: u64, result: Result<(), B::Error>) -> (r: Step<B>)
        requires
            old(self).wf(),
        ensures
            final(self).wf(),
            (final(self)@, r) == old(self)@.inserted_local(len, result),
    {
        match result {
            Err(e) => Step::Reply(Err(ActorError::Store(e))),
            Ok(()) => {
                self.metrics.new_entries_local = advance(self.metrics.new_entries_local, 1);
                self.metrics.new_entries_local_size = advance(
                    self.metrics.new_entries_local_size,
                    len,
                );
                Step::Reply(Ok(Done::Nothing))
            },
        }
    }

    /// Goes on with inserting a received entry of `len` bytes, once the store took it or not.
    pub fn inserted_remote(&mut self, len: u64, result: Result<(), B::Error>) -> (r: Step<B>)
        requires
            old(self).wf(),
        ensures
            final(self).wf(),
            (final(self)@, r) == old(self)@.inserted_remote(len, result),
    {
        match result {
            Err(e) => Step::Reply(Err(ActorError::Store(e))),
            Ok(()) => {
                self.metrics.new_entries_remote = advance(self.metrics.new_entries_remote, 1);
                self.metrics.new_entries_remote_size = advance(
                    self.metrics.new_entries_remote_size,
                    len,
                );
                Step::Reply(Ok(Done::Nothing))
            },
        }
    }

    /// Goes on with starting a session on an open replica, once a snapshot was frozen for it:
    /// registers the snapshot under a fresh id.
    pub fn snapshot_taken(
        &mut self,
        namespace: NamespaceId,
        taken: Result<(B::Tables, B::Alive), B::Error>,
    ) -> (r: Step<B>)
        requires
            old(self).wf(),
            old(self)@.states.contains_key(namespace),
            old(self)@.next_session_id < u64::MAX,
        ensures
            final(self).wf(),
            exists|id: SyncSessionId|
                id.issuer() == old(self)@.actor_id && id.number() == old(self)@.next_session_id
                    && (final(self)@, r) == #[trigger] old(self)@.snapshot_taken(
                    namespace,
                    taken,
                    id,
                ),
    {
        let ghost before = self@;
        let id = SyncSessionId::issue(self.actor_id, self.next_session_id);
        let ghost outcome = before.snapshot_taken(namespace, taken, id);
        match taken {
            Err(e) => {
                let r: Step<B> = Step::Reply(Err(ActorError::Store(e)));
                assert((self@, r) == outcome);
                r
            },
            Ok((tables, alive)) => {
                self.next_session_id = self.next_session_id + 1;
                let _ = self.sessions.insert(id, SessionSnapshot { namespace, tables, alive });
                self.record_open_sessions();
                let r: Step<B> = Step::Reply(Ok(Done::Session(id)));
                assert((self@, r) == outcome);
                r
            },
        }
    }

    /// Goes on with adding an author, once the store took it or not.
    pub fn author_imported(&self, id: B::AuthorId, result: Result<(), B::Error>) -> (r: Step<B>)
        ensures
            r == (match result {
                Ok(()) => Step::<B>::Reply(Ok(Done::Author(id))),
                Err(e) => Step::Reply(Err(ActorError::Store(e))),
            }),
    {
        match result {
            Ok(()) => Step::Reply(Ok(Done::Author(id))),
            Err(e) => Step::Reply(Err(ActorError::Store(e))),
        }
    }

    /// Goes on with adding a replica, once the store took it or not.
    pub fn namespace_imported(
        &self,
        id: NamespaceId,
        capability: B::Capability,
        outcome: Result<ImportNamespaceOutcome, B::Error>,
    ) -> (r: Step<B>)
        requires
            self.wf(),
        ensures
            r == self@.namespace_imported(id, capability, outcome),
    {
        match outcome {
            Err(e) => Step::Reply(Err(ActorError::Store(e))),
            Ok(outcome) => if outcome == ImportNamespaceOutcome::Upgraded && self.states.is_open(
                &id,
            ) {
                Step::MergeCapability { id, capability }
            } else {
                Step::Reply(Ok(Done::Namespace(id)))
            },
        }
    }

    /// Goes on with adding a replica, once its capability was merged or not.
    pub fn capability_merged(&self, id: NamespaceId, result: Result<(), B::Error>) -> (r: Step<B>)
        ensures
            r == (match result {
                Ok(()) => Step::<B>::Reply(Ok(Done::Namespace(id))),
                Err(e) => Step::Reply(Err(ActorError::Store(e))),
            }),
    {
        match result {
            Ok(()) => Step::Reply(Ok(Done::Namespace(id))),
            Err(e) => Step::Reply(Err(ActorError::Store(e))),
        }
    }

    /// Drops the snapshots of sessions that nothing refers to any more, no more often than the
    /// actor's own housekeeping goes.
    ///
    /// A handle releases its snapshot by a request; this covers the cases where none comes, be it
    /// lost or never sent.
    pub fn reclaim_abandoned_sessions<F: Fn(&B::Alive) -> usize>(
        &mut self,
        now: u64,
        strong_count: F,
    )
        requires
            old(self).wf(),
            forall|a: &B::Alive| #[trigger] strong_count.requires((a,)),
        ensures
            final(self).wf(),
            reclaimed(old(self)@, now, strong_count, final(self)@),
    {
        if self.sessions.is_empty() {
            return;
        }
        if now < self.last_session_sweep || now - self.last_session_sweep < MAX_COMMIT_DELAY {
            return;
        }
        self.last_session_sweep = now;
        let before = self.sessions.len();
        let count = &strong_count;
        let keep = |_id: &SyncSessionId, s: &SessionSnapshot<B::Tables, B::Alive>| -> (b: bool)
            ensures
                exists|n: usize| b == (n > 0) && #[trigger] count.ensures((&s.alive,), n),
            { count(&s.alive) > 0 };
        self.sessions.retain(keep);
        let after = self.sessions.len();
        assert(self.sessions@ =~= old(self)@.sessions.restrict(self.sessions@.dom()));
        proof {
            vstd::set_lib::lemma_len_subset(self.sessions@.dom(), old(self)@.sessions.dom());
        }
        let reclaimed = before - after;
        if reclaimed > 0 {
            self.metrics.sync_sessions_reclaimed = advance(
                self.metrics.sync_sessions_reclaimed,
                reclaimed as u64,
            );
        }
        self.record_open_sessions();
    }

    /// Wakes the actor.
    pub fn on_event<F: Fn(&B::Alive) -> usize>(
        &mut self,
        event: Event<B>,
        now: u64,
        strong_count: F,
    ) -> (r: Tick<B>)
        requires
            old(self).wf(),
            forall|a: &B::Alive| #[trigger] strong_count.requires((a,)),
        ensures
            final(self).wf(),
            match event {
                Event::Timeout => r == Tick::<B>::Flush && reclaimed(
                    old(self)@,
                    now,
                    strong_count,
                    final(self)@,
                ),
                Event::TaskJoined => r == Tick::<B>::Wait && final(self)@ == old(self)@,
                Event::Disconnected => r == Tick::<B>::Stop && final(self)@ == old(self)@,
                Event::Received(action) => reclaimed(
                    old(self)@.ticked(),
                    now,
                    strong_count,
                    final(self)@,
                ) && r == (if action is Shutdown {
                    Tick::<B>::Stop
                } else {
                    Tick::Handle(action)
                }),
            },
    {
        match event {
            Event::Timeout => {
                // Before the flush, not after: releasing the snapshots of sessions whose handle
                // is gone lets this very commit reclaim what they pinned.
                self.reclaim_abandoned_sessions(now, strong_count);
                Tick::Flush
            },
            Event::TaskJoined => Tick::Wait,
            Event::Disconnected => Tick::Stop,
            Event::Received(action) => {
                self.metrics.actor_tick_main = advance(self.metrics.actor_tick_main, 1);
                self.reclaim_abandoned_sessions(now, strong_count);
                match action {
                    Action::Shutdown => Tick::Stop,
                    action => Tick::Handle(action),
                }
            },
        }
    }

    /// What was counted.
    pub fn metrics(&self) -> (m: Metrics)
        ensures
            m == self@.metrics,
    {
        self.metrics
    }

    /// The number of the next session.
    pub fn next_session_id(&self) -> (n: u64)
        ensures
            n == self@.next_session_id,
    {
        self.next_session_id
    }

    /// The number of sessions whose snapshot is held.
    pub fn session_count(&self) -> (n: usize)
        requires
            self.wf(),
        ensures
            n == self@.sessions.len(),
    {
        self.sessions.len()
    }

    /// An open replica.
    pub fn replica(&self, namespace: &NamespaceId) -> (r: Result<
        &OpenReplica<B::Info>,
        ActorError<B::Error>,
    >)
        requires
            self.wf(),
        ensures
            match r {
                Ok(state) => self@.states.contains_key(*namespace) && *state
                    == self@.states[*namespace],
                Err(e) => !self@.states.contains_key(*namespace) && e == ActorError::<
                    B::Error,
                >::NotOpen,
            },
    {
        self.states.get(namespace)
    }

    /// What the store knows of an open replica, for changing in place.
    pub fn info_mut(&mut self, namespace: &NamespaceId) -> (r: Result<
        &mut B::Info,
        ActorError<B::Error>,
    >)
        requires
            old(self).wf(),
        ensures
            final(self).wf(),
            match r {
                Ok(info) => {
                    &&& old(self)@.states.contains_key(*namespace)
                    &&& *info == old(self)@.states[*namespace].info.rest
                    &&& final(self)@ == old(self)@.with_info(*namespace, *final(info))
                },
                Err(e) => {
                    &&& !old(self)@.states.contains_key(*namespace)
                    &&& e == ActorError::<B::Error>::NotOpen
                    &&& final(self)@ == old(self)@
                },
            },
    {
        match self.states.get_mut(namespace) {
            Err(e) => Err(e),
            Ok(state) => Ok(&mut state.info.rest),
        }
    }

    /// The frozen tables of a session, if it is registered.
    pub fn tables(&self, session: &SyncSessionId) -> (r: Option<&B::Tables>)
        requires
            self.wf(),
        ensures
            match r {
                Some(tables) => self@.sessions.contains_key(*session) && *tables
                    == self@.sessions[*session].tables,
                None => !self@.sessions.contains_key(*session),
            },
    {
        match self.sessions.get(session) {
            Some(s) => Some(&s.tables),
            None => None,
        }
    }
}

} // verus!
