//! The replicas that are held open.

use vstd::prelude::*;

use crate::actor::error::ActorError;
use crate::actor::session::SyncSessionId;
use crate::id_map::IdMap;
use crate::keys::NamespaceId;

verus! {

/// The state of an open replica.
#[derive(Debug, Clone, Copy, PartialEq, Eq, Structural)]
pub struct OpenState {
    /// Whether sync requests for the replica are accepted.
    pub sync: bool,
    /// How many event subscriptions are open.
    pub subscribers: usize,
    /// By how many handles the replica is held open.
    pub handles: usize,
}

impl Default for OpenState {
    fn default() -> (s: OpenState)
        ensures
            s == (OpenState { sync: false, subscribers: 0, handles: 0 }),
    {
        OpenState { sync: false, subscribers: 0, handles: 0 }
    }
}

/// Options when opening a replica; `C` is the channel that a subscriber listens on.
#[derive(Debug)]
pub struct OpenOpts<C> {
    /// Whether to accept sync requests from now on.
    pub sync: bool,
    /// A subscriber to the replica's events.
    pub subscribe: Option<C>,
}

impl<C> Default for OpenOpts<C> {
    fn default() -> (o: OpenOpts<C>)
        ensures
            o == (OpenOpts::<C> { sync: false, subscribe: None }),
    {
        OpenOpts { sync: false, subscribe: None }
    }
}

impl<C> OpenOpts<C> {
    /// Accept sync requests.
    pub fn sync(self) -> (o: OpenOpts<C>)
        ensures
            o == (OpenOpts { sync: true, ..self }),
    {
        OpenOpts { sync: true, subscribe: self.subscribe }
    }

    /// Subscribe to the replica's events.
    pub fn subscribe(self, subscribe: C) -> (o: OpenOpts<C>)
        ensures
            o == (OpenOpts { subscribe: Some(subscribe), ..self }),
    {
        OpenOpts { sync: self.sync, subscribe: Some(subscribe) }
    }
}

/// What the store knows of a replica, beside the namespace that its capability is for.
#[derive(Debug)]
pub struct ReplicaInfo<I> {
    /// The namespace of the replica's capability.
    pub capability: NamespaceId,
    /// Everything else.
    pub rest: I,
}

/// A replica that is held open.
#[derive(Debug)]
pub struct OpenReplica<I> {
    /// What the store knows of it.
    pub info: ReplicaInfo<I>,
    /// Whether sync requests are accepted.
    pub sync: bool,
    /// By how many handles it is held open.
    pub handles: usize,
}

/// What an exchange with a replica reads.
#[derive(Debug, Clone, Copy, PartialEq, Eq, Structural)]
pub enum ReadView {
    /// The store as it is.
    Live,
    /// The snapshot that a session froze.
    Session(SyncSessionId),
}

/// A replica, ready to be operated on in the store.
#[derive(Debug, Clone, Copy)]
pub struct Replica {
    /// The namespace of its capability.
    pub id: NamespaceId,
    /// What reads see.
    pub view: ReadView,
}

/// Every replica that is open is held by a handle.
pub open spec fn held<I>(states: Map<NamespaceId, OpenReplica<I>>) -> bool {
    forall|n: NamespaceId| #[trigger] states.contains_key(n) ==> states[n].handles >= 1
}

/// What became of a request to close a replica.
pub open spec fn closed<I>(states: Map<NamespaceId, OpenReplica<I>>, namespace: NamespaceId) -> (
    Map<NamespaceId, OpenReplica<I>>,
    bool,
) {
    if !states.contains_key(namespace) {
        (states, true)
    } else if states[namespace].handles == 1 {
        (states.remove(namespace), true)
    } else {
        let state = states[namespace];
        (
            states.insert(
                namespace,
                OpenReplica { handles: (state.handles - 1) as usize, ..state },
            ),
            false,
        )
    }
}

/// The open replicas once `namespace` is opened, when it was open already (`loaded` is then not
/// asked for) or the store gave `loaded`.
pub open spec fn opened<I, C, E>(
    states: Map<NamespaceId, OpenReplica<I>>,
    namespace: NamespaceId,
    opts: OpenOpts<C>,
    loaded: Result<ReplicaInfo<I>, E>,
) -> (Map<NamespaceId, OpenReplica<I>>, Result<Option<C>, E>) {
    if states.contains_key(namespace) {
        let state = states[namespace];
        (
            states.insert(
                namespace,
                OpenReplica {
                    handles: (state.handles + 1) as usize,
                    sync: state.sync || opts.sync,
                    ..state
                },
            ),
            Ok(opts.subscribe),
        )
    } else {
        match loaded {
            Err(e) => (states, Err(e)),
            Ok(info) => (
                states.insert(namespace, OpenReplica { info, sync: opts.sync, handles: 1 }),
                Ok(opts.subscribe),
            ),
        }
    }
}

/// The replica to operate on, if it is open.
pub open spec fn replica_of<I, E>(
    states: Map<NamespaceId, OpenReplica<I>>,
    namespace: NamespaceId,
) -> Result<Replica, ActorError<E>> {
    if states.contains_key(namespace) {
        Ok(Replica { id: states[namespace].info.capability, view: ReadView::Live })
    } else {
        Err(ActorError::NotOpen)
    }
}

/// Whether a replica accepts sync, or why not.
pub open spec fn syncing<I, E>(
    states: Map<NamespaceId, OpenReplica<I>>,
    namespace: NamespaceId,
) -> Result<(), ActorError<E>> {
    if !states.contains_key(namespace) {
        Err(ActorError::NotOpen)
    } else if !states[namespace].sync {
        Err(ActorError::SyncDisabled)
    } else {
        Ok(())
    }
}

/// The view that a session's snapshot gives; the live store without one.
pub open spec fn view_of(session: Option<SyncSessionId>) -> ReadView {
    match session {
        Some(s) => ReadView::Session(s),
        None => ReadView::Live,
    }
}

/// The replica to run a sync exchange against.
pub open spec fn syncing_replica<I, E>(
    states: Map<NamespaceId, OpenReplica<I>>,
    namespace: NamespaceId,
    session: Option<SyncSessionId>,
) -> Result<Replica, ActorError<E>> {
    match syncing::<I, E>(states, namespace) {
        Err(e) => Err(e),
        Ok(()) => Ok(Replica { id: states[namespace].info.capability, view: view_of(session) }),
    }
}

/// The replicas that are held open.
pub struct OpenReplicas<I> {
    map: IdMap<NamespaceId, OpenReplica<I>>,
}

impl<I> View for OpenReplicas<I> {
    type V = Map<NamespaceId, OpenReplica<I>>;

    closed spec fn view(&self) -> Map<NamespaceId, OpenReplica<I>> {
        self.map@
    }
}

impl<I> OpenReplicas<I> {
    /// Each open replica is listed once.
    pub closed spec fn listed_once(&self) -> bool {
        self.map.wf()
    }

    /// Each open replica is listed once, and is held by at least one handle.
    pub open spec fn wf(&self) -> bool {
        &&& self.listed_once()
        &&& held(self@)
    }

    /// Nothing open.
    pub fn new() -> (r: Self)
        ensures
            r.wf(),
            r@ == Map::<NamespaceId, OpenReplica<I>>::empty(),
    {
        OpenReplicas { map: IdMap::new() }
    }

    /// The replica to operate on, reading the live store.
    pub fn replica<E>(&self, namespace: NamespaceId) -> (r: Result<Replica, ActorError<E>>)
        requires
            self.wf(),
        ensures
            r == replica_of::<I, E>(self@, namespace),
    {
        match self.map.get(&namespace) {
            Some(state) => Ok(Replica { id: state.info.capability, view: ReadView::Live }),
            None => Err(ActorError::NotOpen),
        }
    }

    /// The replica to run a sync exchange against, reading through `session_snapshot`.
    ///
    /// The snapshot is a parameter rather than something assigned afterwards: a caller cannot then
    /// forget it and serve live reads. Ingest passes `None` and says so.
    pub fn replica_if_syncing<E>(
        &self,
        namespace: &NamespaceId,
        session_snapshot: Option<SyncSessionId>,
    ) -> (r: Result<Replica, ActorError<E>>)
        requires
            self.wf(),
        ensures
            r == syncing_replica::<I, E>(self@, *namespace, session_snapshot),
    {
        match self.map.get(namespace) {
            None => Err(ActorError::NotOpen),
            Some(state) => {
                if !state.sync {
                    return Err(ActorError::SyncDisabled);
                }
                let view = match session_snapshot {
                    Some(s) => ReadView::Session(s),
                    None => ReadView::Live,
                };
                Ok(Replica { id: state.info.capability, view })
            },
        }
    }

    /// Refuses a replica that is not open for sync.
    pub fn ensure_syncing<E>(&self, namespace: &NamespaceId) -> (r: Result<(), ActorError<E>>)
        requires
            self.wf(),
        ensures
            r == syncing::<I, E>(self@, *namespace),
    {
        match self.map.get(namespace) {
            None => Err(ActorError::NotOpen),
            Some(state) => if state.sync {
                Ok(())
            } else {
                Err(ActorError::SyncDisabled)
            },
        }
    }

    /// The open replica.
    pub fn get<E>(&self, namespace: &NamespaceId) -> (r: Result<&OpenReplica<I>, ActorError<E>>)
        requires
            self.wf(),
        ensures
            match r {
                Ok(state) => self@.contains_key(*namespace) && *state == self@[*namespace],
                Err(e) => !self@.contains_key(*namespace) && e == ActorError::<E>::NotOpen,
            },
    {
        match self.map.get(namespace) {
            Some(state) => Ok(state),
            None => Err(ActorError::NotOpen),
        }
    }

    /// The open replica, for changing in place. A caller keeps at least one handle on it.
    pub fn get_mut<E>(&mut self, namespace: &NamespaceId) -> (r: Result<
        &mut OpenReplica<I>,
        ActorError<E>,
    >)
        requires
            old(self).wf(),
        ensures
            match r {
                Ok(state) => old(self)@.contains_key(*namespace) && *state == old(self)@[*namespace]
                    && final(self)@ == old(self)@.insert(*namespace, *final(state))
                    && (final(state).handles >= 1 ==> final(self).wf()),
                Err(e) => e == ActorError::<E>::NotOpen && !old(self)@.contains_key(*namespace)
                    && final(self)@ == old(self)@ && final(self).wf(),
            },
    {
        match self.map.get_mut(namespace) {
            Some(state) => Ok(state),
            None => Err(ActorError::NotOpen),
        }
    }

    /// Whether the replica is open.
    pub fn is_open(&self, namespace: &NamespaceId) -> (b: bool)
        requires
            self.wf(),
        ensures
            b == self@.contains_key(*namespace),
    {
        self.map.contains_key(namespace)
    }

    /// Refuses a replica that is not open.
    pub fn ensure_open<E>(&self, namespace: &NamespaceId) -> (r: Result<(), ActorError<E>>)
        requires
            self.wf(),
        ensures
            r == (if self@.contains_key(*namespace) {
                Ok::<(), ActorError<E>>(())
            } else {
                Err(ActorError::NotOpen)
            }),
    {
        if self.is_open(namespace) {
            Ok(())
        } else {
            Err(ActorError::NotOpen)
        }
    }

    /// Opens a replica, or holds an open one open once more. `open_cb` loads what the store knows
    /// of it, and is called only for a replica that is not open. The subscriber in `opts` is given
    /// back, to be attached to the replica.
    pub fn open_with<C, E>(
        &mut self,
        namespace: NamespaceId,
        opts: OpenOpts<C>,
        open_cb: impl FnOnce() -> Result<ReplicaInfo<I>, E>,
    ) -> (r: Result<Option<C>, E>)
        requires
            old(self).wf(),
            old(self)@.contains_key(namespace) ==> old(self)@[namespace].handles < usize::MAX,
            !old(self)@.contains_key(namespace) ==> open_cb.requires(()),
        ensures
            final(self).wf(),
            old(self)@.contains_key(namespace) ==> forall|loaded: Result<ReplicaInfo<I>, E>|
                (final(self)@, r) == #[trigger] opened(old(self)@, namespace, opts, loaded),
            !old(self)@.contains_key(namespace) ==> exists|loaded: Result<ReplicaInfo<I>, E>|
                open_cb.ensures((), loaded) && (final(self)@, r) == #[trigger] opened(
                    old(self)@,
                    namespace,
                    opts,
                    loaded,
                ),
    {
        match self.map.get_mut(&namespace) {
            Some(state) => {
                state.handles = state.handles + 1;
                state.sync = state.sync || opts.sync;
            },
            None => {
                let loaded = open_cb();
                let ghost outcome = opened(old(self)@, namespace, opts, loaded);
                match loaded {
                    Err(e) => {
                        assert(outcome == (old(self)@, Err::<Option<C>, E>(e)));
                        return Err(e);
                    },
                    Ok(info) => {
                        let state = OpenReplica { info, sync: opts.sync, handles: 1 };
                        let _ = self.map.insert(namespace, state);
                        assert(outcome == (self@, Ok::<Option<C>, E>(opts.subscribe)));
                    },
                }
            },
        }
        Ok(opts.subscribe)
    }

    /// Gives up one handle on a replica. Returns whether the replica is closed now: its last
    /// handle is gone, or it was not open.
    pub fn close(&mut self, namespace: NamespaceId) -> (res: bool)
        requires
            old(self).wf(),
        ensures
            final(self).wf(),
            (final(self)@, res) == closed(old(self)@, namespace),
    {
        let last = match self.map.get_mut(&namespace) {
            None => {
                return true;
            },
            Some(state) => {
                state.handles = state.handles.wrapping_sub(1);
                state.handles == 0
            },
        };
        if last {
            let _ = self.map.remove(&namespace);
        }
        last
    }

    /// Closes every replica, whatever handles hold it, and lists them.
    pub fn close_all(&mut self) -> (ids: Vec<NamespaceId>)
        requires
            old(self).wf(),
        ensures
            final(self).wf(),
            final(self)@ == Map::<NamespaceId, OpenReplica<I>>::empty(),
            ids@.no_duplicates(),
            forall|n: NamespaceId| #[trigger] ids@.contains(n) <==> old(self)@.contains_key(n),
    {
        let drained = self.map.drain();
        let mut ids: Vec<NamespaceId> = Vec::new();
        let mut i: usize = 0;
        while i < drained.len()
            invariant
                i <= drained@.len(),
                ids@.len() == i,
                forall|j: int| 0 <= j < i ==> #[trigger] ids@[j] == drained@[j].0,
            decreases drained@.len() - i,
        {
            ids.push(drained[i].0);
            i = i + 1;
        }
        assert forall|n: NamespaceId| #[trigger] ids@.contains(n) <==> old(self)@.contains_key(n) by {
            if old(self)@.contains_key(n) {
                let j = choose|j: int| 0 <= j < drained@.len() && (#[trigger] drained@[j]).0 == n;
                assert(ids@[j] == n);
            }
        }
        assert forall|a: int, b: int| 0 <= a < b < ids@.len() implies ids@[a] != ids@[b] by {
            assert(drained@[a].0 != drained@[b].0);
        }
        ids
    }
}

} // verus!
