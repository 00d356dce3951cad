//! Sync sessions and the snapshots they read from.

use vstd::prelude::*;

use crate::actor::error::ActorError;
use crate::id_map::IdMap;
use crate::keys::{Id, NamespaceId};

verus! {

/// Identifies one sync session's frozen read snapshot inside an actor.
///
/// The issuing actor is part of the identity: each actor counts its own sessions from zero, so
/// without it the first session of one actor would name the first session of another.
#[derive(Debug, Clone, Copy, PartialEq, Eq, Structural, Hash)]
pub struct SyncSessionId {
    /// The issuing actor.
    pub(crate) actor: u64,
    /// The position in that actor's counting.
    pub(crate) seq: u64,
}

impl SyncSessionId {
    /// The actor that issued the id.
    pub closed spec fn issuer(self) -> u64 {
        self.actor
    }

    /// The position of the id in its issuer's counting.
    pub closed spec fn number(self) -> u64 {
        self.seq
    }

    /// The id at a position of an actor's counting.
    pub(crate) fn issue(actor: u64, seq: u64) -> (id: Self)
        ensures
            id.issuer() == actor,
            id.number() == seq,
    {
        SyncSessionId { actor, seq }
    }
}

/// Two ids are the same if and only if the same actor issued them under the same number.
pub proof fn law_ids_are_issuer_and_number(a: SyncSessionId, b: SyncSessionId)
    ensures
        a == b <==> a.issuer() == b.issuer() && a.number() == b.number(),
{
}

impl Id for SyncSessionId {
    fn same(&self, other: &Self) -> (b: bool) {
        *self == *other
    }
}

/// A running sync session: the handle that its owner holds.
///
/// The snapshot lives no longer than the handle: the owner, when it drops the handle on whatever
/// path, releases the session under its id.
#[derive(Debug)]
pub struct SyncSession {
    /// The session's id.
    pub id: SyncSessionId,
    /// The replica it reads from.
    pub namespace: NamespaceId,
}

impl SyncSession {
    /// The id to name the session by.
    pub fn id(&self) -> (id: SyncSessionId)
        ensures
            id == self.id,
    {
        self.id
    }

    /// The replica this session is of.
    pub fn namespace(&self) -> (n: NamespaceId)
        ensures
            n == self.namespace,
    {
        self.namespace
    }
}

/// A session's frozen snapshot, held by the actor until released.
#[derive(Debug)]
pub struct SessionSnapshot<T, A> {
    /// The replica it was taken of.
    pub namespace: NamespaceId,
    /// The frozen tables.
    pub tables: T,
    /// Tells how many references to the session are left.
    pub alive: A,
}

/// What a session id resolves to.
pub open spec fn resolved<T, A, E>(
    sessions: Map<SyncSessionId, SessionSnapshot<T, A>>,
    actor_id: u64,
    session: SyncSessionId,
    namespace: NamespaceId,
) -> Result<T, ActorError<E>> {
    if session.issuer() != actor_id {
        Err(ActorError::ForeignSession)
    } else if !sessions.contains_key(session) {
        Err(ActorError::SessionNotRegistered)
    } else if sessions[session].namespace != namespace {
        Err(ActorError::SessionOfOtherNamespace)
    } else {
        Ok(sessions[session].tables)
    }
}

/// Resolves a session id to its frozen snapshot.
///
/// The id must name a registered session of this replica, issued by this actor: anything else is
/// an error, so a session whose snapshot is gone fails instead of serving a different view.
pub fn session_snapshot<'a, T, A, E>(
    sessions: &'a IdMap<SyncSessionId, SessionSnapshot<T, A>>,
    actor_id: u64,
    session: SyncSessionId,
    namespace: &NamespaceId,
) -> (r: Result<&'a T, ActorError<E>>)
    requires
        sessions.wf(),
    ensures
        match r {
            Ok(tables) => resolved::<T, A, E>(sessions@, actor_id, session, *namespace) == Ok::<
                T,
                ActorError<E>,
            >(*tables),
            Err(e) => resolved::<T, A, E>(sessions@, actor_id, session, *namespace) == Err::<
                T,
                ActorError<E>,
            >(e),
        },
{
    if session.actor != actor_id {
        return Err(ActorError::ForeignSession);
    }
    match sessions.get(&session) {
        None => Err(ActorError::SessionNotRegistered),
        Some(entry) => {
            if entry.namespace != *namespace {
                Err(ActorError::SessionOfOtherNamespace)
            } else {
                Ok(&entry.tables)
            }
        },
    }
}

/// A session resolves to the tables frozen for it if and only if the actor issued its id, holds a
/// session under it, and that session is of the replica asked about; of several reasons against it,
/// the first of these is the one given.
pub proof fn law_sessions_resolve_to_their_tables<T, A, E>(
    sessions: Map<SyncSessionId, SessionSnapshot<T, A>>,
    actor_id: u64,
    session: SyncSessionId,
    namespace: NamespaceId,
)
    ensures
        match resolved::<T, A, E>(sessions, actor_id, session, namespace) {
            Ok(tables) => {
                &&& session.issuer() == actor_id
                &&& sessions.contains_key(session)
                &&& sessions[session].namespace == namespace
                &&& tables == sessions[session].tables
            },
            Err(ActorError::ForeignSession) => session.issuer() != actor_id,
            Err(ActorError::SessionNotRegistered) => session.issuer() == actor_id
                && !sessions.contains_key(session),
            Err(ActorError::SessionOfOtherNamespace) => session.issuer() == actor_id
                && sessions.contains_key(session) && sessions[session].namespace != namespace,
            Err(_) => false,
        },
{
}

} // verus!
