//! Why the actor refuses a request.

use vstd::prelude::*;

verus! {

/// Why the actor refuses a request.
#[derive(Debug)]
pub enum ActorError<E> {
    /// The replica is not open.
    NotOpen,
    /// The replica is open, but not for sync.
    SyncDisabled,
    /// The session id was issued by another actor.
    ForeignSession,
    /// No session is registered under the id.
    SessionNotRegistered,
    /// The session reads from another replica.
    SessionOfOtherNamespace,
    /// The store holds no such author.
    AuthorNotFound,
    /// The store failed.
    Store(E),
}

/// The text of an error that the actor itself raises; `None` for one that the store raised.
pub open spec fn error_text<E>(e: ActorError<E>) -> Option<&'static str> {
    match e {
        ActorError::NotOpen => Some("replica not open"),
        ActorError::SyncDisabled => Some("sync is not enabled for replica"),
        ActorError::ForeignSession => Some("sync session was issued by another actor"),
        ActorError::SessionNotRegistered => Some("sync session not registered"),
        ActorError::SessionOfOtherNamespace => Some("sync session belongs to another namespace"),
        ActorError::AuthorNotFound => Some("author not found"),
        ActorError::Store(_) => None,
    }
}

impl<E> ActorError<E> {
    /// The text of an error that the actor itself raises; `None` for one that the store raised.
    pub fn text(&self) -> (r: Option<&'static str>)
        ensures
            r == error_text(*self),
    {
        match self {
            ActorError::NotOpen => Some("replica not open"),
            ActorError::SyncDisabled => Some("sync is not enabled for replica"),
            ActorError::ForeignSession => Some("sync session was issued by another actor"),
            ActorError::SessionNotRegistered => Some("sync session not registered"),
            ActorError::SessionOfOtherNamespace => Some(
                "sync session belongs to another namespace",
            ),
            ActorError::AuthorNotFound => Some("author not found"),
            ActorError::Store(_) => None,
        }
    }
}

/// The author that a lookup in the store found.
pub fn get_author<A, E>(found: Result<Option<A>, E>) -> (r: Result<A, ActorError<E>>)
    ensures
        r == (match found {
            Ok(Some(author)) => Ok(author),
            Ok(None) => Err(ActorError::AuthorNotFound),
            Err(e) => Err(ActorError::Store(e)),
        }),
{
    match found {
        Ok(Some(author)) => Ok(author),
        Ok(None) => Err(ActorError::AuthorNotFound),
        Err(e) => Err(ActorError::Store(e)),
    }
}

/// A reply that nobody was left to receive.
#[derive(Debug, PartialEq, Eq, Structural)]
pub struct SendReplyError;

/// The error of an undelivered reply, whatever came back undelivered.
pub fn send_reply_error<T>(_undelivered: T) -> (r: SendReplyError)
    ensures
        r == SendReplyError,
{
    SendReplyError
}

} // verus!
