//! Session-scoped access control for reconciliation.
//!
//! Reconciliation reads entries only through a [`store::Store`]. A [`store::SessionStore`] wraps a
//! replica's store with an optional filter, so every read sees only admitted entries: the first
//! key, range scans and fingerprints alike. Fingerprints are computed over the filtered range, so
//! no entry that is not admitted can show through one. Writes pass through unfiltered.
//!
//! What a filter means is decided elsewhere: it is an opaque predicate over entries, fixed for the
//! session on either end, because both ends of a reconciliation serve entries.

use vstd::prelude::*;

pub mod entry;
pub mod laws;
pub mod scan;
pub mod store;

verus! {

/// What one session may see of a replica, decided at session setup and fixed for the session.
#[derive(Clone)]
pub enum SessionAccess<F> {
    /// The peer sees the replica whole.
    Full,
    /// The peer sees only the entries that the filter admits.
    Filtered(F),
    /// No session: reject as if the replica were not hosted here.
    Deny,
}

impl<F> SessionAccess<F> {
    /// How the access shows in logs: a filter shows nothing of itself.
    pub fn debug(&self) -> (s: &'static str)
        ensures
            s@ == (match *self {
                SessionAccess::Full => "Full"@,
                SessionAccess::Filtered(_) => "Filtered(..)"@,
                SessionAccess::Deny => "Deny"@,
            }),
    {
        match self {
            SessionAccess::Full => "Full",
            SessionAccess::Filtered(_) => "Filtered(..)",
            SessionAccess::Deny => "Deny",
        }
    }
}

/// Which end of a session a node is on when it decides about access.
#[derive(Debug, Clone, Copy, PartialEq, Eq, Structural)]
pub enum SessionRole {
    /// The node accepts an incoming sync request.
    Accept,
    /// The node dials out to sync.
    Dial,
}

} // verus!
