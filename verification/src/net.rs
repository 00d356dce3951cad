//! The network side of a sync exchange: what the two ends of a connection decide.
//!
//! Nothing here does I/O. Each end is a machine that is told what happened and says what to do
//! next: [`alice`] runs an exchange on the dialing end, [`bob`] on the accepting end, and
//! [`connection`] runs a whole connection around it.

use std::sync::Arc;

use vstd::prelude::*;

use crate::actor::metrics::{advance, advanced};
use crate::keys::{NamespaceId, PeerId};

pub mod alice;
pub mod bob;
pub mod codec;
pub mod connection;

verus! {

/// Bound on one whole sync exchange, connection establishment included, in nanoseconds.
///
/// It bounds the exchange as a whole, not the wait between messages: a peer that sends one message
/// every few seconds would defeat the latter while it holds the session and its snapshot.
pub const SYNC_SESSION_TIMEOUT: u64 = 300_000_000_000;

/// Why an incoming sync request was declined.
#[derive(Debug, Clone, Copy, PartialEq, Eq, Structural)]
pub enum AbortReason {
    /// The replica is not available here.
    NotFound,
    /// The replica is already being synced.
    AlreadySyncing,
    /// Providing the replica failed.
    InternalServerError,
}

/// Whether an incoming sync request is accepted; `F` is the type of filters.
#[derive(Clone)]
pub enum AcceptOutcome<F> {
    /// Accept the sync request.
    Allow {
        /// What is shown of the replica to the peer; the full view without one.
        filter: Option<F>,
    },
    /// Decline the sync request.
    Reject(AbortReason),
}

impl<F> AcceptOutcome<F> {
    /// How the decision shows in logs: a filter shows nothing of itself.
    pub fn debug(&self) -> (s: &'static str)
        ensures
            s@ == (match *self {
                AcceptOutcome::Allow { filter: None } => "Allow"@,
                AcceptOutcome::Allow { filter: Some(_) } => "Allow(filtered)"@,
                AcceptOutcome::Reject(AbortReason::NotFound) => "Reject(NotFound)"@,
                AcceptOutcome::Reject(AbortReason::AlreadySyncing) => "Reject(AlreadySyncing)"@,
                AcceptOutcome::Reject(AbortReason::InternalServerError) =>
                    "Reject(InternalServerError)"@,
            }),
    {
        match self {
            AcceptOutcome::Allow { filter: None } => "Allow",
            AcceptOutcome::Allow { filter: Some(_) } => "Allow(filtered)",
            AcceptOutcome::Reject(reason) => match reason {
                AbortReason::NotFound => "Reject(NotFound)",
                AbortReason::AlreadySyncing => "Reject(AlreadySyncing)",
                AbortReason::InternalServerError => "Reject(InternalServerError)",
            },
        }
    }
}

/// The same filter once more.
pub fn share<F>(filter: &Option<Arc<F>>) -> (r: Option<Arc<F>>)
    ensures
        r == *filter,
{
    match filter {
        Some(filter) => Some(filter.clone()),
        None => None,
    }
}

/// What an exchange achieved so far.
#[derive(Debug)]
pub struct SyncOutcome {
    /// The newest timestamp received of each author.
    pub heads_received: Vec<([u8; 32], u64)>,
    /// How many entries were received.
    pub num_recv: usize,
    /// How many entries were sent.
    pub num_sent: usize,
}

impl SyncOutcome {
    /// Whether nothing was achieved yet.
    pub open spec fn is_nothing(self) -> bool {
        &&& self.heads_received@.len() == 0
        &&& self.num_recv == 0
        &&& self.num_sent == 0
    }

    /// Whether the other says the same.
    pub open spec fn same_as(self, other: SyncOutcome) -> bool {
        &&& self.heads_received@ == other.heads_received@
        &&& self.num_recv == other.num_recv
        &&& self.num_sent == other.num_sent
    }

    /// An outcome that says the same.
    pub fn copied(&self) -> (r: SyncOutcome)
        ensures
            r.same_as(*self),
    {
        let mut heads_received: Vec<([u8; 32], u64)> = Vec::new();
        let mut i: usize = 0;
        while i < self.heads_received.len()
            invariant
                i <= self.heads_received@.len(),
                heads_received@ == self.heads_received@.take(i as int),
            decreases self.heads_received@.len() - i,
        {
            heads_received.push(self.heads_received[i]);
            i = i + 1;
            assert(heads_received@ =~= self.heads_received@.take(i as int));
        }
        assert(heads_received@ =~= self.heads_received@);
        SyncOutcome { heads_received, num_recv: self.num_recv, num_sent: self.num_sent }
    }
}

impl Default for SyncOutcome {
    fn default() -> (o: SyncOutcome)
        ensures
            o.is_nothing(),
    {
        SyncOutcome { heads_received: Vec::new(), num_recv: 0, num_sent: 0 }
    }
}

/// The time that a sync operation took, in nanoseconds.
#[derive(Debug, Clone, Copy, PartialEq, Eq, Structural)]
pub struct Timings {
    /// To establish the connection.
    pub connect: u64,
    /// To run the exchange.
    pub process: u64,
}

impl Default for Timings {
    fn default() -> (t: Timings)
        ensures
            t == (Timings { connect: 0, process: 0 }),
    {
        Timings { connect: 0, process: 0 }
    }
}

/// Details of a finished sync operation.
#[derive(Debug)]
pub struct SyncFinished {
    /// The replica that was synced.
    pub namespace: NamespaceId,
    /// The peer synced with.
    pub peer: PeerId,
    /// What was achieved.
    pub outcome: SyncOutcome,
    /// The time it took.
    pub timings: Timings,
}

/// What went wrong; `E` is what the network, the store or the actor reports.
#[derive(Debug)]
pub enum Cause<E> {
    /// The accepting end opened an exchange.
    UnexpectedInit,
    /// The dialing end opened an exchange twice.
    DoubleInit,
    /// The dialing end went on with an exchange that it did not open.
    SyncBeforeInit,
    /// The dialing end declined.
    UnexpectedAbort,
    /// The dialing end closed without opening an exchange.
    ClosedBeforeInit,
    /// The exchange took too long.
    TimedOut,
    /// Something outside the protocol.
    Outside(E),
}

/// The text of what went wrong, where it is not something outside the protocol.
pub open spec fn cause_text<E>(cause: Cause<E>) -> Option<Seq<char>> {
    match cause {
        Cause::UnexpectedInit => Some("unexpected init message"@),
        Cause::DoubleInit => Some("double init message"@),
        Cause::SyncBeforeInit => Some("unexpected sync message before init"@),
        Cause::UnexpectedAbort => Some("unexpected sync abort message"@),
        Cause::ClosedBeforeInit => Some("Stream closed before init message"@),
        Cause::TimedOut => Some("sync exchange timed out after 300s"@),
        Cause::Outside(_) => None,
    }
}

impl<E> Cause<E> {
    /// The text of what went wrong, where it is not something outside the protocol.
    pub fn text(&self) -> (s: Option<&'static str>)
        ensures
            cause_text(*self) == (match s {
                Some(text) => Some(text@),
                None => None,
            }),
    {
        match self {
            Cause::UnexpectedInit => Some("unexpected init message"),
            Cause::DoubleInit => Some("double init message"),
            Cause::SyncBeforeInit => Some("unexpected sync message before init"),
            Cause::UnexpectedAbort => Some("unexpected sync abort message"),
            Cause::ClosedBeforeInit => Some("Stream closed before init message"),
            Cause::TimedOut => Some("sync exchange timed out after 300s"),
            Cause::Outside(_) => None,
        }
    }
}

/// Errors of incoming sync connections.
#[derive(Debug)]
pub enum AcceptError<E> {
    /// The connection could not be established.
    Connect { error: Cause<E> },
    /// The replica could not be opened.
    Open { peer: PeerId, error: Cause<E> },
    /// This end declined the sync request.
    Abort { peer: PeerId, namespace: NamespaceId, reason: AbortReason },
    /// The exchange failed.
    Sync { peer: PeerId, namespace: Option<NamespaceId>, error: Cause<E> },
    /// The connection could not be closed.
    Close { peer: PeerId, namespace: Option<NamespaceId>, error: Cause<E> },
}

impl<E> AcceptError<E> {
    /// The replica could not be opened.
    pub fn open(peer: PeerId, error: Cause<E>) -> (e: Self)
        ensures
            e == (AcceptError::Open { peer, error }),
    {
        AcceptError::Open { peer, error }
    }

    /// The exchange failed.
    pub fn sync(peer: PeerId, namespace: Option<NamespaceId>, error: Cause<E>) -> (e: Self)
        ensures
            e == (AcceptError::Sync { peer, namespace, error }),
    {
        AcceptError::Sync { peer, namespace, error }
    }

    /// The connection could not be closed.
    pub fn close(peer: PeerId, namespace: Option<NamespaceId>, error: Cause<E>) -> (e: Self)
        ensures
            e == (AcceptError::Close { peer, namespace, error }),
    {
        AcceptError::Close { peer, namespace, error }
    }

    /// The peer that the error names.
    pub open spec fn named_peer(self) -> Option<PeerId> {
        match self {
            AcceptError::Connect { .. } => None,
            AcceptError::Open { peer, .. } => Some(peer),
            AcceptError::Sync { peer, .. } => Some(peer),
            AcceptError::Close { peer, .. } => Some(peer),
            AcceptError::Abort { peer, .. } => Some(peer),
        }
    }

    /// The replica that the error names.
    pub open spec fn named_namespace(self) -> Option<NamespaceId> {
        match self {
            AcceptError::Connect { .. } => None,
            AcceptError::Open { .. } => None,
            AcceptError::Sync { namespace, .. } => namespace,
            AcceptError::Close { namespace, .. } => namespace,
            AcceptError::Abort { namespace, .. } => Some(namespace),
        }
    }

    /// The peer, if the error names one.
    pub fn peer(&self) -> (r: Option<PeerId>)
        ensures
            r == self.named_peer(),
    {
        match self {
            AcceptError::Connect { .. } => None,
            AcceptError::Open { peer, .. } => Some(*peer),
            AcceptError::Sync { peer, .. } => Some(*peer),
            AcceptError::Close { peer, .. } => Some(*peer),
            AcceptError::Abort { peer, .. } => Some(*peer),
        }
    }

    /// The replica, if the error names one.
    pub fn namespace(&self) -> (r: Option<NamespaceId>)
        ensures
            r == self.named_namespace(),
    {
        match self {
            AcceptError::Connect { .. } => None,
            AcceptError::Open { .. } => None,
            AcceptError::Sync { namespace, .. } => *namespace,
            AcceptError::Close { namespace, .. } => *namespace,
            AcceptError::Abort { namespace, .. } => Some(*namespace),
        }
    }
}

/// Errors of outgoing sync requests.
#[derive(Debug)]
pub enum ConnectError<E> {
    /// The connection could not be established.
    Connect { error: Cause<E> },
    /// The remote peer declined the sync request.
    RemoteAbort(AbortReason),
    /// The exchange failed.
    Sync { error: Cause<E> },
    /// The connection could not be closed.
    Close { error: Cause<E> },
}

impl<E> ConnectError<E> {
    /// The connection could not be established.
    pub fn connect(error: Cause<E>) -> (e: Self)
        ensures
            e == (ConnectError::Connect { error }),
    {
        ConnectError::Connect { error }
    }

    /// The connection could not be closed.
    pub fn close(error: Cause<E>) -> (e: Self)
        ensures
            e == (ConnectError::Close { error }),
    {
        ConnectError::Close { error }
    }

    /// The exchange failed.
    pub fn sync(error: Cause<E>) -> (e: Self)
        ensures
            e == (ConnectError::Sync { error }),
    {
        ConnectError::Sync { error }
    }

    /// The remote peer declined the sync request.
    pub fn remote_abort(reason: AbortReason) -> (e: Self)
        ensures
            e == ConnectError::<E>::RemoteAbort(reason),
    {
        ConnectError::RemoteAbort(reason)
    }
}

/// What connections count. Counters wrap around at their largest value.
#[derive(Debug, Clone, Copy, PartialEq, Eq, Structural)]
pub struct NetMetrics {
    /// Dialed exchanges that succeeded.
    pub sync_via_connect_success: u64,
    /// Dialed exchanges that failed.
    pub sync_via_connect_failure: u64,
    /// Accepted exchanges that succeeded.
    pub sync_via_accept_success: u64,
    /// Accepted exchanges that failed.
    pub sync_via_accept_failure: u64,
}

impl NetMetrics {
    /// Nothing counted yet.
    pub fn new() -> (m: NetMetrics)
        ensures
            m == (NetMetrics {
                sync_via_connect_success: 0,
                sync_via_connect_failure: 0,
                sync_via_accept_success: 0,
                sync_via_accept_failure: 0,
            }),
    {
        NetMetrics {
            sync_via_connect_success: 0,
            sync_via_connect_failure: 0,
            sync_via_accept_success: 0,
            sync_via_accept_failure: 0,
        }
    }

    /// Counts a dialed exchange.
    pub fn count_connect(&mut self, success: bool)
        ensures
            *final(self) == (if success {
                NetMetrics {
                    sync_via_connect_success: advanced(old(self).sync_via_connect_success, 1),
                    ..*old(self)
                }
            } else {
                NetMetrics {
                    sync_via_connect_failure: advanced(old(self).sync_via_connect_failure, 1),
                    ..*old(self)
                }
            }),
    {
        if success {
            self.sync_via_connect_success = advance(self.sync_via_connect_success, 1);
        } else {
            self.sync_via_connect_failure = advance(self.sync_via_connect_failure, 1);
        }
    }

    /// Counts an accepted exchange.
    pub fn count_accept(&mut self, success: bool)
        ensures
            *final(self) == (if success {
                NetMetrics {
                    sync_via_accept_success: advanced(old(self).sync_via_accept_success, 1),
                    ..*old(self)
                }
            } else {
                NetMetrics {
                    sync_via_accept_failure: advanced(old(self).sync_via_accept_failure, 1),
                    ..*old(self)
                }
            }),
    {
        if success {
            self.sync_via_accept_success = advance(self.sync_via_accept_success, 1);
        } else {
            self.sync_via_accept_failure = advance(self.sync_via_accept_failure, 1);
        }
    }
}

/// Two outcomes say the same if and only if they agree on the heads that were received, author by
/// author, and on both counts; and nothing was achieved if and only if there are none.
pub proof fn law_outcomes_agree_in_everything(a: SyncOutcome, b: SyncOutcome, i: int)
    ensures
        a.same_as(b) ==> a.num_recv == b.num_recv && a.num_sent == b.num_sent
            && a.heads_received@.len() == b.heads_received@.len() && a.heads_received@[i]
            == b.heads_received@[i],
        a.same_as(a),
        a.same_as(b) ==> b.same_as(a),
        a.is_nothing() ==> a.num_recv == 0 && a.num_sent == 0 && a.heads_received@.len() == 0,
        a.is_nothing() && b.is_nothing() ==> a.same_as(b),
{
    if a.is_nothing() && b.is_nothing() {
        assert(a.heads_received@ =~= b.heads_received@);
    }
}

/// An error names the peer and the replica that it was made with: all but a failure to connect name
/// the peer; a refusal names the replica, a failure of the exchange or of closing names it if it
/// was known, and a failure before that names none.
pub proof fn law_errors_name_what_they_were_made_with<E>(
    peer: PeerId,
    replica: NamespaceId,
    known: Option<NamespaceId>,
    reason: AbortReason,
    error: Cause<E>,
)
    ensures
        ({
            let connect = AcceptError::Connect { error };
            connect.named_peer() is None && connect.named_namespace() is None
        }),
        ({
            let open = AcceptError::Open { peer, error };
            open.named_peer() == Some(peer) && open.named_namespace() is None
        }),
        ({
            let abort = AcceptError::<E>::Abort { peer, namespace: replica, reason };
            abort.named_peer() == Some(peer) && abort.named_namespace() == Some(replica)
        }),
        ({
            let sync = AcceptError::Sync { peer, namespace: known, error };
            sync.named_peer() == Some(peer) && sync.named_namespace() == known
        }),
        ({
            let close = AcceptError::Close { peer, namespace: known, error };
            close.named_peer() == Some(peer) && close.named_namespace() == known
        }),
{
}

/// What goes wrong within the protocol can be told apart by its text, and what comes from outside
/// has no text of the protocol's.
pub proof fn law_causes_are_told_apart_by_their_text<E>(a: Cause<E>, b: Cause<E>)
    ensures
        cause_text(a) is None <==> a is Outside,
        cause_text(a) is Some && cause_text(a) == cause_text(b) ==> a == b,
{
    reveal_strlit("unexpected init message");
    reveal_strlit("double init message");
    reveal_strlit("unexpected sync message before init");
    reveal_strlit("unexpected sync abort message");
    reveal_strlit("Stream closed before init message");
    reveal_strlit("sync exchange timed out after 300s");
    assert("unexpected init message"@.len() == 23);
    assert("double init message"@.len() == 19);
    assert("unexpected sync message before init"@.len() == 35);
    assert("unexpected sync abort message"@.len() == 29);
    assert("Stream closed before init message"@.len() == 33);
    assert("sync exchange timed out after 300s"@.len() == 34);
}

/// An exchange is counted once, as dialed or as accepted, and as it came out; no other count
/// changes. Counts wrap around.
pub proof fn law_exchanges_are_counted_as_they_came_out(
    dialed: &mut NetMetrics,
    accepted: &mut NetMetrics,
    success: bool,
)
    requires
        call_ensures(NetMetrics::count_connect, (dialed, success), ()),
        call_ensures(NetMetrics::count_accept, (accepted, success), ()),
    ensures
        ({
            let one = if success { 1int } else { 0 };
            let (a, b) = (*old(dialed), *final(dialed));
            let (c, d) = (*old(accepted), *final(accepted));
            &&& b.sync_via_connect_success == (a.sync_via_connect_success + one)
                % 0x1_0000_0000_0000_0000
            &&& b.sync_via_connect_failure == (a.sync_via_connect_failure + 1 - one)
                % 0x1_0000_0000_0000_0000
            &&& b.sync_via_accept_success == a.sync_via_accept_success
            &&& b.sync_via_accept_failure == a.sync_via_accept_failure
            &&& d.sync_via_accept_success == (c.sync_via_accept_success + one)
                % 0x1_0000_0000_0000_0000
            &&& d.sync_via_accept_failure == (c.sync_via_accept_failure + 1 - one)
                % 0x1_0000_0000_0000_0000
            &&& d.sync_via_connect_success == c.sync_via_connect_success
            &&& d.sync_via_connect_failure == c.sync_via_connect_failure
        }),
{
}

} // verus!
