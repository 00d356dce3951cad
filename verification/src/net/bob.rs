//! The accepting end of a sync exchange.

use std::sync::Arc;

use vstd::prelude::*;

use crate::actor::session::{SyncSession, SyncSessionId};
use crate::keys::{NamespaceId, PeerId};
use crate::net::codec::Message;
use crate::net::{share, AbortReason, AcceptError, AcceptOutcome, Cause, SyncOutcome};

verus! {

/// What the accepting end is waiting for.
#[derive(Debug)]
pub enum BobPhase<M> {
    /// The next frame.
    Receiving,
    /// The decision about a request.
    Deciding {
        /// The replica asked for.
        namespace: NamespaceId,
        /// The first message of the reconciliation.
        message: M,
    },
    /// A refusal to be sent.
    Rejecting {
        /// The replica asked for.
        namespace: NamespaceId,
        /// Why the request is declined.
        reason: AbortReason,
    },
    /// A session to start.
    Starting {
        /// The replica asked for.
        namespace: NamespaceId,
        /// The first message of the reconciliation.
        message: M,
    },
    /// A message to be processed.
    Processing,
    /// A reply to be sent.
    Sending,
    /// Nothing more.
    Over,
}

/// What the accepting end is told.
pub enum BobInput<M, F, E> {
    /// A frame arrived.
    Frame(Message<M>),
    /// A frame could not be read.
    Broken(E),
    /// The peer closed its stream.
    End,
    /// The request was decided about.
    Decided(AcceptOutcome<Arc<F>>),
    /// A session was started, or not.
    Started(Result<SyncSession, E>),
    /// A message was processed, or not: the reply to it if one is due, and what the exchange has
    /// achieved.
    Processed(Result<(Option<M>, SyncOutcome), E>),
    /// A frame was sent, or not.
    Sent(Result<(), E>),
}

/// What the accepting end does next.
pub enum BobAction<M, F, E> {
    /// Wait for the next frame.
    Receive,
    /// Decide about a request.
    Decide {
        /// The replica asked for.
        namespace: NamespaceId,
        /// The peer that asks.
        peer: PeerId,
    },
    /// Start a session.
    Start {
        /// The replica it reads from.
        namespace: NamespaceId,
    },
    /// Process a message.
    Process {
        /// The replica that is synced.
        namespace: NamespaceId,
        /// The message.
        message: M,
        /// The peer that sent it.
        from: PeerId,
        /// What the exchange has achieved before.
        progress: SyncOutcome,
        /// The session that the exchange reads from.
        session: SyncSessionId,
        /// What the peer is shown.
        filter: Option<Arc<F>>,
    },
    /// Send a frame.
    Send(Message<M>),
    /// Stop, with this result.
    Finish(Result<NamespaceId, AcceptError<E>>),
}

/// What the accepting end holds.
pub struct BobView<M, F> {
    /// The replica of an allowed request, from the decision on. It is there without a session for
    /// the moment between the decision and the session: an error in that moment still has to name
    /// the replica.
    pub namespace: Option<NamespaceId>,
    /// The peer.
    pub peer: PeerId,
    /// What the rounds that completed achieved.
    pub progress: SyncOutcome,
    /// What is shown of the replica, as decided.
    pub filter: Option<Arc<F>>,
    /// The session, once the request was allowed.
    pub session: Option<SyncSession>,
    /// What is waited for.
    pub phase: BobPhase<M>,
}

impl<M, F> BobView<M, F> {
    /// What holds of the accepting end at all times: there is a session only for an allowed
    /// request, and of the replica that was asked for.
    pub open spec fn wf(self) -> bool {
        &&& self.session matches Some(s) ==> self.namespace == Some(s.namespace)
        &&& match self.phase {
            BobPhase::Receiving => self.namespace is Some ==> self.session is Some,
            BobPhase::Deciding { .. } => self.session is None && self.namespace is None,
            BobPhase::Rejecting { .. } => self.session is None && self.namespace is None,
            BobPhase::Starting { namespace, .. } => self.session is None && self.namespace == Some(
                namespace,
            ),
            BobPhase::Processing => self.session is Some,
            BobPhase::Sending => self.session is Some,
            BobPhase::Over => true,
        }
    }

    /// Whether this can be told in this phase. A session that was started is of the replica that it
    /// was asked for.
    pub open spec fn expects<E>(self, input: BobInput<M, F, E>) -> bool {
        match (self.phase, input) {
            (BobPhase::Receiving, BobInput::Frame(_)) => true,
            (BobPhase::Receiving, BobInput::Broken(_)) => true,
            (BobPhase::Receiving, BobInput::End) => true,
            (BobPhase::Deciding { .. }, BobInput::Decided(_)) => true,
            (BobPhase::Rejecting { .. }, BobInput::Sent(_)) => true,
            (BobPhase::Starting { namespace, .. }, BobInput::Started(started)) => started matches Ok(
                session,
            ) ==> session.namespace == namespace,
            (BobPhase::Processing, BobInput::Processed(_)) => true,
            (BobPhase::Sending, BobInput::Sent(_)) => true,
            _ => false,
        }
    }

    /// A failure, which names the replica if the request was allowed.
    pub open spec fn failed<E>(self, error: Cause<E>) -> (BobView<M, F>, BobAction<M, F, E>) {
        (
            BobView { phase: BobPhase::Over, ..self },
            BobAction::Finish(
                Err(AcceptError::Sync { peer: self.peer, namespace: self.namespace, error }),
            ),
        )
    }

    /// A round: `along`, which says the same as what the exchange has achieved, goes along with the
    /// message. What was achieved stays until the round is completed.
    pub open spec fn round<E>(self, session: SyncSession, message: M, along: SyncOutcome) -> (
        BobView<M, F>,
        BobAction<M, F, E>,
    ) {
        (
            BobView { session: Some(session), phase: BobPhase::Processing, ..self },
            BobAction::Process {
                namespace: session.namespace,
                message,
                from: self.peer,
                progress: along,
                session: session.id,
                filter: self.filter,
            },
        )
    }

    /// The end of an exchange that did not fail.
    pub open spec fn ended<E>(self) -> (BobView<M, F>, BobAction<M, F, E>) {
        match self.namespace {
            Some(namespace) => (
                BobView { phase: BobPhase::Over, ..self },
                BobAction::Finish(Ok(namespace)),
            ),
            None => self.failed(Cause::ClosedBeforeInit),
        }
    }

    /// What the accepting end makes of a frame; `along` goes along with a round.
    pub open spec fn received<E>(self, message: Message<M>, along: SyncOutcome) -> (
        BobView<M, F>,
        BobAction<M, F, E>,
    ) {
        match (message, self.session) {
            (Message::Init { namespace, message }, None) => (
                BobView { phase: BobPhase::Deciding { namespace, message }, ..self },
                BobAction::Decide { namespace, peer: self.peer },
            ),
            (Message::Sync(message), Some(session)) => self.round(session, message, along),
            (Message::Init { .. }, Some(_)) => self.failed(Cause::DoubleInit),
            (Message::Sync(_), None) => self.failed(Cause::SyncBeforeInit),
            (Message::Abort { .. }, _) => self.failed(Cause::UnexpectedAbort),
        }
    }

    /// What the accepting end makes of what it is told; `along` goes along with a round.
    pub open spec fn stepped<E>(self, input: BobInput<M, F, E>, along: SyncOutcome) -> (
        BobView<M, F>,
        BobAction<M, F, E>,
    ) {
        match (self.phase, input) {
            (_, BobInput::Frame(message)) => self.received(message, along),
            (_, BobInput::Broken(e)) => self.failed(Cause::Outside(e)),
            (_, BobInput::End) => self.ended(),
            (
                BobPhase::Deciding { namespace, message },
                BobInput::Decided(AcceptOutcome::Allow { filter }),
            ) => (
                BobView {
                    namespace: Some(namespace),
                    filter,
                    phase: BobPhase::Starting { namespace, message },
                    ..self
                },
                BobAction::Start { namespace },
            ),
            (
                BobPhase::Deciding { namespace, .. },
                BobInput::Decided(AcceptOutcome::Reject(reason)),
            ) => (
                BobView { phase: BobPhase::Rejecting { namespace, reason }, ..self },
                BobAction::Send(Message::Abort { reason }),
            ),
            (BobPhase::Rejecting { namespace, reason }, BobInput::Sent(Ok(()))) => (
                BobView { phase: BobPhase::Over, ..self },
                BobAction::Finish(Err(AcceptError::Abort { peer: self.peer, namespace, reason })),
            ),
            (BobPhase::Starting { message, .. }, BobInput::Started(Ok(session))) => self.round(
                session,
                message,
                along,
            ),
            (_, BobInput::Started(Err(e))) => self.failed(Cause::Outside(e)),
            (_, BobInput::Processed(Err(e))) => self.failed(Cause::Outside(e)),
            (_, BobInput::Processed(Ok((Some(reply), progress)))) => (
                BobView { progress, phase: BobPhase::Sending, ..self },
                BobAction::Send(Message::Sync(reply)),
            ),
            (_, BobInput::Processed(Ok((None, progress)))) => BobView {
                progress,
                ..self
            }.ended(),
            (_, BobInput::Sent(Ok(()))) => (
                BobView { phase: BobPhase::Receiving, ..self },
                BobAction::Receive,
            ),
            (_, BobInput::Sent(Err(e))) => self.failed(Cause::Outside(e)),
            _ => (self, BobAction::Receive),
        }
    }
}

/// The accepting end of one connection's exchange.
pub struct BobState<M, F> {
    namespace: Option<NamespaceId>,
    peer: PeerId,
    progress: SyncOutcome,
    filter: Option<Arc<F>>,
    session: Option<SyncSession>,
    phase: BobPhase<M>,
}

impl<M, F> View for BobState<M, F> {
    type V = BobView<M, F>;

    closed spec fn view(&self) -> BobView<M, F> {
        BobView {
            namespace: self.namespace,
            peer: self.peer,
            progress: self.progress,
            filter: self.filter,
            session: self.session,
            phase: self.phase,
        }
    }
}

impl<M, F> BobState<M, F> {
    /// The start of an exchange with a peer: wait for the first frame.
    pub fn new(peer: PeerId) -> (s: Self)
        ensures
            s@.wf(),
            s@.namespace is None,
            s@.peer == peer,
            s@.progress.is_nothing(),
            s@.filter is None,
            s@.session is None,
            s@.phase == BobPhase::<M>::Receiving,
    {
        BobState {
            namespace: None,
            peer,
            progress: SyncOutcome::default(),
            filter: None,
            session: None,
            phase: BobPhase::Receiving,
        }
    }

    /// A failure, which names the replica if the request was allowed.
    pub fn fail<E>(&self, reason: Cause<E>) -> (e: AcceptError<E>)
        ensures
            e == (AcceptError::Sync {
                peer: self@.peer,
                namespace: self@.namespace,
                error: reason,
            }),
    {
        AcceptError::sync(self.peer, self.namespace, reason)
    }

    /// The replica that is synced, if the request was allowed.
    pub fn namespace(&self) -> (r: Option<NamespaceId>)
        ensures
            r == self@.namespace,
    {
        self.namespace
    }

    /// What the rounds that completed achieved.
    pub fn into_outcome(self) -> (r: SyncOutcome)
        ensures
            r == self@.progress,
    {
        self.progress
    }

    /// Ends the exchange with a failure.
    fn give_up<E>(&mut self, reason: Cause<E>) -> (r: BobAction<M, F, E>)
        ensures
            (final(self)@, r) == old(self)@.failed(reason),
    {
        self.phase = BobPhase::Over;
        BobAction::Finish(Err(self.fail(reason)))
    }

    /// Ends the exchange.
    fn end<E>(&mut self) -> (r: BobAction<M, F, E>)
        ensures
            (final(self)@, r) == old(self)@.ended::<E>(),
    {
        match self.namespace {
            Some(namespace) => {
                self.phase = BobPhase::Over;
                BobAction::Finish(Ok(namespace))
            },
            None => self.give_up(Cause::ClosedBeforeInit),
        }
    }

    /// Starts a round with a message that a session received.
    fn process<E>(&mut self, namespace: NamespaceId, session: SyncSessionId, message: M) -> (r:
        BobAction<M, F, E>)
        ensures
            final(self)@ == (BobView { phase: BobPhase::Processing, ..old(self)@ }),
            r is Process,
            r->progress.same_as(old(self)@.progress),
            r == (BobAction::<M, F, E>::Process {
                namespace,
                message,
                from: old(self)@.peer,
                progress: r->progress,
                session,
                filter: old(self)@.filter,
            }),
    {
        self.phase = BobPhase::Processing;
        // A copy: a round that fails leaves what was achieved before it.
        let progress = self.progress.copied();
        let filter = share(&self.filter);
        BobAction::Process { namespace, message, from: self.peer, progress, session, filter }
    }

    /// Makes something of a frame.
    fn receive<E>(&mut self, message: Message<M>) -> (r: BobAction<M, F, E>)
        ensures
            (final(self)@, r) == old(self)@.received::<E>(message, r->progress),
            r is Process ==> r->progress.same_as(old(self)@.progress),
    {
        match &self.session {
            None => match message {
                Message::Init { namespace, message } => {
                    self.phase = BobPhase::Deciding { namespace, message };
                    BobAction::Decide { namespace, peer: self.peer }
                },
                Message::Sync(_) => self.give_up(Cause::SyncBeforeInit),
                Message::Abort { .. } => self.give_up(Cause::UnexpectedAbort),
            },
            Some(session) => {
                let namespace = session.namespace();
                let id = session.id();
                match message {
                    Message::Sync(message) => self.process(namespace, id, message),
                    Message::Init { .. } => self.give_up(Cause::DoubleInit),
                    Message::Abort { .. } => self.give_up(Cause::UnexpectedAbort),
                }
            },
        }
    }

    /// Goes on with what happened.
    pub fn step<E>(&mut self, input: BobInput<M, F, E>) -> (r: BobAction<M, F, E>)
        requires
            old(self)@.wf(),
            old(self)@.expects(input),
        ensures
            final(self)@.wf(),
            (final(self)@, r) == old(self)@.stepped(input, r->progress),
            r matches BobAction::Process { progress, .. } ==> progress.same_as(
                old(self)@.progress,
            ) && final(self)@.progress == old(self)@.progress,
    {
        match input {
            BobInput::Frame(message) => self.receive(message),
            BobInput::Broken(e) => self.give_up(Cause::Outside(e)),
            BobInput::End => self.end(),
            BobInput::Decided(outcome) => self.decided(outcome),
            BobInput::Started(Err(e)) => self.give_up(Cause::Outside(e)),
            BobInput::Started(Ok(session)) => self.started(session),
            BobInput::Processed(Err(e)) => self.give_up(Cause::Outside(e)),
            BobInput::Processed(Ok((reply, progress))) => {
                self.progress = progress;
                match reply {
                    Some(message) => {
                        self.phase = BobPhase::Sending;
                        BobAction::Send(Message::Sync(message))
                    },
                    None => self.end(),
                }
            },
            BobInput::Sent(Err(e)) => self.give_up(Cause::Outside(e)),
            BobInput::Sent(Ok(())) => self.sent(),
        }
    }

    /// Goes on once a request was decided about. A rejected request never starts a session.
    fn decided<E>(&mut self, outcome: AcceptOutcome<Arc<F>>) -> (r: BobAction<M, F, E>)
        requires
            old(self)@.phase is Deciding,
        ensures
            (final(self)@, r) == old(self)@.stepped(
                BobInput::<M, F, E>::Decided(outcome),
                r->progress,
            ),
    {
        let mut phase = BobPhase::Over;
        std::mem::swap(&mut phase, &mut self.phase);
        match phase {
            BobPhase::Deciding { namespace, message } => match outcome {
                AcceptOutcome::Allow { filter } => {
                    self.filter = filter;
                    // Before anything that can fail: the decision is where the caller registers
                    // this pair as exchanging, and from here an error has to name the replica, or
                    // the caller is never told that the exchange ended.
                    self.namespace = Some(namespace);
                    self.phase = BobPhase::Starting { namespace, message };
                    BobAction::Start { namespace }
                },
                AcceptOutcome::Reject(reason) => {
                    self.phase = BobPhase::Rejecting { namespace, reason };
                    BobAction::Send(Message::Abort { reason })
                },
            },
            _ => BobAction::Receive,
        }
    }

    /// Goes on once a session was started: processes the first message.
    fn started<E>(&mut self, session: SyncSession) -> (r: BobAction<M, F, E>)
        requires
            old(self)@.phase is Starting,
        ensures
            (final(self)@, r) == old(self)@.stepped(
                BobInput::<M, F, E>::Started(Ok(session)),
                r->progress,
            ),
            r is Process,
            r->progress.same_as(old(self)@.progress),
    {
        let mut phase = BobPhase::Over;
        std::mem::swap(&mut phase, &mut self.phase);
        let namespace = session.namespace();
        let id = session.id();
        self.session = Some(session);
        match phase {
            BobPhase::Starting { message, .. } => self.process(namespace, id, message),
            _ => BobAction::Receive,
        }
    }

    /// Goes on once a frame was sent.
    fn sent<E>(&mut self) -> (r: BobAction<M, F, E>)
        requires
            old(self)@.phase is Rejecting || old(self)@.phase is Sending,
        ensures
            (final(self)@, r) == old(self)@.stepped(
                BobInput::<M, F, E>::Sent(Ok(())),
                r->progress,
            ),
    {
        let mut phase = BobPhase::Over;
        std::mem::swap(&mut phase, &mut self.phase);
        match phase {
            BobPhase::Rejecting { namespace, reason } => BobAction::Finish(
                Err(AcceptError::Abort { peer: self.peer, namespace, reason }),
            ),
            _ => {
                self.phase = BobPhase::Receiving;
                BobAction::Receive
            },
        }
    }
}

impl<M, F> BobView<M, F> {
    /// Whether this is the start of an exchange.
    pub open spec fn is_start(self) -> bool {
        &&& self.namespace is None
        &&& self.session is None
        &&& self.filter is None
        &&& self.progress.is_nothing()
        &&& self.phase is Receiving
    }

    /// The accepting end after it was told all this.
    pub open spec fn after<E>(self, told: Seq<BobInput<M, F, E>>) -> BobView<M, F>
        decreases told.len(),
    {
        if told.len() == 0 {
            self
        } else {
            let before = self.after(told.drop_last());
            before.stepped(told.last(), before.progress).0
        }
    }

    /// Whether each of these can be told when its turn comes.
    pub open spec fn expects_all<E>(self, told: Seq<BobInput<M, F, E>>) -> bool
        decreases told.len(),
    {
        told.len() > 0 ==> self.expects_all(told.drop_last()) && self.after(
            told.drop_last(),
        ).expects(told.last())
    }
}

/// What the last completed round among these has achieved; `start` if no round completed.
pub open spec fn achieved<M, F, E>(
    start: SyncOutcome,
    told: Seq<BobInput<M, F, E>>,
) -> SyncOutcome
    decreases told.len(),
{
    if told.len() == 0 {
        start
    } else {
        match told.last() {
            BobInput::Processed(Ok((_, progress))) => progress,
            _ => achieved(start, told.drop_last()),
        }
    }
}

/// Whether this allows a request.
pub open spec fn allows<M, F, E>(input: BobInput<M, F, E>) -> bool {
    input matches BobInput::Decided(AcceptOutcome::Allow { .. })
}

/// Everything that can be told keeps what holds of the accepting end at all times, and the peer.
pub proof fn law_steps_keep_the_invariant<M, F, E>(
    v: BobView<M, F>,
    told: Seq<BobInput<M, F, E>>,
)
    requires
        v.wf(),
        v.expects_all(told),
    ensures
        v.after(told).wf(),
        v.after(told).peer == v.peer,
    decreases told.len(),
{
    if told.len() > 0 {
        law_steps_keep_the_invariant(v, told.drop_last());
    }
}

/// An exchange has a replica if and only if its request was allowed. So there is a session only
/// after the request was allowed.
pub proof fn law_sessions_follow_an_allowed_request<M, F, E>(
    v: BobView<M, F>,
    told: Seq<BobInput<M, F, E>>,
)
    requires
        v.is_start(),
        v.expects_all(told),
    ensures
        v.after(told).namespace is Some <==> exists|i: int|
            0 <= i < told.len() && #[trigger] allows(told[i]),
        v.after(told).session is Some ==> v.after(told).namespace is Some,
    decreases told.len(),
{
    law_steps_keep_the_invariant(v, told);
    if told.len() > 0 {
        let before = told.drop_last();
        let last = told.len() - 1;
        law_sessions_follow_an_allowed_request(v, before);
        law_steps_keep_the_invariant(v, before);
        if v.after(before).namespace is Some {
            let i = choose|i: int| 0 <= i < before.len() && #[trigger] allows(before[i]);
            assert(allows(told[i]));
        } else if allows(told[last]) {
            assert(v.after(told).namespace is Some);
        } else {
            assert forall|i: int| 0 <= i < told.len() implies !#[trigger] allows(told[i]) by {
                if i < last {
                    assert(before[i] == told[i]);
                }
            }
        }
    }
}

/// A failure names the replica if and only if the request was allowed before; a refusal names the
/// replica that was asked for, though no session was ever started. Each names the peer.
pub proof fn law_failures_name_what_was_allowed<M, F, E>(
    v: BobView<M, F>,
    told: Seq<BobInput<M, F, E>>,
    input: BobInput<M, F, E>,
    along: SyncOutcome,
    e: AcceptError<E>,
)
    requires
        v.is_start(),
        v.expects_all(told),
        v.after(told).expects(input),
        v.after(told).stepped(input, along).1 == BobAction::<M, F, E>::Finish(Err(e)),
    ensures
        e.named_peer() == Some(v.peer),
        e is Sync || e is Abort,
        e is Sync ==> (e.named_namespace() is Some <==> exists|i: int|
            0 <= i < told.len() && #[trigger] allows(told[i])),
        e is Sync ==> e.named_namespace() == v.after(told).namespace,
        e is Abort ==> v.after(told).session is None && v.after(told).namespace is None,
{
    law_steps_keep_the_invariant(v, told);
    law_sessions_follow_an_allowed_request(v, told);
}

/// A refused request is answered with the reason, starts no session, and ends the exchange.
pub proof fn law_refused_requests_start_no_session<M, F, E>(
    v: BobView<M, F>,
    reason: AbortReason,
    along: SyncOutcome,
    sent: Result<(), E>,
)
    requires
        v.wf(),
        v.phase is Deciding,
    ensures
        ({
            let (w, answer) = v.stepped(
                BobInput::<M, F, E>::Decided(AcceptOutcome::Reject(reason)),
                along,
            );
            let (x, end) = w.stepped(BobInput::<M, F, E>::Sent(sent), along);
            &&& answer == BobAction::<M, F, E>::Send(Message::Abort { reason })
            &&& w.session is None
            &&& end is Finish
            &&& x.session is None
            &&& x.phase is Over
            &&& sent is Ok ==> end == BobAction::<M, F, E>::Finish(
                Err(
                    AcceptError::Abort {
                        peer: v.peer,
                        namespace: v.phase->Deciding_namespace,
                        reason,
                    },
                ),
            )
        }),
{
}

/// Once a request is allowed, its replica and its filter stay; once a session is started, it stays
/// too.
pub proof fn law_the_decision_stays<M, F, E>(
    v: BobView<M, F>,
    told: Seq<BobInput<M, F, E>>,
)
    requires
        v.wf(),
        v.expects_all(told),
        v.namespace is Some,
    ensures
        v.after(told).namespace == v.namespace,
        v.after(told).filter == v.filter,
        v.session is Some ==> v.after(told).session == v.session,
    decreases told.len(),
{
    if told.len() > 0 {
        law_the_decision_stays(v, told.drop_last());
        law_steps_keep_the_invariant(v, told.drop_last());
    }
}

/// An exchange is decided about once and has one session: once its request was allowed, no other is
/// decided about, and no other session is started.
pub proof fn law_one_decision_and_one_session<M, F, E>(
    v: BobView<M, F>,
    input: BobInput<M, F, E>,
    along: SyncOutcome,
)
    requires
        v.wf(),
        v.expects(input),
        v.namespace is Some,
    ensures
        !(v.stepped(input, along).1 is Decide),
        !(v.stepped(input, along).1 is Start),
{
}

/// Every round reads from the exchange's own session, is of the replica that was allowed, shows the
/// peer what was decided, and gets along what the rounds before have achieved.
pub proof fn law_rounds_read_the_one_session<M, F, E>(
    v: BobView<M, F>,
    input: BobInput<M, F, E>,
    along: SyncOutcome,
)
    requires
        v.wf(),
        v.expects(input),
        along.same_as(v.progress),
    ensures
        v.stepped(input, along).1 matches BobAction::Process {
            namespace,
            from,
            progress,
            session,
            filter,
            ..
        } ==> {
            let w = v.stepped(input, along).0;
            &&& w.session is Some
            &&& session == w.session->Some_0.id
            &&& w.namespace == Some(namespace)
            &&& from == v.peer
            &&& progress.same_as(v.progress)
            &&& w.progress == v.progress
            &&& filter == w.filter
        },
{
}

/// What a completed round has achieved is what the next round gets along.
pub proof fn law_progress_is_handed_on<M, F, E>(
    v: BobView<M, F>,
    reply: M,
    progress: SyncOutcome,
    message: M,
    along: SyncOutcome,
)
    requires
        v.wf(),
        v.phase is Processing,
        along.same_as(progress),
    ensures
        ({
            let (sending, send) = v.stepped(
                BobInput::<M, F, E>::Processed(Ok((Some(reply), progress))),
                along,
            );
            let (receiving, receive) = sending.stepped(BobInput::<M, F, E>::Sent(Ok(())), along);
            let (next, round) = receiving.stepped(
                BobInput::<M, F, E>::Frame(Message::Sync(message)),
                along,
            );
            &&& send == BobAction::<M, F, E>::Send(Message::Sync(reply))
            &&& receive is Receive
            &&& round matches BobAction::Process { progress: p, message: m, .. } && p.same_as(
                progress,
            ) && m == message
        }),
{
}

/// What can be read of an exchange, however it ended, is what its completed rounds have achieved.
pub proof fn law_the_outcome_is_that_of_completed_rounds<M, F, E>(
    v: BobView<M, F>,
    told: Seq<BobInput<M, F, E>>,
)
    requires
        v.expects_all(told),
    ensures
        v.after(told).progress == achieved(v.progress, told),
    decreases told.len(),
{
    if told.len() > 0 {
        law_the_outcome_is_that_of_completed_rounds(v, told.drop_last());
    }
}

/// A round that fails leaves what the completed rounds have achieved, and adds nothing of its own.
pub proof fn law_failed_rounds_leave_the_outcome<M, F, E>(
    v: BobView<M, F>,
    reply: M,
    progress: SyncOutcome,
    message: M,
    error: E,
    along: SyncOutcome,
)
    requires
        v.wf(),
        v.phase is Processing,
    ensures
        ({
            let sending = v.stepped(
                BobInput::<M, F, E>::Processed(Ok((Some(reply), progress))),
                along,
            ).0;
            let receiving = sending.stepped(BobInput::<M, F, E>::Sent(Ok(())), along).0;
            let processing = receiving.stepped(
                BobInput::<M, F, E>::Frame(Message::Sync(message)),
                along,
            ).0;
            let (over, end) = processing.stepped(
                BobInput::<M, F, E>::Processed(Err(error)),
                along,
            );
            &&& processing.phase is Processing
            &&& end matches BobAction::Finish(Err(_))
            &&& over.progress == progress
        }),
{
}

/// An exchange that ends well is of the replica that was allowed.
pub proof fn law_results_name_what_was_allowed<M, F, E>(
    v: BobView<M, F>,
    input: BobInput<M, F, E>,
    along: SyncOutcome,
    namespace: NamespaceId,
)
    requires
        v.wf(),
        v.expects(input),
        v.stepped(input, along).1 == BobAction::<M, F, E>::Finish(Ok(namespace)),
    ensures
        v.namespace == Some(namespace),
        v.session is Some,
{
}

/// A request is decided about as it was made, by the peer of the connection; once it was allowed
/// and a session was started, the message of the request is processed, from that peer, from that
/// session, shown what was decided, with nothing achieved yet.
pub proof fn law_allowed_requests_are_processed<M, F, E>(
    v: BobView<M, F>,
    namespace: NamespaceId,
    message: M,
    filter: Option<Arc<F>>,
    session: SyncSession,
    along: SyncOutcome,
)
    requires
        v.is_start(),
        session.namespace == namespace,
        along.same_as(v.progress),
    ensures
        ({
            let (deciding, decide) = v.stepped(
                BobInput::<M, F, E>::Frame(Message::Init { namespace, message }),
                along,
            );
            let (starting, start) = deciding.stepped(
                BobInput::<M, F, E>::Decided(AcceptOutcome::Allow { filter }),
                along,
            );
            let (processing, process) = starting.stepped(
                BobInput::<M, F, E>::Started(Ok(session)),
                along,
            );
            &&& decide matches BobAction::Decide { namespace: n, peer } && n == namespace && peer
                == v.peer
            &&& start matches BobAction::Start { namespace: n } && n == namespace
            &&& process matches BobAction::Process {
                namespace: n,
                message: m,
                from,
                progress,
                session: id,
                filter: f,
            } && n == namespace && m == message && from == v.peer && id == session.id && f == filter
                && progress.num_recv == 0 && progress.num_sent == 0
            &&& processing.namespace == Some(namespace)
            &&& processing.session == Some(session)
            &&& deciding.expects(BobInput::<M, F, E>::Decided(AcceptOutcome::Allow { filter }))
            &&& starting.expects(BobInput::<M, F, E>::Started(Ok(session)))
        }),
{
}

/// A frame that is out of place ends the exchange with a failure that says which: a second request,
/// a message before any request, or a refusal. A frame that is in place never does.
pub proof fn law_frames_out_of_place_end_the_exchange<M, F, E>(
    v: BobView<M, F>,
    message: Message<M>,
    along: SyncOutcome,
)
    requires
        v.wf(),
        v.phase is Receiving,
    ensures
        match (message, v.stepped(BobInput::<M, F, E>::Frame(message), along).1) {
            (Message::Init { .. }, BobAction::Decide { .. }) => v.session is None,
            (Message::Sync(m), BobAction::Process { message: handed, .. }) => v.session is Some
                && handed == m,
            (
                Message::Init { .. },
                BobAction::Finish(Err(AcceptError::Sync { error: Cause::DoubleInit, .. })),
            ) => v.session is Some,
            (
                Message::Sync(_),
                BobAction::Finish(Err(AcceptError::Sync { error: Cause::SyncBeforeInit, .. })),
            ) => v.session is None,
            (
                Message::Abort { .. },
                BobAction::Finish(Err(AcceptError::Sync { error: Cause::UnexpectedAbort, .. })),
            ) => true,
            _ => false,
        },
{
}

/// Whatever fails outside the protocol ends the exchange with that failure, naming the peer and the
/// replica as far as it is known.
pub proof fn law_outside_failures_are_reported<M, F, E>(
    v: BobView<M, F>,
    input: BobInput<M, F, E>,
    along: SyncOutcome,
    error: E,
)
    requires
        v.wf(),
        v.expects(input),
        input == BobInput::<M, F, E>::Broken(error) || input == BobInput::<M, F, E>::Started(
            Err(error),
        ) || input == BobInput::<M, F, E>::Processed(Err(error)) || input == BobInput::<
            M,
            F,
            E,
        >::Sent(Err(error)),
    ensures
        ({
            let (w, action) = v.stepped(input, along);
            &&& w.phase is Over
            &&& action matches BobAction::Finish(
                Err(AcceptError::Sync { peer, namespace, error: Cause::Outside(e) }),
            ) && peer == v.peer && namespace == v.namespace && e == error
        }),
{
}

/// An exchange ends well, with the replica that was allowed, once no reply is due or the peer
/// closes its stream; a peer that closes it before its request was allowed fails. A reply that is
/// due is sent, and then the next frame is waited for.
pub proof fn law_exchanges_end_once_no_reply_is_due<M, F, E>(
    v: BobView<M, F>,
    reply: Option<M>,
    progress: SyncOutcome,
    along: SyncOutcome,
)
    requires
        v.wf(),
    ensures
        v.phase is Processing ==> {
            let (w, action) = v.stepped(
                BobInput::<M, F, E>::Processed(Ok((reply, progress))),
                along,
            );
            &&& w.progress == progress
            &&& match reply {
                None => w.phase is Over && (action matches BobAction::Finish(Ok(namespace))
                    && v.namespace == Some(namespace)),
                Some(reply) => {
                    &&& w.phase is Sending
                    &&& action matches BobAction::Send(Message::Sync(sent)) && sent == reply
                    &&& w.stepped(BobInput::<M, F, E>::Sent(Ok(())), along).0.phase is Receiving
                    &&& w.stepped(BobInput::<M, F, E>::Sent(Ok(())), along).1 is Receive
                },
            }
        },
        v.phase is Receiving ==> {
            let (w, action) = v.stepped(BobInput::<M, F, E>::End, along);
            &&& w.phase is Over
            &&& match v.namespace {
                Some(namespace) => action matches BobAction::Finish(Ok(n)) && n == namespace,
                None => action matches BobAction::Finish(
                    Err(
                        AcceptError::Sync {
                            peer,
                            namespace: None,
                            error: Cause::ClosedBeforeInit,
                        },
                    ),
                ) && peer == v.peer,
            }
        },
{
}

/// An exchange is over if and only if it has a result, and then nothing more can be told.
pub proof fn law_exchanges_are_over_with_their_result<M, F, E>(
    v: BobView<M, F>,
    input: BobInput<M, F, E>,
    along: SyncOutcome,
)
    requires
        v.wf(),
        v.expects(input),
    ensures
        !(v.phase is Over),
        v.stepped(input, along).0.phase is Over <==> v.stepped(input, along).1 is Finish,
        v.stepped(input, along).0.wf(),
{
}

} // verus!
