//! The dialing end of a sync exchange.

use std::sync::Arc;

use vstd::prelude::*;

use crate::actor::session::{SyncSession, SyncSessionId};
use crate::keys::{NamespaceId, PeerId};
use crate::net::bob::{BobAction, BobInput, BobView};
use crate::net::codec::Message;
use crate::net::{share, AbortReason, AcceptOutcome, Cause, ConnectError, SyncOutcome};

verus! {

/// What the dialing end is waiting for.
#[derive(Debug, Clone, Copy, PartialEq, Eq, Structural)]
pub enum AlicePhase {
    /// A session to start.
    Starting,
    /// The first message of the reconciliation.
    Opening,
    /// A frame to be sent.
    Sending,
    /// The next frame.
    Receiving,
    /// A message to be processed.
    Processing,
    /// Nothing more.
    Over,
}

/// What the dialing end is told.
pub enum AliceInput<M, E> {
    /// A session was started, or not.
    Started(Result<SyncSession, E>),
    /// The first message of the reconciliation was made, or not.
    Opened(Result<M, E>),
    /// A frame was sent, or not.
    Sent(Result<(), E>),
    /// A frame arrived.
    Frame(Message<M>),
    /// A frame could not be read.
    Broken(E),
    /// The peer closed its stream.
    End,
    /// A message was processed, or not: the reply to it if one is due, and what the exchange has
    /// achieved.
    Processed(Result<(Option<M>, SyncOutcome), E>),
}

/// What the dialing end does next.
pub enum AliceAction<M, F, E> {
    /// Start a session.
    Start {
        /// The replica it reads from.
        namespace: NamespaceId,
    },
    /// Make the first message of the reconciliation.
    Open {
        /// The replica that is synced.
        namespace: NamespaceId,
        /// The session that the exchange reads from.
        session: SyncSessionId,
        /// What the peer is shown.
        filter: Option<Arc<F>>,
    },
    /// Send a frame.
    Send(Message<M>),
    /// Wait for the next frame.
    Receive,
    /// Process a message.
    Process {
        /// The replica that is synced.
        namespace: NamespaceId,
        /// The message.
        message: M,
        /// The peer that sent it.
        from: PeerId,
        /// What the exchange has achieved before.
        progress: SyncOutcome,
        /// The session that the exchange reads from.
        session: SyncSessionId,
        /// What the peer is shown.
        filter: Option<Arc<F>>,
    },
    /// Stop, with this result.
    Finish(Result<SyncOutcome, ConnectError<E>>),
}

/// What the dialing end holds.
pub struct AliceView<F> {
    /// The replica that is synced.
    pub namespace: NamespaceId,
    /// The peer.
    pub peer: PeerId,
    /// What the peer is shown.
    pub filter: Option<Arc<F>>,
    /// What the rounds that completed achieved, while no round has it along.
    pub progress: SyncOutcome,
    /// The session, once it was started.
    pub session: Option<SyncSession>,
    /// What is waited for.
    pub phase: AlicePhase,
}

impl<F> AliceView<F> {
    /// What holds of the dialing end at all times: but for its start and its end, it has a session.
    pub open spec fn wf(self) -> bool {
        match self.phase {
            AlicePhase::Starting => self.session is None,
            AlicePhase::Over => true,
            _ => self.session is Some,
        }
    }

    /// Whether this can be told in this phase.
    pub open spec fn expects<M, E>(self, input: AliceInput<M, E>) -> bool {
        match (self.phase, input) {
            (AlicePhase::Starting, AliceInput::Started(_)) => true,
            (AlicePhase::Opening, AliceInput::Opened(_)) => true,
            (AlicePhase::Sending, AliceInput::Sent(_)) => true,
            (AlicePhase::Receiving, AliceInput::Frame(_)) => true,
            (AlicePhase::Receiving, AliceInput::Broken(_)) => true,
            (AlicePhase::Receiving, AliceInput::End) => true,
            (AlicePhase::Processing, AliceInput::Processed(_)) => true,
            _ => false,
        }
    }

    /// A failure of the exchange.
    pub open spec fn failed<M, E>(self, error: Cause<E>) -> (AliceView<F>, AliceAction<M, F, E>) {
        (
            AliceView { phase: AlicePhase::Over, ..self },
            AliceAction::Finish(Err(ConnectError::Sync { error })),
        )
    }

    /// What the dialing end makes of what it is told; `fresh` is what is left in place of what a
    /// round, or the end, takes along.
    pub open spec fn stepped<M, E>(self, input: AliceInput<M, E>, fresh: SyncOutcome) -> (
        AliceView<F>,
        AliceAction<M, F, E>,
    ) {
        match input {
            AliceInput::Started(Err(e)) => self.failed(Cause::Outside(e)),
            AliceInput::Started(Ok(session)) => (
                AliceView { session: Some(session), phase: AlicePhase::Opening, ..self },
                AliceAction::Open {
                    namespace: self.namespace,
                    session: session.id,
                    filter: self.filter,
                },
            ),
            AliceInput::Opened(Err(e)) => self.failed(Cause::Outside(e)),
            AliceInput::Opened(Ok(message)) => (
                AliceView { phase: AlicePhase::Sending, ..self },
                AliceAction::Send(Message::Init { namespace: self.namespace, message }),
            ),
            AliceInput::Sent(Err(e)) => self.failed(Cause::Outside(e)),
            AliceInput::Sent(Ok(())) => (
                AliceView { phase: AlicePhase::Receiving, ..self },
                AliceAction::Receive,
            ),
            AliceInput::Broken(e) => self.failed(Cause::Outside(e)),
            AliceInput::End => (
                AliceView { progress: fresh, phase: AlicePhase::Over, ..self },
                AliceAction::Finish(Ok(self.progress)),
            ),
            AliceInput::Frame(Message::Init { .. }) => self.failed(Cause::UnexpectedInit),
            AliceInput::Frame(Message::Abort { reason }) => (
                AliceView { phase: AlicePhase::Over, ..self },
                AliceAction::Finish(Err(ConnectError::RemoteAbort(reason))),
            ),
            AliceInput::Frame(Message::Sync(message)) => (
                AliceView { progress: fresh, phase: AlicePhase::Processing, ..self },
                AliceAction::Process {
                    namespace: self.namespace,
                    message,
                    from: self.peer,
                    progress: self.progress,
                    session: self.session->Some_0.id,
                    filter: self.filter,
                },
            ),
            AliceInput::Processed(Err(e)) => self.failed(Cause::Outside(e)),
            AliceInput::Processed(Ok((Some(reply), progress))) => (
                AliceView { progress, phase: AlicePhase::Sending, ..self },
                AliceAction::Send(Message::Sync(reply)),
            ),
            AliceInput::Processed(Ok((None, progress))) => (
                AliceView { progress: fresh, phase: AlicePhase::Over, ..self },
                AliceAction::Finish(Ok(progress)),
            ),
        }
    }
}

/// The dialing end of one connection's exchange.
pub struct AliceState<F> {
    namespace: NamespaceId,
    peer: PeerId,
    filter: Option<Arc<F>>,
    progress: SyncOutcome,
    session: Option<SyncSession>,
    phase: AlicePhase,
}

impl<F> View for AliceState<F> {
    type V = AliceView<F>;

    closed spec fn view(&self) -> AliceView<F> {
        AliceView {
            namespace: self.namespace,
            peer: self.peer,
            filter: self.filter,
            progress: self.progress,
            session: self.session,
            phase: self.phase,
        }
    }
}

impl<F> AliceState<F> {
    /// The start of an exchange about a replica with a peer: start a session.
    ///
    /// The session's snapshot is frozen before the first message: entries written later travel on
    /// the next exchange.
    pub fn start<M, E>(namespace: NamespaceId, peer: PeerId, filter: Option<Arc<F>>) -> (r: (
        Self,
        AliceAction<M, F, E>,
    ))
        ensures
            r.0@.wf(),
            r.0@.namespace == namespace,
            r.0@.peer == peer,
            r.0@.filter == filter,
            r.0@.progress.is_nothing(),
            r.0@.session is None,
            r.0@.phase == AlicePhase::Starting,
            r.1 == (AliceAction::<M, F, E>::Start { namespace }),
    {
        let state = AliceState {
            namespace,
            peer,
            filter,
            progress: SyncOutcome::default(),
            session: None,
            phase: AlicePhase::Starting,
        };
        (state, AliceAction::Start { namespace })
    }

    /// Ends the exchange with a failure.
    fn give_up<M, E>(&mut self, reason: Cause<E>) -> (r: AliceAction<M, F, E>)
        ensures
            (final(self)@, r) == old(self)@.failed::<M, E>(reason),
    {
        self.phase = AlicePhase::Over;
        AliceAction::Finish(Err(ConnectError::sync(reason)))
    }

    /// Takes what was achieved out of the state.
    fn take_progress(&mut self) -> (r: SyncOutcome)
        ensures
            r == old(self)@.progress,
            final(self)@.progress.is_nothing(),
            final(self)@ == (AliceView { progress: final(self)@.progress, ..old(self)@ }),
    {
        let mut taken = SyncOutcome::default();
        std::mem::swap(&mut taken, &mut self.progress);
        taken
    }

    /// Goes on with what happened.
    pub fn step<M, E>(&mut self, input: AliceInput<M, E>) -> (r: AliceAction<M, F, E>)
        requires
            old(self)@.wf(),
            old(self)@.expects(input),
        ensures
            final(self)@.wf(),
            (final(self)@, r) == old(self)@.stepped(input, final(self)@.progress),
            r is Process ==> final(self)@.progress.is_nothing(),
    {
        match input {
            AliceInput::Started(Err(e)) => self.give_up(Cause::Outside(e)),
            AliceInput::Started(Ok(session)) => {
                let id = session.id();
                self.session = Some(session);
                self.phase = AlicePhase::Opening;
                AliceAction::Open {
                    namespace: self.namespace,
                    session: id,
                    filter: share(&self.filter),
                }
            },
            AliceInput::Opened(Err(e)) => self.give_up(Cause::Outside(e)),
            AliceInput::Opened(Ok(message)) => {
                self.phase = AlicePhase::Sending;
                AliceAction::Send(Message::Init { namespace: self.namespace, message })
            },
            AliceInput::Sent(Err(e)) => self.give_up(Cause::Outside(e)),
            AliceInput::Sent(Ok(())) => {
                self.phase = AlicePhase::Receiving;
                AliceAction::Receive
            },
            AliceInput::Broken(e) => self.give_up(Cause::Outside(e)),
            AliceInput::End => {
                let progress = self.take_progress();
                self.phase = AlicePhase::Over;
                AliceAction::Finish(Ok(progress))
            },
            AliceInput::Frame(Message::Init { .. }) => self.give_up(Cause::UnexpectedInit),
            AliceInput::Frame(Message::Abort { reason }) => {
                self.phase = AlicePhase::Over;
                AliceAction::Finish(Err(ConnectError::remote_abort(reason)))
            },
            AliceInput::Frame(Message::Sync(message)) => match &self.session {
                None => AliceAction::Receive,
                Some(session) => {
                    let session = session.id();
                    let progress = self.take_progress();
                    self.phase = AlicePhase::Processing;
                    AliceAction::Process {
                        namespace: self.namespace,
                        message,
                        from: self.peer,
                        progress,
                        session,
                        filter: share(&self.filter),
                    }
                },
            },
            AliceInput::Processed(Err(e)) => self.give_up(Cause::Outside(e)),
            AliceInput::Processed(Ok((Some(reply), progress))) => {
                self.progress = progress;
                self.phase = AlicePhase::Sending;
                AliceAction::Send(Message::Sync(reply))
            },
            AliceInput::Processed(Ok((None, progress))) => {
                self.phase = AlicePhase::Over;
                AliceAction::Finish(Ok(progress))
            },
        }
    }
}

impl<F> AliceView<F> {
    /// The dialing end after it was told all this; each time with what is left in place of what a
    /// round takes along.
    pub open spec fn after<M, E>(self, told: Seq<(AliceInput<M, E>, SyncOutcome)>) -> AliceView<F>
        decreases told.len(),
    {
        if told.len() == 0 {
            self
        } else {
            self.after(told.drop_last()).stepped(told.last().0, told.last().1).0
        }
    }

    /// Whether each of these can be told when its turn comes.
    pub open spec fn expects_all<M, E>(self, told: Seq<(AliceInput<M, E>, SyncOutcome)>) -> bool
        decreases told.len(),
    {
        told.len() > 0 ==> self.expects_all(told.drop_last()) && self.after(
            told.drop_last(),
        ).expects(told.last().0)
    }
}

/// Everything that can be told keeps what holds of the dialing end at all times, the replica, the
/// peer and the filter; and once a session is started, it stays.
pub proof fn law_steps_keep_the_session<M, F, E>(
    v: AliceView<F>,
    told: Seq<(AliceInput<M, E>, SyncOutcome)>,
)
    requires
        v.wf(),
        v.expects_all(told),
    ensures
        v.after(told).wf(),
        v.after(told).namespace == v.namespace,
        v.after(told).peer == v.peer,
        v.after(told).filter == v.filter,
        v.session is Some ==> v.after(told).session == v.session,
    decreases told.len(),
{
    if told.len() > 0 {
        law_steps_keep_the_session(v, told.drop_last());
    }
}

/// The first frame opens the exchange about the replica, with the message made from the session's
/// snapshot.
pub proof fn law_exchanges_are_opened_from_the_snapshot<M, F, E>(
    v: AliceView<F>,
    session: SyncSession,
    message: M,
    fresh: SyncOutcome,
)
    requires
        v.wf(),
        v.phase is Starting,
    ensures
        ({
            let (opening, open) = v.stepped::<M, E>(AliceInput::Started(Ok(session)), fresh);
            let (sending, send) = opening.stepped::<M, E>(AliceInput::Opened(Ok(message)), fresh);
            &&& open == (AliceAction::<M, F, E>::Open {
                namespace: v.namespace,
                session: session.id,
                filter: v.filter,
            })
            &&& send == AliceAction::<M, F, E>::Send(Message::Init { namespace: v.namespace, message })
            &&& sending.session == Some(session)
        }),
{
}

/// Every round reads from the exchange's own session, is of its replica, shows the peer what its
/// filter admits, and gets along what the rounds before have achieved.
pub proof fn law_rounds_read_the_one_session<M, F, E>(
    v: AliceView<F>,
    input: AliceInput<M, E>,
    fresh: SyncOutcome,
)
    requires
        v.wf(),
        v.expects(input),
    ensures
        v.stepped(input, fresh).1 matches AliceAction::Process {
            namespace,
            from,
            progress,
            session,
            filter,
            ..
        } ==> {
            &&& v.session is Some
            &&& session == v.session->Some_0.id
            &&& namespace == v.namespace
            &&& from == v.peer
            &&& progress == v.progress
            &&& filter == v.filter
        },
{
}

/// What a completed round has achieved is what the next round gets along, and what is reported when
/// the exchange ends.
pub proof fn law_progress_is_handed_on<M, F, E>(
    v: AliceView<F>,
    reply: M,
    progress: SyncOutcome,
    message: M,
    fresh: SyncOutcome,
)
    requires
        v.wf(),
        v.phase is Processing,
    ensures
        ({
            let (sending, _) = v.stepped::<M, E>(
                AliceInput::Processed(Ok((Some(reply), progress))),
                fresh,
            );
            let (receiving, _) = sending.stepped::<M, E>(AliceInput::Sent(Ok(())), fresh);
            let (_, round) = receiving.stepped::<M, E>(
                AliceInput::Frame(Message::Sync(message)),
                fresh,
            );
            let (_, end) = receiving.stepped::<M, E>(AliceInput::End, fresh);
            let (_, done) = v.stepped::<M, E>(AliceInput::Processed(Ok((None, progress))), fresh);
            &&& round matches AliceAction::Process { progress: p, message: m, .. } && p == progress
                && m == message
            &&& end == AliceAction::<M, F, E>::Finish(Ok(progress))
            &&& done == AliceAction::<M, F, E>::Finish(Ok(progress))
        }),
{
}

/// The exchange ends without error only when the peer closes its stream or no reply is due; it
/// never ends well on a frame.
pub proof fn law_exchanges_end_well_only_when_complete<M, F, E>(
    v: AliceView<F>,
    input: AliceInput<M, E>,
    fresh: SyncOutcome,
)
    requires
        v.wf(),
        v.expects(input),
    ensures
        (v.stepped(input, fresh).1 matches AliceAction::Finish(Ok(_))) <==> (input is End || (
        input matches AliceInput::Processed(Ok((None, _))))),
{
}

/// A request that the accepting end refuses fails on the dialing end with the accepting end's
/// reason.
pub proof fn law_refusals_reach_the_dialing_end<M, F, G, E>(
    bob: BobView<M, F>,
    alice: AliceView<G>,
    reason: AbortReason,
    fresh: SyncOutcome,
)
    requires
        bob.wf(),
        bob.phase is Deciding,
        alice.wf(),
        alice.phase is Receiving,
    ensures
        ({
            let answer = bob.stepped(
                BobInput::<M, F, E>::Decided(AcceptOutcome::Reject(reason)),
                fresh,
            ).1;
            &&& answer is Send
            &&& alice.stepped::<M, E>(AliceInput::Frame(answer->Send_0), fresh).1 == AliceAction::<
                M,
                G,
                E,
            >::Finish(Err(ConnectError::RemoteAbort(reason)))
        }),
{
}

/// The frame that opens an exchange makes the accepting end decide about that replica.
pub proof fn law_requests_reach_the_accepting_end<M, F, G, E>(
    alice: AliceView<G>,
    bob: BobView<M, F>,
    message: M,
    fresh: SyncOutcome,
)
    requires
        alice.wf(),
        alice.phase is Opening,
        bob.is_start(),
    ensures
        ({
            let request = alice.stepped::<M, E>(AliceInput::Opened(Ok(message)), fresh).1;
            &&& request is Send
            &&& bob.stepped(BobInput::<M, F, E>::Frame(request->Send_0), fresh).1 == (BobAction::<
                M,
                F,
                E,
            >::Decide { namespace: alice.namespace, peer: bob.peer })
        }),
{
}

/// A frame from the accepting end is processed as it came if it goes on with the exchange, and ends
/// the exchange otherwise: with the reason if it refuses, with a failure if it opens an exchange
/// itself.
pub proof fn law_frames_go_on_or_end_the_exchange<M, F, E>(
    v: AliceView<F>,
    message: Message<M>,
    fresh: SyncOutcome,
)
    requires
        v.wf(),
        v.phase is Receiving,
    ensures
        ({
            let (w, action) = v.stepped::<M, E>(AliceInput::Frame(message), fresh);
            match message {
                Message::Sync(m) => w.phase is Processing && (action matches AliceAction::Process {
                    message: handed,
                    ..
                } && handed == m),
                Message::Abort { reason } => w.phase is Over && (action matches AliceAction::Finish(
                    Err(ConnectError::RemoteAbort(r)),
                ) && r == reason),
                Message::Init { .. } => w.phase is Over && (action matches AliceAction::Finish(
                    Err(ConnectError::Sync { error: Cause::UnexpectedInit }),
                )),
            }
        }),
{
}

/// Whatever fails outside the protocol ends the exchange with that failure.
pub proof fn law_outside_failures_are_reported<M, F, E>(
    v: AliceView<F>,
    input: AliceInput<M, E>,
    fresh: SyncOutcome,
    error: E,
)
    requires
        v.wf(),
        v.expects(input),
        input == AliceInput::<M, E>::Started(Err(error)) || input == AliceInput::<M, E>::Opened(
            Err(error),
        ) || input == AliceInput::<M, E>::Sent(Err(error)) || input == AliceInput::<M, E>::Broken(
            error,
        ) || input == AliceInput::<M, E>::Processed(Err(error)),
    ensures
        ({
            let (w, action) = v.stepped(input, fresh);
            &&& w.phase is Over
            &&& action matches AliceAction::Finish(
                Err(ConnectError::Sync { error: Cause::Outside(e) }),
            ) && e == error
        }),
{
}

/// A reply that is due is sent, and after every frame that was sent the next one is waited for.
pub proof fn law_replies_are_sent<M, F, E>(
    v: AliceView<F>,
    reply: M,
    progress: SyncOutcome,
    fresh: SyncOutcome,
)
    requires
        v.wf(),
    ensures
        v.phase is Processing ==> {
            let (w, action) = v.stepped::<M, E>(
                AliceInput::Processed(Ok((Some(reply), progress))),
                fresh,
            );
            &&& w.phase is Sending
            &&& action matches AliceAction::Send(Message::Sync(sent)) && sent == reply
        },
        v.phase is Sending ==> {
            let (w, action) = v.stepped::<M, E>(AliceInput::Sent(Ok(())), fresh);
            &&& w.phase is Receiving
            &&& action is Receive
        },
{
}

/// An exchange is over if and only if it has a result, and then nothing more can be told.
pub proof fn law_exchanges_are_over_with_their_result<M, F, E>(
    v: AliceView<F>,
    input: AliceInput<M, E>,
    fresh: SyncOutcome,
)
    requires
        v.wf(),
        v.expects(input),
    ensures
        !(v.phase is Over),
        v.stepped(input, fresh).0.phase is Over <==> v.stepped(input, fresh).1 is Finish,
{
}

/// What one end replies is what the other end processes, in both directions.
pub proof fn law_replies_reach_the_other_end<M, F, G, E>(
    alice: AliceView<G>,
    bob: BobView<M, F>,
    reply: M,
    progress: SyncOutcome,
    along: SyncOutcome,
)
    requires
        alice.wf(),
        bob.wf(),
        bob.session is Some,
    ensures
        alice.phase is Processing && bob.phase is Receiving ==> {
            let sent = alice.stepped::<M, E>(
                AliceInput::Processed(Ok((Some(reply), progress))),
                along,
            ).1;
            &&& sent is Send
            &&& bob.stepped(BobInput::<M, F, E>::Frame(sent->Send_0), along).1 matches
                BobAction::Process { message, from, .. } && message == reply && from == bob.peer
        },
        bob.phase is Processing && alice.phase is Receiving ==> {
            let sent = bob.stepped(
                BobInput::<M, F, E>::Processed(Ok((Some(reply), progress))),
                along,
            ).1;
            &&& sent is Send
            &&& alice.stepped::<M, E>(AliceInput::Frame(sent->Send_0), along).1 matches
                AliceAction::Process { message, from, .. } && message == reply && from
                == alice.peer
        },
{
}

/// The message that opens an exchange is the one that the accepting end processes first, once it
/// allowed the request and started a session.
pub proof fn law_opening_messages_are_processed_first<M, F, G, E>(
    alice: AliceView<G>,
    bob: BobView<M, F>,
    message: M,
    filter: Option<Arc<F>>,
    session: SyncSession,
    along: SyncOutcome,
)
    requires
        alice.wf(),
        alice.phase is Opening,
        bob.is_start(),
    ensures
        ({
            let request = alice.stepped::<M, E>(AliceInput::Opened(Ok(message)), along).1;
            let deciding = bob.stepped(BobInput::<M, F, E>::Frame(request->Send_0), along).0;
            let starting = deciding.stepped(
                BobInput::<M, F, E>::Decided(AcceptOutcome::Allow { filter }),
                along,
            ).0;
            let process = starting.stepped(
                BobInput::<M, F, E>::Started(Ok(session)),
                along,
            ).1;
            process matches BobAction::Process { message: m, filter: f, session: s, .. } && m
                == message && f == filter && s == session.id
        }),
{
}

} // verus!
