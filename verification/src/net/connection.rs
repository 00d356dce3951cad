//! A whole connection, on either end: establishing it, the exchange, and closing it.

use vstd::prelude::*;

use crate::keys::{NamespaceId, PeerId};
use crate::net::{AcceptError, Cause, ConnectError, SyncFinished, SyncOutcome, Timings};

verus! {

/// What a dialed connection is waiting for.
pub enum DialPhase<E> {
    /// The connection.
    Connecting,
    /// Its stream.
    Opening,
    /// The exchange; establishing the connection took `connect`.
    Exchanging {
        /// The time to establish the connection.
        connect: u64,
    },
    /// The sending half to be finished.
    Finishing {
        /// The time to establish the connection.
        connect: u64,
        /// The result of the exchange.
        res: Result<SyncOutcome, ConnectError<E>>,
    },
    /// The peer to have read all of it.
    Stopping {
        /// The time to establish the connection.
        connect: u64,
        /// The result of the exchange.
        res: Result<SyncOutcome, ConnectError<E>>,
    },
    /// The peer to finish its half.
    Draining {
        /// The time to establish the connection.
        connect: u64,
        /// The result of the exchange.
        res: Result<SyncOutcome, ConnectError<E>>,
    },
    /// The exchange to be counted.
    Counting {
        /// The time to establish the connection.
        connect: u64,
        /// The result of the exchange.
        res: Result<SyncOutcome, ConnectError<E>>,
    },
    /// Nothing more.
    Over,
}

/// What a dialed connection is told. Times are those since its start, in nanoseconds.
pub enum DialInput<E> {
    /// The connection was established, or not.
    Connected(Result<(), E>),
    /// The stream was opened, or not, after so much time.
    Opened(Result<(), E>, u64),
    /// The exchange ended.
    Exchanged(Result<SyncOutcome, ConnectError<E>>),
    /// The sending half was finished, or not.
    Finished(Result<(), E>),
    /// The peer has read all of it, or not.
    Stopped(Result<(), E>),
    /// The peer has finished its half and sent nothing further, or not.
    Drained(Result<(), E>),
    /// The exchange was counted, where anything counts, after so much time.
    Counted(u64),
}

/// What a dialed connection does next.
pub enum DialAction<E> {
    /// Establish the connection.
    Connect,
    /// Open its stream.
    Open,
    /// Run the exchange.
    Exchange,
    /// Finish the sending half.
    Finish,
    /// Wait for the peer to have read all of it.
    AwaitStop,
    /// Wait for the peer to finish its half, and take nothing further.
    Drain,
    /// Count a dialed exchange.
    Count {
        /// Whether it succeeded.
        success: bool,
    },
    /// Stop, with this result.
    Done(Result<SyncFinished, ConnectError<E>>),
}

/// A dialed connection.
pub struct Dial<E> {
    /// The replica that is synced.
    pub namespace: NamespaceId,
    /// The peer.
    pub peer: PeerId,
    /// What is waited for.
    pub phase: DialPhase<E>,
}

impl<E> Dial<E> {
    /// Whether this can be told in this phase. Time does not run backwards.
    pub open spec fn expects(self, input: DialInput<E>) -> bool {
        match (self.phase, input) {
            (DialPhase::Connecting, DialInput::Connected(_)) => true,
            (DialPhase::Opening, DialInput::Opened(_, _)) => true,
            (DialPhase::Exchanging { .. }, DialInput::Exchanged(_)) => true,
            (DialPhase::Finishing { .. }, DialInput::Finished(_)) => true,
            (DialPhase::Stopping { .. }, DialInput::Stopped(_)) => true,
            (DialPhase::Draining { .. }, DialInput::Drained(_)) => true,
            (DialPhase::Counting { connect, .. }, DialInput::Counted(elapsed)) => connect
                <= elapsed,
            _ => false,
        }
    }

    /// The end of the connection.
    pub open spec fn done(self, result: Result<SyncFinished, ConnectError<E>>) -> (
        Dial<E>,
        DialAction<E>,
    ) {
        (Dial { phase: DialPhase::Over, ..self }, DialAction::Done(result))
    }

    /// What becomes of the connection.
    pub open spec fn stepped(self, input: DialInput<E>) -> (Dial<E>, DialAction<E>) {
        match (self.phase, input) {
            (DialPhase::Connecting, DialInput::Connected(Ok(()))) => (
                Dial { phase: DialPhase::Opening, ..self },
                DialAction::Open,
            ),
            (_, DialInput::Connected(Err(e))) => self.done(
                Err(ConnectError::Connect { error: Cause::Outside(e) }),
            ),
            (DialPhase::Opening, DialInput::Opened(Ok(()), connect)) => (
                Dial { phase: DialPhase::Exchanging { connect }, ..self },
                DialAction::Exchange,
            ),
            (_, DialInput::Opened(Err(e), _)) => self.done(
                Err(ConnectError::Connect { error: Cause::Outside(e) }),
            ),
            (DialPhase::Exchanging { connect }, DialInput::Exchanged(res)) => (
                Dial { phase: DialPhase::Finishing { connect, res }, ..self },
                DialAction::Finish,
            ),
            (DialPhase::Finishing { connect, res }, DialInput::Finished(Ok(()))) => (
                Dial { phase: DialPhase::Stopping { connect, res }, ..self },
                DialAction::AwaitStop,
            ),
            (DialPhase::Stopping { connect, res }, DialInput::Stopped(Ok(()))) => (
                Dial { phase: DialPhase::Draining { connect, res }, ..self },
                DialAction::Drain,
            ),
            (DialPhase::Draining { connect, res }, DialInput::Drained(Ok(()))) => (
                Dial { phase: DialPhase::Counting { connect, res }, ..self },
                DialAction::Count { success: res is Ok },
            ),
            (_, DialInput::Finished(Err(e))) => self.done(
                Err(ConnectError::Close { error: Cause::Outside(e) }),
            ),
            (_, DialInput::Stopped(Err(e))) => self.done(
                Err(ConnectError::Close { error: Cause::Outside(e) }),
            ),
            (_, DialInput::Drained(Err(e))) => self.done(
                Err(ConnectError::Close { error: Cause::Outside(e) }),
            ),
            (DialPhase::Counting { connect, res }, DialInput::Counted(elapsed)) => match res {
                Err(e) => self.done(Err(e)),
                Ok(outcome) => self.done(
                    Ok(
                        SyncFinished {
                            namespace: self.namespace,
                            peer: self.peer,
                            outcome,
                            timings: Timings { connect, process: (elapsed - connect) as u64 },
                        },
                    ),
                ),
            },
            _ => (self, DialAction::Connect),
        }
    }

    /// A connection to a peer, to sync a replica: establish it.
    pub fn start(namespace: NamespaceId, peer: PeerId) -> (r: (Self, DialAction<E>))
        ensures
            r == (
                Dial { namespace, peer, phase: DialPhase::<E>::Connecting },
                DialAction::<E>::Connect,
            ),
    {
        (Dial { namespace, peer, phase: DialPhase::Connecting }, DialAction::Connect)
    }

    /// Goes on with what happened.
    pub fn step(&mut self, input: DialInput<E>) -> (r: DialAction<E>)
        requires
            old(self).expects(input),
        ensures
            (*final(self), r) == old(self).stepped(input),
    {
        let mut phase = DialPhase::Over;
        std::mem::swap(&mut phase, &mut self.phase);
        match (phase, input) {
            (DialPhase::Connecting, DialInput::Connected(Ok(()))) => {
                self.phase = DialPhase::Opening;
                DialAction::Open
            },
            (DialPhase::Opening, DialInput::Opened(Ok(()), connect)) => {
                self.phase = DialPhase::Exchanging { connect };
                DialAction::Exchange
            },
            (_, DialInput::Connected(Err(e))) | (_, DialInput::Opened(Err(e), _)) => {
                DialAction::Done(Err(ConnectError::connect(Cause::Outside(e))))
            },
            (DialPhase::Exchanging { connect }, DialInput::Exchanged(res)) => {
                self.phase = DialPhase::Finishing { connect, res };
                DialAction::Finish
            },
            (DialPhase::Finishing { connect, res }, DialInput::Finished(Ok(()))) => {
                self.phase = DialPhase::Stopping { connect, res };
                DialAction::AwaitStop
            },
            (DialPhase::Stopping { connect, res }, DialInput::Stopped(Ok(()))) => {
                self.phase = DialPhase::Draining { connect, res };
                DialAction::Drain
            },
            (DialPhase::Draining { connect, res }, DialInput::Drained(Ok(()))) => {
                let success = res.is_ok();
                self.phase = DialPhase::Counting { connect, res };
                DialAction::Count { success }
            },
            (_, DialInput::Finished(Err(e)))
            | (_, DialInput::Stopped(Err(e)))
            | (_, DialInput::Drained(Err(e))) => {
                DialAction::Done(Err(ConnectError::close(Cause::Outside(e))))
            },
            (DialPhase::Counting { connect, res }, DialInput::Counted(elapsed)) => match res {
                Err(e) => DialAction::Done(Err(e)),
                Ok(outcome) => DialAction::Done(
                    Ok(
                        SyncFinished {
                            namespace: self.namespace,
                            peer: self.peer,
                            outcome,
                            timings: Timings { connect, process: elapsed - connect },
                        },
                    ),
                ),
            },
            _ => DialAction::Connect,
        }
    }
}

/// What the exchange of an accepted connection came to.
pub struct Exchanged<E> {
    /// Its result.
    pub res: Result<NamespaceId, AcceptError<E>>,
    /// The replica, if the request was allowed.
    pub namespace: Option<NamespaceId>,
    /// What its completed rounds achieved.
    pub outcome: SyncOutcome,
}

/// What an accepted connection is waiting for.
pub enum AcceptPhase<E> {
    /// Its stream.
    Opening,
    /// The exchange; establishing the connection took `connect`.
    Exchanging {
        /// The time to establish the connection.
        connect: u64,
    },
    /// The exchange to be counted.
    Counting {
        /// The time to establish the connection.
        connect: u64,
        /// What the exchange came to.
        exchanged: Exchanged<E>,
    },
    /// The sending half to be finished.
    Finishing {
        /// The time to establish the connection.
        connect: u64,
        /// What the exchange came to.
        exchanged: Exchanged<E>,
    },
    /// The peer to have read all of it.
    Stopping {
        /// The time to establish the connection.
        connect: u64,
        /// What the exchange came to.
        exchanged: Exchanged<E>,
    },
    /// The peer to finish its half.
    Draining {
        /// The time to establish the connection.
        connect: u64,
        /// What the exchange came to.
        exchanged: Exchanged<E>,
    },
    /// Nothing more.
    Over,
}

/// What an accepted connection is told. Times are those since its start, in nanoseconds.
pub enum AcceptInput<E> {
    /// The stream was opened, or not, after so much time.
    Opened(Result<(), E>, u64),
    /// The exchange ended.
    Exchanged(Exchanged<E>),
    /// The exchange was counted, where anything counts.
    Counted,
    /// The sending half was finished, or not.
    Finished(Result<(), E>),
    /// The peer has read all of it, or not.
    Stopped(Result<(), E>),
    /// The peer has finished its half and sent nothing further, or not, after so much time.
    Drained(Result<(), E>, u64),
}

/// What an accepted connection does next.
pub enum AcceptAction<E> {
    /// Open its stream.
    Open,
    /// Run the exchange.
    Exchange,
    /// Count an accepted exchange.
    Count {
        /// Whether it succeeded.
        success: bool,
    },
    /// Finish the sending half.
    Finish,
    /// Wait for the peer to have read all of it.
    AwaitStop,
    /// Wait for the peer to finish its half, and take nothing further.
    Drain,
    /// Stop, with this result.
    Done(Result<SyncFinished, AcceptError<E>>),
}

/// An accepted connection.
pub struct Accept<E> {
    /// The peer.
    pub peer: PeerId,
    /// What is waited for.
    pub phase: AcceptPhase<E>,
}

impl<E> Accept<E> {
    /// Whether this can be told in this phase. Time does not run backwards.
    pub open spec fn expects(self, input: AcceptInput<E>) -> bool {
        match (self.phase, input) {
            (AcceptPhase::Opening, AcceptInput::Opened(_, _)) => true,
            (AcceptPhase::Exchanging { .. }, AcceptInput::Exchanged(_)) => true,
            (AcceptPhase::Counting { .. }, AcceptInput::Counted) => true,
            (AcceptPhase::Finishing { .. }, AcceptInput::Finished(_)) => true,
            (AcceptPhase::Stopping { .. }, AcceptInput::Stopped(_)) => true,
            (AcceptPhase::Draining { connect, .. }, AcceptInput::Drained(_, elapsed)) => connect
                <= elapsed,
            _ => false,
        }
    }

    /// The end of the connection.
    pub open spec fn done(self, result: Result<SyncFinished, AcceptError<E>>) -> (
        Accept<E>,
        AcceptAction<E>,
    ) {
        (Accept { phase: AcceptPhase::Over, ..self }, AcceptAction::Done(result))
    }

    /// The end of a connection that could not be closed: the exchange's own error wins, because
    /// closing fails as a consequence of whatever ended the exchange.
    pub open spec fn not_closed(self, exchanged: Exchanged<E>, error: E) -> (
        Accept<E>,
        AcceptAction<E>,
    ) {
        match exchanged.res {
            Err(e) => self.done(Err(e)),
            Ok(_) => self.done(
                Err(
                    AcceptError::Close {
                        peer: self.peer,
                        namespace: exchanged.namespace,
                        error: Cause::Outside(error),
                    },
                ),
            ),
        }
    }

    /// What becomes of the connection.
    pub open spec fn stepped(self, input: AcceptInput<E>) -> (Accept<E>, AcceptAction<E>) {
        match (self.phase, input) {
            (_, AcceptInput::Opened(Ok(()), connect)) => (
                Accept { phase: AcceptPhase::Exchanging { connect }, ..self },
                AcceptAction::Exchange,
            ),
            (_, AcceptInput::Opened(Err(e), _)) => self.done(
                Err(AcceptError::Open { peer: self.peer, error: Cause::Outside(e) }),
            ),
            (AcceptPhase::Exchanging { connect }, AcceptInput::Exchanged(exchanged)) => (
                Accept { phase: AcceptPhase::Counting { connect, exchanged }, ..self },
                AcceptAction::Count { success: exchanged.res is Ok },
            ),
            (AcceptPhase::Counting { connect, exchanged }, AcceptInput::Counted) => (
                Accept { phase: AcceptPhase::Finishing { connect, exchanged }, ..self },
                AcceptAction::Finish,
            ),
            (AcceptPhase::Finishing { connect, exchanged }, AcceptInput::Finished(Ok(()))) => (
                Accept { phase: AcceptPhase::Stopping { connect, exchanged }, ..self },
                AcceptAction::AwaitStop,
            ),
            (AcceptPhase::Finishing { exchanged, .. }, AcceptInput::Finished(Err(e))) =>
                self.not_closed(exchanged, e),
            (AcceptPhase::Stopping { connect, exchanged }, AcceptInput::Stopped(Ok(()))) => (
                Accept { phase: AcceptPhase::Draining { connect, exchanged }, ..self },
                AcceptAction::Drain,
            ),
            (AcceptPhase::Stopping { exchanged, .. }, AcceptInput::Stopped(Err(e))) =>
                self.not_closed(exchanged, e),
            (AcceptPhase::Draining { exchanged, .. }, AcceptInput::Drained(Err(e), _)) =>
                self.not_closed(exchanged, e),
            (
                AcceptPhase::Draining { connect, exchanged },
                AcceptInput::Drained(Ok(()), elapsed),
            ) => match exchanged.res {
                Err(e) => self.done(Err(e)),
                Ok(namespace) => self.done(
                    Ok(
                        SyncFinished {
                            namespace,
                            peer: self.peer,
                            outcome: exchanged.outcome,
                            timings: Timings { connect, process: (elapsed - connect) as u64 },
                        },
                    ),
                ),
            },
            _ => (self, AcceptAction::Open),
        }
    }

    /// A connection from a peer: open its stream.
    pub fn start(peer: PeerId) -> (r: (Self, AcceptAction<E>))
        ensures
            r == (
                Accept { peer, phase: AcceptPhase::<E>::Opening },
                AcceptAction::<E>::Open,
            ),
    {
        (Accept { peer, phase: AcceptPhase::Opening }, AcceptAction::Open)
    }

    /// Ends a connection that could not be closed.
    fn give_up(&mut self, exchanged: Exchanged<E>, error: E) -> (r: AcceptAction<E>)
        ensures
            (*final(self), r) == old(self).not_closed(exchanged, error),
    {
        self.phase = AcceptPhase::Over;
        match exchanged.res {
            Err(e) => AcceptAction::Done(Err(e)),
            Ok(_) => AcceptAction::Done(
                Err(AcceptError::close(self.peer, exchanged.namespace, Cause::Outside(error))),
            ),
        }
    }

    /// Goes on with what happened.
    pub fn step(&mut self, input: AcceptInput<E>) -> (r: AcceptAction<E>)
        requires
            old(self).expects(input),
        ensures
            (*final(self), r) == old(self).stepped(input),
    {
        let mut phase = AcceptPhase::Over;
        std::mem::swap(&mut phase, &mut self.phase);
        match (phase, input) {
            (_, AcceptInput::Opened(Ok(()), connect)) => {
                self.phase = AcceptPhase::Exchanging { connect };
                AcceptAction::Exchange
            },
            (_, AcceptInput::Opened(Err(e), _)) => {
                AcceptAction::Done(Err(AcceptError::open(self.peer, Cause::Outside(e))))
            },
            (AcceptPhase::Exchanging { connect }, AcceptInput::Exchanged(exchanged)) => {
                let success = exchanged.res.is_ok();
                self.phase = AcceptPhase::Counting { connect, exchanged };
                AcceptAction::Count { success }
            },
            (AcceptPhase::Counting { connect, exchanged }, AcceptInput::Counted) => {
                self.phase = AcceptPhase::Finishing { connect, exchanged };
                AcceptAction::Finish
            },
            (AcceptPhase::Finishing { connect, exchanged }, AcceptInput::Finished(Ok(()))) => {
                self.phase = AcceptPhase::Stopping { connect, exchanged };
                AcceptAction::AwaitStop
            },
            (AcceptPhase::Finishing { exchanged, .. }, AcceptInput::Finished(Err(e))) => {
                self.give_up(exchanged, e)
            },
            (AcceptPhase::Stopping { connect, exchanged }, AcceptInput::Stopped(Ok(()))) => {
                self.phase = AcceptPhase::Draining { connect, exchanged };
                AcceptAction::Drain
            },
            (AcceptPhase::Stopping { exchanged, .. }, AcceptInput::Stopped(Err(e))) => {
                self.give_up(exchanged, e)
            },
            (AcceptPhase::Draining { exchanged, .. }, AcceptInput::Drained(Err(e), _)) => {
                self.give_up(exchanged, e)
            },
            (
                AcceptPhase::Draining { connect, exchanged },
                AcceptInput::Drained(Ok(()), elapsed),
            ) => match exchanged.res {
                Err(e) => AcceptAction::Done(Err(e)),
                Ok(namespace) => AcceptAction::Done(
                    Ok(
                        SyncFinished {
                            namespace,
                            peer: self.peer,
                            outcome: exchanged.outcome,
                            timings: Timings { connect, process: elapsed - connect },
                        },
                    ),
                ),
            },
            _ => AcceptAction::Open,
        }
    }
}

/// The result of a dialed connection that is bounded in time; `res` is `None` where the bound was
/// reached.
pub fn connect_within_bound<E>(res: Option<Result<SyncFinished, ConnectError<E>>>) -> (r: Result<
    SyncFinished,
    ConnectError<E>,
>)
    ensures
        r == (match res {
            Some(res) => res,
            None => Err(ConnectError::Connect { error: Cause::TimedOut }),
        }),
{
    match res {
        Some(res) => res,
        None => Err(ConnectError::connect(Cause::TimedOut)),
    }
}

/// Remembers the replica that an accepted connection asked for.
///
/// It is remembered when the decision is asked for rather than when it comes back, because the
/// bound in time can be reached while the decision is still being made.
#[derive(Debug, Clone, Copy)]
pub struct AcceptWatch {
    /// The replica of the first request.
    pub accepted: Option<NamespaceId>,
}

/// What is remembered once a decision is asked for: the first request.
pub open spec fn observed(watch: AcceptWatch, namespace: NamespaceId) -> AcceptWatch {
    match watch.accepted {
        Some(_) => watch,
        None => AcceptWatch { accepted: Some(namespace) },
    }
}

impl AcceptWatch {
    /// Nothing was asked for yet.
    pub fn new() -> (w: Self)
        ensures
            w.accepted is None,
    {
        AcceptWatch { accepted: None }
    }

    /// A decision is asked for. The first request is the one remembered.
    pub fn observe(&mut self, namespace: NamespaceId)
        ensures
            *final(self) == observed(*old(self), namespace),
    {
        if self.accepted.is_none() {
            self.accepted = Some(namespace);
        }
    }

    /// The result of an accepted connection that is bounded in time; `res` is `None` where the
    /// bound was reached. The error then names the replica that was asked for: without it, it would
    /// read as a failure before the first message, and the pair would count as exchanging for good.
    pub fn accept_within_bound<E>(
        &self,
        peer: PeerId,
        res: Option<Result<SyncFinished, AcceptError<E>>>,
    ) -> (r: Result<SyncFinished, AcceptError<E>>)
        ensures
            r == (match res {
                Some(res) => res,
                None => Err(
                    AcceptError::Sync {
                        peer,
                        namespace: self.accepted,
                        error: Cause::TimedOut,
                    },
                ),
            }),
    {
        match res {
            Some(res) => res,
            None => Err(AcceptError::sync(peer, self.accepted, Cause::TimedOut)),
        }
    }
}

impl<E> Dial<E> {
    /// The result of the exchange, once it is known.
    pub open spec fn exchanged(self) -> Option<Result<SyncOutcome, ConnectError<E>>> {
        match self.phase {
            DialPhase::Finishing { res, .. } => Some(res),
            DialPhase::Stopping { res, .. } => Some(res),
            DialPhase::Draining { res, .. } => Some(res),
            DialPhase::Counting { res, .. } => Some(res),
            _ => None,
        }
    }

    /// The connection after it was told all this.
    pub open spec fn after(self, told: Seq<DialInput<E>>) -> Dial<E>
        decreases told.len(),
    {
        if told.len() == 0 {
            self
        } else {
            self.after(told.drop_last()).stepped(told.last()).0
        }
    }

    /// Whether each of these can be told when its turn comes.
    pub open spec fn expects_all(self, told: Seq<DialInput<E>>) -> bool
        decreases told.len(),
    {
        told.len() > 0 ==> self.expects_all(told.drop_last()) && self.after(
            told.drop_last(),
        ).expects(told.last())
    }

    /// How often an exchange was counted.
    pub open spec fn counts(self, told: Seq<DialInput<E>>) -> nat
        decreases told.len(),
    {
        if told.len() == 0 {
            0
        } else {
            let action = self.after(told.drop_last()).stepped(told.last()).1;
            self.counts(told.drop_last()) + if action is Count {
                1nat
            } else {
                0
            }
        }
    }
}

impl<E> Accept<E> {
    /// What the exchange came to, once it is known.
    pub open spec fn exchanged(self) -> Option<Exchanged<E>> {
        match self.phase {
            AcceptPhase::Counting { exchanged, .. } => Some(exchanged),
            AcceptPhase::Finishing { exchanged, .. } => Some(exchanged),
            AcceptPhase::Stopping { exchanged, .. } => Some(exchanged),
            AcceptPhase::Draining { exchanged, .. } => Some(exchanged),
            _ => None,
        }
    }

    /// The connection after it was told all this.
    pub open spec fn after(self, told: Seq<AcceptInput<E>>) -> Accept<E>
        decreases told.len(),
    {
        if told.len() == 0 {
            self
        } else {
            self.after(told.drop_last()).stepped(told.last()).0
        }
    }

    /// Whether each of these can be told when its turn comes.
    pub open spec fn expects_all(self, told: Seq<AcceptInput<E>>) -> bool
        decreases told.len(),
    {
        told.len() > 0 ==> self.expects_all(told.drop_last()) && self.after(
            told.drop_last(),
        ).expects(told.last())
    }

    /// How often an exchange was counted.
    pub open spec fn counts(self, told: Seq<AcceptInput<E>>) -> nat
        decreases told.len(),
    {
        if told.len() == 0 {
            0
        } else {
            let action = self.after(told.drop_last()).stepped(told.last()).1;
            self.counts(told.drop_last()) + if action is Count {
                1nat
            } else {
                0
            }
        }
    }
}

/// A dialed exchange is counted at most once, and not before its connection was closed.
pub proof fn law_dialed_exchanges_are_counted_once<E>(d: Dial<E>, told: Seq<DialInput<E>>)
    requires
        d.phase is Connecting,
        d.expects_all(told),
    ensures
        d.counts(told) <= 1,
        d.counts(told) == 1 ==> d.after(told).phase is Counting || d.after(told).phase is Over,
        d.after(told).phase is Counting ==> d.counts(told) == 1,
    decreases told.len(),
{
    if told.len() > 0 {
        law_dialed_exchanges_are_counted_once(d, told.drop_last());
    }
}

/// Once the exchange of a dialed connection is over, a failure to close the connection is what is
/// reported, whatever the exchange came to; without one, the exchange's own result is, counted as
/// it came out.
pub proof fn law_dialed_close_errors_win<E>(d: Dial<E>, input: DialInput<E>)
    requires
        d.expects(input),
        d.exchanged() is Some,
    ensures
        match (d.stepped(input).1, input) {
            (DialAction::Done(r), DialInput::Counted(elapsed)) => r == (
            match d.exchanged()->Some_0 {
                Err(e) => Err::<SyncFinished, ConnectError<E>>(e),
                Ok(outcome) => Ok(
                    SyncFinished {
                        namespace: d.namespace,
                        peer: d.peer,
                        outcome,
                        timings: Timings {
                            connect: d.phase->Counting_connect,
                            process: (elapsed - d.phase->Counting_connect) as u64,
                        },
                    },
                ),
            }),
            (DialAction::Done(r), _) => r matches Err(ConnectError::Close { .. }),
            (DialAction::Count { success }, _) => success == (d.exchanged()->Some_0 is Ok)
                && input is Drained && d.stepped(input).0.exchanged() == d.exchanged(),
            _ => d.stepped(input).0.exchanged() == d.exchanged(),
        },
{
}

/// An accepted exchange is counted once, as soon as it ended: before the connection is closed, and
/// whether or not closing it fails.
pub proof fn law_accepted_exchanges_are_counted_once<E>(a: Accept<E>, told: Seq<AcceptInput<E>>)
    requires
        a.phase is Opening,
        a.expects_all(told),
    ensures
        a.counts(told) == (if exists|i: int|
            0 <= i < told.len() && (#[trigger] told[i]) is Exchanged {
            1nat
        } else {
            0
        }),
        a.after(told).exchanged() is Some ==> a.counts(told) == 1,
        a.after(told).phase is Opening || a.after(told).phase is Exchanging ==> a.counts(told) == 0,
    decreases told.len(),
{
    if told.len() > 0 {
        let before = told.drop_last();
        law_accepted_exchanges_are_counted_once(a, before);
        if told.last() is Exchanged {
            assert(told[told.len() - 1] is Exchanged);
        } else if a.counts(before) == 1 {
            let i = choose|i: int| 0 <= i < before.len() && (#[trigger] before[i]) is Exchanged;
            assert(told[i] is Exchanged);
        } else {
            assert forall|i: int| 0 <= i < told.len() implies !((#[trigger] told[i]) is Exchanged) by {
                if i < before.len() {
                    assert(before[i] == told[i]);
                }
            }
        }
    }
}

/// Once the exchange of an accepted connection is over, its own error is what is reported, whether
/// or not the connection could be closed; only after an exchange without error is a failure to
/// close reported, and it names the replica.
pub proof fn law_accepted_exchange_errors_win<E>(a: Accept<E>, input: AcceptInput<E>)
    requires
        a.expects(input),
        a.exchanged() is Some,
    ensures
        match a.stepped(input).1 {
            AcceptAction::Done(r) => match (a.exchanged()->Some_0.res, r) {
                (Err(e), _) => r == Err::<SyncFinished, AcceptError<E>>(e),
                (Ok(namespace), Ok(finished)) => finished.namespace == namespace && finished.peer
                    == a.peer && finished.outcome == a.exchanged()->Some_0.outcome,
                (Ok(_), Err(e)) => e is Close && e.named_namespace()
                    == a.exchanged()->Some_0.namespace && e.named_peer() == Some(a.peer),
            },
            _ => a.stepped(input).0.exchanged() == a.exchanged(),
        },
{
}

/// The replica that an accepted connection asked for first is remembered for good, whatever is
/// asked for later; so an error at the bound in time names it.
pub proof fn law_the_first_request_is_remembered(
    watch: AcceptWatch,
    first: NamespaceId,
    later: Seq<NamespaceId>,
)
    requires
        watch.accepted is None,
    ensures
        later.fold_left(
            observed(watch, first),
            |w: AcceptWatch, n: NamespaceId| observed(w, n),
        ).accepted == Some(first),
    decreases later.len(),
{
    if later.len() > 0 {
        law_the_first_request_is_remembered(watch, first, later.drop_last());
    }
}

/// What a run of an accepted connection leaves of what it was told: the peer stays, the time to
/// establish the connection is the one that was told when its stream was opened, and what the
/// exchange came to is what was told of it.
proof fn lemma_accepted_runs_keep_what_was_told<E>(a: Accept<E>, told: Seq<AcceptInput<E>>)
    requires
        a.phase is Opening,
        a.expects_all(told),
    ensures
        a.after(told).peer == a.peer,
        match a.after(told).phase {
            AcceptPhase::Opening => told.len() == 0,
            AcceptPhase::Exchanging { connect } => told.len() == 1 && (told[0] matches
                AcceptInput::Opened(Ok(()), t) && t == connect),
            AcceptPhase::Over => true,
            AcceptPhase::Counting { connect, exchanged } => told.len() == 2 && (told[0] matches
                AcceptInput::Opened(Ok(()), t) && t == connect) && (told[1] matches
                AcceptInput::Exchanged(x) && x == exchanged),
            AcceptPhase::Finishing { connect, exchanged } => told.len() == 3 && (told[0] matches
                AcceptInput::Opened(Ok(()), t) && t == connect) && (told[1] matches
                AcceptInput::Exchanged(x) && x == exchanged),
            AcceptPhase::Stopping { connect, exchanged } => told.len() == 4 && (told[0] matches
                AcceptInput::Opened(Ok(()), t) && t == connect) && (told[1] matches
                AcceptInput::Exchanged(x) && x == exchanged),
            AcceptPhase::Draining { connect, exchanged } => told.len() == 5 && (told[0] matches
                AcceptInput::Opened(Ok(()), t) && t == connect) && (told[1] matches
                AcceptInput::Exchanged(x) && x == exchanged),
        },
    decreases told.len(),
{
    if told.len() > 0 {
        lemma_accepted_runs_keep_what_was_told(a, told.drop_last());
    }
}

/// Over a whole run of an accepted connection, what is reported in the end is what the exchange was
/// reported to have come to. If it was reported with an error, that very error is the result,
/// whether or not the connection could be closed. Only an exchange that was reported without error
/// can end well: then the result is of the replica that was reported, with the peer of the
/// connection, the outcome that was reported, and the times that passed. If closing failed then,
/// the result is that failure, with the peer, the replica and the reason. A stream that could not
/// be opened is reported as such.
pub proof fn law_accepted_connections_report_their_exchange<E>(
    a: Accept<E>,
    told: Seq<AcceptInput<E>>,
    input: AcceptInput<E>,
    r: Result<SyncFinished, AcceptError<E>>,
)
    requires
        a.phase is Opening,
        a.expects_all(told),
        a.after(told).expects(input),
        a.after(told).stepped(input).1 == AcceptAction::Done(r),
    ensures
        told.len() == 0 ==> match (input, r) {
            (
                AcceptInput::Opened(Err(e), _),
                Err(AcceptError::Open { peer, error: Cause::Outside(cause) }),
            ) => peer == a.peer && cause == e,
            _ => false,
        },
        told.len() > 0 ==> match (told[0], told[1]) {
            (AcceptInput::Opened(Ok(()), connect), AcceptInput::Exchanged(x)) => match x.res {
                Err(e) => r == Err::<SyncFinished, AcceptError<E>>(e),
                Ok(namespace) => match (input, r) {
                    (AcceptInput::Drained(Ok(()), elapsed), Ok(finished)) => {
                        &&& finished.namespace == namespace
                        &&& finished.peer == a.peer
                        &&& finished.outcome == x.outcome
                        &&& finished.timings.connect == connect
                        &&& finished.timings.connect + finished.timings.process == elapsed
                    },
                    (
                        AcceptInput::Finished(Err(e)),
                        Err(AcceptError::Close { peer, namespace: n, error: Cause::Outside(c) }),
                    ) => peer == a.peer && n == x.namespace && c == e,
                    (
                        AcceptInput::Stopped(Err(e)),
                        Err(AcceptError::Close { peer, namespace: n, error: Cause::Outside(c) }),
                    ) => peer == a.peer && n == x.namespace && c == e,
                    (
                        AcceptInput::Drained(Err(e), _),
                        Err(AcceptError::Close { peer, namespace: n, error: Cause::Outside(c) }),
                    ) => peer == a.peer && n == x.namespace && c == e,
                    _ => false,
                },
            },
            _ => false,
        },
{
    lemma_accepted_runs_keep_what_was_told(a, told);
}

/// An accepted connection goes through its stages in order while nothing fails: the exchange, which
/// is counted as it was reported to have come out, then finishing, waiting and draining, then the
/// end. It ends before that if and only if it is told of a failure; nothing can be told after the
/// end.
pub proof fn law_accepted_connections_go_stage_by_stage<E>(a: Accept<E>, input: AcceptInput<E>)
    requires
        a.expects(input),
    ensures
        match (input, a.stepped(input).1) {
            (AcceptInput::Opened(Ok(()), _), action) => action is Exchange,
            (AcceptInput::Exchanged(x), action) => action matches AcceptAction::Count { success }
                && success == (x.res is Ok),
            (AcceptInput::Counted, action) => action is Finish,
            (AcceptInput::Finished(Ok(())), action) => action is AwaitStop,
            (AcceptInput::Stopped(Ok(())), action) => action is Drain,
            (_, action) => action is Done,
        },
        a.stepped(input).1 is Done <==> a.stepped(input).0.phase is Over,
        !(a.phase is Over),
{
}

/// What a run of a dialed connection leaves of what it was told: the replica and the peer stay, the
/// time to establish the connection is the one that was told when its stream was opened, and the
/// result of the exchange is what was told of it.
proof fn lemma_dialed_runs_keep_what_was_told<E>(d: Dial<E>, told: Seq<DialInput<E>>)
    requires
        d.phase is Connecting,
        d.expects_all(told),
    ensures
        d.after(told).peer == d.peer,
        d.after(told).namespace == d.namespace,
        match d.after(told).phase {
            DialPhase::Connecting => told.len() == 0,
            DialPhase::Opening => told.len() == 1,
            DialPhase::Over => true,
            DialPhase::Exchanging { connect } => told.len() == 2 && (told[1] matches
                DialInput::Opened(Ok(()), t) && t == connect),
            DialPhase::Finishing { connect, res } => told.len() == 3 && (told[1] matches
                DialInput::Opened(Ok(()), t) && t == connect) && (told[2] matches
                DialInput::Exchanged(x) && x == res),
            DialPhase::Stopping { connect, res } => told.len() == 4 && (told[1] matches
                DialInput::Opened(Ok(()), t) && t == connect) && (told[2] matches
                DialInput::Exchanged(x) && x == res),
            DialPhase::Draining { connect, res } => told.len() == 5 && (told[1] matches
                DialInput::Opened(Ok(()), t) && t == connect) && (told[2] matches
                DialInput::Exchanged(x) && x == res),
            DialPhase::Counting { connect, res } => told.len() == 6 && (told[1] matches
                DialInput::Opened(Ok(()), t) && t == connect) && (told[2] matches
                DialInput::Exchanged(x) && x == res),
        },
    decreases told.len(),
{
    if told.len() > 0 {
        lemma_dialed_runs_keep_what_was_told(d, told.drop_last());
    }
}

/// Over a whole run of a dialed connection, what is reported in the end is what was told: that it
/// could not be established, with the reason; that it could not be closed, with the reason; and
/// otherwise what the exchange was reported to have come to, its error unchanged, or its outcome
/// with the replica and the peer of the connection and the times that passed.
pub proof fn law_dialed_connections_report_their_exchange<E>(
    d: Dial<E>,
    told: Seq<DialInput<E>>,
    input: DialInput<E>,
    r: Result<SyncFinished, ConnectError<E>>,
)
    requires
        d.phase is Connecting,
        d.expects_all(told),
        d.after(told).expects(input),
        d.after(told).stepped(input).1 == DialAction::Done(r),
    ensures
        match input {
            DialInput::Connected(Err(e)) => r matches Err(
                ConnectError::Connect { error: Cause::Outside(c) },
            ) && c == e,
            DialInput::Opened(Err(e), _) => r matches Err(
                ConnectError::Connect { error: Cause::Outside(c) },
            ) && c == e,
            DialInput::Finished(Err(e)) => r matches Err(
                ConnectError::Close { error: Cause::Outside(c) },
            ) && c == e,
            DialInput::Stopped(Err(e)) => r matches Err(
                ConnectError::Close { error: Cause::Outside(c) },
            ) && c == e,
            DialInput::Drained(Err(e)) => r matches Err(
                ConnectError::Close { error: Cause::Outside(c) },
            ) && c == e,
            DialInput::Counted(elapsed) => match (told[1], told[2]) {
                (DialInput::Opened(Ok(()), connect), DialInput::Exchanged(res)) => match (res, r) {
                    (Err(e), _) => r == Err::<SyncFinished, ConnectError<E>>(e),
                    (Ok(outcome), Ok(finished)) => {
                        &&& finished.namespace == d.namespace
                        &&& finished.peer == d.peer
                        &&& finished.outcome == outcome
                        &&& finished.timings.connect == connect
                        &&& finished.timings.connect + finished.timings.process == elapsed
                    },
                    (Ok(_), Err(_)) => false,
                },
                _ => false,
            },
            _ => false,
        },
{
    lemma_dialed_runs_keep_what_was_told(d, told);
}

/// A dialed connection goes through its stages in order while nothing fails: connecting, opening,
/// the exchange, finishing, waiting and draining; then the exchange is counted as it was reported
/// to have come out, and the connection ends. It ends before that if and only if it is told of a
/// failure; nothing can be told after the end.
pub proof fn law_dialed_connections_go_stage_by_stage<E>(
    d: Dial<E>,
    told: Seq<DialInput<E>>,
    input: DialInput<E>,
)
    requires
        d.phase is Connecting,
        d.expects_all(told),
        d.after(told).expects(input),
    ensures
        match (input, d.after(told).stepped(input).1) {
            (DialInput::Connected(Ok(())), action) => action is Open,
            (DialInput::Opened(Ok(()), _), action) => action is Exchange,
            (DialInput::Exchanged(_), action) => action is Finish,
            (DialInput::Finished(Ok(())), action) => action is AwaitStop,
            (DialInput::Stopped(Ok(())), action) => action is Drain,
            (DialInput::Drained(Ok(())), action) => action matches DialAction::Count { success }
                && (told[2] matches DialInput::Exchanged(res) && success == (res is Ok)),
            (_, action) => action is Done,
        },
        d.after(told).stepped(input).1 is Done <==> d.after(told).stepped(input).0.phase is Over,
        !(d.after(told).phase is Over),
{
    lemma_dialed_runs_keep_what_was_told(d, told);
}

/// Of several requests on one connection the first is remembered; without any, nothing is.
pub proof fn law_requests_are_remembered_once(
    watch: AcceptWatch,
    first: NamespaceId,
    second: NamespaceId,
)
    ensures
        watch.accepted is None ==> observed(watch, first).accepted == Some(first),
        watch.accepted is Some ==> observed(watch, first).accepted == watch.accepted,
        observed(observed(watch, first), second).accepted == observed(watch, first).accepted,
{
}

/// A result that came within the bound in time is the result; at the bound, it is that the exchange
/// took too long. On the accepting end that names the peer, and the replica that was asked for if
/// any was.
pub proof fn law_results_within_the_bound_stand<E>(
    dialed: Option<Result<SyncFinished, ConnectError<E>>>,
    r: Result<SyncFinished, ConnectError<E>>,
    watch: AcceptWatch,
    peer: PeerId,
    accepted: Option<Result<SyncFinished, AcceptError<E>>>,
    s: Result<SyncFinished, AcceptError<E>>,
)
    requires
        call_ensures(connect_within_bound::<E>, (dialed,), r),
        call_ensures(AcceptWatch::accept_within_bound::<E>, (&watch, peer, accepted), s),
    ensures
        dialed matches Some(res) ==> r == res,
        dialed is None ==> (r matches Err(ConnectError::Connect { error: Cause::TimedOut })),
        accepted matches Some(res) ==> s == res,
        accepted is None ==> match s {
            Err(AcceptError::Sync { peer: p, namespace, error: Cause::TimedOut }) => p == peer
                && namespace == watch.accepted,
            _ => false,
        },
{
}

} // verus!
