//! The gossip topics that a node takes part in, one per replica.
//!
//! Topics carry announcements only. Entries travel over reconciliation alone, where access is
//! decided per peer.

use std::collections::VecDeque;

use vstd::prelude::*;

use crate::id_map::IdMap;
use crate::keys::{NamespaceId, PeerId};

verus! {

/// How to take part in a topic.
pub enum JoinAction {
    /// There is nothing to do.
    Nothing,
    /// Connect the topic, in which the node takes part, to these peers.
    JoinPeers {
        /// The replica of the topic.
        namespace: NamespaceId,
        /// The peers.
        peers: Vec<PeerId>,
    },
    /// Subscribe to the topic; go on with [`GossipState::subscribed`].
    Subscribe {
        /// The replica of the topic.
        namespace: NamespaceId,
        /// The peers to find others through.
        bootstrap: Vec<PeerId>,
    },
}

/// How to take part in the topic of `namespace`, given those that the node takes part in.
pub open spec fn join_action<A>(
    active: Map<NamespaceId, A>,
    namespace: NamespaceId,
    bootstrap: Vec<PeerId>,
) -> JoinAction {
    if !active.contains_key(namespace) {
        JoinAction::Subscribe { namespace, bootstrap }
    } else if bootstrap@.len() == 0 {
        JoinAction::Nothing
    } else {
        JoinAction::JoinPeers { namespace, peers: bootstrap }
    }
}

/// How the task that receives a topic's events ended.
pub enum TaskEnd<E> {
    /// It was told to.
    Cancelled,
    /// It panicked.
    Panicked(E),
    /// It ran out of events of this replica's topic, or failed.
    Finished(NamespaceId),
}

/// A task that receives a topic's events panicked.
#[derive(Debug)]
pub struct ReceiveLoopPanicked<E> {
    /// What the panic left.
    pub cause: E,
}

/// The text of the error.
pub open spec fn panicked_text() -> Seq<char> {
    "gossip receive loop panicked"@
}

impl<E> ReceiveLoopPanicked<E> {
    /// The text of the error.
    pub fn text(&self) -> (s: &'static str)
        ensures
            s@ == panicked_text(),
    {
        "gossip receive loop panicked"
    }
}

/// The topics that a node takes part in; `A` is a running subscription.
pub struct GossipState<A> {
    active: IdMap<NamespaceId, A>,
}

impl<A> View for GossipState<A> {
    type V = Map<NamespaceId, A>;

    closed spec fn view(&self) -> Map<NamespaceId, A> {
        self.active@
    }
}

impl<A> GossipState<A> {
    /// No topic is listed twice.
    pub closed spec fn wf(&self) -> bool {
        self.active.wf()
    }

    /// No topics.
    pub fn new() -> (s: Self)
        ensures
            s.wf(),
            s@ == Map::<NamespaceId, A>::empty(),
    {
        GossipState { active: IdMap::new() }
    }

    /// Takes part in a topic. Where the node does already, further peers are connected to, if any
    /// are given.
    pub fn join(&self, namespace: NamespaceId, bootstrap: Vec<PeerId>) -> (r: JoinAction)
        requires
            self.wf(),
        ensures
            r == join_action(self@, namespace, bootstrap),
    {
        if !self.active.contains_key(&namespace) {
            JoinAction::Subscribe { namespace, bootstrap }
        } else if bootstrap.len() == 0 {
            JoinAction::Nothing
        } else {
            JoinAction::JoinPeers { namespace, peers: bootstrap }
        }
    }

    /// Goes on once a topic was subscribed to, or not.
    pub fn subscribed<E>(&mut self, namespace: NamespaceId, subscription: Result<A, E>) -> (r: Result<
        (),
        E,
    >)
        requires
            old(self).wf(),
        ensures
            final(self).wf(),
            match subscription {
                Ok(a) => r == Ok::<(), E>(()) && final(self)@ == old(self)@.insert(namespace, a),
                Err(e) => r == Err::<(), E>(e) && final(self)@ == old(self)@,
            },
    {
        match subscription {
            Err(e) => Err(e),
            Ok(a) => {
                let _ = self.active.insert(namespace, a);
                Ok(())
            },
        }
    }

    /// Leaves a topic. Gives back the subscription to cancel, if there is one.
    pub fn quit(&mut self, topic: &NamespaceId) -> (r: Option<A>)
        requires
            old(self).wf(),
        ensures
            final(self).wf(),
            final(self)@ == old(self)@.remove(*topic),
            r == (if old(self)@.contains_key(*topic) {
                Some(old(self)@[*topic])
            } else {
                None
            }),
    {
        self.active.remove(topic)
    }

    /// Leaves every topic. Gives back the subscriptions to cancel.
    pub fn shutdown(&mut self) -> (r: Vec<(NamespaceId, A)>)
        requires
            old(self).wf(),
        ensures
            final(self).wf(),
            final(self)@ == Map::<NamespaceId, A>::empty(),
            r@.len() == old(self)@.len(),
            forall|i: int|
                0 <= i < r@.len() ==> old(self)@.contains_key((#[trigger] r@[i]).0)
                    && old(self)@[r@[i].0] == r@[i].1,
            forall|n: NamespaceId| #[trigger]
                old(self)@.contains_key(n) ==> exists|i: int|
                    0 <= i < r@.len() && (#[trigger] r@[i]).0 == n,
    {
        self.active.drain()
    }

    /// The subscription to broadcast to a topic's neighbors through; without one, nothing is
    /// broadcast.
    pub fn broadcast_neighbors(&self, namespace: &NamespaceId) -> (r: Option<&A>)
        requires
            self.wf(),
        ensures
            match r {
                Some(a) => self@.contains_key(*namespace) && *a == self@[*namespace],
                None => !self@.contains_key(*namespace),
            },
    {
        self.active.get(namespace)
    }

    /// Whether the node takes part in no topic.
    pub fn is_empty(&self) -> (b: bool)
        requires
            self.wf(),
        ensures
            b == (self@ == Map::<NamespaceId, A>::empty()),
    {
        self.active.is_empty()
    }

    /// Goes on once the task that receives a topic's events ended. A task that ended by itself
    /// leaves its topic; only a panic is an error.
    pub fn progress<E>(&mut self, ended: TaskEnd<E>) -> (r: Result<(), ReceiveLoopPanicked<E>>)
        requires
            old(self).wf(),
        ensures
            final(self).wf(),
            match ended {
                TaskEnd::Cancelled => r == Ok::<(), ReceiveLoopPanicked<E>>(()) && final(self)@
                    == old(self)@,
                TaskEnd::Panicked(cause) => r == Err::<(), ReceiveLoopPanicked<E>>(
                    ReceiveLoopPanicked { cause },
                ) && final(self)@ == old(self)@,
                TaskEnd::Finished(namespace) => r == Ok::<(), ReceiveLoopPanicked<E>>(())
                    && final(self)@ == old(self)@.remove(namespace),
            },
    {
        match ended {
            TaskEnd::Cancelled => Ok(()),
            TaskEnd::Panicked(cause) => Err(ReceiveLoopPanicked { cause }),
            TaskEnd::Finished(namespace) => {
                let _ = self.active.remove(&namespace);
                Ok(())
            },
        }
    }
}

/// An announcement on a topic.
pub enum Op<N, H, R> {
    /// An entry.
    Put(N),
    /// The content of an entry is available.
    ContentReady(H),
    /// The newest entries that a peer holds.
    SyncReport(R),
}

/// What is told to the part of the node that syncs.
pub enum ToLiveActor<H, R> {
    /// A neighbor in the topic of a replica has content.
    NeighborContentReady {
        /// The replica.
        namespace: NamespaceId,
        /// The neighbor.
        node: PeerId,
        /// The hash of the content.
        hash: H,
    },
    /// A peer reports the newest entries that it holds.
    IncomingSyncReport {
        /// The peer.
        from: PeerId,
        /// The report.
        report: R,
    },
    /// A peer is now a neighbor in the topic of a replica.
    NeighborUp {
        /// The replica.
        namespace: NamespaceId,
        /// The peer.
        peer: PeerId,
    },
    /// A peer is no longer a neighbor in the topic of a replica.
    NeighborDown {
        /// The replica.
        namespace: NamespaceId,
        /// The peer.
        peer: PeerId,
    },
}

/// What happens to a subscription.
pub enum GossipInput<N, H, R, E> {
    /// Events were lost.
    Lagged,
    /// An announcement arrived; it may be malformed.
    Received {
        /// The neighbor that delivered it.
        from: PeerId,
        /// The announcement.
        op: Result<Op<N, H, R>, E>,
    },
    /// A peer became a neighbor.
    NeighborUp(PeerId),
    /// A peer is no longer a neighbor.
    NeighborDown(PeerId),
    /// No event could be received.
    Failed(E),
    /// There are no more events.
    End,
    /// What was to be told was told, or not.
    Told(Result<(), E>),
}

/// What to do about it.
pub enum GossipAction<H, R, E> {
    /// Wait for the next event.
    Receive,
    /// Tell this.
    Tell(ToLiveActor<H, R>),
    /// Stop, with this result.
    Stop(Result<(), E>),
}

/// What is told of a neighbor.
pub open spec fn neighbor_up<H, R>(namespace: NamespaceId, peer: PeerId) -> ToLiveActor<H, R> {
    ToLiveActor::NeighborUp { namespace, peer }
}

/// What to do about an event.
pub open spec fn on_event<N, H, R, E>(
    namespace: NamespaceId,
    input: GossipInput<N, H, R, E>,
) -> GossipAction<H, R, E> {
    match input {
        GossipInput::Lagged => GossipAction::Receive,
        GossipInput::Received { op: Err(e), .. } => GossipAction::Stop(Err(e)),
        GossipInput::Received { op: Ok(Op::Put(_)), .. } => GossipAction::Receive,
        GossipInput::Received { from, op: Ok(Op::ContentReady(hash)) } => GossipAction::Tell(
            ToLiveActor::NeighborContentReady { namespace, node: from, hash },
        ),
        GossipInput::Received { from, op: Ok(Op::SyncReport(report)) } => GossipAction::Tell(
            ToLiveActor::IncomingSyncReport { from, report },
        ),
        GossipInput::NeighborUp(peer) => GossipAction::Tell(
            ToLiveActor::NeighborUp { namespace, peer },
        ),
        GossipInput::NeighborDown(peer) => GossipAction::Tell(
            ToLiveActor::NeighborDown { namespace, peer },
        ),
        GossipInput::Failed(e) => GossipAction::Stop(Err(e)),
        GossipInput::End => GossipAction::Stop(Ok(())),
        GossipInput::Told(Ok(())) => GossipAction::Receive,
        GossipInput::Told(Err(e)) => GossipAction::Stop(Err(e)),
    }
}

/// Receives the events of one topic. The neighbors that are there already are told first.
pub struct ReceiveLoop {
    namespace: NamespaceId,
    neighbors: VecDeque<PeerId>,
}

impl ReceiveLoop {
    /// The replica of the topic.
    pub closed spec fn namespace(self) -> NamespaceId {
        self.namespace
    }

    /// The neighbors that are still to be told.
    pub closed spec fn neighbors(self) -> Seq<PeerId> {
        self.neighbors@
    }

    /// Whether this can happen now: no event is received before the neighbors were told.
    pub open spec fn expects<N, H, R, E>(self, input: GossipInput<N, H, R, E>) -> bool {
        self.neighbors().len() > 0 ==> input is Told
    }

    /// The next neighbor to tell, if there is one.
    fn next<H, R, E>(&mut self) -> (r: GossipAction<H, R, E>)
        ensures
            final(self).namespace() == old(self).namespace(),
            if old(self).neighbors().len() == 0 {
                r == GossipAction::<H, R, E>::Receive && final(self).neighbors()
                    == old(self).neighbors()
            } else {
                r == GossipAction::<H, R, E>::Tell(
                    neighbor_up(old(self).namespace(), old(self).neighbors()[0]),
                ) && final(self).neighbors() == old(self).neighbors().skip(1)
            },
    {
        match self.neighbors.pop_front() {
            None => GossipAction::Receive,
            Some(peer) => GossipAction::Tell(
                ToLiveActor::NeighborUp { namespace: self.namespace, peer },
            ),
        }
    }

    /// Starts with the neighbors that are there.
    pub fn start<H, R, E>(namespace: NamespaceId, neighbors: VecDeque<PeerId>) -> (r: (
        Self,
        GossipAction<H, R, E>,
    ))
        ensures
            r.0.namespace() == namespace,
            if neighbors@.len() == 0 {
                r.1 == GossipAction::<H, R, E>::Receive && r.0.neighbors() == neighbors@
            } else {
                r.1 == GossipAction::<H, R, E>::Tell(neighbor_up(namespace, neighbors@[0]))
                    && r.0.neighbors() == neighbors@.skip(1)
            },
    {
        let mut receive = ReceiveLoop { namespace, neighbors };
        let action = receive.next();
        (receive, action)
    }

    /// Goes on with what happened.
    pub fn step<N, H, R, E>(&mut self, input: GossipInput<N, H, R, E>) -> (r: GossipAction<H, R, E>)
        requires
            old(self).expects(input),
        ensures
            final(self).namespace() == old(self).namespace(),
            if old(self).neighbors().len() > 0 && (input matches GossipInput::Told(Ok(()))) {
                r == GossipAction::<H, R, E>::Tell(
                    neighbor_up(old(self).namespace(), old(self).neighbors()[0]),
                ) && final(self).neighbors() == old(self).neighbors().skip(1)
            } else {
                r == on_event(old(self).namespace(), input) && final(self).neighbors()
                    == old(self).neighbors()
            },
    {
        let namespace = self.namespace;
        match input {
            GossipInput::Lagged => GossipAction::Receive,
            GossipInput::Received { op: Err(e), .. } => GossipAction::Stop(Err(e)),
            GossipInput::Received { from, op: Ok(op) } => match op {
                // Content never rides the topic: an entry that is broadcast all the same is
                // dropped, never inserted. Peers announce what they hold, and the receiver pulls.
                Op::Put(_) => GossipAction::Receive,
                Op::ContentReady(hash) => GossipAction::Tell(
                    ToLiveActor::NeighborContentReady { namespace, node: from, hash },
                ),
                Op::SyncReport(report) => GossipAction::Tell(
                    ToLiveActor::IncomingSyncReport { from, report },
                ),
            },
            GossipInput::NeighborUp(peer) => GossipAction::Tell(
                ToLiveActor::NeighborUp { namespace, peer },
            ),
            GossipInput::NeighborDown(peer) => GossipAction::Tell(
                ToLiveActor::NeighborDown { namespace, peer },
            ),
            GossipInput::Failed(e) => GossipAction::Stop(Err(e)),
            GossipInput::End => GossipAction::Stop(Ok(())),
            GossipInput::Told(Ok(())) => self.next(),
            GossipInput::Told(Err(e)) => GossipAction::Stop(Err(e)),
        }
    }
}

/// No entry that rides a topic is passed on, and nothing of it shows in what is done: the content
/// of an announced entry makes no difference, nor who delivered it.
pub proof fn law_entries_do_not_ride_the_topic<N, H, R, E>(
    namespace: NamespaceId,
    from: PeerId,
    entry: N,
)
    ensures
        on_event(
            namespace,
            GossipInput::<N, H, R, E>::Received { from, op: Ok(Op::Put(entry)) },
        ) == GossipAction::<H, R, E>::Receive,
{
}

/// Whatever is told of an event names the replica of the topic, or is a report.
pub proof fn law_tidings_name_their_topic<N, H, R, E>(
    namespace: NamespaceId,
    input: GossipInput<N, H, R, E>,
)
    ensures
        on_event(namespace, input) matches GossipAction::Tell(told) ==> match told {
            ToLiveActor::NeighborContentReady { namespace: n, .. } => n == namespace,
            ToLiveActor::NeighborUp { namespace: n, .. } => n == namespace,
            ToLiveActor::NeighborDown { namespace: n, .. } => n == namespace,
            ToLiveActor::IncomingSyncReport { .. } => true,
        },
{
}

/// A topic that the node takes part in is never subscribed to a second time; one that it left can
/// be joined again.
pub proof fn law_topics_are_subscribed_to_once<A>(
    active: Map<NamespaceId, A>,
    namespace: NamespaceId,
    subscription: A,
    bootstrap: Vec<PeerId>,
)
    ensures
        !(join_action(active.insert(namespace, subscription), namespace, bootstrap) is Subscribe),
        join_action(active.remove(namespace), namespace, bootstrap) == (JoinAction::Subscribe {
            namespace,
            bootstrap,
        }),
{
}

/// Joining or leaving one topic makes no difference to another.
pub proof fn law_topics_are_independent<A>(
    active: Map<NamespaceId, A>,
    namespace: NamespaceId,
    subscription: A,
    other: NamespaceId,
    bootstrap: Vec<PeerId>,
)
    requires
        other != namespace,
    ensures
        join_action(active.insert(namespace, subscription), other, bootstrap) == join_action(
            active,
            other,
            bootstrap,
        ),
        join_action(active.remove(namespace), other, bootstrap) == join_action(
            active,
            other,
            bootstrap,
        ),
{
}

/// No peer that is given is dropped: a topic that the node takes part in is connected to every one
/// of them, in order, and nothing is done only if none is given; a topic that it does not take part
/// in is subscribed to through them. Either way it is the topic that was named.
pub proof fn law_every_peer_is_joined<A>(
    active: Map<NamespaceId, A>,
    namespace: NamespaceId,
    bootstrap: Vec<PeerId>,
    peer: PeerId,
)
    ensures
        match join_action(active, namespace, bootstrap) {
            JoinAction::Nothing => active.contains_key(namespace) && !bootstrap@.contains(peer)
                && bootstrap@.len() == 0,
            JoinAction::JoinPeers { namespace: n, peers } => {
                &&& active.contains_key(namespace)
                &&& n == namespace
                &&& bootstrap@.len() > 0
                &&& bootstrap@.contains(peer) <==> peers@.contains(peer)
                &&& peers@ == bootstrap@
            },
            JoinAction::Subscribe { namespace: n, bootstrap: peers } => {
                &&& !active.contains_key(namespace)
                &&& n == namespace
                &&& bootstrap@.contains(peer) <==> peers@.contains(peer)
                &&& peers@ == bootstrap@
            },
        },
{
}

/// Whatever is told of an event is what the event was: the same peer, the same content, the same
/// report, delivered by the same neighbor. And every event is told of but for lost ones and
/// entries.
pub proof fn law_tidings_are_of_their_event<N, H, R, E>(
    namespace: NamespaceId,
    input: GossipInput<N, H, R, E>,
)
    ensures
        match (input, on_event(namespace, input)) {
            (
                GossipInput::Received { from, op: Ok(Op::ContentReady(hash)) },
                GossipAction::Tell(ToLiveActor::NeighborContentReady { node, hash: told, .. }),
            ) => node == from && told == hash,
            (
                GossipInput::Received { from, op: Ok(Op::SyncReport(report)) },
                GossipAction::Tell(ToLiveActor::IncomingSyncReport { from: sender, report: told }),
            ) => sender == from && told == report,
            (
                GossipInput::NeighborUp(peer),
                GossipAction::Tell(ToLiveActor::NeighborUp { peer: told, .. }),
            ) => told == peer,
            (
                GossipInput::NeighborDown(peer),
                GossipAction::Tell(ToLiveActor::NeighborDown { peer: told, .. }),
            ) => told == peer,
            (GossipInput::Lagged, action) => action is Receive,
            (GossipInput::Received { op: Ok(Op::Put(_)), .. }, action) => action is Receive,
            (GossipInput::Told(Ok(())), action) => action is Receive,
            (_, action) => action is Stop,
        },
        on_event(namespace, input) is Tell <==> match input {
            GossipInput::NeighborUp(_) => true,
            GossipInput::NeighborDown(_) => true,
            GossipInput::Received { op: Ok(op), .. } => !(op is Put),
            _ => false,
        },
{
}

/// Receiving stops if and only if events run out, fail or are malformed, or nobody is left to be
/// told; the failure is the result, and running out is none.
pub proof fn law_receiving_stops_with_the_failure<N, H, R, E>(
    namespace: NamespaceId,
    input: GossipInput<N, H, R, E>,
)
    ensures
        match (input, on_event(namespace, input)) {
            (GossipInput::End, action) => action matches GossipAction::Stop(Ok(())),
            (GossipInput::Failed(e), action) => action matches GossipAction::Stop(Err(f)) && f == e,
            (GossipInput::Received { op: Err(e), .. }, action) => action matches GossipAction::Stop(
                Err(f),
            ) && f == e,
            (GossipInput::Told(Err(e)), action) => action matches GossipAction::Stop(Err(f)) && f
                == e,
            (_, action) => !(action is Stop),
        },
{
}

/// A neighbor that is there at the start is told of just as one that comes up later.
pub proof fn law_early_neighbors_are_told_of_alike<N, H, R, E>(
    namespace: NamespaceId,
    peer: PeerId,
)
    ensures
        on_event(namespace, GossipInput::<N, H, R, E>::NeighborUp(peer)) == GossipAction::<
            H,
            R,
            E,
        >::Tell(neighbor_up(namespace, peer)),
        neighbor_up::<H, R>(namespace, peer) matches ToLiveActor::NeighborUp {
            namespace: n,
            peer: p,
        } && n == namespace && p == peer,
{
}

/// Once a topic was subscribed to, the node takes part in it through that subscription, and in the
/// other topics as before; if subscribing failed, nothing changed, and the failure is the result.
pub proof fn law_subscribing_takes_part<A, E>(
    state: &mut GossipState<A>,
    namespace: NamespaceId,
    subscription: Result<A, E>,
    r: Result<(), E>,
    other: NamespaceId,
)
    requires
        call_ensures(GossipState::<A>::subscribed::<E>, (state, namespace, subscription), r),
        other != namespace,
    ensures
        final(state)@.contains_key(other) == old(state)@.contains_key(other),
        final(state)@[other] == old(state)@[other],
        match subscription {
            Ok(a) => r is Ok && final(state)@.contains_key(namespace) && final(state)@[namespace]
                == a,
            Err(e) => final(state)@ == old(state)@ && (r matches Err(f) && f == e),
        },
{
}

/// Once a topic was left, or its task ended by itself, the node takes part in it no longer, and in
/// the other topics as before. Leaving hands out the subscription that there was; a panic is the
/// only error, and leaves every topic as it was, as does a task that was told to end.
pub proof fn law_leaving_ends_one_topic<A, E>(
    left: &mut GossipState<A>,
    ended: &mut GossipState<A>,
    topic: NamespaceId,
    end: TaskEnd<E>,
    handed_out: Option<A>,
    r: Result<(), ReceiveLoopPanicked<E>>,
    other: NamespaceId,
)
    requires
        call_ensures(GossipState::<A>::quit, (left, &topic), handed_out),
        call_ensures(GossipState::<A>::progress::<E>, (ended, end), r),
        other != topic,
    ensures
        !final(left)@.contains_key(topic),
        handed_out is Some <==> old(left)@.contains_key(topic),
        handed_out matches Some(a) ==> a == old(left)@[topic],
        final(left)@.contains_key(other) == old(left)@.contains_key(other),
        final(left)@[other] == old(left)@[other],
        match end {
            TaskEnd::Cancelled => r is Ok && final(ended)@ == old(ended)@,
            TaskEnd::Panicked(cause) => final(ended)@ == old(ended)@ && (r matches Err(e) && e.cause
                == cause),
            TaskEnd::Finished(n) => r is Ok && final(ended)@.dom() == old(ended)@.dom().remove(n),
        },
{
}

/// Every neighbor that is there at the start is told of, in order and before any event: the one
/// that is told next and those still to be told are always the ones that were to be told.
pub proof fn law_early_neighbors_are_all_told_of<N, H, R, E>(
    namespace: NamespaceId,
    neighbors: VecDeque<PeerId>,
    started: (ReceiveLoop, GossipAction<H, R, E>),
    going: &mut ReceiveLoop,
    action: GossipAction<H, R, E>,
)
    requires
        call_ensures(ReceiveLoop::start::<H, R, E>, (namespace, neighbors), started),
        call_ensures(
            ReceiveLoop::step::<N, H, R, E>,
            (going, GossipInput::<N, H, R, E>::Told(Ok(()))),
            action,
        ),
    ensures
        match started.1 {
            GossipAction::Tell(ToLiveActor::NeighborUp { namespace: n, peer }) => {
                &&& n == namespace
                &&& seq![peer] + started.0.neighbors() == neighbors@
            },
            _ => started.1 is Receive && neighbors@.len() == 0 && started.0.neighbors().len() == 0,
        },
        match action {
            GossipAction::Tell(ToLiveActor::NeighborUp { namespace: n, peer }) => {
                &&& n == old(going).namespace()
                &&& seq![peer] + final(going).neighbors() == old(going).neighbors()
            },
            _ => action is Receive && old(going).neighbors().len() == 0
                && final(going).neighbors().len() == 0,
        },
{
    if neighbors@.len() > 0 {
        assert(seq![neighbors@[0]] + neighbors@.skip(1) =~= neighbors@);
    }
    let left = going.neighbors();
    if left.len() > 0 {
        assert(seq![left[0]] + left.skip(1) =~= left);
    }
}

} // verus!
