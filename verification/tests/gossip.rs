use std::collections::VecDeque;

use docs_sync::engine::gossip::{
    GossipAction, GossipInput, GossipState, JoinAction, Op, ReceiveLoop, TaskEnd, ToLiveActor,
};
use docs_sync::keys::{NamespaceId, PeerId};

fn ns(n: u8) -> NamespaceId {
    NamespaceId { bytes: [n; 32] }
}

fn peer(n: u8) -> PeerId {
    PeerId { bytes: [n; 32] }
}

#[test]
fn a_topic_is_subscribed_to_once() {
    let mut state: GossipState<&'static str> = GossipState::new();
    assert!(state.is_empty());
    match state.join(ns(1), vec![peer(2)]) {
        JoinAction::Subscribe { namespace, bootstrap } => {
            assert_eq!((namespace, bootstrap), (ns(1), vec![peer(2)]));
        }
        _ => panic!("the topic was not subscribed to"),
    }
    assert_eq!(state.subscribed(ns(1), Err("no route")), Err("no route"));
    assert!(state.is_empty());
    assert_eq!(state.subscribed::<()>(ns(1), Ok("first")), Ok(()));
    assert!(!state.is_empty());
    assert!(matches!(state.join(ns(1), vec![]), JoinAction::Nothing));
    match state.join(ns(1), vec![peer(3), peer(4)]) {
        JoinAction::JoinPeers { namespace, peers } => {
            assert_eq!((namespace, peers), (ns(1), vec![peer(3), peer(4)]));
        }
        _ => panic!("no peers were joined"),
    }
    assert_eq!(state.broadcast_neighbors(&ns(1)), Some(&"first"));
    assert_eq!(state.broadcast_neighbors(&ns(2)), None);
    assert_eq!(state.quit(&ns(2)), None);
    assert_eq!(state.quit(&ns(1)), Some("first"));
    assert!(state.is_empty());
    assert!(matches!(state.join(ns(1), vec![]), JoinAction::Subscribe { .. }));
}

#[test]
fn a_topic_whose_task_ended_is_left() {
    let mut state: GossipState<u8> = GossipState::new();
    for n in 1..=3 {
        state.subscribed::<()>(ns(n), Ok(n)).unwrap();
    }
    assert!(state.progress::<&str>(TaskEnd::Cancelled).is_ok());
    assert_eq!(state.broadcast_neighbors(&ns(1)), Some(&1));
    assert!(state.progress::<&str>(TaskEnd::Finished(ns(1))).is_ok());
    assert_eq!(state.broadcast_neighbors(&ns(1)), None);
    let e = state.progress(TaskEnd::Panicked("boom")).unwrap_err();
    assert_eq!((e.text(), e.cause), ("gossip receive loop panicked", "boom"));
    let mut left = state.shutdown();
    left.sort_by_key(|(_, n)| *n);
    assert_eq!(left, vec![(ns(2), 2), (ns(3), 3)]);
    assert!(state.is_empty());
}

type Action = GossipAction<u8, &'static str, &'static str>;
type Input = GossipInput<&'static str, u8, &'static str, &'static str>;

fn up(action: Action) -> PeerId {
    match action {
        GossipAction::Tell(ToLiveActor::NeighborUp { namespace, peer }) => {
            assert_eq!(namespace, ns(1));
            peer
        }
        _ => panic!("no neighbor was told"),
    }
}

#[test]
fn neighbors_that_are_there_are_told_first() {
    let neighbors = VecDeque::from(vec![peer(5), peer(6), peer(7)]);
    let (mut receive, action): (ReceiveLoop, Action) = ReceiveLoop::start(ns(1), neighbors);
    assert_eq!(up(action), peer(5));
    assert_eq!(up(receive.step(Input::Told(Ok(())))), peer(6));
    assert_eq!(up(receive.step(Input::Told(Ok(())))), peer(7));
    assert!(matches!(receive.step(Input::Told(Ok(()))), GossipAction::Receive));
    let (mut receive, action): (ReceiveLoop, Action) =
        ReceiveLoop::start(ns(1), VecDeque::from(vec![peer(5), peer(6)]));
    assert_eq!(up(action), peer(5));
    assert!(matches!(
        receive.step(Input::Told(Err("closed"))),
        GossipAction::Stop(Err("closed"))
    ));
}

#[test]
fn events_of_a_topic_are_passed_on() {
    let (mut receive, action): (ReceiveLoop, Action) = ReceiveLoop::start(ns(1), VecDeque::new());
    assert!(matches!(action, GossipAction::Receive));
    assert!(matches!(receive.step(Input::Lagged), GossipAction::Receive));
    assert_eq!(up(receive.step(Input::NeighborUp(peer(9)))), peer(9));
    assert!(matches!(receive.step(Input::Told(Ok(()))), GossipAction::Receive));
    match receive.step(Input::NeighborDown(peer(9))) {
        GossipAction::Tell(ToLiveActor::NeighborDown { namespace, peer: p }) => {
            assert_eq!((namespace, p), (ns(1), peer(9)));
        }
        _ => panic!("the neighbor was not told"),
    }
    match receive.step(Input::Received { from: peer(3), op: Ok(Op::ContentReady(44)) }) {
        GossipAction::Tell(ToLiveActor::NeighborContentReady { namespace, node, hash }) => {
            assert_eq!((namespace, node, hash), (ns(1), peer(3), 44));
        }
        _ => panic!("the content was not told"),
    }
    match receive.step(Input::Received { from: peer(3), op: Ok(Op::SyncReport("heads")) }) {
        GossipAction::Tell(ToLiveActor::IncomingSyncReport { from, report }) => {
            assert_eq!((from, report), (peer(3), "heads"));
        }
        _ => panic!("the report was not told"),
    }
    assert!(matches!(receive.step(Input::End), GossipAction::Stop(Ok(()))));
    assert!(matches!(receive.step(Input::Failed("cut")), GossipAction::Stop(Err("cut"))));
    let malformed = Input::Received { from: peer(3), op: Err("malformed") };
    assert!(matches!(receive.step(malformed), GossipAction::Stop(Err("malformed"))));
}

#[test]
fn an_entry_that_rides_the_topic_is_dropped() {
    let (mut receive, _): (ReceiveLoop, Action) = ReceiveLoop::start(ns(1), VecDeque::new());
    let put = Input::Received { from: peer(3), op: Ok(Op::Put("an entry")) };
    assert!(matches!(receive.step(put), GossipAction::Receive));
}
