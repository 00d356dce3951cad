# docs_sync

The decisions of a node that keeps replicas of shared documents and syncs them with its peers,
verified with Verus, and the node around them.

- `src/actor/`: the actor that owns a node's replicas. It decides which are open, which sync
  sessions read from which frozen snapshot, and what each request asks of the store.
- `src/net/`: the network side of an exchange. Frames (`codec`), the dialing end (`alice`), the
  accepting end (`bob`), and whole connections around them (`connection`).
- `src/filter/`: what one session sees of a replica, given a filter.
- `src/engine/`: the gossip topics that a node takes part in.
- `src/buffer.rs`: what is trusted of `bytes::BytesMut`.
- `app/`: threads, channels, streams and connections. It performs what the library decides and
  reports back what happened.

The library does no I/O. Its machines are told what happened and say what to do next, so each
contract relates a state and an event to the next state and action. Functions named `law_...` state
what holds over several operations: that an exchange only ever reads its own session's snapshot, that
the id of a session is never given out again, that a refused request reaches the dialing end with its
reason, that an entry which is not admitted leaves no trace in what a peer sees.
