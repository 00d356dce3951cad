//! What is asked of the actor, and what the actor asks of the store.

use std::sync::Arc;

use vstd::prelude::*;

use crate::actor::error::ActorError;
use crate::actor::replicas::{OpenOpts, OpenState, Replica};
use crate::actor::session::SyncSessionId;
use crate::keys::{NamespaceId, PeerId};

verus! {

/// The types of a store that the actor passes along without looking inside.
pub trait Backend {
    /// What the store knows of a replica, beside its namespace.
    type Info;

    /// A frozen read snapshot.
    type Tables;

    /// Tells how many references to a session are left.
    type Alive;

    /// Where a subscriber listens.
    type Subscriber;

    /// The identity of an author.
    type AuthorId;

    /// An author, with the right to write.
    type Author;

    /// The right to read or write a replica.
    type Capability;

    /// The key of an entry.
    type Key;

    /// The hash of an entry's content.
    type Hash;

    /// A signed entry.
    type Entry;

    /// What a peer said of an entry's content.
    type ContentStatus;

    /// A reconciliation message.
    type Message;

    /// What an exchange has achieved so far.
    type Outcome;

    /// A predicate over entries.
    type Filter;

    /// A query over entries.
    type Query;

    /// The newest entries of each author that a peer holds.
    type Heads;

    /// Which entries' content to download.
    type Policy;

    /// How the store fails.
    type Error;
}

/// A request on one replica.
pub enum ReplicaAction<B: Backend> {
    /// Open the replica.
    Open { opts: OpenOpts<B::Subscriber> },
    /// Give up one handle on the replica.
    Close,
    /// Read the replica's state.
    GetState,
    /// Accept sync requests, or stop accepting them.
    SetSync { sync: bool },
    /// Add a subscriber.
    Subscribe { sender: B::Subscriber },
    /// Remove a subscriber.
    Unsubscribe { sender: B::Subscriber },
    /// Insert an entry of an author that the store holds.
    InsertLocal { author: B::AuthorId, key: B::Key, hash: B::Hash, len: u64 },
    /// Delete an author's entries under a prefix.
    DeletePrefix { author: B::AuthorId, key: B::Key },
    /// Remove an author's record at a key, if it is not newer than a timestamp.
    RetractEntry { author: B::AuthorId, key: B::Key, up_to_timestamp: u64 },
    /// Insert an entry received from a peer, with content of `len` bytes.
    InsertRemote { entry: B::Entry, len: u64, from: PeerId, content_status: B::ContentStatus },
    /// Freeze a snapshot for a sync session.
    SyncSessionStart,
    /// Make a session's first message.
    SyncInitialMessage { session: SyncSessionId, filter: Option<Arc<B::Filter>> },
    /// Process a message that a session received.
    SyncProcessMessage {
        message: B::Message,
        from: PeerId,
        state: B::Outcome,
        session: SyncSessionId,
        filter: Option<Arc<B::Filter>>,
    },
    /// List the peers worth syncing with.
    GetSyncPeers,
    /// Remember a peer as worth syncing with.
    RegisterUsefulPeer { peer: PeerId },
    /// Read one entry.
    GetExact { author: B::AuthorId, key: B::Key, include_empty: bool },
    /// Stream the entries that match a query.
    GetMany { query: B::Query },
    /// Give up one handle on the replica and remove it from the store.
    DropReplica,
    /// Read the replica's secret key.
    ExportSecretKey,
    /// Whether a peer's heads hold anything new.
    HasNewsForUs { heads: B::Heads },
    /// Set which content to download.
    SetDownloadPolicy { policy: B::Policy },
    /// Read which content to download.
    GetDownloadPolicy,
}

/// A request to the actor.
pub enum Action<B: Backend> {
    /// Add an author, whose id is `id`, to the store.
    ImportAuthor { id: B::AuthorId, author: B::Author },
    /// Read an author from the store.
    ExportAuthor { author: B::AuthorId },
    /// Remove an author from the store.
    DeleteAuthor { author: B::AuthorId },
    /// Add the replica `id`, which `capability` is for, to the store.
    ImportNamespace { id: NamespaceId, capability: B::Capability },
    /// Stream the authors of the store.
    ListAuthors,
    /// Stream the replicas of the store.
    ListReplicas,
    /// List the content hashes of the store.
    ContentHashes,
    /// Persist what is pending.
    FlushStore,
    /// A request on one replica.
    Replica(NamespaceId, ReplicaAction<B>),
    /// Release a session's snapshot.
    SyncSessionEnd { session: SyncSessionId },
    /// Stop.
    Shutdown,
}

/// What an answered request yields.
pub enum Done<B: Backend> {
    /// Nothing further.
    Nothing,
    /// The replica is open; attach the subscriber, if there is one.
    Opened { subscribe: Option<B::Subscriber> },
    /// The state of a replica.
    State(OpenState),
    /// A session was registered.
    Session(SyncSessionId),
    /// A replica was added.
    Namespace(NamespaceId),
    /// An author was added.
    Author(B::AuthorId),
}

/// An operation of the store whose result is the answer to the request.
pub enum StoreCall<B: Backend> {
    /// Read an author.
    ExportAuthor { author: B::AuthorId },
    /// Remove an author.
    DeleteAuthor { author: B::AuthorId },
    /// List the content hashes.
    ContentHashes,
    /// Persist what is pending.
    Flush,
    /// Delete an author's entries under a prefix.
    DeletePrefix { replica: Replica, author: B::Author, key: B::Key },
    /// Make the first message of an exchange.
    SyncInitialMessage { replica: Replica, filter: Option<Arc<B::Filter>> },
    /// Process a message of an exchange.
    SyncProcessMessage {
        replica: Replica,
        message: B::Message,
        from: PeerId,
        state: B::Outcome,
        filter: Option<Arc<B::Filter>>,
    },
    /// List the peers worth syncing with.
    GetSyncPeers { namespace: NamespaceId },
    /// Remember a peer as worth syncing with.
    RegisterUsefulPeer { namespace: NamespaceId, peer: PeerId },
    /// Read one entry.
    GetExact { namespace: NamespaceId, author: B::AuthorId, key: B::Key, include_empty: bool },
    /// Remove a record that is not newer than a timestamp.
    RetractEntry { namespace: NamespaceId, author: B::AuthorId, key: B::Key, up_to_timestamp: u64 },
    /// Read the secret key of an open replica.
    ExportSecretKey { namespace: NamespaceId },
    /// Whether a peer's heads hold anything new.
    HasNewsForUs { namespace: NamespaceId, heads: B::Heads },
    /// Set which content to download.
    SetDownloadPolicy { namespace: NamespaceId, policy: B::Policy },
    /// Read which content to download.
    GetDownloadPolicy { namespace: NamespaceId },
}

/// What to stream to a requester, item by item.
pub enum StreamCall<B: Backend> {
    /// The authors of the store.
    Authors,
    /// The replicas of the store.
    Replicas,
    /// The entries of a replica that match a query.
    Entries { namespace: NamespaceId, query: B::Query },
}

/// What an author is looked up for.
pub enum Write<B: Backend> {
    /// To insert an entry.
    Insert { key: B::Key, hash: B::Hash, len: u64 },
    /// To delete under a prefix.
    DeletePrefix { key: B::Key },
}

/// What to do next about a request.
pub enum Step<B: Backend> {
    /// Answer.
    Reply(Result<Done<B>, ActorError<B::Error>>),
    /// Answer with the result of this operation.
    Answer(StoreCall<B>),
    /// Stream these items, or the error alone.
    Stream(Result<StreamCall<B>, ActorError<B::Error>>),
    /// No answer is due.
    Silent,
    /// If `closed`, close the replica in the store; then answer `closed`, heard or not.
    Close { namespace: NamespaceId, closed: bool },
    /// If `closed`, close the replica in the store; then remove it there and answer with the
    /// result.
    Drop { namespace: NamespaceId, closed: bool },
    /// Load what the store knows of a replica; go on with `replica_loaded`.
    LoadReplica { namespace: NamespaceId, opts: OpenOpts<B::Subscriber> },
    /// Attach a subscriber to an open replica; then answer.
    Subscribe { namespace: NamespaceId, sender: B::Subscriber },
    /// Detach a subscriber from an open replica; then answer.
    Unsubscribe { namespace: NamespaceId, sender: B::Subscriber },
    /// Count the subscribers of an open replica; go on with `subscribers_counted`.
    CountSubscribers { namespace: NamespaceId },
    /// Look up an author; go on with `author_found`.
    FindAuthor { author: B::AuthorId, namespace: NamespaceId, write: Write<B> },
    /// Insert an entry; go on with `inserted_local`.
    InsertLocal { replica: Replica, author: B::Author, key: B::Key, hash: B::Hash, len: u64 },
    /// Insert a received entry; go on with `inserted_remote`.
    InsertRemote {
        replica: Replica,
        entry: B::Entry,
        len: u64,
        from: PeerId,
        content_status: B::ContentStatus,
    },
    /// Persist what is pending and freeze a snapshot; go on with `snapshot_taken`.
    TakeSnapshot { namespace: NamespaceId },
    /// Add an author to the store; go on with `author_imported`.
    ImportAuthor { id: B::AuthorId, author: B::Author },
    /// Add a replica to the store; go on with `namespace_imported`.
    ImportNamespace { id: NamespaceId, capability: B::Capability },
    /// Merge a capability into that of an open replica; go on with `capability_merged`.
    MergeCapability { id: NamespaceId, capability: B::Capability },
}

/// What adding a replica to the store changed.
#[derive(Debug, Clone, Copy, PartialEq, Eq, Structural)]
pub enum ImportNamespaceOutcome {
    /// The replica is new.
    Inserted,
    /// The replica was held with less right, and now is held with more.
    Upgraded,
    /// Nothing.
    NoChange,
}

} // verus!
