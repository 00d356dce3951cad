//! Live syncing: what peers announce to each other.

pub mod gossip;
