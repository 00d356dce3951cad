//! Replica synchronisation: the decisions of a document sync node.

pub mod actor;
pub mod buffer;
pub mod engine;
pub mod filter;
pub mod id_map;
pub mod keys;
pub mod net;
