//! The actor that owns a node's replicas: which are open, which sync sessions read from them, and
//! what each request asks of the store.
//!
//! The actor decides; it does no I/O. A request yields a [`request::Step`]: an answer, or the one
//! thing to ask of the store next, whose result is handed back.

pub mod error;
pub mod laws;
pub mod machine;
pub mod metrics;
pub mod passing;
pub mod replicas;
pub mod request;
pub mod session;
pub mod stream;
pub mod view;
