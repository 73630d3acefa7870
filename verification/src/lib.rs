//! Validation-and-storage core of an agent-centric, content-addressed
//! distributed hash table runtime.
//!
//! Each participant (agent) keeps a private append-only log of actions and a
//! local shard of a validated DHT.  The crate provides the immutable,
//! reducer-driven state container, the content/metadata stores, the
//! validation workflows, the sandboxed-execution memory boundary, and the
//! bridge that turns inbound peer messages into workflow invocations.

pub mod action;
pub mod bridge;
pub mod chain;
pub mod context;
pub mod dna;
pub mod dht;
pub mod eav;
pub mod entry;
pub mod error;
pub mod network_state;
pub mod signing;
pub mod state;
pub mod nucleus;
pub mod ribosome_encoding;
pub mod ribosome_memory;
pub mod ribosome_runtime;
pub mod hashing;
pub mod http_interface;
pub mod instance;
pub mod workflows;
