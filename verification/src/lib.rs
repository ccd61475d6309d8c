//! Schema-tagged messaging over a partitioned log.
//!
//! Every message carries the identifier of the schema that describes its
//! payload. The crate holds the wire envelope, the schema-registry protocol,
//! the caches that keep registry lookups cheap, the producer's backpressure
//! policy, the consumer's partition strategy and the per-message dispatch
//! pipeline. None of it performs I/O: each component decides what has to be
//! done next and is told what came of it.

pub mod adapters;
pub mod client;
pub mod envelope;
pub mod json_config;
pub mod metadata;
pub mod schema_registry;
pub mod text;
