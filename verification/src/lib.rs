//! A derivation pipeline orchestrator for a rollup-style client.
//!
//! Raw transaction payloads observed on a source chain are submitted to an
//! ingestion queue, pulled through a fixed chain of decoding stages, and come
//! out as ordered block-construction attributes for an execution engine. The
//! orchestrator buffers at most one produced result so the next value can be
//! peeked at without consuming it, and propagates a `purge` through every
//! stage when the source chain reorganizes, discarding in-flight state without
//! tearing the pipeline down.
//!
//! A pull that yields nothing means "no value producible right now", not
//! permanent exhaustion: callers poll again after supplying more input.

pub mod laws;
pub mod model;
pub mod pipeline;
pub mod purgeable;
pub mod stages;
pub mod types;
