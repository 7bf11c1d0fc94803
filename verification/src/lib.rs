//! Instrumentation core of a narration relay: request identifiers, the
//! per-request record cache that a single consolidator fills, and the
//! read-only queries that a monitoring console makes against it.

pub mod audio;
pub mod cache;
pub mod codec;
pub mod events;
pub mod headers;
pub mod ids;
pub mod laws;
pub mod model;
pub mod params;
pub mod relay;
pub mod types;
