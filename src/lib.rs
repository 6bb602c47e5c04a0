//! Throughput and latency measurement engine for a line-oriented bandwidth-test
//! protocol: handshake framing, payload generation, per-connection byte accounting,
//! live sampling and multi-connection planning.

pub mod batch;
pub mod download;
pub mod error;
pub mod measure;
pub mod payload;
pub mod protocol;
pub mod ranking;
pub mod sampler;
pub mod upload;
