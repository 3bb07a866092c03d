//! Latency-based selection among interchangeable JSON-RPC endpoints.
//!
//! A background prober (driven by the embedding application) measures the
//! round-trip time of every configured endpoint and records it in a
//! [`table::LatencyTable`]; callers query readiness and ask for the endpoint
//! with the lowest last-observed latency.

pub mod probe;
pub mod scheduler;
pub mod selector;
pub mod table;
