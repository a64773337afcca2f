//! Admission control for a connection-oriented, handshake-based transport
//! endpoint. For every inbound connection attempt the endpoint decides, in
//! bounded time and without blocking, whether to proceed with a cryptographic
//! handshake, defer the peer with a stateless challenge, silently ignore the
//! attempt, or terminate it after a delay.
//!
//! The decision logic is split into three layers:
//! - [`limits`] holds the attempt descriptor, the closed set of outcomes, the
//!   pluggable [`limits::Limits`] policy capability, and the reference
//!   threshold policy;
//! - [`engine`] holds the admission engine, which owns the in-flight handshake
//!   counter, invokes the policy once per attempt, and schedules the delayed
//!   retry/close signals that the policy asks for;
//! - [`inet`] and [`time`] hold the plain value types the other two speak of.

pub mod engine;
pub mod inet;
pub mod limits;
pub mod time;
