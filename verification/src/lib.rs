//! Service and technology identification from observed network responses.
//!
//! Two subsystems share one engineering shape, compile-once pattern objects
//! matched many times against variable input:
//! - an extraction engine that pulls structured values out of a response
//!   corpus with pluggable pattern strategies (regex, key-value, JSONPath,
//!   XPath, DSL), and
//! - a probe-scanning engine that matches raw probe responses against a
//!   fingerprint database with a two-phase, bounded-concurrency strategy.
//!
//! All network transport lives outside this crate; the scanning logic here is
//! a pure decision kernel over the bytes the transport hands back.

pub mod collect;
pub mod extractors;
pub mod probes;
pub mod scanner;
pub mod session;
