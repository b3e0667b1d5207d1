//! Client-side engine of a distributed rate limiter.
//!
//! A shared coordinator runs an atomic procedure and answers each request with
//! a verdict. This library turns that verdict into a decision, drives the
//! retry loop as a state machine, and keeps the pool of idle connections.
//! Network access, sleeping and configuration files are left to the caller.
pub mod bouncer;
pub mod decision;
pub mod pool;
pub mod reply;
pub mod run;
pub mod settings;
pub mod stats;

pub use bouncer::Bouncer;
pub use decision::{Decision, classify, decide};
pub use pool::{ConnectionPool, Pooled};
pub use reply::{BouncerError, Mismatch, RawReply, StatsPayload, decode_reply};
pub use run::{Phase, RunState, Step};
pub use settings::Settings;
pub use stats::{BouncerStats, WaitTime};
