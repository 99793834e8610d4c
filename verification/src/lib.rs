//! Transport-agnostic retry/backoff/auth-refresh decision core.
//!
//! Given the outcome of one HTTP attempt and the policy context of the
//! request, the engine decides the next action: retry after a delay,
//! refresh credentials and retry, or fail permanently. It performs no I/O
//! and never schedules anything itself; delays are advisory values the
//! caller acts on.

pub mod auth;
pub mod client;
pub mod decision;
pub mod error;
pub mod model;
pub mod retry;
