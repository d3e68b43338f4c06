//! A monitoring-and-response engine for a blockchain and its bridge: per-check
//! hysteresis state machines with a staleness watchdog, alert fan-out with
//! per-channel retries, and an emergency responder with idempotency keys,
//! a global cooldown and bounded retries.

pub mod event;
pub mod check;
pub mod backoff;
pub mod responder;
pub mod dispatcher;
pub mod orchestrator;
pub mod message;
