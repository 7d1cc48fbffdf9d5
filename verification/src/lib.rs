//! Isolated-worker execution and messaging core.
//!
//! A `Worker` pairs one opaque execution context with one bounded, ordered,
//! bidirectional message channel. The owner talks to the worker only through
//! a cloneable `WorkerHandle`; a driver repeatedly advances the worker's
//! execution context one step at a time until the worker completes, and a
//! registry tracks live workers so their resources can be reclaimed exactly
//! once on completion.
//!
//! The channel, the worker lifecycle and the supervision rules are modelled
//! as an explicit state machine: every suspension point (a send finding the
//! queue full, a receive finding it empty) is a visible `Pending` outcome
//! that the caller retries after the other side has made progress.

pub mod channel;
pub mod fmt_config;
pub mod registry;
pub mod supervise;
pub mod worker;
