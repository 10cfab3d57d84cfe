//! Worker-thread event bridge for a native windowing backend.
//!
//! The host UI thread reports window and input occurrences; a dedicated
//! worker thread owns the embedded event handler and drives rendering.
//! This crate holds the logic of that bridge: the fixed-size wire encoding
//! of events, a bounded FIFO message channel, the callback adapters that
//! build and enqueue events, the control request queue flowing the other
//! way, the key and modifier translators, and the worker loop's pacing
//! and window-lifecycle state machine.

pub mod adapter;
pub mod channel;
pub mod clipboard;
pub mod keys;
pub mod protocol;
pub mod requests;
pub mod worker;
