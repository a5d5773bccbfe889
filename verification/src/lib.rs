//! Dispatch engine for many concurrent outbound HTTP calls: the records that
//! cross the two channels, the per-call state machine of the event loop, and
//! the correlation layer that files completions under their identifiers.

pub mod call_loop;
pub mod caller;
pub mod channel;
pub mod engine;
pub mod host;
pub mod recovery;
