//! Coordination core of an HTTP code-index service.
//!
//! The service keeps at most one live index handle. Reads run against
//! whichever handle is current; a rebuild constructs a new handle outside
//! any lock and swaps it in atomically on success. This crate holds the
//! decision logic of that pattern — the coordinator state machine and the
//! translation of outcomes into HTTP replies — verified; the surrounding
//! server runs the event loop and performs the engine calls.

pub mod coordinator;
pub mod facade;
