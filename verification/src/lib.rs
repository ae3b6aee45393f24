//! Sandboxed execution orchestrator.
//!
//! The library is the decision core of a system that runs user-submitted
//! code snippets inside a single long-lived sandbox container.  All
//! container-runtime calls, file writes and channel plumbing are performed
//! by an unverified shell around the library: the orchestrator here is a
//! state machine that, fed one event at a time, decides which runtime
//! actions to issue next and which notifications to emit, and whose central
//! guarantees (FIFO processing, at most one exec in flight, exact file
//! contents) are proved.

pub mod app_state;
pub mod config;
pub mod laws;
pub mod model;
pub mod msgs;
pub mod orchestrator;
pub mod text;
