//! Process-supervision core for a desktop launcher shell.
//!
//! A production build of the launcher starts a local server process before
//! presenting its window and keeps the only handle to that process in a
//! lock-protected slot for the lifetime of the application; a development
//! build skips the spawn entirely and relies on an externally managed server.
//! This crate holds the verified core of that design: the platform dispatch
//! that selects the spawn invocation, the startup decision of whether to
//! spawn at all, and the exclusively-guarded ownership of the handle.
//! The OS spawn call itself and the surrounding shell framework are left to
//! the unverified binary around this crate.

pub mod startup;
pub mod state;
pub mod supervisor;
