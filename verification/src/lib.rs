//! The decision core of a retry utility: when a failed operation is tried
//! again, after which delay, and how the state of a call travels from one
//! attempt to the next.

pub mod backoff;
pub mod retry_core;
pub mod session;
pub mod laws;
pub mod args;
pub mod wrapping;
