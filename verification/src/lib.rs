//! A client-session model for an asynchronous query protocol: typed values,
//! statements with bound parameters, write-once futures, restartable results,
//! a connection pool with round-robin dispatch, and read-only schema metadata.
//!
//! Everything here works on plain values. Transport, timers and threads live
//! with the caller, which feeds their outcomes to the state machines below.

pub mod value;
pub mod schema;
pub mod statement;
pub mod result;
pub mod future;
pub mod session;
