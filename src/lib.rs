//! Blocking-pool bridge: the error model and the synchronous core of running
//! work against a connection leased from an `r2d2` pool.

pub mod error;
pub mod lease;
