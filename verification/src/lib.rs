//! Execution-output aggregation for notebook kernel messages.
//!
//! The crate folds a stream of heterogeneous kernel messages belonging to one
//! execution request into an ordered list of typed output blocks plus a single
//! execution status. Successive streaming-text chunks merge into one growing
//! block, competing MIME representations are reduced to the best available
//! one, and structured errors and status transitions are carried alongside,
//! all incrementally and without re-scanning history.

pub mod terminal;
pub mod mime;
pub mod outputs;
pub mod execution;
pub mod laws;
