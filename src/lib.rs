//! Probing of a remote media stream: classification of transport errors,
//! the per-session probe worker state machine, and the bookkeeping of a
//! set of workers run against one target.

pub mod classify;
pub mod worker;
pub mod runs;
pub mod manager;
