//! Light-client verification that a transaction's effects and events are
//! part of a committee-signed checkpoint.

pub mod checkpoint;
pub mod digest;
pub mod inclusion;
pub mod guarantees;
