//! Two pieces of a SQL query engine's planning pipeline: a statistics-driven
//! rewrite of logical plans that puts the smaller input of a hash join on the
//! build side, and the physical operators that a union of partitions is made
//! of. Every function carries a contract that Verus proves.

pub mod datatypes;
pub mod error;
pub mod logical_plan;
pub mod optimizer;
pub mod physical_plan;
