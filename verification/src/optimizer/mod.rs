//! Rewrites of logical plans.

pub mod hash_build_probe_order;
pub mod optimizer;
pub mod utils;
