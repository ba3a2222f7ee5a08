//! What every rewrite rule offers to the driver that schedules the rules.

use crate::error::DataFusionError;
use crate::logical_plan::LogicalPlan;
use vstd::prelude::*;

verus! {

/// A rule that rewrites a logical plan into one that computes the same rows.
pub trait OptimizerRule {
    /// The name by which the rule is known.
    fn name(&self) -> &str;

    /// Rewrites `plan`. Whatever a rule changes, the rewritten plan produces
    /// rows of the schema of `plan`.
    fn optimize(&mut self, plan: &LogicalPlan) -> (rewritten: Result<LogicalPlan, DataFusionError>)
        ensures
            rewritten matches Ok(node) ==> node@.schema() == plan@.schema(),
    ;
}

} // verus!
