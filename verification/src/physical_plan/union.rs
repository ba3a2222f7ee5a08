//! The union of several inputs: their partitions side by side, no row merged
//! or moved.

use crate::error::DataFusionError;
use crate::physical_plan::ExecutionPlan;
use crate::physical_plan::Partitioning;
use arrow::datatypes::SchemaRef;
use std::sync::Arc;
use vstd::prelude::*;

verus! {

/// UNION ALL: exposes its inputs as one output, one partition for each input.
#[derive(Debug)]
pub struct UnionExec<B> {
    /// The inputs, in their order.
    pub inputs: Vec<Arc<ExecutionPlan<B>>>,
}

impl<B> UnionExec<B> {
    /// The union of `inputs`.
    pub fn new(inputs: Vec<Arc<ExecutionPlan<B>>>) -> (union: Self)
        ensures
            union.inputs == inputs,
    {
        UnionExec { inputs }
    }

    /// The schema of the first input. The inputs are taken to agree on their
    /// schema; the operator does not enforce it.
    pub fn schema(&self) -> (schema: SchemaRef)
        requires
            self.inputs@.len() > 0,
            (*self.inputs@[0]).has_schema(),
        ensures
            *schema == (*self.inputs@[0]).schema_of(),
        decreases self,
    {
        self.inputs[0].schema()
    }

    /// The inputs themselves.
    pub fn children(&self) -> (children: Vec<Arc<ExecutionPlan<B>>>)
        ensures
            children@ == self.inputs@,
    {
        let mut children: Vec<Arc<ExecutionPlan<B>>> = Vec::new();
        let mut i: usize = 0;
        while i < self.inputs.len()
            invariant
                i <= self.inputs.len(),
                children@ == self.inputs@.subrange(0, i as int),
            decreases self.inputs.len() - i,
        {
            children.push(self.inputs[i].clone());
            i += 1;
        }
        children
    }

    /// As many partitions as there are inputs, with nothing known of the rows
    /// in them.
    pub fn output_partitioning(&self) -> (partitioning: Partitioning)
        ensures
            partitioning == Partitioning::UnknownPartitioning(self.inputs.len()),
            partitioning.count() == self.inputs@.len(),
    {
        Partitioning::UnknownPartitioning(self.inputs.len())
    }

    /// The union of `children`. A rewrite that walks a plan hands in as many
    /// children as the union has; the union is built over whatever list it is
    /// given.
    pub fn with_new_children(&self, children: Vec<Arc<ExecutionPlan<B>>>) -> (rebuilt: Result<
        Arc<ExecutionPlan<B>>,
        DataFusionError,
    >)
        ensures
            rebuilt matches Ok(plan) && *plan == ExecutionPlan::Union(UnionExec { inputs: children }),
    {
        Ok(Arc::new(ExecutionPlan::Union(UnionExec::new(children))))
    }

    /// The batches of partition `partition` of the union: those of the first
    /// partition of input `partition`, as that input gives them. Where the
    /// union has no such partition, the error says so; where the input fails,
    /// its error is handed on.
    pub fn execute(&self, partition: usize) -> (stream: Result<&[B], DataFusionError>)
        ensures
            partition < self.inputs@.len() ==> match stream {
                Ok(batches) => (*self.inputs@[partition as int]).batches(0) == Ok::<
                    Seq<B>,
                    DataFusionError,
                >(batches@),
                Err(e) => (*self.inputs@[partition as int]).batches(0) == Err::<Seq<B>, DataFusionError>(e),
            },
            partition >= self.inputs@.len() ==> stream == Err::<&[B], DataFusionError>(
                DataFusionError::PartitionOutOfRange { partition, partitions: self.inputs.len() },
            ),
        decreases self,
    {
        if partition < self.inputs.len() {
            self.inputs[partition].execute(0)
        } else {
            Err(DataFusionError::PartitionOutOfRange { partition, partitions: self.inputs.len() })
        }
    }
}

} // verus!
