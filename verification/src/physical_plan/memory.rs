//! An operator over batches that are held in memory.

use crate::error::DataFusionError;
use crate::physical_plan::ExecutionPlan;
use crate::physical_plan::Partitioning;
use arrow::datatypes::SchemaRef;
use std::sync::Arc;
use vstd::prelude::*;

verus! {

/// Batches in memory, partition by partition. The operator has no children.
#[derive(Debug)]
pub struct MemoryExec<B> {
    /// The schema of the batches.
    pub schema: SchemaRef,
    /// The batches of each partition, in the order in which they are produced.
    pub partitions: Arc<Vec<Vec<B>>>,
}

impl<B> MemoryExec<B> {
    /// An operator that produces `partitions`, whose batches have `schema`.
    pub fn new(partitions: Vec<Vec<B>>, schema: SchemaRef) -> (memory: Self)
        ensures
            *memory.partitions == partitions,
            memory.schema == schema,
    {
        MemoryExec { schema, partitions: Arc::new(partitions) }
    }

    /// The schema of the batches.
    pub fn schema(&self) -> (schema: SchemaRef)
        ensures
            schema == self.schema,
    {
        self.schema.clone()
    }

    /// The children: none.
    pub fn children(&self) -> (children: Vec<Arc<ExecutionPlan<B>>>)
        ensures
            children@.len() == 0,
    {
        Vec::new()
    }

    /// One partition for each list of batches.
    pub fn output_partitioning(&self) -> (partitioning: Partitioning)
        ensures
            partitioning == Partitioning::UnknownPartitioning(self.partitions.len()),
    {
        Partitioning::UnknownPartitioning(self.partitions.len())
    }

    /// The same operator once more, if `children` is empty; the operator takes
    /// no children.
    pub fn with_new_children(&self, children: Vec<Arc<ExecutionPlan<B>>>) -> (rebuilt: Result<
        Arc<ExecutionPlan<B>>,
        DataFusionError,
    >)
        ensures
            children@.len() == 0 ==> (rebuilt matches Ok(plan) && *plan == ExecutionPlan::Memory(*self)),
            children@.len() != 0 ==> rebuilt == Err::<Arc<ExecutionPlan<B>>, DataFusionError>(
                DataFusionError::ChildCount { expected: 0, found: children.len() },
            ),
    {
        if children.len() == 0 {
            Ok(
                Arc::new(
                    ExecutionPlan::Memory(
                        MemoryExec { schema: self.schema.clone(), partitions: self.partitions.clone() },
                    ),
                ),
            )
        } else {
            Err(DataFusionError::ChildCount { expected: 0, found: children.len() })
        }
    }

    /// The batches of a partition, in their order, or an error if the operator
    /// has no such partition.
    pub fn execute(&self, partition: usize) -> (stream: Result<&[B], DataFusionError>)
        ensures
            partition < self.partitions@.len() ==> (stream matches Ok(batches) && batches@
                == self.partitions@[partition as int]@),
            partition >= self.partitions@.len() ==> stream == Err::<&[B], DataFusionError>(
                DataFusionError::PartitionOutOfRange { partition, partitions: self.partitions.len() },
            ),
    {
        let partitions: &Vec<Vec<B>> = &*self.partitions;
        if partition < partitions.len() {
            Ok(partitions[partition].as_slice())
        } else {
            Err(DataFusionError::PartitionOutOfRange { partition, partitions: partitions.len() })
        }
    }
}

} // verus!
