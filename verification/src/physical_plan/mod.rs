//! Physical operators: how a query is computed, as a tree of operators whose
//! output comes in partitions that can be produced one by one.
//!
//! The operators form a closed set, `ExecutionPlan`, and every kind offers the
//! same five operations: its schema, its children, its partitioning, a copy of
//! itself over other children, and the batches of one of its partitions. The
//! operators are generic in the batch `B`: they hand batches on and never look
//! into one.

pub mod memory;
pub mod union;

use crate::error::DataFusionError;
use crate::physical_plan::memory::MemoryExec;
use crate::physical_plan::union::UnionExec;
use arrow::datatypes::Schema;
use arrow::datatypes::SchemaRef;
use std::sync::Arc;
use vstd::prelude::*;

verus! {

/// How the output of an operator is divided into partitions.
#[derive(Debug, Clone, Copy, PartialEq, Eq)]
pub enum Partitioning {
    /// So many partitions, filled batch by batch in turn.
    RoundRobinBatch(usize),
    /// So many partitions, with nothing known of how the rows are divided
    /// among them or ordered in them.
    UnknownPartitioning(usize),
}

impl Partitioning {
    /// The number of partitions.
    pub open spec fn count(self) -> nat {
        match self {
            Partitioning::RoundRobinBatch(n) => n as nat,
            Partitioning::UnknownPartitioning(n) => n as nat,
        }
    }

    /// The number of partitions.
    pub fn partition_count(&self) -> (n: usize)
        ensures
            n == self.count(),
    {
        match self {
            Partitioning::RoundRobinBatch(n) => *n,
            Partitioning::UnknownPartitioning(n) => *n,
        }
    }
}

/// A physical operator with the operators under it. Operators are built once
/// and never changed; a subtree may be shared by several parents.
#[derive(Debug)]
pub enum ExecutionPlan<B> {
    /// Batches held in memory.
    Memory(MemoryExec<B>),
    /// The partitions of several inputs, side by side.
    Union(UnionExec<B>),
}

impl<B> ExecutionPlan<B> {
    /// Whether the operator has a schema: a union takes its schema from its
    /// first input, so it needs one, and that input needs a schema too.
    pub open spec fn has_schema(self) -> bool
        decreases self,
    {
        match self {
            ExecutionPlan::Memory(_) => true,
            ExecutionPlan::Union(union) => union.inputs@.len() > 0 && (*union.inputs@[0]).has_schema(),
        }
    }

    /// The schema of the batches that the operator produces.
    pub open spec fn schema_of(self) -> Schema
        decreases self,
    {
        match self {
            ExecutionPlan::Memory(memory) => *memory.schema,
            ExecutionPlan::Union(union) => if union.inputs@.len() > 0 {
                (*union.inputs@[0]).schema_of()
            } else {
                arbitrary()
            },
        }
    }

    /// The children of the operator, in their order.
    pub open spec fn inputs(self) -> Seq<Arc<ExecutionPlan<B>>> {
        match self {
            ExecutionPlan::Memory(_) => Seq::empty(),
            ExecutionPlan::Union(union) => union.inputs@,
        }
    }

    /// The partitioning of the operator's output.
    pub open spec fn partitioning(self) -> Partitioning {
        match self {
            ExecutionPlan::Memory(memory) => Partitioning::UnknownPartitioning(memory.partitions.len()),
            ExecutionPlan::Union(union) => Partitioning::UnknownPartitioning(union.inputs.len()),
        }
    }

    /// What asking the operator for a partition gives: the batches of that
    /// partition in the order in which they are produced, or the reason why
    /// there are none.
    ///
    /// A union has one partition for each input. Its partition `p` is the
    /// first partition of its input `p`, whatever that input has beyond it.
    pub open spec fn batches(self, partition: nat) -> Result<Seq<B>, DataFusionError>
        decreases self,
    {
        match self {
            ExecutionPlan::Memory(memory) => if partition < memory.partitions@.len() {
                Ok(memory.partitions@[partition as int]@)
            } else {
                Err(
                    DataFusionError::PartitionOutOfRange {
                        partition: partition as usize,
                        partitions: memory.partitions.len(),
                    },
                )
            },
            ExecutionPlan::Union(union) => if partition < union.inputs@.len() {
                (*union.inputs@[partition as int]).batches(0)
            } else {
                Err(
                    DataFusionError::PartitionOutOfRange {
                        partition: partition as usize,
                        partitions: union.inputs.len(),
                    },
                )
            },
        }
    }

    /// What rebuilding the operator over `children` gives. Batches in memory
    /// have no children and take none; a union takes any.
    pub open spec fn rebuilt(self, children: Vec<Arc<ExecutionPlan<B>>>) -> Result<
        ExecutionPlan<B>,
        DataFusionError,
    > {
        match self {
            ExecutionPlan::Memory(_) => if children@.len() == 0 {
                Ok(self)
            } else {
                Err(DataFusionError::ChildCount { expected: 0, found: children.len() })
            },
            ExecutionPlan::Union(_) => Ok(ExecutionPlan::Union(UnionExec { inputs: children })),
        }
    }
}

impl<B> ExecutionPlan<B> {
    /// The schema of the batches that the operator produces.
    pub fn schema(&self) -> (schema: SchemaRef)
        requires
            self.has_schema(),
        ensures
            *schema == self.schema_of(),
        decreases self,
    {
        match self {
            ExecutionPlan::Memory(memory) => memory.schema(),
            ExecutionPlan::Union(union) => union.schema(),
        }
    }

    /// Whether the operator has a schema, so that `schema` may be called.
    pub fn schema_is_defined(&self) -> (defined: bool)
        ensures
            defined == self.has_schema(),
        decreases self,
    {
        match self {
            ExecutionPlan::Memory(_) => true,
            ExecutionPlan::Union(union) => union.inputs.len() > 0 && union.inputs[0].schema_is_defined(),
        }
    }

    /// The children of the operator, in their order.
    pub fn children(&self) -> (children: Vec<Arc<ExecutionPlan<B>>>)
        ensures
            children@ == self.inputs(),
    {
        match self {
            ExecutionPlan::Memory(memory) => memory.children(),
            ExecutionPlan::Union(union) => union.children(),
        }
    }

    /// How the output of the operator is divided into partitions.
    pub fn output_partitioning(&self) -> (partitioning: Partitioning)
        ensures
            partitioning == self.partitioning(),
    {
        match self {
            ExecutionPlan::Memory(memory) => memory.output_partitioning(),
            ExecutionPlan::Union(union) => union.output_partitioning(),
        }
    }

    /// An operator of the same kind and settings over `children`, or an error
    /// if the operator cannot take them.
    pub fn with_new_children(&self, children: Vec<Arc<ExecutionPlan<B>>>) -> (rebuilt: Result<
        Arc<ExecutionPlan<B>>,
        DataFusionError,
    >)
        ensures
            match rebuilt {
                Ok(plan) => self.rebuilt(children) == Ok::<ExecutionPlan<B>, DataFusionError>(*plan),
                Err(e) => self.rebuilt(children) == Err::<ExecutionPlan<B>, DataFusionError>(e),
            },
    {
        match self {
            ExecutionPlan::Memory(memory) => memory.with_new_children(children),
            ExecutionPlan::Union(union) => union.with_new_children(children),
        }
    }

    /// The batches of one partition, in the order in which the operator
    /// produces them, or an error if the operator has no such partition.
    pub fn execute(&self, partition: usize) -> (stream: Result<&[B], DataFusionError>)
        ensures
            match stream {
                Ok(batches) => self.batches(partition as nat) == Ok::<Seq<B>, DataFusionError>(batches@),
                Err(e) => self.batches(partition as nat) == Err::<Seq<B>, DataFusionError>(e),
            },
        decreases self,
    {
        match self {
            ExecutionPlan::Memory(memory) => memory.execute(partition),
            ExecutionPlan::Union(union) => union.execute(partition),
        }
    }
}

/// An operator has no partition beyond those that its partitioning counts:
/// asking for one fails.
pub proof fn lemma_partition_out_of_range_fails<B>(plan: ExecutionPlan<B>, partition: nat)
    requires
        partition >= plan.partitioning().count(),
    ensures
        plan.batches(partition) is Err,
{
}

/// An operator that has been rebuilt is of the kind that it was, and its
/// children are the children that were given.
pub proof fn lemma_rebuilt_has_the_children<B>(plan: ExecutionPlan<B>, children: Vec<Arc<ExecutionPlan<B>>>)
    requires
        plan.rebuilt(children) is Ok,
    ensures
        plan.rebuilt(children)->Ok_0.inputs() == children@,
        plan.rebuilt(children)->Ok_0 is Union <==> plan is Union,
{
}

} // verus!
