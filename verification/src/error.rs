//! The error type shared by plan rewriting and physical operators.

use vstd::prelude::*;

verus! {

/// Why a plan could not be rebuilt or a partition could not be produced.
#[derive(Debug, Clone, Copy, PartialEq, Eq)]
pub enum DataFusionError {
    /// A node was rebuilt with a number of expressions other than the one it holds.
    ExpressionCount { expected: usize, found: usize },
    /// A node or operator was rebuilt with a number of children other than the one it takes.
    ChildCount { expected: usize, found: usize },
    /// The output schema of the child offered at position `child` does not agree with that of
    /// the child it replaces.
    ChildSchema { child: usize },
    /// An operator was asked for a partition that it does not have.
    PartitionOutOfRange { partition: usize, partitions: usize },
}

} // verus!
