use arrow::array::Int32Array;
use arrow::datatypes::DataType;
use arrow::datatypes::Field;
use arrow::datatypes::Schema;
use arrow::datatypes::SchemaRef;
use arrow::record_batch::RecordBatch;
use datafusion::error::DataFusionError;
use datafusion::physical_plan::memory::MemoryExec;
use datafusion::physical_plan::union::UnionExec;
use datafusion::physical_plan::ExecutionPlan;
use datafusion::physical_plan::Partitioning;
use std::sync::Arc;

fn schema_of(column: &str) -> SchemaRef {
    Arc::new(Schema::new(vec![Field::new(column, DataType::Int32, false)]))
}

fn batch(schema: &SchemaRef, values: Vec<i32>) -> RecordBatch {
    RecordBatch::try_new(schema.clone(), vec![Arc::new(Int32Array::from(values))]).unwrap()
}

/// An operator over the partitions given, each batch made of a list of values.
fn memory(column: &str, partitions: Vec<Vec<Vec<i32>>>) -> Arc<ExecutionPlan<RecordBatch>> {
    let schema = schema_of(column);
    let partitions: Vec<Vec<RecordBatch>> = partitions
        .into_iter()
        .map(|batches| batches.into_iter().map(|values| batch(&schema, values)).collect())
        .collect();
    Arc::new(ExecutionPlan::Memory(MemoryExec::new(partitions, schema)))
}

fn three_inputs() -> Vec<Arc<ExecutionPlan<RecordBatch>>> {
    vec![
        memory("a", vec![vec![vec![1, 2], vec![3]]]),
        memory("a", vec![vec![vec![10], vec![20, 30], vec![40]]]),
        memory("a", vec![vec![vec![100]]]),
    ]
}

#[test]
fn partition_of_a_union_is_the_first_partition_of_that_input() {
    let inputs = three_inputs();
    let union = UnionExec::new(inputs.clone());
    let schema = schema_of("a");

    let from_union = union.execute(1).unwrap();
    let from_input = inputs[1].execute(0).unwrap();
    assert_eq!(from_union, from_input);
    assert_eq!(
        from_union,
        &[batch(&schema, vec![10]), batch(&schema, vec![20, 30]), batch(&schema, vec![40])][..]
    );

    assert_eq!(union.execute(0).unwrap(), &[batch(&schema, vec![1, 2]), batch(&schema, vec![3])][..]);
    assert_eq!(union.execute(2).unwrap(), &[batch(&schema, vec![100])][..]);
}

#[test]
fn union_has_one_partition_for_each_input() {
    let union = UnionExec::new(three_inputs());
    assert_eq!(union.output_partitioning(), Partitioning::UnknownPartitioning(3));
    assert_eq!(union.output_partitioning().partition_count(), 3);

    let empty: UnionExec<RecordBatch> = UnionExec::new(vec![]);
    assert_eq!(empty.output_partitioning(), Partitioning::UnknownPartitioning(0));

    // The partitions that an input has do not count.
    let wide = UnionExec::new(vec![memory("a", vec![vec![], vec![], vec![], vec![]])]);
    assert_eq!(wide.output_partitioning().partition_count(), 1);
}

#[test]
fn union_refuses_a_partition_beyond_its_inputs() {
    let union = UnionExec::new(three_inputs());
    assert_eq!(
        union.execute(3),
        Err(DataFusionError::PartitionOutOfRange { partition: 3, partitions: 3 })
    );
    assert_eq!(
        union.execute(usize::MAX),
        Err(DataFusionError::PartitionOutOfRange { partition: usize::MAX, partitions: 3 })
    );
    let empty: UnionExec<RecordBatch> = UnionExec::new(vec![]);
    assert_eq!(
        empty.execute(0),
        Err(DataFusionError::PartitionOutOfRange { partition: 0, partitions: 0 })
    );
}

#[test]
fn union_has_the_schema_of_its_first_input() {
    let union = UnionExec::new(vec![memory("first", vec![]), memory("second", vec![])]);
    assert_eq!(union.schema(), schema_of("first"));
    let plan = ExecutionPlan::Union(union);
    assert_eq!(plan.schema(), schema_of("first"));
    let outer = UnionExec::new(vec![Arc::new(plan), memory("third", vec![])]);
    assert_eq!(outer.schema(), schema_of("first"));
}

#[test]
fn children_of_a_union_are_its_inputs() {
    let inputs = three_inputs();
    let union = UnionExec::new(inputs.clone());
    let children = union.children();
    assert_eq!(children.len(), 3);
    for (child, input) in children.iter().zip(inputs.iter()) {
        assert!(Arc::ptr_eq(child, input));
    }
    let plan = ExecutionPlan::Union(union);
    let children = plan.children();
    assert_eq!(children.len(), 3);
    for (child, input) in children.iter().zip(inputs.iter()) {
        assert!(Arc::ptr_eq(child, input));
    }
}

#[test]
fn only_the_first_partition_of_an_input_is_surfaced() {
    let schema = schema_of("a");
    let union = UnionExec::new(vec![
        memory("a", vec![vec![vec![1]], vec![vec![2]], vec![vec![3]]]),
        memory("a", vec![vec![vec![4]], vec![vec![5]]]),
    ]);
    assert_eq!(union.output_partitioning().partition_count(), 2);
    assert_eq!(union.execute(0).unwrap(), &[batch(&schema, vec![1])][..]);
    assert_eq!(union.execute(1).unwrap(), &[batch(&schema, vec![4])][..]);
    assert!(union.execute(2).is_err());
}

#[test]
fn an_input_without_partitions_fails_with_its_own_error() {
    let union = UnionExec::new(vec![memory("a", vec![vec![vec![1]]]), memory("a", vec![])]);
    assert!(union.execute(0).is_ok());
    assert_eq!(
        union.execute(1),
        Err(DataFusionError::PartitionOutOfRange { partition: 0, partitions: 0 })
    );
}

#[test]
fn a_union_of_unions_follows_first_partitions_down() {
    let schema = schema_of("a");
    let inner = Arc::new(ExecutionPlan::Union(UnionExec::new(vec![
        memory("a", vec![vec![vec![7, 8]]]),
        memory("a", vec![vec![vec![9]]]),
    ])));
    let outer = UnionExec::new(vec![memory("a", vec![vec![vec![1]]]), inner]);
    assert_eq!(outer.execute(0).unwrap(), &[batch(&schema, vec![1])][..]);
    // Partition 1 of the outer union is partition 0 of the inner one.
    assert_eq!(outer.execute(1).unwrap(), &[batch(&schema, vec![7, 8])][..]);
}

#[test]
fn a_partition_may_hold_no_batch() {
    let union = UnionExec::new(vec![memory("a", vec![vec![]])]);
    assert_eq!(union.execute(0).unwrap(), &[][..]);
}

#[test]
fn union_is_rebuilt_over_the_children_given() {
    let union = UnionExec::new(three_inputs());
    let replacement = vec![memory("b", vec![vec![vec![5]]]), memory("b", vec![vec![vec![6]]])];
    let rebuilt = union.with_new_children(replacement.clone()).unwrap();
    match &*rebuilt {
        ExecutionPlan::Union(new_union) => {
            assert_eq!(new_union.inputs.len(), 2);
            assert!(Arc::ptr_eq(&new_union.inputs[0], &replacement[0]));
            assert!(Arc::ptr_eq(&new_union.inputs[1], &replacement[1]));
        }
        ExecutionPlan::Memory(_) => panic!("a union was rebuilt as another operator"),
    }
    assert_eq!(rebuilt.execute(1).unwrap(), &[batch(&schema_of("b"), vec![6])][..]);
    // The operator that was asked is as it was.
    assert_eq!(union.output_partitioning().partition_count(), 3);

    let through_the_plan = ExecutionPlan::Union(union).with_new_children(replacement).unwrap();
    assert_eq!(through_the_plan.output_partitioning(), Partitioning::UnknownPartitioning(2));
}

#[test]
fn memory_produces_its_partitions() {
    let schema = schema_of("a");
    let plan = memory("a", vec![vec![vec![1], vec![2]], vec![vec![3]]]);
    assert_eq!(plan.schema(), schema);
    assert_eq!(plan.output_partitioning(), Partitioning::UnknownPartitioning(2));
    assert!(plan.children().is_empty());
    assert_eq!(plan.execute(0).unwrap(), &[batch(&schema, vec![1]), batch(&schema, vec![2])][..]);
    assert_eq!(plan.execute(1).unwrap(), &[batch(&schema, vec![3])][..]);
    assert_eq!(
        plan.execute(2),
        Err(DataFusionError::PartitionOutOfRange { partition: 2, partitions: 2 })
    );
}

#[test]
fn memory_takes_no_children() {
    let schema = schema_of("a");
    let plan = memory("a", vec![vec![vec![1]]]);
    let same = plan.with_new_children(vec![]).unwrap();
    assert_eq!(same.schema(), schema);
    assert_eq!(same.execute(0).unwrap(), &[batch(&schema, vec![1])][..]);
    assert_eq!(
        plan.with_new_children(vec![memory("a", vec![])]).err(),
        Some(DataFusionError::ChildCount { expected: 0, found: 1 })
    );
}

#[test]
fn partition_count_of_each_partitioning() {
    assert_eq!(Partitioning::RoundRobinBatch(4).partition_count(), 4);
    assert_eq!(Partitioning::UnknownPartitioning(0).partition_count(), 0);
}

#[test]
fn a_union_without_inputs_has_no_schema() {
    let empty: ExecutionPlan<RecordBatch> = ExecutionPlan::Union(UnionExec::new(vec![]));
    assert!(!empty.schema_is_defined());
    let over_empty = ExecutionPlan::Union(UnionExec::new(vec![Arc::new(empty), memory("a", vec![])]));
    assert!(!over_empty.schema_is_defined());
    let over_memory = ExecutionPlan::Union(UnionExec::new(vec![memory("a", vec![])]));
    assert!(over_memory.schema_is_defined());
    assert!(memory("a", vec![]).schema_is_defined());
}
