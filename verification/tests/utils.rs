use arrow::datatypes::DataType;
use arrow::datatypes::Field;
use arrow::datatypes::Schema;
use arrow::datatypes::SchemaRef;
use datafusion::error::DataFusionError;
use datafusion::logical_plan::Expr;
use datafusion::logical_plan::JoinType;
use datafusion::logical_plan::LogicalPlan;
use datafusion::logical_plan::Operator;
use datafusion::logical_plan::Statistics;
use datafusion::optimizer::utils::expressions;
use datafusion::optimizer::utils::from_plan;
use datafusion::optimizer::utils::from_plan_compared;
use datafusion::optimizer::utils::inputs;
use std::sync::Arc;

fn schema_of(columns: &[&str]) -> SchemaRef {
    let fields: Vec<Field> = columns
        .iter()
        .map(|name| Field::new(*name, DataType::Int64, false))
        .collect();
    Arc::new(Schema::new(fields))
}

fn scan(name: &str, columns: &[&str]) -> LogicalPlan {
    LogicalPlan::TableScan {
        table_name: name.to_string(),
        statistics: Statistics { num_rows: None },
        projected_schema: schema_of(columns),
    }
}

fn column(name: &str) -> Expr {
    Expr::Column(name.to_string())
}

fn filter_on(input: LogicalPlan) -> LogicalPlan {
    LogicalPlan::Filter {
        predicate: Expr::BinaryExpr {
            left: Box::new(column("a")),
            op: Operator::Eq,
            right: Box::new(Expr::Literal(3)),
        },
        input: Arc::new(input),
    }
}

fn aggregate() -> LogicalPlan {
    LogicalPlan::Aggregate {
        input: Arc::new(scan("t", &["a", "b"])),
        group_expr: vec![column("a"), column("b")],
        aggr_expr: vec![Expr::Literal(1)],
        schema: schema_of(&["a", "b", "n"]),
    }
}

fn join_of(left: LogicalPlan, right: LogicalPlan) -> LogicalPlan {
    LogicalPlan::Join {
        left: Arc::new(left),
        right: Arc::new(right),
        on: vec![("a".to_string(), "b".to_string()), ("c".to_string(), "d".to_string())],
        join_type: JoinType::Left,
        schema: schema_of(&["a", "b", "c", "d"]),
    }
}

#[test]
fn expressions_of_each_kind() {
    let projection = LogicalPlan::Projection {
        expr: vec![column("b"), column("a")],
        input: Arc::new(scan("t", &["a", "b"])),
        schema: schema_of(&["b", "a"]),
    };
    assert_eq!(expressions(&projection), vec![column("b"), column("a")]);
    assert_eq!(expressions(&filter_on(scan("t", &["a"]))).len(), 1);
    assert_eq!(expressions(&aggregate()), vec![column("a"), column("b"), Expr::Literal(1)]);
    assert_eq!(
        expressions(&join_of(scan("l", &["a", "c"]), scan("r", &["b", "d"]))),
        vec![column("a"), column("b"), column("c"), column("d")]
    );
    assert_eq!(expressions(&scan("t", &["a"])), vec![]);
    assert_eq!(expressions(&LogicalPlan::Limit { n: 1, input: Arc::new(scan("t", &["a"])) }), vec![]);
}

#[test]
fn inputs_of_each_kind() {
    let left = scan("l", &["a", "c"]);
    let right = scan("r", &["b", "d"]);
    let joined = join_of(scan("l", &["a", "c"]), scan("r", &["b", "d"]));
    assert_eq!(inputs(&joined), vec![&left, &right]);
    assert_eq!(inputs(&filter_on(scan("l", &["a", "c"]))), vec![&left]);
    assert_eq!(inputs(&left), Vec::<&LogicalPlan>::new());
    let explain = LogicalPlan::Explain {
        verbose: false,
        plan: Arc::new(scan("l", &["a", "c"])),
        schema: schema_of(&["plan"]),
    };
    assert_eq!(inputs(&explain), Vec::<&LogicalPlan>::new());
    let extension = LogicalPlan::Extension {
        name: "n".to_string(),
        expr: vec![],
        inputs: vec![Arc::new(scan("r", &["b", "d"])), Arc::new(scan("l", &["a", "c"]))],
        schema: schema_of(&[]),
    };
    assert_eq!(inputs(&extension), vec![&right, &left]);
}

#[test]
fn from_plan_puts_new_parts_into_the_node() {
    let plan = filter_on(scan("old", &["a"]));
    let rebuilt = from_plan(&plan, &[column("x")], &[scan("new", &["a"])]).unwrap();
    assert_eq!(
        rebuilt,
        LogicalPlan::Filter { predicate: column("x"), input: Arc::new(scan("new", &["a"])) }
    );
}

#[test]
fn from_plan_splits_the_expressions_of_an_aggregate() {
    let rebuilt = from_plan(
        &aggregate(),
        &[column("x"), column("y"), Expr::Literal(7)],
        &[scan("new", &["a", "b"])],
    )
    .unwrap();
    assert_eq!(
        rebuilt,
        LogicalPlan::Aggregate {
            input: Arc::new(scan("new", &["a", "b"])),
            group_expr: vec![column("x"), column("y")],
            aggr_expr: vec![Expr::Literal(7)],
            schema: schema_of(&["a", "b", "n"]),
        }
    );
}

#[test]
fn from_plan_keeps_the_pairs_of_a_join() {
    let plan = join_of(scan("l", &["a", "c"]), scan("r", &["b", "d"]));
    let rebuilt = from_plan(
        &plan,
        &[column("p"), column("q"), column("r"), column("s")],
        &[scan("l2", &["a", "c"]), scan("r2", &["b", "d"])],
    )
    .unwrap();
    assert_eq!(rebuilt, join_of(scan("l2", &["a", "c"]), scan("r2", &["b", "d"])));
}

#[test]
fn from_plan_with_own_parts_gives_the_node_again() {
    for plan in [
        filter_on(scan("t", &["a"])),
        aggregate(),
        join_of(scan("l", &["a", "c"]), scan("r", &["b", "d"])),
        scan("t", &["a"]),
    ] {
        let own_inputs: Vec<LogicalPlan> = inputs(&plan).into_iter().cloned().collect();
        assert_eq!(from_plan(&plan, &expressions(&plan), &own_inputs), Ok(plan.clone()));
    }
}

#[test]
fn from_plan_refuses_a_wrong_number_of_expressions() {
    let plan = filter_on(scan("t", &["a"]));
    assert_eq!(
        from_plan(&plan, &[], &[scan("t", &["a"])]),
        Err(DataFusionError::ExpressionCount { expected: 1, found: 0 })
    );
    assert_eq!(
        from_plan(&scan("t", &["a"]), &[column("a")], &[]),
        Err(DataFusionError::ExpressionCount { expected: 0, found: 1 })
    );
    // The expressions are looked at before the children.
    assert_eq!(
        from_plan(&plan, &[column("a"), column("b")], &[]),
        Err(DataFusionError::ExpressionCount { expected: 1, found: 2 })
    );
}

#[test]
fn from_plan_refuses_a_wrong_number_of_children() {
    let plan = filter_on(scan("t", &["a"]));
    assert_eq!(
        from_plan(&plan, &[column("a")], &[]),
        Err(DataFusionError::ChildCount { expected: 1, found: 0 })
    );
    assert_eq!(
        from_plan(&plan, &[column("a")], &[scan("t", &["a"]), scan("u", &["a"])]),
        Err(DataFusionError::ChildCount { expected: 1, found: 2 })
    );
    assert_eq!(
        from_plan(&scan("t", &["a"]), &[], &[scan("u", &["a"])]),
        Err(DataFusionError::ChildCount { expected: 0, found: 1 })
    );
}

#[test]
fn from_plan_refuses_a_child_of_another_schema() {
    let plan = join_of(scan("l", &["a", "c"]), scan("r", &["b", "d"]));
    let expr = expressions(&plan);
    assert_eq!(
        from_plan(&plan, &expr, &[scan("l", &["a", "c"]), scan("r", &["b"])]),
        Err(DataFusionError::ChildSchema { child: 1 })
    );
    assert_eq!(
        from_plan(&plan, &expr, &[scan("l", &["a"]), scan("r", &["b"])]),
        Err(DataFusionError::ChildSchema { child: 0 })
    );
    // The same columns under other names make another schema.
    assert_eq!(
        from_plan(&plan, &expr, &[scan("l", &["a", "x"]), scan("r", &["b", "d"])]),
        Err(DataFusionError::ChildSchema { child: 0 })
    );
    // Another table of the same schema is taken.
    assert!(from_plan(&plan, &expr, &[scan("m", &["a", "c"]), scan("n", &["b", "d"])]).is_ok());
}

/// A scan of one dictionary column, the dictionary ordered or not.
fn dictionary_scan(name: &str, ordered: bool) -> LogicalPlan {
    let data_type = DataType::Dictionary(Box::new(DataType::Int32), Box::new(DataType::Utf8));
    let field = Field::new("a", data_type, false).with_dict_is_ordered(ordered);
    assert_eq!(field.dict_is_ordered(), Some(ordered));
    LogicalPlan::TableScan {
        table_name: name.to_string(),
        statistics: Statistics { num_rows: None },
        projected_schema: Arc::new(Schema::new(vec![field])),
    }
}

#[test]
fn from_plan_takes_a_child_whose_schema_arrow_calls_equal() {
    // The two schemas differ in whether the dictionary is ordered, and in
    // nothing that Arrow compares.
    let plan = filter_on(dictionary_scan("old", false));
    let rebuilt = from_plan(&plan, &[column("x")], &[dictionary_scan("new", true)]);
    assert_eq!(
        rebuilt,
        Ok(LogicalPlan::Filter { predicate: column("x"), input: Arc::new(dictionary_scan("new", true)) })
    );
    match rebuilt.unwrap() {
        LogicalPlan::Filter { input, .. } => match &*input {
            LogicalPlan::TableScan { table_name, projected_schema, .. } => {
                assert_eq!(table_name, "new");
                assert_eq!(projected_schema.field(0).dict_is_ordered(), Some(true));
            }
            _ => panic!("the child is no table scan"),
        },
        _ => panic!("a filter was rebuilt as another node"),
    }
    // Another type of the values is compared.
    let other = LogicalPlan::TableScan {
        table_name: "new".to_string(),
        statistics: Statistics { num_rows: None },
        projected_schema: Arc::new(Schema::new(vec![Field::new(
            "a",
            DataType::Dictionary(Box::new(DataType::Int32), Box::new(DataType::LargeUtf8)),
            false,
        )])),
    };
    assert_eq!(
        from_plan(&plan, &[column("x")], &[other]),
        Err(DataFusionError::ChildSchema { child: 0 })
    );
}

#[test]
fn from_plan_compared_goes_by_the_comparisons_given() {
    let plan = join_of(scan("l", &["a", "c"]), scan("r", &["b", "d"]));
    let expr = expressions(&plan);
    // Children of other schemas, marked as agreeing, are taken.
    let children = [scan("x", &["p"]), scan("y", &["q"])];
    assert_eq!(
        from_plan_compared(&plan, &expr, &children, &[true, true]),
        Ok(join_of(scan("x", &["p"]), scan("y", &["q"])))
    );
    // Children of the same schemas, marked as not agreeing, are refused.
    let same = [scan("l", &["a", "c"]), scan("r", &["b", "d"])];
    assert_eq!(
        from_plan_compared(&plan, &expr, &same, &[true, false]),
        Err(DataFusionError::ChildSchema { child: 1 })
    );
    assert_eq!(
        from_plan_compared(&plan, &expr, &same, &[false, false]),
        Err(DataFusionError::ChildSchema { child: 0 })
    );
    assert_eq!(
        from_plan_compared(&plan, &expr, &same, &[false, true]),
        Err(DataFusionError::ChildSchema { child: 0 })
    );
}

#[test]
fn from_plan_compared_counts_a_missing_comparison_as_a_disagreement() {
    let plan = join_of(scan("l", &["a", "c"]), scan("r", &["b", "d"]));
    let expr = expressions(&plan);
    let same = [scan("l", &["a", "c"]), scan("r", &["b", "d"])];
    assert_eq!(
        from_plan_compared(&plan, &expr, &same, &[true]),
        Err(DataFusionError::ChildSchema { child: 1 })
    );
    assert_eq!(
        from_plan_compared(&plan, &expr, &same, &[]),
        Err(DataFusionError::ChildSchema { child: 0 })
    );
    // What is given beyond the children is not read.
    assert!(from_plan_compared(&plan, &expr, &same, &[true, true, false]).is_ok());
    // A node without children needs no comparison.
    assert_eq!(from_plan_compared(&scan("t", &["a"]), &[], &[], &[]), Ok(scan("t", &["a"])));
}

#[test]
fn from_plan_compared_looks_at_the_counts_first() {
    let plan = filter_on(scan("t", &["a"]));
    assert_eq!(
        from_plan_compared(&plan, &[], &[scan("t", &["a"])], &[false]),
        Err(DataFusionError::ExpressionCount { expected: 1, found: 0 })
    );
    assert_eq!(
        from_plan_compared(&plan, &[column("a")], &[], &[false]),
        Err(DataFusionError::ChildCount { expected: 1, found: 0 })
    );
    assert_eq!(
        from_plan_compared(&plan, &[column("a")], &[scan("t", &["a"]), scan("u", &["a"])], &[true, true]),
        Err(DataFusionError::ChildCount { expected: 1, found: 2 })
    );
}
