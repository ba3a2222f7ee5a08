//! Logical plans: what a query computes, as an immutable tree whose subtrees
//! are shared by reference count.

use arrow::datatypes::Schema;
use arrow::datatypes::SchemaRef;
use std::sync::Arc;
use vstd::prelude::*;

verus! {

/// The kinds of join. Exchanging the two sides of a join turns `Left` into
/// `Right` and back, and leaves `Inner` as it is.
#[derive(Debug, Clone, Copy, PartialEq, Eq)]
pub enum JoinType {
    /// The rows of both sides that find a partner.
    Inner,
    /// Every row of the left side, with its partners where it has any.
    Left,
    /// Every row of the right side, with its partners where it has any.
    Right,
}

/// The operators of a binary expression.
#[derive(Debug, Clone, Copy, PartialEq, Eq)]
pub enum Operator {
    Eq,
    NotEq,
    Lt,
    LtEq,
    Gt,
    GtEq,
    Plus,
    Minus,
    Multiply,
    Divide,
    And,
    Or,
}

/// An expression over the columns of a plan. Plans carry expressions; nothing
/// here evaluates them.
#[derive(Debug, PartialEq, Eq)]
pub enum Expr {
    /// The column of that name.
    Column(String),
    /// A constant.
    Literal(i64),
    /// An operator applied to two expressions.
    BinaryExpr { left: Box<Expr>, op: Operator, right: Box<Expr> },
}

/// What an `Expr` stands for.
pub enum ExprView {
    Column(Seq<char>),
    Literal(int),
    BinaryExpr { left: Box<ExprView>, op: Operator, right: Box<ExprView> },
}

impl Expr {
    /// The expression as a mathematical value.
    pub open spec fn model(self) -> ExprView
        decreases self,
    {
        match self {
            Expr::Column(name) => ExprView::Column(name@),
            Expr::Literal(value) => ExprView::Literal(value as int),
            Expr::BinaryExpr { left, op, right } => ExprView::BinaryExpr {
                left: Box::new((*left).model()),
                op,
                right: Box::new((*right).model()),
            },
        }
    }
}

impl View for Expr {
    type V = ExprView;

    open spec fn view(&self) -> ExprView {
        self.model()
    }
}

impl Clone for Expr {
    /// A copy of the expression.
    fn clone(&self) -> (copy: Self)
        ensures
            copy@ == self@,
        decreases self,
    {
        match self {
            Expr::Column(name) => Expr::Column(name.clone()),
            Expr::Literal(value) => Expr::Literal(*value),
            Expr::BinaryExpr { left, op, right } => Expr::BinaryExpr {
                left: Box::new((&**left).clone()),
                op: *op,
                right: Box::new((&**right).clone()),
            },
        }
    }
}

/// The views of a list of expressions, in order.
pub open spec fn exprs_view(exprs: Seq<Expr>) -> Seq<ExprView> {
    exprs.map_values(|e: Expr| e@)
}

/// A copy of the expressions from position `from` up to, not including, position `to`.
pub(crate) fn clone_expr_range(exprs: &[Expr], from: usize, to: usize) -> (copy: Vec<Expr>)
    requires
        from <= to <= exprs@.len(),
    ensures
        exprs_view(copy@) == exprs_view(exprs@).subrange(from as int, to as int),
{
    let mut copy: Vec<Expr> = Vec::new();
    let mut i: usize = from;
    while i < to
        invariant
            from <= i <= to <= exprs@.len(),
            copy@.len() == i - from,
            forall|k: int| 0 <= k < i - from ==> copy@[k]@ == exprs@[from + k]@,
        decreases to - i,
    {
        copy.push(exprs[i].clone());
        i += 1;
    }
    copy
}

/// A copy of a list of expressions.
pub(crate) fn clone_exprs(exprs: &[Expr]) -> (copy: Vec<Expr>)
    ensures
        exprs_view(copy@) == exprs_view(exprs@),
{
    let copy = clone_expr_range(exprs, 0, exprs.len());
    copy
}

/// The views of a list of column pairs, in order.
pub open spec fn pairs_view(pairs: Seq<(String, String)>) -> Seq<(Seq<char>, Seq<char>)> {
    pairs.map_values(|p: (String, String)| (p.0@, p.1@))
}

/// A copy of a list of column pairs.
pub(crate) fn clone_pairs(pairs: &[(String, String)]) -> (copy: Vec<(String, String)>)
    ensures
        pairs_view(copy@) == pairs_view(pairs@),
{
    let mut copy: Vec<(String, String)> = Vec::new();
    let mut i: usize = 0;
    while i < pairs.len()
        invariant
            i <= pairs.len(),
            copy@.len() == i,
            forall|k: int| 0 <= k < i ==> copy@[k].0@ == pairs@[k].0@ && copy@[k].1@ == pairs@[k].1@,
        decreases pairs.len() - i,
    {
        copy.push((pairs[i].0.clone(), pairs[i].1.clone()));
        i += 1;
    }
    copy
}

/// What the catalog knows of a table. A count is exact; `None` says that the
/// number of rows is unknown.
#[derive(Debug, Clone, Copy, PartialEq, Eq)]
pub struct Statistics {
    /// The number of rows of the table, if it is known.
    pub num_rows: Option<usize>,
}

/// The file formats of an external table.
#[derive(Debug, Clone, Copy, PartialEq, Eq)]
pub enum FileType {
    NdJson,
    Parquet,
    CSV,
}

/// A node of a logical plan, with its children. A plan is never changed in
/// place: a rewrite builds new nodes around children that it may share with
/// the plan it read.
#[derive(Debug, PartialEq)]
pub enum LogicalPlan {
    /// Evaluates a list of expressions on each row of its input.
    Projection { expr: Vec<Expr>, input: Arc<LogicalPlan>, schema: SchemaRef },
    /// Keeps the rows of its input for which the predicate holds.
    Filter { predicate: Expr, input: Arc<LogicalPlan> },
    /// Groups the rows of its input and aggregates each group.
    Aggregate {
        input: Arc<LogicalPlan>,
        group_expr: Vec<Expr>,
        aggr_expr: Vec<Expr>,
        schema: SchemaRef,
    },
    /// Orders the rows of its input.
    Sort { expr: Vec<Expr>, input: Arc<LogicalPlan> },
    /// Joins two inputs on pairs of equal columns, the first column of each
    /// pair taken from the left input. The left input is the build side.
    Join {
        left: Arc<LogicalPlan>,
        right: Arc<LogicalPlan>,
        on: Vec<(String, String)>,
        join_type: JoinType,
        schema: SchemaRef,
    },
    /// Reads a table.
    TableScan { table_name: String, statistics: Statistics, projected_schema: SchemaRef },
    /// Produces no row, or one row without columns.
    EmptyRelation { produce_one_row: bool, schema: SchemaRef },
    /// Keeps the first `n` rows of its input.
    Limit { n: usize, input: Arc<LogicalPlan> },
    /// Registers a file as a table.
    CreateExternalTable {
        schema: SchemaRef,
        name: String,
        location: String,
        file_type: FileType,
        has_header: bool,
    },
    /// Describes a plan instead of running it.
    Explain { verbose: bool, plan: Arc<LogicalPlan>, schema: SchemaRef },
    /// A node that the engine does not know, with any number of inputs.
    Extension { name: String, expr: Vec<Expr>, inputs: Vec<Arc<LogicalPlan>>, schema: SchemaRef },
}

/// What a `LogicalPlan` stands for.
pub enum LogicalPlanView {
    Projection { expr: Seq<ExprView>, input: Box<LogicalPlanView>, schema: Schema },
    Filter { predicate: ExprView, input: Box<LogicalPlanView> },
    Aggregate {
        input: Box<LogicalPlanView>,
        group_expr: Seq<ExprView>,
        aggr_expr: Seq<ExprView>,
        schema: Schema,
    },
    Sort { expr: Seq<ExprView>, input: Box<LogicalPlanView> },
    Join {
        left: Box<LogicalPlanView>,
        right: Box<LogicalPlanView>,
        on: Seq<(Seq<char>, Seq<char>)>,
        join_type: JoinType,
        schema: Schema,
    },
    TableScan { table_name: Seq<char>, num_rows: Option<nat>, projected_schema: Schema },
    EmptyRelation { produce_one_row: bool, schema: Schema },
    Limit { n: nat, input: Box<LogicalPlanView> },
    CreateExternalTable {
        schema: Schema,
        name: Seq<char>,
        location: Seq<char>,
        file_type: FileType,
        has_header: bool,
    },
    Explain { verbose: bool, plan: Box<LogicalPlanView>, schema: Schema },
    Extension { name: Seq<char>, expr: Seq<ExprView>, inputs: Seq<LogicalPlanView>, schema: Schema },
}

impl Statistics {
    /// The row count as a mathematical value.
    pub open spec fn rows(self) -> Option<nat> {
        match self.num_rows {
            Some(n) => Some(n as nat),
            None => None,
        }
    }
}

impl LogicalPlan {
    /// The plan as a mathematical value.
    pub open spec fn model(self) -> LogicalPlanView
        decreases self,
    {
        match self {
            LogicalPlan::Projection { expr, input, schema } => LogicalPlanView::Projection {
                expr: exprs_view(expr@),
                input: Box::new((*input).model()),
                schema: *schema,
            },
            LogicalPlan::Filter { predicate, input } => LogicalPlanView::Filter {
                predicate: predicate@,
                input: Box::new((*input).model()),
            },
            LogicalPlan::Aggregate { input, group_expr, aggr_expr, schema } => LogicalPlanView::Aggregate {
                input: Box::new((*input).model()),
                group_expr: exprs_view(group_expr@),
                aggr_expr: exprs_view(aggr_expr@),
                schema: *schema,
            },
            LogicalPlan::Sort { expr, input } => LogicalPlanView::Sort {
                expr: exprs_view(expr@),
                input: Box::new((*input).model()),
            },
            LogicalPlan::Join { left, right, on, join_type, schema } => LogicalPlanView::Join {
                left: Box::new((*left).model()),
                right: Box::new((*right).model()),
                on: pairs_view(on@),
                join_type,
                schema: *schema,
            },
            LogicalPlan::TableScan { table_name, statistics, projected_schema } => LogicalPlanView::TableScan {
                table_name: table_name@,
                num_rows: statistics.rows(),
                projected_schema: *projected_schema,
            },
            LogicalPlan::EmptyRelation { produce_one_row, schema } => LogicalPlanView::EmptyRelation {
                produce_one_row,
                schema: *schema,
            },
            LogicalPlan::Limit { n, input } => LogicalPlanView::Limit {
                n: n as nat,
                input: Box::new((*input).model()),
            },
            LogicalPlan::CreateExternalTable { schema, name, location, file_type, has_header } => LogicalPlanView::CreateExternalTable {
                schema: *schema,
                name: name@,
                location: location@,
                file_type,
                has_header,
            },
            LogicalPlan::Explain { verbose, plan, schema } => LogicalPlanView::Explain {
                verbose,
                plan: Box::new((*plan).model()),
                schema: *schema,
            },
            LogicalPlan::Extension { name, expr, inputs, schema } => LogicalPlanView::Extension {
                name: name@,
                expr: exprs_view(expr@),
                inputs: Seq::new(
                    inputs@.len(),
                    |i: int|
                        if 0 <= i < inputs@.len() {
                            (*inputs@[i]).model()
                        } else {
                            arbitrary()
                        },
                ),
                schema: *schema,
            },
        }
    }
}

impl View for LogicalPlan {
    type V = LogicalPlanView;

    open spec fn view(&self) -> LogicalPlanView {
        self.model()
    }
}

impl LogicalPlanView {
    /// The schema of the rows that the plan produces. A node without a schema
    /// of its own produces rows of its input's schema.
    pub open spec fn schema(self) -> Schema
        decreases self,
    {
        match self {
            LogicalPlanView::Projection { schema, .. } => schema,
            LogicalPlanView::Filter { input, .. } => input.schema(),
            LogicalPlanView::Aggregate { schema, .. } => schema,
            LogicalPlanView::Sort { input, .. } => input.schema(),
            LogicalPlanView::Join { schema, .. } => schema,
            LogicalPlanView::TableScan { projected_schema, .. } => projected_schema,
            LogicalPlanView::EmptyRelation { schema, .. } => schema,
            LogicalPlanView::Limit { input, .. } => input.schema(),
            LogicalPlanView::CreateExternalTable { schema, .. } => schema,
            LogicalPlanView::Explain { schema, .. } => schema,
            LogicalPlanView::Extension { schema, .. } => schema,
        }
    }
}

impl LogicalPlan {
    /// The schema of the rows that the plan produces.
    pub fn schema(&self) -> (schema: &SchemaRef)
        ensures
            **schema == self@.schema(),
        decreases self,
    {
        match self {
            LogicalPlan::Projection { schema, .. } => schema,
            LogicalPlan::Filter { input, .. } => input.schema(),
            LogicalPlan::Aggregate { schema, .. } => schema,
            LogicalPlan::Sort { input, .. } => input.schema(),
            LogicalPlan::Join { schema, .. } => schema,
            LogicalPlan::TableScan { projected_schema, .. } => projected_schema,
            LogicalPlan::EmptyRelation { schema, .. } => schema,
            LogicalPlan::Limit { input, .. } => input.schema(),
            LogicalPlan::CreateExternalTable { schema, .. } => schema,
            LogicalPlan::Explain { schema, .. } => schema,
            LogicalPlan::Extension { schema, .. } => schema,
        }
    }
}

/// The views of a list of plans, in order.
pub open spec fn plans_view(plans: Seq<LogicalPlan>) -> Seq<LogicalPlanView> {
    plans.map_values(|p: LogicalPlan| p@)
}

/// A copy of a list of shared plans: the same subtrees, shared once more.
pub(crate) fn clone_plans(plans: &[Arc<LogicalPlan>]) -> (copy: Vec<Arc<LogicalPlan>>)
    ensures
        copy@ == plans@,
{
    let mut copy: Vec<Arc<LogicalPlan>> = Vec::new();
    let mut i: usize = 0;
    while i < plans.len()
        invariant
            i <= plans.len(),
            copy@ == plans@.subrange(0, i as int),
        decreases plans.len() - i,
    {
        copy.push(plans[i].clone());
        i += 1;
    }
    copy
}

impl Clone for LogicalPlan {
    /// A copy of the node that shares the node's children.
    fn clone(&self) -> (copy: Self)
        ensures
            copy@ == self@,
    {
        match self {
            LogicalPlan::Projection { expr, input, schema } => LogicalPlan::Projection {
                expr: clone_exprs(expr.as_slice()),
                input: input.clone(),
                schema: schema.clone(),
            },
            LogicalPlan::Filter { predicate, input } => LogicalPlan::Filter {
                predicate: predicate.clone(),
                input: input.clone(),
            },
            LogicalPlan::Aggregate { input, group_expr, aggr_expr, schema } => LogicalPlan::Aggregate {
                input: input.clone(),
                group_expr: clone_exprs(group_expr.as_slice()),
                aggr_expr: clone_exprs(aggr_expr.as_slice()),
                schema: schema.clone(),
            },
            LogicalPlan::Sort { expr, input } => LogicalPlan::Sort {
                expr: clone_exprs(expr.as_slice()),
                input: input.clone(),
            },
            LogicalPlan::Join { left, right, on, join_type, schema } => LogicalPlan::Join {
                left: left.clone(),
                right: right.clone(),
                on: clone_pairs(on.as_slice()),
                join_type: *join_type,
                schema: schema.clone(),
            },
            LogicalPlan::TableScan { table_name, statistics, projected_schema } => LogicalPlan::TableScan {
                table_name: table_name.clone(),
                statistics: *statistics,
                projected_schema: projected_schema.clone(),
            },
            LogicalPlan::EmptyRelation { produce_one_row, schema } => LogicalPlan::EmptyRelation {
                produce_one_row: *produce_one_row,
                schema: schema.clone(),
            },
            LogicalPlan::Limit { n, input } => LogicalPlan::Limit { n: *n, input: input.clone() },
            LogicalPlan::CreateExternalTable { schema, name, location, file_type, has_header } => LogicalPlan::CreateExternalTable {
                schema: schema.clone(),
                name: name.clone(),
                location: location.clone(),
                file_type: *file_type,
                has_header: *has_header,
            },
            LogicalPlan::Explain { verbose, plan, schema } => LogicalPlan::Explain {
                verbose: *verbose,
                plan: plan.clone(),
                schema: schema.clone(),
            },
            LogicalPlan::Extension { name, expr, inputs, schema } => {
                let copy = LogicalPlan::Extension {
                    name: name.clone(),
                    expr: clone_exprs(expr.as_slice()),
                    inputs: clone_plans(inputs.as_slice()),
                    schema: schema.clone(),
                };
                copy
            },
        }
    }
}

} // verus!
