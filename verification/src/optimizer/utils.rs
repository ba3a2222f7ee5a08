//! Taking a plan node apart and putting it together again: what every rewrite
//! that walks a plan needs.

use crate::datatypes::same_schema;
use crate::datatypes::schemas_agree;
use crate::error::DataFusionError;
use crate::logical_plan::clone_expr_range;
use crate::logical_plan::clone_exprs;
use crate::logical_plan::clone_pairs;
use crate::logical_plan::exprs_view;
use crate::logical_plan::plans_view;
use crate::logical_plan::Expr;
use crate::logical_plan::ExprView;
use crate::logical_plan::LogicalPlan;
use crate::logical_plan::LogicalPlanView;
use std::sync::Arc;
use vstd::prelude::*;

verus! {

/// The columns that a join compares: for each pair, its left column and then
/// its right column.
pub open spec fn join_columns(on: Seq<(Seq<char>, Seq<char>)>) -> Seq<ExprView> {
    Seq::new(
        2 * on.len(),
        |i: int|
            if i % 2 == 0 {
                ExprView::Column(on[i / 2].0)
            } else {
                ExprView::Column(on[i / 2].1)
            },
    )
}

/// The first position from `from` on at which the output schema of the new
/// child does not agree with that of the old one, if there is one.
pub open spec fn first_mismatch(
    old_inputs: Seq<LogicalPlanView>,
    new_inputs: Seq<LogicalPlanView>,
    from: nat,
) -> Option<nat>
    decreases old_inputs.len() - from,
{
    if from >= old_inputs.len() || from >= new_inputs.len() {
        None
    } else if !schemas_agree(new_inputs[from as int].schema(), old_inputs[from as int].schema()) {
        Some(from)
    } else {
        first_mismatch(old_inputs, new_inputs, from + 1)
    }
}

/// The first of the positions from `from` up to `count` that `agreeing` does
/// not mark with `true`, if there is one. A position beyond the end of
/// `agreeing` is not marked.
pub open spec fn first_disagreement(agreeing: Seq<bool>, count: nat, from: nat) -> Option<nat>
    decreases count - from,
{
    if from >= count {
        None
    } else if !(from < agreeing.len() && agreeing[from as int]) {
        Some(from)
    } else {
        first_disagreement(agreeing, count, from + 1)
    }
}

impl LogicalPlanView {
    /// The expressions that the node itself holds, in a fixed order.
    pub open spec fn expressions(self) -> Seq<ExprView> {
        match self {
            LogicalPlanView::Projection { expr, .. } => expr,
            LogicalPlanView::Filter { predicate, .. } => seq![predicate],
            LogicalPlanView::Aggregate { group_expr, aggr_expr, .. } => group_expr + aggr_expr,
            LogicalPlanView::Sort { expr, .. } => expr,
            LogicalPlanView::Join { on, .. } => join_columns(on),
            LogicalPlanView::Extension { expr, .. } => expr,
            LogicalPlanView::TableScan { .. } => Seq::empty(),
            LogicalPlanView::EmptyRelation { .. } => Seq::empty(),
            LogicalPlanView::Limit { .. } => Seq::empty(),
            LogicalPlanView::CreateExternalTable { .. } => Seq::empty(),
            LogicalPlanView::Explain { .. } => Seq::empty(),
        }
    }

    /// The children of the node, in a fixed order. The plan that an `Explain`
    /// describes is not a child of it.
    pub open spec fn inputs(self) -> Seq<LogicalPlanView> {
        match self {
            LogicalPlanView::Projection { input, .. } => seq![*input],
            LogicalPlanView::Filter { input, .. } => seq![*input],
            LogicalPlanView::Aggregate { input, .. } => seq![*input],
            LogicalPlanView::Sort { input, .. } => seq![*input],
            LogicalPlanView::Join { left, right, .. } => seq![*left, *right],
            LogicalPlanView::Limit { input, .. } => seq![*input],
            LogicalPlanView::Extension { inputs, .. } => inputs,
            LogicalPlanView::TableScan { .. } => Seq::empty(),
            LogicalPlanView::EmptyRelation { .. } => Seq::empty(),
            LogicalPlanView::CreateExternalTable { .. } => Seq::empty(),
            LogicalPlanView::Explain { .. } => Seq::empty(),
        }
    }

    /// A node of the same kind with the same attributes, holding `expr` in
    /// place of its expressions and `inputs` in place of its children. A join
    /// keeps its column pairs whatever `expr` holds. Meant for lists of the
    /// lengths that the node has.
    pub open spec fn with_parts(self, expr: Seq<ExprView>, inputs: Seq<LogicalPlanView>) -> LogicalPlanView {
        match self {
            LogicalPlanView::Projection { schema, .. } => LogicalPlanView::Projection {
                expr,
                input: Box::new(inputs[0]),
                schema,
            },
            LogicalPlanView::Filter { .. } => LogicalPlanView::Filter {
                predicate: expr[0],
                input: Box::new(inputs[0]),
            },
            LogicalPlanView::Aggregate { group_expr, schema, .. } => LogicalPlanView::Aggregate {
                input: Box::new(inputs[0]),
                group_expr: expr.subrange(0, group_expr.len() as int),
                aggr_expr: expr.subrange(group_expr.len() as int, expr.len() as int),
                schema,
            },
            LogicalPlanView::Sort { .. } => LogicalPlanView::Sort { expr, input: Box::new(inputs[0]) },
            LogicalPlanView::Join { on, join_type, schema, .. } => LogicalPlanView::Join {
                left: Box::new(inputs[0]),
                right: Box::new(inputs[1]),
                on,
                join_type,
                schema,
            },
            LogicalPlanView::Limit { n, .. } => LogicalPlanView::Limit { n, input: Box::new(inputs[0]) },
            LogicalPlanView::Extension { name, schema, .. } => LogicalPlanView::Extension {
                name,
                expr,
                inputs,
                schema,
            },
            LogicalPlanView::TableScan { .. } => self,
            LogicalPlanView::EmptyRelation { .. } => self,
            LogicalPlanView::CreateExternalTable { .. } => self,
            LogicalPlanView::Explain { .. } => self,
        }
    }

    /// The error of a rebuilding that offers the node another number of
    /// expressions or of children than it has, the expressions looked at first.
    pub open spec fn count_error(self, expr: Seq<ExprView>, inputs: Seq<LogicalPlanView>) -> Option<
        DataFusionError,
    > {
        if expr.len() != self.expressions().len() {
            Some(
                DataFusionError::ExpressionCount {
                    expected: self.expressions().len() as usize,
                    found: expr.len() as usize,
                },
            )
        } else if inputs.len() != self.inputs().len() {
            Some(
                DataFusionError::ChildCount {
                    expected: self.inputs().len() as usize,
                    found: inputs.len() as usize,
                },
            )
        } else {
            None
        }
    }

    /// What rebuilding the node from `expr` and `inputs` gives. The node takes
    /// as many expressions and as many children as it has, and the output schema
    /// of each child must agree with that of the child that it replaces: be the
    /// same schema, or one that Arrow calls equal to it. The first demand that
    /// fails decides the error.
    pub open spec fn rebuilt(self, expr: Seq<ExprView>, inputs: Seq<LogicalPlanView>) -> Result<
        LogicalPlanView,
        DataFusionError,
    > {
        match self.count_error(expr, inputs) {
            Some(error) => Err(error),
            None => match first_mismatch(self.inputs(), inputs, 0) {
                Some(child) => Err(DataFusionError::ChildSchema { child: child as usize }),
                None => Ok(self.with_parts(expr, inputs)),
            },
        }
    }

    /// What rebuilding the node from `expr` and `inputs` gives once the schemas
    /// have been compared, `agreeing` holding for each child whether its output
    /// schema agrees with that of the child that it replaces.
    pub open spec fn rebuilt_compared(
        self,
        expr: Seq<ExprView>,
        inputs: Seq<LogicalPlanView>,
        agreeing: Seq<bool>,
    ) -> Result<LogicalPlanView, DataFusionError> {
        match self.count_error(expr, inputs) {
            Some(error) => Err(error),
            None => match first_disagreement(agreeing, inputs.len(), 0) {
                Some(child) => Err(DataFusionError::ChildSchema { child: child as usize }),
                None => Ok(self.with_parts(expr, inputs)),
            },
        }
    }
}

/// The expressions that a node itself holds, copied: those of a projection or
/// a sort, the predicate of a filter, the grouping expressions of an aggregate
/// followed by its aggregates, the columns of a join pair by pair.
pub fn expressions(plan: &LogicalPlan) -> (expr: Vec<Expr>)
    ensures
        exprs_view(expr@) == plan@.expressions(),
{
    match plan {
        LogicalPlan::Projection { expr, .. } => clone_exprs(expr.as_slice()),
        LogicalPlan::Filter { predicate, .. } => {
            let mut result: Vec<Expr> = Vec::new();
            result.push(predicate.clone());
            result
        },
        LogicalPlan::Aggregate { group_expr, aggr_expr, .. } => {
            let mut result = clone_exprs(group_expr.as_slice());
            let mut rest = clone_exprs(aggr_expr.as_slice());
            result.append(&mut rest);
            result
        },
        LogicalPlan::Sort { expr, .. } => clone_exprs(expr.as_slice()),
        LogicalPlan::Join { on, .. } => {
            let mut result: Vec<Expr> = Vec::new();
            let mut i: usize = 0;
            while i < on.len()
                invariant
                    i <= on.len(),
                    result@.len() == 2 * i,
                    forall|k: int|
                        0 <= k < i ==> result@[2 * k]@ == ExprView::Column(on@[k].0@) && result@[2 * k
                            + 1]@ == ExprView::Column(on@[k].1@),
                decreases on.len() - i,
            {
                result.push(Expr::Column(on[i].0.clone()));
                result.push(Expr::Column(on[i].1.clone()));
                i += 1;
            }
            result
        },
        LogicalPlan::Extension { expr, .. } => clone_exprs(expr.as_slice()),
        LogicalPlan::TableScan { .. } => Vec::new(),
        LogicalPlan::EmptyRelation { .. } => Vec::new(),
        LogicalPlan::Limit { .. } => Vec::new(),
        LogicalPlan::CreateExternalTable { .. } => Vec::new(),
        LogicalPlan::Explain { .. } => Vec::new(),
    }
}

/// The children of a node, in the order in which a rewrite visits them. Each
/// of them is a part of `plan`, so a walk that descends into them ends.
pub fn inputs(plan: &LogicalPlan) -> (inputs: Vec<&LogicalPlan>)
    ensures
        inputs@.len() == plan@.inputs().len(),
        forall|i: int| 0 <= i < inputs@.len() ==> (#[trigger] inputs@[i])@ == plan@.inputs()[i],
        forall|i: int| 0 <= i < inputs@.len() ==> decreases_to!(plan => #[trigger] inputs@[i]),
{
    match plan {
        LogicalPlan::Projection { input, .. } => one_input(input),
        LogicalPlan::Filter { input, .. } => one_input(input),
        LogicalPlan::Aggregate { input, .. } => one_input(input),
        LogicalPlan::Sort { input, .. } => one_input(input),
        LogicalPlan::Join { left, right, .. } => {
            let mut result: Vec<&LogicalPlan> = Vec::new();
            result.push(&**left);
            result.push(&**right);
            result
        },
        LogicalPlan::Limit { input, .. } => one_input(input),
        LogicalPlan::Extension { inputs, .. } => {
            let mut result: Vec<&LogicalPlan> = Vec::new();
            let mut i: usize = 0;
            while i < inputs.len()
                invariant
                    i <= inputs.len(),
                    result@.len() == i,
                    forall|k: int| 0 <= k < i ==> *(#[trigger] result@[k]) == *inputs@[k],
                decreases inputs.len() - i,
            {
                result.push(&*inputs[i]);
                i += 1;
            }
            result
        },
        LogicalPlan::TableScan { .. } => Vec::new(),
        LogicalPlan::EmptyRelation { .. } => Vec::new(),
        LogicalPlan::CreateExternalTable { .. } => Vec::new(),
        LogicalPlan::Explain { .. } => Vec::new(),
    }
}

/// The list that holds one child.
fn one_input(input: &Arc<LogicalPlan>) -> (inputs: Vec<&LogicalPlan>)
    ensures
        inputs@.len() == 1,
        *inputs@[0] == **input,
{
    let mut result: Vec<&LogicalPlan> = Vec::new();
    result.push(&**input);
    result
}

/// Each of the plans, copied and put behind a reference count of its own.
fn share_plans(plans: &[LogicalPlan]) -> (shared: Vec<Arc<LogicalPlan>>)
    ensures
        shared@.len() == plans@.len(),
        forall|i: int| 0 <= i < shared@.len() ==> (#[trigger] shared@[i])@ == plans@[i]@,
{
    let mut shared: Vec<Arc<LogicalPlan>> = Vec::new();
    let mut i: usize = 0;
    while i < plans.len()
        invariant
            i <= plans.len(),
            shared@.len() == i,
            forall|k: int| 0 <= k < i ==> (#[trigger] shared@[k])@ == plans@[k]@,
        decreases plans.len() - i,
    {
        shared.push(Arc::new(plans[i].clone()));
        i += 1;
    }
    shared
}

/// For each of the first children of `plan` that `inputs` has a plan for,
/// whether the output schema of that plan agrees with the child's.
fn compare_schemas(plan: &LogicalPlan, inputs: &[LogicalPlan]) -> (agreeing: Vec<bool>)
    ensures
        agreeing@.len() == if inputs@.len() <= plan@.inputs().len() {
            inputs@.len()
        } else {
            plan@.inputs().len()
        },
        forall|i: int|
            0 <= i < agreeing@.len() ==> agreeing@[i] == schemas_agree(
                inputs@[i]@.schema(),
                plan@.inputs()[i].schema(),
            ),
{
    let own_inputs = self::inputs(plan);
    let mut agreeing: Vec<bool> = Vec::new();
    let mut i: usize = 0;
    while i < inputs.len() && i < own_inputs.len()
        invariant
            i <= inputs@.len(),
            i <= own_inputs@.len(),
            own_inputs@.len() == plan@.inputs().len(),
            forall|k: int| 0 <= k < own_inputs@.len() ==> (#[trigger] own_inputs@[k])@ == plan@.inputs()[k],
            agreeing@.len() == i,
            forall|k: int|
                0 <= k < i ==> agreeing@[k] == schemas_agree(inputs@[k]@.schema(), plan@.inputs()[k].schema()),
        decreases inputs.len() - i,
    {
        let old_schema = own_inputs[i].schema();
        let new_schema = inputs[i].schema();
        assert(own_inputs@[i as int]@ == plan@.inputs()[i as int]);
        agreeing.push(same_schema(&**new_schema, &**old_schema));
        i += 1;
    }
    agreeing
}

/// Builds a node of the kind of `plan`, with the attributes of `plan`, around
/// the expressions `expr` and the children `inputs`.
///
/// The node is built when `expr` holds as many expressions as `plan` holds,
/// `inputs` as many plans as `plan` has children, and the output schema of
/// each of these plans agrees with that of the child in whose place it comes:
/// it is the same schema, or Arrow calls the two equal. Otherwise the error
/// names the first of these demands that is not met, and for a schema the
/// first child that does not meet it.
pub fn from_plan(plan: &LogicalPlan, expr: &[Expr], inputs: &[LogicalPlan]) -> (rebuilt: Result<
    LogicalPlan,
    DataFusionError,
>)
    ensures
        match rebuilt {
            Ok(node) => plan@.rebuilt(exprs_view(expr@), plans_view(inputs@)) == Ok::<
                LogicalPlanView,
                DataFusionError,
            >(node@),
            Err(e) => plan@.rebuilt(exprs_view(expr@), plans_view(inputs@)) == Err::<
                LogicalPlanView,
                DataFusionError,
            >(e),
        },
{
    let agreeing = compare_schemas(plan, inputs);
    proof {
        if inputs@.len() == plan@.inputs().len() {
            lemma_disagreement_is_mismatch(plan@.inputs(), plans_view(inputs@), agreeing@, 0);
        }
    }
    from_plan_compared(plan, expr, inputs, agreeing.as_slice())
}

/// Builds the node that `from_plan` builds, with the schemas compared
/// beforehand: `agreeing` holds for each of `inputs` whether its output schema
/// agrees with that of the child in whose place it comes, and a plan for which
/// `agreeing` holds nothing counts as one that does not agree.
///
/// The node is built when `expr` holds as many expressions as `plan` holds,
/// `inputs` as many plans as `plan` has children, and each of these plans is
/// marked as agreeing. Otherwise the error names the first of these demands
/// that is not met, and for a schema the first child that does not meet it.
pub fn from_plan_compared(
    plan: &LogicalPlan,
    expr: &[Expr],
    inputs: &[LogicalPlan],
    agreeing: &[bool],
) -> (rebuilt: Result<LogicalPlan, DataFusionError>)
    ensures
        match rebuilt {
            Ok(node) => plan@.rebuilt_compared(exprs_view(expr@), plans_view(inputs@), agreeing@) == Ok::<
                LogicalPlanView,
                DataFusionError,
            >(node@),
            Err(e) => plan@.rebuilt_compared(exprs_view(expr@), plans_view(inputs@), agreeing@) == Err::<
                LogicalPlanView,
                DataFusionError,
            >(e),
        },
{
    let own_expr = expressions(plan);
    if expr.len() != own_expr.len() {
        return Err(DataFusionError::ExpressionCount { expected: own_expr.len(), found: expr.len() });
    }
    let own_inputs = self::inputs(plan);
    if inputs.len() != own_inputs.len() {
        return Err(DataFusionError::ChildCount { expected: own_inputs.len(), found: inputs.len() });
    }
    let mut i: usize = 0;
    while i < inputs.len()
        invariant
            i <= inputs.len(),
            plan@.count_error(exprs_view(expr@), plans_view(inputs@)) is None,
            first_disagreement(agreeing@, inputs@.len() as nat, 0) == first_disagreement(
                agreeing@,
                inputs@.len() as nat,
                i as nat,
            ),
        decreases inputs.len() - i,
    {
        if !(i < agreeing.len() && agreeing[i]) {
            return Err(DataFusionError::ChildSchema { child: i });
        }
        i += 1;
    }
    let node = match plan {
        LogicalPlan::Projection { schema, .. } => LogicalPlan::Projection {
            expr: clone_exprs(expr),
            input: Arc::new(inputs[0].clone()),
            schema: schema.clone(),
        },
        LogicalPlan::Filter { .. } => LogicalPlan::Filter {
            predicate: expr[0].clone(),
            input: Arc::new(inputs[0].clone()),
        },
        LogicalPlan::Aggregate { group_expr, schema, .. } => LogicalPlan::Aggregate {
            input: Arc::new(inputs[0].clone()),
            group_expr: clone_expr_range(expr, 0, group_expr.len()),
            aggr_expr: clone_expr_range(expr, group_expr.len(), expr.len()),
            schema: schema.clone(),
        },
        LogicalPlan::Sort { .. } => LogicalPlan::Sort {
            expr: clone_exprs(expr),
            input: Arc::new(inputs[0].clone()),
        },
        LogicalPlan::Join { on, join_type, schema, .. } => LogicalPlan::Join {
            left: Arc::new(inputs[0].clone()),
            right: Arc::new(inputs[1].clone()),
            on: clone_pairs(on.as_slice()),
            join_type: *join_type,
            schema: schema.clone(),
        },
        LogicalPlan::Limit { n, .. } => LogicalPlan::Limit { n: *n, input: Arc::new(inputs[0].clone()) },
        LogicalPlan::Extension { name, schema, .. } => {
            let node = LogicalPlan::Extension {
                name: name.clone(),
                expr: clone_exprs(expr),
                inputs: share_plans(inputs),
                schema: schema.clone(),
            };
            assert(node@->Extension_inputs =~= plans_view(inputs@));
            node
        },
        LogicalPlan::TableScan { .. } => plan.clone(),
        LogicalPlan::EmptyRelation { .. } => plan.clone(),
        LogicalPlan::CreateExternalTable { .. } => plan.clone(),
        LogicalPlan::Explain { .. } => plan.clone(),
    };
    Ok(node)
}

/// Where every new child produces rows of the schema of the child that it
/// replaces, no position is a mismatch.
pub proof fn lemma_same_schemas_match(
    old_inputs: Seq<LogicalPlanView>,
    new_inputs: Seq<LogicalPlanView>,
    from: nat,
)
    requires
        old_inputs.len() == new_inputs.len(),
        forall|i: int| from <= i < old_inputs.len() ==> new_inputs[i].schema() == old_inputs[i].schema(),
    ensures
        first_mismatch(old_inputs, new_inputs, from) is None,
    decreases old_inputs.len() - from,
{
    if from < old_inputs.len() {
        lemma_same_schemas_match(old_inputs, new_inputs, from + 1);
    }
}

/// Where `agreeing` holds for each child whether the schemas agree, the first
/// position that it does not mark is the first mismatch.
pub proof fn lemma_disagreement_is_mismatch(
    old_inputs: Seq<LogicalPlanView>,
    new_inputs: Seq<LogicalPlanView>,
    agreeing: Seq<bool>,
    from: nat,
)
    requires
        old_inputs.len() == new_inputs.len(),
        agreeing.len() == new_inputs.len(),
        forall|i: int|
            0 <= i < agreeing.len() ==> agreeing[i] == schemas_agree(
                new_inputs[i].schema(),
                old_inputs[i].schema(),
            ),
    ensures
        first_disagreement(agreeing, new_inputs.len(), from) == first_mismatch(old_inputs, new_inputs, from),
    decreases old_inputs.len() - from,
{
    if from < old_inputs.len() {
        lemma_disagreement_is_mismatch(old_inputs, new_inputs, agreeing, from + 1);
    }
}

/// The position that `first_mismatch` gives is the least one from `from` on at
/// which the schemas do not agree; where it gives none, they agree everywhere
/// from `from` on.
pub proof fn lemma_first_mismatch_is_least(
    old_inputs: Seq<LogicalPlanView>,
    new_inputs: Seq<LogicalPlanView>,
    from: nat,
)
    requires
        old_inputs.len() == new_inputs.len(),
    ensures
        match first_mismatch(old_inputs, new_inputs, from) {
            Some(child) => {
                &&& from <= child < old_inputs.len()
                &&& !schemas_agree(new_inputs[child as int].schema(), old_inputs[child as int].schema())
                &&& forall|i: int|
                    from <= i < child ==> schemas_agree(new_inputs[i].schema(), old_inputs[i].schema())
            },
            None => forall|i: int|
                from <= i < old_inputs.len() ==> schemas_agree(
                    new_inputs[i].schema(),
                    old_inputs[i].schema(),
                ),
        },
    decreases old_inputs.len() - from,
{
    if from < old_inputs.len() {
        lemma_first_mismatch_is_least(old_inputs, new_inputs, from + 1);
    }
}

} // verus!
