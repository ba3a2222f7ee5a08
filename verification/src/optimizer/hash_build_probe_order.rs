//! A rule that chooses the build side of a hash join by the number of rows.
//!
//! A hash join loads its left input into a hash table and streams its right
//! input past it, so the left input should be the smaller one. Where the exact
//! number of rows of both inputs is known and the left input is the larger
//! one, the rule exchanges the two inputs. Where a number is unknown the join
//! stays as it was written, so that a query can be ordered by hand.

use crate::error::DataFusionError;
use crate::logical_plan::clone_pairs;
use crate::logical_plan::pairs_view;
use crate::logical_plan::plans_view;
use crate::logical_plan::JoinType;
use crate::logical_plan::LogicalPlan;
use crate::logical_plan::LogicalPlanView;
use crate::optimizer::optimizer::OptimizerRule;
use crate::optimizer::utils;
use arrow::datatypes::Schema;
use vstd::prelude::*;

verus! {

/// Reorders the build and the probe side of hash joins by the number of rows
/// of their inputs, so that the smaller input is the build side.
pub struct HashBuildProbeOrder {}

/// The exact number of rows of a plan, where it is known.
///
/// A projection and a sort have the rows of their input. A table scan has the
/// rows that the statistics of its table give. An empty relation has one row
/// or none. A limit has the rows of its input, but no more than its bound. Of
/// every other node the number is unknown.
pub open spec fn num_rows(plan: LogicalPlanView) -> Option<nat>
    decreases plan,
{
    match plan {
        LogicalPlanView::Projection { input, .. } => num_rows(*input),
        LogicalPlanView::Sort { input, .. } => num_rows(*input),
        LogicalPlanView::TableScan { num_rows, .. } => num_rows,
        LogicalPlanView::EmptyRelation { produce_one_row, .. } => if produce_one_row {
            Some(1)
        } else {
            Some(0)
        },
        LogicalPlanView::Limit { n, input } => match num_rows(*input) {
            Some(rows) => Some(if n < rows { n } else { rows }),
            None => None,
        },
        _ => None,
    }
}

/// Whether a join of `left` and `right` is to have its sides exchanged: both
/// numbers of rows are known and `left` has more rows than `right`.
pub open spec fn swaps(left: LogicalPlanView, right: LogicalPlanView) -> bool {
    match (num_rows(left), num_rows(right)) {
        (Some(l), Some(r)) => l > r,
        _ => false,
    }
}

/// The type of a join whose sides have been exchanged.
pub open spec fn swapped_join_type(join_type: JoinType) -> JoinType {
    match join_type {
        JoinType::Inner => JoinType::Inner,
        JoinType::Left => JoinType::Right,
        JoinType::Right => JoinType::Left,
    }
}

/// The column pairs of a join whose sides have been exchanged: each pair
/// turned round, the pairs in their order.
pub open spec fn swapped_pairs(on: Seq<(Seq<char>, Seq<char>)>) -> Seq<(Seq<char>, Seq<char>)> {
    on.map_values(|pair: (Seq<char>, Seq<char>)| (pair.1, pair.0))
}

/// The plan that the rule makes of `plan`.
///
/// A join has its sides exchanged where `swaps` says so, and is otherwise
/// kept; the rule does not descend into the inputs of a join. Every other
/// node keeps its kind and attributes and gets its children rewritten.
pub open spec fn optimized(plan: LogicalPlanView) -> LogicalPlanView
    decreases plan,
{
    match plan {
        LogicalPlanView::Join { left, right, on, join_type, schema } => if swaps(*left, *right) {
            LogicalPlanView::Join {
                left: right,
                right: left,
                on: swapped_pairs(on),
                join_type: swapped_join_type(join_type),
                schema,
            }
        } else {
            plan
        },
        LogicalPlanView::Projection { expr, input, schema } => LogicalPlanView::Projection {
            expr,
            input: Box::new(optimized(*input)),
            schema,
        },
        LogicalPlanView::Filter { predicate, input } => LogicalPlanView::Filter {
            predicate,
            input: Box::new(optimized(*input)),
        },
        LogicalPlanView::Aggregate { input, group_expr, aggr_expr, schema } => LogicalPlanView::Aggregate {
            input: Box::new(optimized(*input)),
            group_expr,
            aggr_expr,
            schema,
        },
        LogicalPlanView::Sort { expr, input } => LogicalPlanView::Sort {
            expr,
            input: Box::new(optimized(*input)),
        },
        LogicalPlanView::Limit { n, input } => LogicalPlanView::Limit {
            n,
            input: Box::new(optimized(*input)),
        },
        LogicalPlanView::Extension { name, expr, inputs, schema } => LogicalPlanView::Extension {
            name,
            expr,
            inputs: Seq::new(
                inputs.len(),
                |i: int|
                    if 0 <= i < inputs.len() {
                        optimized(inputs[i])
                    } else {
                        arbitrary()
                    },
            ),
            schema,
        },
        LogicalPlanView::TableScan { .. } => plan,
        LogicalPlanView::EmptyRelation { .. } => plan,
        LogicalPlanView::CreateExternalTable { .. } => plan,
        LogicalPlanView::Explain { .. } => plan,
    }
}

/// Gets the exact number of rows of a plan, if the statistics of the tables
/// under it give one.
pub fn get_num_rows(logical_plan: &LogicalPlan) -> (rows: Option<usize>)
    ensures
        match rows {
            Some(n) => num_rows(logical_plan@) == Some(n as nat),
            None => num_rows(logical_plan@) is None,
        },
    decreases logical_plan,
{
    match logical_plan {
        LogicalPlan::Projection { input, .. } => get_num_rows(input),
        LogicalPlan::Sort { input, .. } => get_num_rows(input),
        LogicalPlan::TableScan { statistics, .. } => statistics.num_rows,
        LogicalPlan::EmptyRelation { produce_one_row, .. } => {
            if *produce_one_row {
                Some(1)
            } else {
                Some(0)
            }
        },
        LogicalPlan::Limit { n: limit, input } => {
            match get_num_rows(input) {
                Some(rows) => Some(if *limit < rows { *limit } else { rows }),
                None => None,
            }
        },
        _ => None,
    }
}

/// Finds out whether to exchange the left and the right side of a join, by the
/// numbers of rows of the two sides.
pub fn should_swap_join_order(left: &LogicalPlan, right: &LogicalPlan) -> (swap: bool)
    ensures
        swap == swaps(left@, right@),
{
    let left_rows = get_num_rows(left);
    let right_rows = get_num_rows(right);
    match (left_rows, right_rows) {
        (Some(l), Some(r)) => l > r,
        _ => false,
    }
}

/// The type that a join has after its sides have been exchanged.
pub fn swap_join_type(join_type: JoinType) -> (swapped: JoinType)
    ensures
        swapped == swapped_join_type(join_type),
{
    match join_type {
        JoinType::Inner => JoinType::Inner,
        JoinType::Left => JoinType::Right,
        JoinType::Right => JoinType::Left,
    }
}

/// The column pairs, each turned round.
pub fn swap_pairs(on: &[(String, String)]) -> (swapped: Vec<(String, String)>)
    ensures
        pairs_view(swapped@) == swapped_pairs(pairs_view(on@)),
{
    let mut swapped: Vec<(String, String)> = Vec::new();
    let mut i: usize = 0;
    while i < on.len()
        invariant
            i <= on.len(),
            swapped@.len() == i,
            forall|k: int| 0 <= k < i ==> swapped@[k].0@ == on@[k].1@ && swapped@[k].1@ == on@[k].0@,
        decreases on.len() - i,
    {
        swapped.push((on[i].1.clone(), on[i].0.clone()));
        i += 1;
    }
    swapped
}

/// What the rule finds at a join that it reaches: the number of rows of each
/// side, where it is known, and whether the rule exchanges the sides.
#[derive(Debug, Clone, Copy, PartialEq, Eq)]
pub struct JoinOrder {
    /// The number of rows of the left side.
    pub left_rows: Option<usize>,
    /// The number of rows of the right side.
    pub right_rows: Option<usize>,
    /// Whether the sides are exchanged.
    pub swap: bool,
}

/// What a `JoinOrder` stands for.
pub struct JoinOrderView {
    pub left_rows: Option<nat>,
    pub right_rows: Option<nat>,
    pub swap: bool,
}

impl View for JoinOrder {
    type V = JoinOrderView;

    open spec fn view(&self) -> JoinOrderView {
        JoinOrderView {
            left_rows: match self.left_rows {
                Some(n) => Some(n as nat),
                None => None,
            },
            right_rows: match self.right_rows {
                Some(n) => Some(n as nat),
                None => None,
            },
            swap: self.swap,
        }
    }
}

/// The views of a list of findings, in order.
pub open spec fn orders_view(orders: Seq<JoinOrder>) -> Seq<JoinOrderView> {
    orders.map_values(|order: JoinOrder| order@)
}

/// What the rule finds at a join of `left` and `right`.
pub open spec fn join_order(left: LogicalPlanView, right: LogicalPlanView) -> JoinOrderView {
    JoinOrderView { left_rows: num_rows(left), right_rows: num_rows(right), swap: swaps(left, right) }
}

/// What the rule finds at the joins that it reaches in `plan`, in the order in
/// which it reaches them: at a join, that join alone; at any other node, the
/// joins under its children, child by child.
pub open spec fn join_orders(plan: LogicalPlanView) -> Seq<JoinOrderView>
    decreases plan, 0nat,
{
    match plan {
        LogicalPlanView::Join { left, right, .. } => seq![join_order(*left, *right)],
        LogicalPlanView::Projection { input, .. } => join_orders(*input),
        LogicalPlanView::Filter { input, .. } => join_orders(*input),
        LogicalPlanView::Aggregate { input, .. } => join_orders(*input),
        LogicalPlanView::Sort { input, .. } => join_orders(*input),
        LogicalPlanView::Limit { input, .. } => join_orders(*input),
        LogicalPlanView::Extension { inputs, .. } => join_orders_of_first(inputs, inputs.len()),
        LogicalPlanView::TableScan { .. } => Seq::empty(),
        LogicalPlanView::EmptyRelation { .. } => Seq::empty(),
        LogicalPlanView::CreateExternalTable { .. } => Seq::empty(),
        LogicalPlanView::Explain { .. } => Seq::empty(),
    }
}

/// What the rule finds under the first `count` of `plans`, plan by plan.
pub open spec fn join_orders_of_first(plans: Seq<LogicalPlanView>, count: nat) -> Seq<JoinOrderView>
    decreases plans, count,
{
    if count == 0 || count > plans.len() {
        Seq::empty()
    } else {
        join_orders_of_first(plans, (count - 1) as nat) + join_orders(plans[count - 1])
    }
}

/// The numbers by which the order of a join of `left` and `right` is decided,
/// and the decision.
pub fn join_order_of(left: &LogicalPlan, right: &LogicalPlan) -> (order: JoinOrder)
    ensures
        order@ == join_order(left@, right@),
{
    JoinOrder {
        left_rows: get_num_rows(left),
        right_rows: get_num_rows(right),
        swap: should_swap_join_order(left, right),
    }
}

/// The findings of the rule at the joins that it reaches in `plan`, in the
/// order in which it reaches them, for a caller that wants to see by what the
/// rule decides. The plan is read, not rewritten.
pub fn trace_join_orders(plan: &LogicalPlan) -> (orders: Vec<JoinOrder>)
    ensures
        orders_view(orders@) == join_orders(plan@),
    decreases plan,
{
    match plan {
        LogicalPlan::Join { left, right, .. } => {
            let mut orders: Vec<JoinOrder> = Vec::new();
            orders.push(join_order_of(left, right));
            assert(orders_view(orders@) =~= join_orders(plan@));
            orders
        },
        LogicalPlan::Projection { input, .. } => trace_join_orders(input),
        LogicalPlan::Filter { input, .. } => trace_join_orders(input),
        LogicalPlan::Aggregate { input, .. } => trace_join_orders(input),
        LogicalPlan::Sort { input, .. } => trace_join_orders(input),
        LogicalPlan::Limit { input, .. } => trace_join_orders(input),
        LogicalPlan::Extension { inputs, .. } => {
            let ghost children = plan@->Extension_inputs;
            let mut orders: Vec<JoinOrder> = Vec::new();
            let mut i: usize = 0;
            while i < inputs.len()
                invariant
                    i <= inputs.len(),
                    children.len() == inputs@.len(),
                    forall|k: int| 0 <= k < inputs@.len() ==> children[k] == (*inputs@[k])@,
                    forall|k: int| 0 <= k < inputs@.len() ==> decreases_to!(plan => *inputs@[k]),
                    orders_view(orders@) == join_orders_of_first(children, i as nat),
                decreases inputs.len() - i,
            {
                let ghost found = orders@;
                let mut more = trace_join_orders(&*inputs[i]);
                let ghost added = more@;
                orders.append(&mut more);
                assert(orders_view(orders@) =~= orders_view(found) + orders_view(added));
                i += 1;
            }
            orders
        },
        LogicalPlan::TableScan { .. } => Vec::new(),
        LogicalPlan::EmptyRelation { .. } => Vec::new(),
        LogicalPlan::CreateExternalTable { .. } => Vec::new(),
        LogicalPlan::Explain { .. } => Vec::new(),
    }
}

impl HashBuildProbeOrder {
    /// The rule. It has no settings.
    pub fn new() -> (rule: Self)
        ensures
            rule == (HashBuildProbeOrder {  }),
    {
        Self {  }
    }
}

/// Each of the plans, rewritten by the rule.
pub open spec fn optimized_all(plans: Seq<LogicalPlanView>) -> Seq<LogicalPlanView> {
    plans.map_values(|plan: LogicalPlanView| optimized(plan))
}

/// The rule never changes the schema of the rows that a plan produces.
pub proof fn lemma_optimized_keeps_schema(plan: LogicalPlanView)
    ensures
        optimized(plan).schema() == plan.schema(),
    decreases plan,
{
    match plan {
        LogicalPlanView::Filter { input, .. } => lemma_optimized_keeps_schema(*input),
        LogicalPlanView::Sort { input, .. } => lemma_optimized_keeps_schema(*input),
        LogicalPlanView::Limit { input, .. } => lemma_optimized_keeps_schema(*input),
        _ => {},
    }
}

/// The rule never changes the number of rows that is known of a plan.
pub proof fn lemma_optimized_keeps_num_rows(plan: LogicalPlanView)
    ensures
        num_rows(optimized(plan)) == num_rows(plan),
    decreases plan,
{
    match plan {
        LogicalPlanView::Projection { input, .. } => lemma_optimized_keeps_num_rows(*input),
        LogicalPlanView::Sort { input, .. } => lemma_optimized_keeps_num_rows(*input),
        LogicalPlanView::Limit { input, .. } => lemma_optimized_keeps_num_rows(*input),
        _ => {},
    }
}

/// On a node that is no join the rule rewrites the children, each by itself
/// and in their order, and builds a node of the same kind with the same
/// expressions and attributes around them: the node that the rule makes has
/// the rewritten children, holds the expressions of `plan`, and is `plan`
/// again once the children of `plan` are put back. Building it never fails.
pub proof fn lemma_optimized_rebuilds_around_children(plan: LogicalPlanView)
    requires
        !(plan is Join),
    ensures
        optimized(plan) == plan.with_parts(plan.expressions(), optimized_all(plan.inputs())),
        plan.rebuilt(plan.expressions(), optimized_all(plan.inputs())) == Ok::<
            LogicalPlanView,
            DataFusionError,
        >(optimized(plan)),
        optimized(plan).inputs() == optimized_all(plan.inputs()),
        optimized(plan).expressions() == plan.expressions(),
        optimized(plan).with_parts(plan.expressions(), plan.inputs()) == plan,
{
    let children = optimized_all(plan.inputs());
    assert forall|i: int| 0 <= i < plan.inputs().len() implies children[i].schema()
        == plan.inputs()[i].schema() by {
        lemma_optimized_keeps_schema(plan.inputs()[i]);
    }
    utils::lemma_same_schemas_match(plan.inputs(), children, 0);
    match plan {
        LogicalPlanView::Aggregate { group_expr, aggr_expr, .. } => {
            let expr = group_expr + aggr_expr;
            assert(expr.subrange(0, group_expr.len() as int) =~= group_expr);
            assert(expr.subrange(group_expr.len() as int, expr.len() as int) =~= aggr_expr);
        },
        LogicalPlanView::Extension { inputs, .. } => {
            assert(optimized(plan)->Extension_inputs =~= children);
        },
        _ => {},
    }
}

impl OptimizerRule for HashBuildProbeOrder {
    /// The name of the rule.
    fn name(&self) -> (name: &str)
        ensures
            name@ == "hash_build_probe_order"@,
    {
        "hash_build_probe_order"
    }

    /// Rewrites `plan` so that, where the numbers of rows are known, the
    /// smaller input of each join that the rule reaches is the build side.
    ///
    /// The rule reaches the joins that stand under no other join. It always
    /// succeeds, and the plan it returns is `optimized` of `plan`.
    fn optimize(&mut self, plan: &LogicalPlan) -> (rewritten: Result<LogicalPlan, DataFusionError>)
        ensures
            rewritten matches Ok(node) && node@ == optimized(plan@),
            *final(self) == *old(self),
        decreases plan,
    {
        proof {
            lemma_optimized_keeps_schema(plan@);
        }
        match plan {
            // The rule itself: exchanges the left and the right side by the
            // number of rows of each.
            LogicalPlan::Join { left, right, on, join_type, schema } => {
                if should_swap_join_order(left, right) {
                    Ok(
                        LogicalPlan::Join {
                            left: right.clone(),
                            right: left.clone(),
                            on: swap_pairs(on.as_slice()),
                            join_type: swap_join_type(*join_type),
                            schema: schema.clone(),
                        },
                    )
                } else {
                    Ok(
                        LogicalPlan::Join {
                            left: left.clone(),
                            right: right.clone(),
                            on: clone_pairs(on.as_slice()),
                            join_type: *join_type,
                            schema: schema.clone(),
                        },
                    )
                }
            },
            // The rest: descends into the plan and applies the rule where it can.
            _ => {
                let expr = utils::expressions(plan);
                let inputs = utils::inputs(plan);
                let mut new_inputs: Vec<LogicalPlan> = Vec::new();
                let mut i: usize = 0;
                while i < inputs.len()
                    invariant
                        i <= inputs.len(),
                        new_inputs@.len() == i,
                        inputs@.len() == plan@.inputs().len(),
                        forall|k: int|
                            0 <= k < inputs@.len() ==> (#[trigger] inputs@[k])@ == plan@.inputs()[k],
                        forall|k: int|
                            0 <= k < inputs@.len() ==> decreases_to!(plan => #[trigger] inputs@[k]),
                        forall|k: int|
                            0 <= k < i ==> (#[trigger] new_inputs@[k])@ == optimized(plan@.inputs()[k]),
                    decreases inputs.len() - i,
                {
                    match self.optimize(inputs[i]) {
                        Ok(node) => new_inputs.push(node),
                        Err(e) => {
                            return Err(e);
                        },
                    }
                    i += 1;
                }
                proof {
                    assert(plans_view(new_inputs@) =~= optimized_all(plan@.inputs()));
                    lemma_optimized_rebuilds_around_children(plan@);
                }
                utils::from_plan(plan, expr.as_slice(), new_inputs.as_slice())
            },
        }
    }
}

/// A join whose inputs both have a known number of rows, the left one no more
/// than the right one, is left as it is: its sides, its column pairs and its
/// type.
pub proof fn lemma_join_with_smaller_left_is_kept(
    left: LogicalPlanView,
    right: LogicalPlanView,
    on: Seq<(Seq<char>, Seq<char>)>,
    join_type: JoinType,
    schema: Schema,
)
    requires
        num_rows(left) is Some,
        num_rows(right) is Some,
        num_rows(left)->0 <= num_rows(right)->0,
    ensures
        optimized(
            LogicalPlanView::Join { left: Box::new(left), right: Box::new(right), on, join_type, schema },
        ) == (LogicalPlanView::Join {
            left: Box::new(left),
            right: Box::new(right),
            on,
            join_type,
            schema,
        }),
{
}

/// A join whose inputs both have a known number of rows, the left one more
/// than the right one, has its sides exchanged, each of its column pairs
/// turned round and its type exchanged; its schema stays.
pub proof fn lemma_join_with_larger_left_is_swapped(
    left: LogicalPlanView,
    right: LogicalPlanView,
    on: Seq<(Seq<char>, Seq<char>)>,
    join_type: JoinType,
    schema: Schema,
)
    requires
        num_rows(left) is Some,
        num_rows(right) is Some,
        num_rows(left)->0 > num_rows(right)->0,
    ensures
        optimized(
            LogicalPlanView::Join { left: Box::new(left), right: Box::new(right), on, join_type, schema },
        ) == (LogicalPlanView::Join {
            left: Box::new(right),
            right: Box::new(left),
            on: swapped_pairs(on),
            join_type: swapped_join_type(join_type),
            schema,
        }),
        swapped_pairs(on).len() == on.len(),
        forall|i: int| 0 <= i < on.len() ==> swapped_pairs(on)[i] == (on[i].1, on[i].0),
{
}

/// A join of which one input has an unknown number of rows is left as it is,
/// whatever the number of rows of the other input.
pub proof fn lemma_join_with_unknown_rows_is_kept(
    left: LogicalPlanView,
    right: LogicalPlanView,
    on: Seq<(Seq<char>, Seq<char>)>,
    join_type: JoinType,
    schema: Schema,
)
    requires
        num_rows(left) is None || num_rows(right) is None,
    ensures
        optimized(
            LogicalPlanView::Join { left: Box::new(left), right: Box::new(right), on, join_type, schema },
        ) == (LogicalPlanView::Join {
            left: Box::new(left),
            right: Box::new(right),
            on,
            join_type,
            schema,
        }),
{
}

/// Applying the rule to a plan that the rule has made changes nothing.
pub proof fn lemma_optimized_is_idempotent(plan: LogicalPlanView)
    ensures
        optimized(optimized(plan)) == optimized(plan),
    decreases plan,
{
    match plan {
        LogicalPlanView::Join { .. } => {},
        LogicalPlanView::Projection { input, .. } => lemma_optimized_is_idempotent(*input),
        LogicalPlanView::Filter { input, .. } => lemma_optimized_is_idempotent(*input),
        LogicalPlanView::Aggregate { input, .. } => lemma_optimized_is_idempotent(*input),
        LogicalPlanView::Sort { input, .. } => lemma_optimized_is_idempotent(*input),
        LogicalPlanView::Limit { input, .. } => lemma_optimized_is_idempotent(*input),
        LogicalPlanView::Extension { inputs, .. } => {
            assert forall|i: int| 0 <= i < inputs.len() implies optimized(optimized(inputs[i]))
                == optimized(inputs[i]) by {
                lemma_optimized_is_idempotent(inputs[i]);
            }
            assert(optimized(optimized(plan))->Extension_inputs =~= optimized(plan)->Extension_inputs);
        },
        _ => {},
    }
}

/// The number of rows, kind by kind: an empty relation has one row or none; a
/// limit over a known number has the smaller of that number and its bound, a
/// limit over an unknown number has an unknown number; an aggregate, a filter
/// and a join have an unknown number.
pub proof fn lemma_num_rows_by_kind(plan: LogicalPlanView)
    ensures
        plan matches LogicalPlanView::EmptyRelation { produce_one_row, .. } ==> num_rows(plan) == Some(
            if produce_one_row {
                1nat
            } else {
                0nat
            },
        ),
        plan matches LogicalPlanView::Limit { n, input } ==> (num_rows(*input) matches Some(rows)
            ==> num_rows(plan) == Some(if n <= rows { n } else { rows })) && (num_rows(*input) is None
            ==> num_rows(plan) is None),
        plan is Aggregate || plan is Filter || plan is Join ==> num_rows(plan) is None,
{
}

/// After the rule, the build side of a join that it reached is not known to be
/// the larger side: where both numbers of rows are known, the left input has
/// no more rows than the right one.
pub proof fn lemma_build_side_is_not_larger(plan: LogicalPlanView)
    requires
        plan is Join,
    ensures
        optimized(plan) is Join,
        !swaps(*optimized(plan)->left, *optimized(plan)->right),
        num_rows(*optimized(plan)->left) matches Some(l) ==> (num_rows(*optimized(plan)->right) matches Some(
            r,
        ) ==> l <= r),
{
}

/// Exchanging the sides of a join twice gives the join again: its type and
/// each of its column pairs are as they were.
pub proof fn lemma_swapping_twice_restores(on: Seq<(Seq<char>, Seq<char>)>, join_type: JoinType)
    ensures
        swapped_join_type(swapped_join_type(join_type)) == join_type,
        swapped_pairs(swapped_pairs(on)) == on,
{
    assert(swapped_pairs(swapped_pairs(on)) =~= on);
}

/// After the rule nothing is left to exchange: at no join that the rule
/// reaches in the plan that it has made does it find the left side larger.
pub proof fn lemma_optimized_leaves_nothing_to_swap(plan: LogicalPlanView)
    ensures
        forall|i: int| 0 <= i < join_orders(optimized(plan)).len() ==> !join_orders(optimized(plan))[i].swap,
    decreases plan, 0nat,
{
    match plan {
        LogicalPlanView::Projection { input, .. } => lemma_optimized_leaves_nothing_to_swap(*input),
        LogicalPlanView::Filter { input, .. } => lemma_optimized_leaves_nothing_to_swap(*input),
        LogicalPlanView::Aggregate { input, .. } => lemma_optimized_leaves_nothing_to_swap(*input),
        LogicalPlanView::Sort { input, .. } => lemma_optimized_leaves_nothing_to_swap(*input),
        LogicalPlanView::Limit { input, .. } => lemma_optimized_leaves_nothing_to_swap(*input),
        LogicalPlanView::Extension { inputs, .. } => {
            assert(optimized(plan)->Extension_inputs =~= optimized_all(inputs));
            lemma_optimized_leaves_nothing_to_swap_under(inputs, inputs.len());
        },
        _ => {},
    }
}

/// After the rule nothing is left to exchange under the first `count` of
/// `plans`.
pub proof fn lemma_optimized_leaves_nothing_to_swap_under(plans: Seq<LogicalPlanView>, count: nat)
    ensures
        forall|i: int|
            0 <= i < join_orders_of_first(optimized_all(plans), count).len() ==> !join_orders_of_first(
                optimized_all(plans),
                count,
            )[i].swap,
    decreases plans, count,
{
    if 0 < count <= plans.len() {
        lemma_optimized_leaves_nothing_to_swap_under(plans, (count - 1) as nat);
        lemma_optimized_leaves_nothing_to_swap(plans[count - 1]);
    }
}

} // verus!
