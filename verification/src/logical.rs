//! Short-circuit `&&` and `||`: a `sol.if` over an `i1` result slot that holds the
//! short-circuit value unless the branch that evaluates the right operand runs.

use vstd::prelude::*;

use crate::expression::ExpressionEmitter;
use crate::mlir_type::{MlirType, TypeView};

verus! {

/// A short-circuit logical operator.
#[derive(Debug, Clone, Copy, PartialEq, Eq, Structural)]
pub enum LogicalOperator {
    /// `&&`: evaluates the right operand only when the left one is true.
    And,
    /// `||`: evaluates the right operand only when the left one is false.
    Or,
}

/// A region of `sol.if`: `Then` runs when the condition is true.
#[derive(Debug, Clone, Copy, PartialEq, Eq, Structural)]
pub enum Branch {
    Then,
    Else,
}

/// An operand of a short-circuit operator.
#[derive(Debug, Clone, Copy, PartialEq, Eq, Structural)]
pub enum LogicalOperand {
    /// The left operand, evaluated before the `sol.if`.
    Left,
    /// The right operand, evaluated inside one region of the `sol.if`.
    Right,
}

/// The block a lowering that branches with `sol.if` continues in.
#[derive(Debug, Clone, Copy, PartialEq, Eq, Structural)]
pub enum ContinuationBlock {
    /// The block in which the emission of the first operand (the one tested by the
    /// `sol.if`) ended: the `sol.if` is appended there, and the code after it follows it
    /// in that same block.
    WhereFirstOperandEnded,
}

/// How a short-circuit operator lowers: the `i1` slot is first set to `default_value`,
/// then `sol.if` on the left operand evaluates the right operand, and stores it, only in
/// `rhs_branch`; the other branch only yields.
#[derive(Debug, Clone, Copy, PartialEq, Eq, Structural)]
pub struct ShortCircuitPlan {
    /// The value the slot keeps when the left operand short-circuits.
    pub default_value: bool,
    /// The region that evaluates the right operand.
    pub rhs_branch: Branch,
    /// The block the lowering continues in.
    pub continuation: ContinuationBlock,
}

/// The short-circuit value: `false` for `&&`, `true` for `||`.
pub open spec fn spec_short_circuit_value(operator: LogicalOperator) -> bool {
    operator == LogicalOperator::Or
}

/// The plan of an operator: the slot holds the short-circuit value, and the right operand
/// runs in the branch that the left operand takes when it does not short-circuit.
pub open spec fn spec_short_circuit_plan(operator: LogicalOperator) -> ShortCircuitPlan {
    let value = spec_short_circuit_value(operator);
    ShortCircuitPlan {
        default_value: value,
        rhs_branch: if value { Branch::Else } else { Branch::Then },
        continuation: ContinuationBlock::WhereFirstOperandEnded,
    }
}

/// The operands a plan evaluates, in order, when the left one is `lhs`: the left operand
/// once and first, then the right operand only in the region it lives in.
pub open spec fn spec_evaluation_order(plan: ShortCircuitPlan, lhs: bool) -> Seq<LogicalOperand> {
    if spec_evaluates_rhs(plan, lhs) {
        seq![LogicalOperand::Left, LogicalOperand::Right]
    } else {
        seq![LogicalOperand::Left]
    }
}

/// The branch `sol.if` takes on a condition.
pub open spec fn spec_taken_branch(condition: bool) -> Branch {
    if condition {
        Branch::Then
    } else {
        Branch::Else
    }
}

/// Whether a plan evaluates the right operand when the left one is `lhs`.
pub open spec fn spec_evaluates_rhs(plan: ShortCircuitPlan, lhs: bool) -> bool {
    spec_taken_branch(lhs) == plan.rhs_branch
}

/// The value a plan loads from its slot after the `sol.if`, with operands `lhs` and `rhs`.
pub open spec fn spec_plan_result(plan: ShortCircuitPlan, lhs: bool, rhs: bool) -> bool {
    if spec_evaluates_rhs(plan, lhs) {
        rhs
    } else {
        plan.default_value
    }
}

/// The boolean meaning of an operator.
pub open spec fn spec_logical_value(operator: LogicalOperator, lhs: bool, rhs: bool) -> bool {
    match operator {
        LogicalOperator::And => lhs && rhs,
        LogicalOperator::Or => lhs || rhs,
    }
}

impl LogicalOperator {
    /// The `i1` value the result keeps when the left operand short-circuits: `false` for
    /// `&&`, `true` for `||`.
    pub fn short_circuit_value(&self) -> (result: bool)
        ensures
            result == spec_short_circuit_value(*self),
    {
        match self {
            LogicalOperator::Or => true,
            LogicalOperator::And => false,
        }
    }

    /// The lowering of the operator: the default stored in the result slot and the branch
    /// that evaluates the right operand.
    pub fn emit(self) -> (result: ShortCircuitPlan)
        ensures
            result == spec_short_circuit_plan(self),
    {
        let short_circuit_value = self.short_circuit_value();
        let rhs_branch = if short_circuit_value {
            Branch::Else
        } else {
            Branch::Then
        };
        ShortCircuitPlan {
            default_value: short_circuit_value,
            rhs_branch,
            continuation: ContinuationBlock::WhereFirstOperandEnded,
        }
    }

    /// The type of the result slot: `i1`.
    pub fn result_slot_type() -> (result: MlirType)
        ensures
            result@ == TypeView::Signless(1),
    {
        MlirType::boolean()
    }
}

impl ExpressionEmitter {
    /// Lowers `a && b`: the slot defaults to `false` and `b` is evaluated only when `a`
    /// is true (see [`lemma_short_circuit_semantics`]).
    pub fn emit_and() -> (result: ShortCircuitPlan)
        ensures
            result == spec_short_circuit_plan(LogicalOperator::And),
    {
        LogicalOperator::And.emit()
    }

    /// Lowers `a || b`: the slot defaults to `true` and `b` is evaluated only when `a`
    /// is false (see [`lemma_short_circuit_semantics`]).
    pub fn emit_or() -> (result: ShortCircuitPlan)
        ensures
            result == spec_short_circuit_plan(LogicalOperator::Or),
    {
        LogicalOperator::Or.emit()
    }
}

/// The lowering computes the operator: the loaded slot is `lhs && rhs` for `&&` and
/// `lhs || rhs` for `||`; the left operand is evaluated once and first, the right one
/// after it and exactly when the left one differs from the short-circuit value (only
/// when it is true for `&&`, only when it is false for `||`); and the lowering continues
/// in the block where the left operand's emission ended.
pub proof fn lemma_short_circuit_semantics(operator: LogicalOperator, lhs: bool, rhs: bool)
    ensures
        spec_plan_result(spec_short_circuit_plan(operator), lhs, rhs) == spec_logical_value(
            operator,
            lhs,
            rhs,
        ),
        spec_evaluates_rhs(spec_short_circuit_plan(operator), lhs) == (lhs != spec_short_circuit_value(
            operator,
        )),
        spec_evaluation_order(spec_short_circuit_plan(operator), lhs)[0] == LogicalOperand::Left,
        spec_evaluation_order(spec_short_circuit_plan(operator), lhs) == if lhs
            != spec_short_circuit_value(operator) {
            seq![LogicalOperand::Left, LogicalOperand::Right]
        } else {
            seq![LogicalOperand::Left]
        },
        spec_evaluates_rhs(spec_short_circuit_plan(operator), lhs) == match operator {
            LogicalOperator::And => lhs,
            LogicalOperator::Or => !lhs,
        },
        spec_short_circuit_plan(operator).continuation == ContinuationBlock::WhereFirstOperandEnded,
{
}

/// When the right operand is not evaluated, the result is the short-circuit value, which
/// is the operator's value whatever the right operand would have been.
pub proof fn lemma_short_circuit_ignores_rhs(operator: LogicalOperator, lhs: bool, rhs1: bool, rhs2: bool)
    requires
        lhs == spec_short_circuit_value(operator),
    ensures
        spec_logical_value(operator, lhs, rhs1) == spec_short_circuit_value(operator),
        spec_logical_value(operator, lhs, rhs1) == spec_logical_value(operator, lhs, rhs2),
{
}

} // verus!
