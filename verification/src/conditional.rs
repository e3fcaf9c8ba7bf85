//! Conditional expressions `c ? a : b`: the types of the result slots that both branches
//! store into and that are loaded after the `sol.if`.

use vstd::prelude::*;

use crate::call_kind::{CalleeShape, OperandShape};
use crate::definition::{Definition, FunctionFacts};
use crate::logical::ContinuationBlock;
use crate::mlir_type::{MlirType, TypeView, type_view, type_views, lemma_type_views};
use crate::slang_type::SlangType;
use crate::type_conversion::{resolvable, spec_resolve, spec_resolve_all, all_resolvable, TypeConversion};

verus! {

/// The function a branch names directly, whose function-reference type the result takes:
/// a function name, or `C.f` with `C` a contract name.
pub open spec fn spec_function_reference(expression: CalleeShape) -> Option<FunctionFacts> {
    match expression {
        CalleeShape::Identifier { definition: Some(Definition::Function(function)), .. } => Some(function),
        CalleeShape::MemberAccess(access) => if access.operand == OperandShape::Identifier(
            Some(Definition::Contract),
        ) {
            match access.member_definition {
                Some(Definition::Function(function)) => Some(function),
                _ => None,
            }
        } else {
            None
        },
        _ => None,
    }
}

/// The types of the items of a tuple that are present, in order.
pub open spec fn spec_present_items(items: Seq<Option<SlangType>>) -> Seq<SlangType>
    decreases items.len(),
{
    if items.len() == 0 {
        Seq::empty()
    } else {
        let rest = spec_present_items(items.drop_last());
        match items.last() {
            Some(t) => rest.push(t),
            None => rest,
        }
    }
}

/// A branch of a conditional, as far as its result types read it.
#[derive(Debug)]
pub enum BranchShape {
    /// `(e)`: a parenthesized expression.
    Parenthesized(Box<BranchShape>),
    /// A tuple expression, with the type of each item (`None` for an empty item).
    Tuple(Vec<Option<SlangType>>),
    /// Any other expression.
    Other,
}

/// A branch with its enclosing parentheses removed.
pub open spec fn spec_unwrap_parentheses(branch: BranchShape) -> BranchShape
    decreases branch,
{
    match branch {
        BranchShape::Parenthesized(inner) => spec_unwrap_parentheses(*inner),
        _ => branch,
    }
}

/// The item types of a branch that is a tuple expression once its parentheses are
/// removed.
pub open spec fn spec_branch_items(branch: BranchShape) -> Option<Seq<Option<SlangType>>> {
    match spec_unwrap_parentheses(branch) {
        BranchShape::Tuple(items) => Some(items@),
        _ => None,
    }
}

/// Removes the parentheses around a branch.
pub fn unwrap_parentheses(branch: &BranchShape) -> (result: &BranchShape)
    ensures
        *result == spec_unwrap_parentheses(*branch),
    decreases branch,
{
    match branch {
        BranchShape::Parenthesized(inner) => unwrap_parentheses(inner),
        _ => branch,
    }
}

/// Parentheses around a branch change nothing: a parenthesized branch has the item types
/// of the branch inside, and so the result types of a tuple-typed conditional are the
/// same with or without them, around either branch.
pub proof fn lemma_parentheses_transparent(
    true_branch: BranchShape,
    false_branch: BranchShape,
    tuple_types: Seq<SlangType>,
)
    ensures
        spec_branch_items(BranchShape::Parenthesized(Box::new(true_branch))) == spec_branch_items(true_branch),
        spec_tuple_result_types(
            spec_branch_items(BranchShape::Parenthesized(Box::new(true_branch))),
            spec_branch_items(BranchShape::Parenthesized(Box::new(false_branch))) is Some,
            tuple_types,
        ) == spec_tuple_result_types(
            spec_branch_items(true_branch),
            spec_branch_items(false_branch) is Some,
            tuple_types,
        ),
{
    assert(spec_unwrap_parentheses(BranchShape::Parenthesized(Box::new(true_branch))) == spec_unwrap_parentheses(true_branch));
    assert(spec_unwrap_parentheses(BranchShape::Parenthesized(Box::new(false_branch))) == spec_unwrap_parentheses(false_branch));
}

/// The result types of a tuple-typed conditional: when both branches are tuple
/// expressions, the types of the true branch's present items; otherwise the element types
/// of the conditional's tuple type.
pub open spec fn spec_tuple_result_types(
    true_items: Option<Seq<Option<SlangType>>>,
    false_is_tuple: bool,
    tuple_types: Seq<SlangType>,
) -> Seq<TypeView> {
    match true_items {
        Some(items) => if false_is_tuple {
            spec_resolve_all(spec_present_items(items), None)
        } else {
            spec_resolve_all(tuple_types, None)
        },
        None => spec_resolve_all(tuple_types, None),
    }
}

/// Whether the types a tuple-typed conditional resolves have Sol dialect types.
pub open spec fn spec_tuple_types_resolvable(
    true_items: Option<Seq<Option<SlangType>>>,
    false_is_tuple: bool,
    tuple_types: Seq<SlangType>,
) -> bool {
    match true_items {
        Some(items) => if false_is_tuple {
            forall|i: int| 0 <= i < items.len() ==> (#[trigger] items[i] matches Some(t) ==> resolvable(t, None))
        } else {
            all_resolvable(tuple_types, None)
        },
        None => all_resolvable(tuple_types, None),
    }
}

/// An operand of a conditional expression.
#[derive(Debug, Clone, Copy, PartialEq, Eq, Structural)]
pub enum ConditionalOperand {
    /// The condition `c`, evaluated before the `sol.if`.
    Condition,
    /// The true branch `a`.
    TrueBranch,
    /// The false branch `b`.
    FalseBranch,
}

/// How a conditional lowers: one stack slot per result, of the given types; the condition
/// is evaluated and tested for non-zero by a `sol.if`; the `then` region evaluates
/// `then_source` and stores each of its values, converted to the slot's type, into the
/// slot of the same index; the `else` region does the same with `else_source`; after the
/// `sol.if` the slots are loaded in order.
#[derive(Debug)]
pub struct ConditionalPlan {
    /// The types of the result slots, in order.
    pub slot_types: Vec<MlirType>,
    /// The branch the `then` region evaluates and stores.
    pub then_source: ConditionalOperand,
    /// The branch the `else` region evaluates and stores.
    pub else_source: ConditionalOperand,
    /// The block the lowering continues in.
    pub continuation: ContinuationBlock,
}

/// The branch whose values the slots hold when the condition evaluates to `condition`:
/// the `then` region runs when it is non-zero.
pub open spec fn spec_stored_branch(plan: ConditionalPlan, condition: int) -> ConditionalOperand {
    if condition != 0 {
        plan.then_source
    } else {
        plan.else_source
    }
}

/// The operands a plan evaluates, in order: the condition once, then the one branch its
/// value selects.
pub open spec fn spec_conditional_evaluation(plan: ConditionalPlan, condition: int) -> Seq<ConditionalOperand> {
    seq![ConditionalOperand::Condition, spec_stored_branch(plan, condition)]
}

/// The values loaded after the `sol.if`: item `i` is the `i`-th value of the stored
/// branch converted to the type of slot `i`, written as (slot type, branch, index).
pub open spec fn spec_conditional_loaded(plan: ConditionalPlan, condition: int) -> Seq<(TypeView, ConditionalOperand, int)> {
    Seq::new(
        plan.slot_types@.len(),
        |i: int| (type_view(plan.slot_types@[i]), spec_stored_branch(plan, condition), i),
    )
}

/// Whether a plan is the lowering of a conditional with these result slots.
pub open spec fn spec_is_conditional_plan(plan: ConditionalPlan, slot_types: Seq<MlirType>) -> bool {
    &&& plan.slot_types@ == slot_types
    &&& plan.then_source == ConditionalOperand::TrueBranch
    &&& plan.else_source == ConditionalOperand::FalseBranch
    &&& plan.continuation == ContinuationBlock::WhereFirstOperandEnded
}

/// `c ? a : b` yields `a` when `c` is non-zero and `b` otherwise, item by item for
/// tuples, each converted to its slot's type: the condition is evaluated once and
/// first, then exactly one branch (so only that branch's side effects occur), and the
/// lowering continues in the block where the condition's emission ended.
pub proof fn lemma_conditional_semantics(plan: ConditionalPlan, slot_types: Seq<MlirType>, condition: int)
    requires
        spec_is_conditional_plan(plan, slot_types),
    ensures
        spec_conditional_evaluation(plan, condition) == seq![
            ConditionalOperand::Condition,
            if condition != 0 {
                ConditionalOperand::TrueBranch
            } else {
                ConditionalOperand::FalseBranch
            },
        ],
        !spec_conditional_evaluation(plan, condition).contains(
            if condition != 0 {
                ConditionalOperand::FalseBranch
            } else {
                ConditionalOperand::TrueBranch
            },
        ),
        spec_conditional_loaded(plan, condition).len() == slot_types.len(),
        forall|i: int|
            0 <= i < slot_types.len() ==> #[trigger] spec_conditional_loaded(plan, condition)[i] == (
                type_view(slot_types[i]),
                if condition != 0 {
                    ConditionalOperand::TrueBranch
                } else {
                    ConditionalOperand::FalseBranch
                },
                i,
            ),
        plan.continuation == ContinuationBlock::WhereFirstOperandEnded,
{
    let evaluation = spec_conditional_evaluation(plan, condition);
    let skipped = if condition != 0 {
        ConditionalOperand::FalseBranch
    } else {
        ConditionalOperand::TrueBranch
    };
    assert forall|j: int| 0 <= j < evaluation.len() implies evaluation[j] != skipped by {}
}

/// A conditional expression `c ? a : b`.
pub struct ConditionalExpression;

impl ConditionalExpression {
    /// Lowers `c ? a : b` into result slots of the given types: the `then` region
    /// stores the true branch, the `else` region the false branch, and the lowering
    /// continues after the `sol.if` in the block where the condition ended.
    pub fn emit(slot_types: Vec<MlirType>) -> (result: ConditionalPlan)
        ensures
            spec_is_conditional_plan(result, slot_types@),
    {
        ConditionalPlan {
            slot_types,
            then_source: ConditionalOperand::TrueBranch,
            else_source: ConditionalOperand::FalseBranch,
            continuation: ContinuationBlock::WhereFirstOperandEnded,
        }
    }

    /// The function a branch names directly, if any (see [`spec_function_reference`]).
    pub fn function_reference(expression: &CalleeShape) -> (result: Option<FunctionFacts>)
        ensures
            result == spec_function_reference(*expression),
    {
        match expression {
            CalleeShape::Identifier { definition: Some(Definition::Function(function)), .. } => Some(*function),
            CalleeShape::MemberAccess(access) => match access.operand {
                OperandShape::Identifier(Some(Definition::Contract)) => match access.member_definition {
                    Some(Definition::Function(function)) => Some(function),
                    _ => None,
                },
                _ => None,
            },
            _ => None,
        }
    }

    /// The type of the single result slot: the function-reference type of the true
    /// branch when it names a function, else the false branch's, else the conditional's
    /// resolved type.
    pub fn result_type(true_reference: Option<MlirType>, false_reference: Option<MlirType>, resolved: Option<MlirType>) -> (result: MlirType)
        requires
            true_reference is Some || false_reference is Some || resolved is Some,
        ensures
            result@ == match true_reference {
                Some(t) => t@,
                None => match false_reference {
                    Some(f) => f@,
                    None => resolved->0@,
                },
            },
    {
        match true_reference {
            Some(t) => t,
            None => match false_reference {
                Some(f) => f,
                None => match resolved {
                    Some(r) => r,
                    None => MlirType::ui256(),
                },
            },
        }
    }

    /// The types of the result slots of a tuple-typed conditional (see
    /// [`spec_tuple_result_types`]), reading each branch with its parentheses removed.
    pub fn tuple_result_types(
        true_branch: &BranchShape,
        false_branch: &BranchShape,
        tuple_types: &Vec<SlangType>,
    ) -> (result: Vec<MlirType>)
        requires
            spec_tuple_types_resolvable(
                spec_branch_items(*true_branch),
                spec_branch_items(*false_branch) is Some,
                tuple_types@,
            ),
        ensures
            type_views(result@) == spec_tuple_result_types(
                spec_branch_items(*true_branch),
                spec_branch_items(*false_branch) is Some,
                tuple_types@,
            ),
    {
        let false_is_tuple = match unwrap_parentheses(false_branch) {
            BranchShape::Tuple(_) => true,
            _ => false,
        };
        match unwrap_parentheses(true_branch) {
            BranchShape::Tuple(items) => {
                if false_is_tuple {
                    Self::present_item_types(items)
                } else {
                    TypeConversion::resolve_all(tuple_types, None)
                }
            },
            _ => TypeConversion::resolve_all(tuple_types, None),
        }
    }

    /// The resolved types of the present items of a tuple, in order.
    fn present_item_types(items: &Vec<Option<SlangType>>) -> (result: Vec<MlirType>)
        requires
            forall|i: int| 0 <= i < items@.len() ==> (#[trigger] items@[i] matches Some(t) ==> resolvable(t, None)),
        ensures
            type_views(result@) == spec_resolve_all(spec_present_items(items@), None),
    {
        let mut result: Vec<MlirType> = Vec::new();
        let mut i: usize = 0;
        proof {
            assert(items@.subrange(0, 0) =~= Seq::<Option<SlangType>>::empty());
            assert(type_views(result@) =~= Seq::<TypeView>::empty());
        }
        while i < items.len()
            invariant
                i <= items@.len(),
                forall|j: int| 0 <= j < items@.len() ==> (#[trigger] items@[j] matches Some(t) ==> resolvable(t, None)),
                type_views(result@) == spec_resolve_all(spec_present_items(items@.subrange(0, i as int)), None),
            decreases items@.len() - i,
        {
            let ghost before = result@;
            proof {
                assert(items@.subrange(0, i + 1).drop_last() =~= items@.subrange(0, i as int));
                assert(items@.subrange(0, i + 1).last() == items@[i as int]);
            }
            match &items[i] {
                Some(t) => {
                    let resolved = TypeConversion::resolve_slang_type(t, None);
                    result.push(resolved);
                    proof {
                        lemma_type_views_push(before, resolved);
                        crate::type_conversion::lemma_resolve_all_push(
                            spec_present_items(items@.subrange(0, i as int)),
                            *t,
                            None,
                        );
                    }
                },
                None => {},
            }
            i += 1;
        }
        proof {
            assert(items@.subrange(0, i as int) =~= items@);
        }
        result
    }
}

/// Appending a type appends its value.
pub proof fn lemma_type_views_push(types: Seq<MlirType>, t: MlirType)
    ensures
        type_views(types.push(t)) == type_views(types).push(type_view(t)),
{
    assert(types.push(t).subrange(0, types.len() as int) =~= types);
}

} // verus!
