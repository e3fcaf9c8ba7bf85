//! Comparisons (`==`, `!=`, `<`, ...): how the operand types are reconciled before the
//! `sol.cmp`, and the test of a value against zero.

use vstd::prelude::*;

use crate::context::ExpressionContext;
use crate::expression::ExpressionEmitter;

use crate::mlir_type::{
    MlirType, TypeView, spec_integer_bit_width, spec_fixed_bytes_or_byte_width, BIT_LENGTH_BOOLEAN,
};
use crate::type_conversion::{
    TypeConversion, ConversionStep, spec_conversion_steps, spec_from_target_type, step_result_type,
    conversion_target, lemma_conversion_reaches_target,
};

verus! {

/// How the operands of a comparison are reconciled.
#[derive(Debug)]
pub enum ComparisonPlan {
    /// A user-defined operator is bound to the predicate: it is called on both operands.
    OperatorCall,
    /// Both operands have one type: `sol.cmp` on them as they are.
    Direct,
    /// A fixed-bytes operand: both are `sol.bytes_cast` to `bytes<width>`.
    FixedBytes(u32),
    /// Integers of different types: both are `sol.cast` to the common type.
    Integer(MlirType),
}

/// The view of a comparison plan.
pub enum ComparisonPlanView {
    OperatorCall,
    Direct,
    FixedBytes(u32),
    Integer(TypeView),
}

impl View for ComparisonPlan {
    type V = ComparisonPlanView;

    open spec fn view(&self) -> ComparisonPlanView {
        match self {
            ComparisonPlan::OperatorCall => ComparisonPlanView::OperatorCall,
            ComparisonPlan::Direct => ComparisonPlanView::Direct,
            ComparisonPlan::FixedBytes(width) => ComparisonPlanView::FixedBytes(*width),
            ComparisonPlan::Integer(common) => ComparisonPlanView::Integer(common@),
        }
    }
}

/// The wider of the fixed-bytes widths of two types (a `!sol.byte` counts as one byte),
/// if either has one.
pub open spec fn spec_common_fixed_width(lhs: TypeView, rhs: TypeView) -> Option<u32> {
    match (spec_fixed_bytes_or_byte_width(lhs), spec_fixed_bytes_or_byte_width(rhs)) {
        (Some(a), Some(b)) => Some(if a >= b { a } else { b }),
        (Some(a), None) => Some(a),
        (None, Some(b)) => Some(b),
        (None, None) => None,
    }
}

/// The common type of two integer operands: the wider operand type (the left one when
/// the widths are equal), signed at that width when either operand is signed.
pub open spec fn spec_common_integer_type(lhs: TypeView, rhs: TypeView) -> TypeView {
    let lhs_bits = spec_integer_bit_width(lhs)->0;
    let rhs_bits = spec_integer_bit_width(rhs)->0;
    let bits = if lhs_bits >= rhs_bits { lhs_bits } else { rhs_bits };
    if lhs is Signed || rhs is Signed {
        TypeView::Signed(bits)
    } else if lhs_bits >= rhs_bits {
        lhs
    } else {
        rhs
    }
}

/// Whether the comparison of two operand types can be lowered: a user-defined operator
/// applies, the types are equal, one is fixed bytes, or both are integers.
pub open spec fn spec_comparable(user_defined: bool, lhs: TypeView, rhs: TypeView) -> bool {
    ||| user_defined
    ||| lhs == rhs
    ||| spec_common_fixed_width(lhs, rhs) is Some
    ||| (spec_integer_bit_width(lhs) is Some && spec_integer_bit_width(rhs) is Some)
}

/// How a comparison reconciles its operands.
pub open spec fn spec_comparison_plan(user_defined: bool, lhs: TypeView, rhs: TypeView) -> ComparisonPlanView {
    if user_defined {
        ComparisonPlanView::OperatorCall
    } else if lhs == rhs {
        ComparisonPlanView::Direct
    } else if spec_common_fixed_width(lhs, rhs) is Some {
        ComparisonPlanView::FixedBytes(spec_common_fixed_width(lhs, rhs)->0)
    } else {
        ComparisonPlanView::Integer(spec_common_integer_type(lhs, rhs))
    }
}

/// How a value becomes the `i1` condition of a branch.
#[derive(Debug)]
pub enum NonZeroTest {
    /// The value is already an `i1`.
    Keep,
    /// `sol.cmp ne` against a zero constant of the value's type.
    CompareWithZero(MlirType),
}

/// The view of a test against zero.
pub enum NonZeroTestView {
    Keep,
    CompareWithZero(TypeView),
}

impl View for NonZeroTest {
    type V = NonZeroTestView;

    open spec fn view(&self) -> NonZeroTestView {
        match self {
            NonZeroTest::Keep => NonZeroTestView::Keep,
            NonZeroTest::CompareWithZero(t) => NonZeroTestView::CompareWithZero(t@),
        }
    }
}

/// The test of a value of type `value_type` against zero: an integer of one bit is kept,
/// anything else is compared with a zero of its own type.
pub open spec fn spec_non_zero_test(value_type: TypeView) -> NonZeroTestView {
    if spec_integer_bit_width(value_type) == Some(1u32) {
        NonZeroTestView::Keep
    } else {
        NonZeroTestView::CompareWithZero(value_type)
    }
}

/// The conversions of the operands of a comparison in the expression emitter: both are
/// converted to the common type, the operands' type when they agree and `ui256` else.
pub struct OperandConversions {
    /// The type both operands are compared at.
    pub common_type: MlirType,
    /// The steps that convert the left operand.
    pub lhs_step: ConversionStep,
    /// The steps that convert the right operand.
    pub rhs_step: ConversionStep,
}

/// The common type of the emitter's comparison: the operands' type when they agree, else
/// `ui256`.
pub open spec fn spec_emitter_common_type(lhs: TypeView, rhs: TypeView) -> TypeView {
    if lhs == rhs {
        lhs
    } else {
        TypeView::Unsigned(256)
    }
}

impl ExpressionContext {
    /// The reconciliation of a comparison between values of `lhs_type` and `rhs_type`: a
    /// user-defined operator bound to the predicate is called; equal types compare
    /// directly; a fixed-bytes operand on either side makes both fixed bytes of the wider
    /// width; integers widen to the wider type, signed when either side is signed.
    pub fn emit_comparison(user_defined: bool, lhs_type: &MlirType, rhs_type: &MlirType) -> (result: ComparisonPlan)
        requires
            spec_comparable(user_defined, lhs_type@, rhs_type@),
        ensures
            result@ == spec_comparison_plan(user_defined, lhs_type@, rhs_type@),
    {
        if user_defined {
            return ComparisonPlan::OperatorCall;
        }
        if lhs_type.same_as(rhs_type) {
            return ComparisonPlan::Direct;
        }
        let lhs_width = lhs_type.fixed_bytes_or_byte_width();
        let rhs_width = rhs_type.fixed_bytes_or_byte_width();
        match (lhs_width, rhs_width) {
            (Some(a), Some(b)) => {
                return ComparisonPlan::FixedBytes(if a >= b { a } else { b });
            },
            (Some(a), None) => {
                return ComparisonPlan::FixedBytes(a);
            },
            (None, Some(b)) => {
                return ComparisonPlan::FixedBytes(b);
            },
            (None, None) => {},
        }
        let lhs_bits = match lhs_type.integer_bit_width() {
            Some(bits) => bits,
            None => 0,
        };
        let rhs_bits = match rhs_type.integer_bit_width() {
            Some(bits) => bits,
            None => 0,
        };
        let bits = if lhs_bits >= rhs_bits { lhs_bits } else { rhs_bits };
        let lhs_signed = match lhs_type {
            MlirType::Signed(_) => true,
            _ => false,
        };
        let rhs_signed = match rhs_type {
            MlirType::Signed(_) => true,
            _ => false,
        };
        let common = if lhs_signed || rhs_signed {
            MlirType::Signed(bits)
        } else if lhs_bits >= rhs_bits {
            lhs_type.duplicate()
        } else {
            rhs_type.duplicate()
        };
        ComparisonPlan::Integer(common)
    }
}

impl ExpressionEmitter {
    /// The emitter's comparison: both operands are converted to the common type (see
    /// [`spec_emitter_common_type`]) with [`TypeConversion`], then compared.
    pub fn emit_comparison(lhs_type: &MlirType, rhs_type: &MlirType) -> (result: OperandConversions)
        ensures
            result.common_type@ == spec_emitter_common_type(lhs_type@, rhs_type@),
            result.lhs_step@ == spec_conversion_steps(
                spec_from_target_type(result.common_type),
                lhs_type@,
            ),
            result.rhs_step@ == spec_conversion_steps(
                spec_from_target_type(result.common_type),
                rhs_type@,
            ),
    {
        let common_type = if lhs_type.same_as(rhs_type) {
            lhs_type.duplicate()
        } else {
            MlirType::ui256()
        };
        let lhs_step = TypeConversion::from_target_type(common_type.duplicate()).emit(lhs_type);
        let rhs_step = TypeConversion::from_target_type(common_type.duplicate()).emit(rhs_type);
        proof {
            assert(spec_from_target_type(common_type) == spec_from_target_type(common_type));
        }
        OperandConversions { common_type, lhs_step, rhs_step }
    }

    /// The `i1` condition of a value: kept when it is already a one-bit integer, else
    /// `sol.cmp ne` against zero of its type.
    pub fn emit_is_nonzero(value_type: &MlirType) -> (result: NonZeroTest)
        ensures
            result@ == spec_non_zero_test(value_type@),
    {
        if value_type.is_integer() && value_type.integer_bit_width() == Some(BIT_LENGTH_BOOLEAN) {
            return NonZeroTest::Keep;
        }
        NonZeroTest::CompareWithZero(value_type.duplicate())
    }
}

/// Integer operands are only ever widened: the common type is an integer type at least as
/// wide as each operand, and signed when either operand is.
pub proof fn lemma_comparison_widens(lhs: TypeView, rhs: TypeView)
    requires
        spec_integer_bit_width(lhs) is Some,
        spec_integer_bit_width(rhs) is Some,
    ensures
        spec_integer_bit_width(spec_common_integer_type(lhs, rhs)) is Some,
        spec_integer_bit_width(spec_common_integer_type(lhs, rhs))->0 >= spec_integer_bit_width(lhs)->0,
        spec_integer_bit_width(spec_common_integer_type(lhs, rhs))->0 >= spec_integer_bit_width(rhs)->0,
        (lhs is Signed || rhs is Signed) ==> spec_common_integer_type(lhs, rhs) is Signed,
{
}

/// The reconciliation does not depend on the order of the operands, except for which
/// operand's type wins between two unsigned types of one width.
pub proof fn lemma_comparison_symmetric(user_defined: bool, lhs: TypeView, rhs: TypeView)
    requires
        spec_comparable(user_defined, lhs, rhs),
        !(spec_integer_bit_width(lhs) is Some && spec_integer_bit_width(rhs) is Some
            && !(lhs is Signed) && !(rhs is Signed) && spec_integer_bit_width(lhs) == spec_integer_bit_width(rhs)
            && lhs != rhs),
    ensures
        spec_comparison_plan(user_defined, lhs, rhs) == spec_comparison_plan(user_defined, rhs, lhs),
{
}

/// In the emitter's comparison, both operands arrive at the common type.
pub proof fn lemma_emitter_operands_agree(lhs: TypeView, rhs: TypeView, common: MlirType)
    requires
        common@ == spec_emitter_common_type(lhs, rhs),
    ensures
        step_result_type(spec_conversion_steps(spec_from_target_type(common), lhs), lhs) == common@,
        step_result_type(spec_conversion_steps(spec_from_target_type(common), rhs), rhs) == common@,
{
    lemma_conversion_reaches_target(spec_from_target_type(common), lhs);
    lemma_conversion_reaches_target(spec_from_target_type(common), rhs);
    crate::type_conversion::lemma_target_round_trip(common);
}

} // verus!
