//! Solidity operators and the Sol dialect operations they lower to.

use vstd::prelude::*;
use vstd::arithmetic::power::pow;
use vstd::arithmetic::power2::pow2;

verus! {

/// Solidity operator parsed from source text.
#[derive(Debug, Clone, Copy, PartialEq, Eq, Structural)]
pub enum Operator {
    // ---- Arithmetic ----
    /// `+`
    Add,
    /// `-`
    Subtract,
    /// `*`
    Multiply,
    /// `/`
    Divide,
    /// `%`
    Remainder,
    /// `**`
    Exponentiation,
    // ---- Arithmetic assignment ----
    /// `+=`
    AddAssign,
    /// `-=`
    SubtractAssign,
    /// `*=`
    MultiplyAssign,
    /// `/=`
    DivideAssign,
    /// `%=`
    RemainderAssign,
    // ---- Bitwise ----
    /// `&`
    BitwiseAnd,
    /// `|`
    BitwiseOr,
    /// `^`
    BitwiseXor,
    /// `<<`
    ShiftLeft,
    /// `>>`
    ShiftRight,
    /// `~`
    BitwiseNot,
    // ---- Bitwise assignment ----
    /// `&=`
    BitwiseAndAssign,
    /// `|=`
    BitwiseOrAssign,
    /// `^=`
    BitwiseXorAssign,
    /// `<<=`
    ShiftLeftAssign,
    /// `>>=`
    ShiftRightAssign,
    // ---- Comparison ----
    /// `==`
    Equal,
    /// `!=`
    NotEqual,
    /// `>`
    Greater,
    /// `>=`
    GreaterEqual,
    /// `<`
    Less,
    /// `<=`
    LessEqual,
    /// `!`
    Not,
    // ---- Step ----
    /// `++`
    Increment,
    /// `--`
    Decrement,
    // ---- Other ----
    /// `delete`
    Delete,
}

/// The predicate of a `sol.cmp`.
#[derive(Debug, Clone, Copy, PartialEq, Eq, Structural)]
pub enum CmpPredicate {
    Eq,
    Ne,
    Lt,
    Le,
    Gt,
    Ge,
}

/// A binary arithmetic, bitwise or shift operation of the Sol dialect.
#[derive(Debug, Clone, Copy, PartialEq, Eq, Structural)]
pub enum SolBinaryOperation {
    /// `sol.add` / `sol.cadd`
    Add,
    /// `sol.sub` / `sol.csub`
    Subtract,
    /// `sol.mul` / `sol.cmul`
    Multiply,
    /// `sol.div` / `sol.cdiv`
    Divide,
    /// `sol.mod`
    Remainder,
    /// `sol.exp` / `sol.cexp`
    Exponentiate,
    /// `sol.and`
    BitAnd,
    /// `sol.or`
    BitOr,
    /// `sol.xor`
    BitXor,
    /// `sol.shl`
    ShiftLeft,
    /// `sol.shr`
    ShiftRight,
}

/// A binary operation together with whether it is the reverting (checked) variant.
#[derive(Debug, Clone, Copy, PartialEq, Eq, Structural)]
pub struct BinaryOperation {
    /// The operation.
    pub operation: SolBinaryOperation,
    /// Whether the reverting variant (`sol.cadd`, ...) is emitted.
    pub checked: bool,
}

impl Operator {
    /// Whether the operator lowers to a binary operation: the arithmetic, bitwise and
    /// shift operators, and the steps `++` / `--`.
    pub open spec fn spec_is_binary(self) -> bool {
        match self {
            Operator::Add | Operator::Increment | Operator::Subtract | Operator::Decrement
            | Operator::Multiply | Operator::Divide | Operator::Remainder
            | Operator::Exponentiation | Operator::BitwiseAnd | Operator::BitwiseOr
            | Operator::BitwiseXor | Operator::ShiftLeft | Operator::ShiftRight => true,
            _ => false,
        }
    }

    /// The binary operation an operator lowers to when `checked` asks for reverting
    /// arithmetic: `++` adds and `--` subtracts; remainder, bitwise and shift operations
    /// are never checked.
    pub open spec fn spec_emit(self, checked: bool) -> BinaryOperation {
        match self {
            Operator::Add | Operator::Increment => BinaryOperation {
                operation: SolBinaryOperation::Add,
                checked,
            },
            Operator::Subtract | Operator::Decrement => BinaryOperation {
                operation: SolBinaryOperation::Subtract,
                checked,
            },
            Operator::Multiply => BinaryOperation { operation: SolBinaryOperation::Multiply, checked },
            Operator::Divide => BinaryOperation { operation: SolBinaryOperation::Divide, checked },
            Operator::Exponentiation => BinaryOperation {
                operation: SolBinaryOperation::Exponentiate,
                checked,
            },
            Operator::Remainder => BinaryOperation {
                operation: SolBinaryOperation::Remainder,
                checked: false,
            },
            Operator::BitwiseAnd => BinaryOperation {
                operation: SolBinaryOperation::BitAnd,
                checked: false,
            },
            Operator::BitwiseOr => BinaryOperation {
                operation: SolBinaryOperation::BitOr,
                checked: false,
            },
            Operator::BitwiseXor => BinaryOperation {
                operation: SolBinaryOperation::BitXor,
                checked: false,
            },
            Operator::ShiftLeft => BinaryOperation {
                operation: SolBinaryOperation::ShiftLeft,
                checked: false,
            },
            _ => BinaryOperation { operation: SolBinaryOperation::ShiftRight, checked: false },
        }
    }

    /// Whether the operator lowers to a binary operation.
    pub fn is_binary(self) -> (result: bool)
        ensures
            result == self.spec_is_binary(),
    {
        match self {
            Operator::Add | Operator::Increment | Operator::Subtract | Operator::Decrement
            | Operator::Multiply | Operator::Divide | Operator::Remainder
            | Operator::Exponentiation | Operator::BitwiseAnd | Operator::BitwiseOr
            | Operator::BitwiseXor | Operator::ShiftLeft | Operator::ShiftRight => true,
            _ => false,
        }
    }

    /// The binary operation this operator emits over two operands. When `checked` is
    /// true, the arithmetic operators use their reverting variants (`sol.cadd`,
    /// `sol.csub`, `sol.cmul`, `sol.cdiv`, `sol.cexp`); remainder, bitwise, and shift
    /// operations are always unchecked.
    pub fn emit(self, checked: bool) -> (result: BinaryOperation)
        requires
            self.spec_is_binary(),
        ensures
            result == self.spec_emit(checked),
    {
        match self {
            Operator::Add | Operator::Increment => BinaryOperation {
                operation: SolBinaryOperation::Add,
                checked,
            },
            Operator::Subtract | Operator::Decrement => BinaryOperation {
                operation: SolBinaryOperation::Subtract,
                checked,
            },
            Operator::Multiply => BinaryOperation { operation: SolBinaryOperation::Multiply, checked },
            Operator::Divide => BinaryOperation { operation: SolBinaryOperation::Divide, checked },
            Operator::Exponentiation => BinaryOperation {
                operation: SolBinaryOperation::Exponentiate,
                checked,
            },
            Operator::Remainder => BinaryOperation {
                operation: SolBinaryOperation::Remainder,
                checked: false,
            },
            Operator::BitwiseAnd => BinaryOperation {
                operation: SolBinaryOperation::BitAnd,
                checked: false,
            },
            Operator::BitwiseOr => BinaryOperation {
                operation: SolBinaryOperation::BitOr,
                checked: false,
            },
            Operator::BitwiseXor => BinaryOperation {
                operation: SolBinaryOperation::BitXor,
                checked: false,
            },
            Operator::ShiftLeft => BinaryOperation {
                operation: SolBinaryOperation::ShiftLeft,
                checked: false,
            },
            _ => BinaryOperation { operation: SolBinaryOperation::ShiftRight, checked: false },
        }
    }
}

/// Whether `value` is a value of the integer type of `bits` bits (two's complement when
/// `signed`).
pub open spec fn fits(value: int, bits: nat, signed: bool) -> bool {
    if signed {
        -(pow2((bits - 1) as nat) as int) <= value < pow2((bits - 1) as nat)
    } else {
        0 <= value < pow2(bits)
    }
}

/// `value` reduced modulo `2^bits` into the integer type of `bits` bits (two's complement
/// when `signed`).
pub open spec fn wrap(value: int, bits: nat, signed: bool) -> int {
    let r = value % (pow2(bits) as int);
    if signed && r >= pow2((bits - 1) as nat) {
        r - pow2(bits)
    } else {
        r
    }
}

/// Division truncating toward zero, as Solidity divides.
pub open spec fn truncated_quotient(x: int, y: int) -> int {
    let q = abs(x) / abs(y);
    if (x < 0) != (y < 0) {
        -q
    } else {
        q
    }
}

/// The absolute value.
pub open spec fn abs(x: int) -> int {
    if x < 0 {
        -x
    } else {
        x
    }
}

/// The exact mathematical value of an arithmetic operation on two integers: truncating
/// division and remainder, exponentiation by a natural exponent.
pub open spec fn exact_value(operation: SolBinaryOperation, x: int, y: int) -> int {
    match operation {
        SolBinaryOperation::Add => x + y,
        SolBinaryOperation::Subtract => x - y,
        SolBinaryOperation::Multiply => x * y,
        SolBinaryOperation::Divide => truncated_quotient(x, y),
        SolBinaryOperation::Remainder => x - y * truncated_quotient(x, y),
        _ => pow(x, y as nat),
    }
}

/// Whether an operation is one of the arithmetic ones.
pub open spec fn is_arithmetic(operation: SolBinaryOperation) -> bool {
    match operation {
        SolBinaryOperation::Add | SolBinaryOperation::Subtract | SolBinaryOperation::Multiply
        | SolBinaryOperation::Divide | SolBinaryOperation::Remainder
        | SolBinaryOperation::Exponentiate => true,
        _ => false,
    }
}

impl BinaryOperation {
    /// What an arithmetic operation yields on operands `x` and `y` of an integer type of
    /// `bits` bits: `None` when it reverts. Division and remainder by zero revert; an
    /// exact value that fits the type is the result; one that does not reverts under
    /// the checked variant and wraps modulo `2^bits` otherwise.
    pub open spec fn outcome(self, bits: nat, signed: bool, x: int, y: int) -> Option<int> {
        let value = exact_value(self.operation, x, y);
        if (self.operation == SolBinaryOperation::Divide || self.operation
            == SolBinaryOperation::Remainder) && y == 0 {
            None
        } else if fits(value, bits, signed) {
            Some(value)
        } else if self.checked {
            None
        } else {
            Some(wrap(value, bits, signed))
        }
    }
}

/// An arithmetic operator whose exact result does not fit the type reverts when the
/// lowering is checked and wraps modulo `2^bits` when it is not; a result that fits is
/// exact either way, and remainder never reverts on a non-zero divisor.
pub proof fn lemma_checked_reverts_unchecked_wraps(
    operator: Operator,
    checked: bool,
    bits: nat,
    signed: bool,
    x: int,
    y: int,
)
    requires
        operator.spec_is_binary(),
        is_arithmetic(operator.spec_emit(checked).operation),
        (operator.spec_emit(checked).operation == SolBinaryOperation::Divide || operator.spec_emit(
            checked,
        ).operation == SolBinaryOperation::Remainder) ==> y != 0,
    ensures
        ({
            let operation = operator.spec_emit(checked);
            let value = exact_value(operation.operation, x, y);
            &&& fits(value, bits, signed) ==> operation.outcome(bits, signed, x, y) == Some(value)
            &&& !fits(value, bits, signed) ==> (operation.outcome(bits, signed, x, y) == if checked
                && operation.operation != SolBinaryOperation::Remainder {
                None
            } else {
                Some(wrap(value, bits, signed))
            })
            &&& operation.operation == SolBinaryOperation::Remainder ==> operation.outcome(
                bits,
                signed,
                x,
                y,
            ) is Some
        }),
{
}

/// Only addition, subtraction, multiplication, division and exponentiation follow the
/// `checked` flag; every other binary operation is unchecked whatever the flag, and an
/// unchecked context never emits a reverting operation.
pub proof fn lemma_checked_only_arithmetic(operator: Operator, checked: bool)
    requires
        operator.spec_is_binary(),
    ensures
        operator.spec_emit(checked).checked == (checked && match operator.spec_emit(checked).operation {
            SolBinaryOperation::Add | SolBinaryOperation::Subtract | SolBinaryOperation::Multiply
            | SolBinaryOperation::Divide | SolBinaryOperation::Exponentiate => true,
            _ => false,
        }),
        operator.spec_emit(checked).operation == operator.spec_emit(!checked).operation,
{
}

/// Each operator emits the operation of its own name: `+` and `++` add, `-` and `--`
/// subtract, `*` multiplies, `/` divides, `**` exponentiates, `%` takes the remainder,
/// and the bitwise and shift operators emit their bitwise and shift operations; the
/// arithmetic ones (but `%`) are checked exactly when asked. On integers, the emitted
/// arithmetic computes `x + y`, `x - y`, `x * y`, the quotient truncated toward zero,
/// the remainder of that division, and `x` to the power `y`.
pub proof fn lemma_operator_names_its_operation(checked: bool, x: int, y: int)
    ensures
        Operator::Add.spec_emit(checked) == (BinaryOperation { operation: SolBinaryOperation::Add, checked }),
        Operator::Increment.spec_emit(checked) == (BinaryOperation { operation: SolBinaryOperation::Add, checked }),
        Operator::Subtract.spec_emit(checked) == (BinaryOperation {
            operation: SolBinaryOperation::Subtract,
            checked,
        }),
        Operator::Decrement.spec_emit(checked) == (BinaryOperation {
            operation: SolBinaryOperation::Subtract,
            checked,
        }),
        Operator::Multiply.spec_emit(checked) == (BinaryOperation {
            operation: SolBinaryOperation::Multiply,
            checked,
        }),
        Operator::Divide.spec_emit(checked) == (BinaryOperation { operation: SolBinaryOperation::Divide, checked }),
        Operator::Exponentiation.spec_emit(checked) == (BinaryOperation {
            operation: SolBinaryOperation::Exponentiate,
            checked,
        }),
        Operator::Remainder.spec_emit(checked) == (BinaryOperation {
            operation: SolBinaryOperation::Remainder,
            checked: false,
        }),
        Operator::BitwiseAnd.spec_emit(checked) == (BinaryOperation {
            operation: SolBinaryOperation::BitAnd,
            checked: false,
        }),
        Operator::BitwiseOr.spec_emit(checked) == (BinaryOperation {
            operation: SolBinaryOperation::BitOr,
            checked: false,
        }),
        Operator::BitwiseXor.spec_emit(checked) == (BinaryOperation {
            operation: SolBinaryOperation::BitXor,
            checked: false,
        }),
        Operator::ShiftLeft.spec_emit(checked) == (BinaryOperation {
            operation: SolBinaryOperation::ShiftLeft,
            checked: false,
        }),
        Operator::ShiftRight.spec_emit(checked) == (BinaryOperation {
            operation: SolBinaryOperation::ShiftRight,
            checked: false,
        }),
        exact_value(Operator::Add.spec_emit(checked).operation, x, y) == x + y,
        exact_value(Operator::Subtract.spec_emit(checked).operation, x, y) == x - y,
        exact_value(Operator::Multiply.spec_emit(checked).operation, x, y) == x * y,
        exact_value(Operator::Divide.spec_emit(checked).operation, x, y) == truncated_quotient(x, y),
        exact_value(Operator::Remainder.spec_emit(checked).operation, x, y) == x - y * truncated_quotient(x, y),
        exact_value(Operator::Exponentiation.spec_emit(checked).operation, x, y) == pow(x, y as nat),
{
}

/// The truncated quotient of two non-negative integers is their floor quotient, its
/// remainder lies in `[0, y)`, and negating one operand negates the quotient.
pub proof fn lemma_truncated_division(x: int, y: int)
    requires
        y != 0,
    ensures
        x >= 0 && y > 0 ==> truncated_quotient(x, y) == x / y,
        x >= 0 && y > 0 ==> 0 <= x - y * truncated_quotient(x, y) < y,
        truncated_quotient(-x, y) == -truncated_quotient(x, y),
        truncated_quotient(x, -y) == -truncated_quotient(x, y),
{
    assert(abs(-x) == abs(x));
    assert(abs(-y) == abs(y));
    if x >= 0 && y > 0 {
        assert(x - y * (x / y) == x % y) by (nonlinear_arith)
            requires
                y > 0,
        ;
    }
    if x == 0 {
        assert(abs(x) / abs(y) == 0) by (nonlinear_arith)
            requires
                x == 0,
                abs(y) > 0,
        ;
    }
}

} // verus!
