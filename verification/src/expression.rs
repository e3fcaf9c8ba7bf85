//! Dispatch of an expression to its lowering.

use vstd::prelude::*;

use crate::conditional::{ConditionalExpression, ConditionalPlan, spec_is_conditional_plan};
use crate::mlir_type::{MlirType, TypeView};
use crate::operator::{BinaryOperation, CmpPredicate, Operator, SolBinaryOperation, exact_value, fits, wrap};
use crate::slang_type::SlangType;
use crate::type_conversion::{resolvable, spec_resolve, TypeConversion};

verus! {

/// `+` / `-` of an additive expression.
#[derive(Debug, Clone, Copy, PartialEq, Eq, Structural)]
pub enum AdditiveOperator {
    Plus,
    Minus,
}

/// `*` / `%` / `/` of a multiplicative expression.
#[derive(Debug, Clone, Copy, PartialEq, Eq, Structural)]
pub enum MultiplicativeOperator {
    Asterisk,
    Percent,
    Slash,
}

/// `!=` / `==` of an equality expression.
#[derive(Debug, Clone, Copy, PartialEq, Eq, Structural)]
pub enum EqualityOperator {
    BangEqual,
    EqualEqual,
}

/// `>` / `>=` / `<` / `<=` of an inequality expression.
#[derive(Debug, Clone, Copy, PartialEq, Eq, Structural)]
pub enum InequalityOperator {
    GreaterThan,
    GreaterThanEqual,
    LessThan,
    LessThanEqual,
}

/// `--` / `++` after an operand.
#[derive(Debug, Clone, Copy, PartialEq, Eq, Structural)]
pub enum PostfixOperator {
    MinusMinus,
    PlusPlus,
}

/// `!` / `delete` / `-` / `--` / `++` / `~` before an operand.
#[derive(Debug, Clone, Copy, PartialEq, Eq, Structural)]
pub enum PrefixOperator {
    Bang,
    DeleteKeyword,
    Minus,
    MinusMinus,
    PlusPlus,
    Tilde,
}

/// `>>` / `>>>` / `<<` of a shift expression.
#[derive(Debug, Clone, Copy, PartialEq, Eq, Structural)]
pub enum ShiftOperator {
    GreaterThanGreaterThan,
    GreaterThanGreaterThanGreaterThan,
    LessThanLessThan,
}

/// What an identifier resolves to.
#[derive(Debug, Clone, Copy, PartialEq, Eq, Structural)]
pub enum IdentifierBinding {
    /// A state variable; whether it has a storage slot and whether its type is resolved.
    StateVariable { registered: bool, typed: bool },
    /// A local variable or a parameter.
    Local,
    /// A file- or contract-level constant; whether it has an initializer.
    Constant { has_initializer: bool },
    /// Nothing: the binder could not resolve the name.
    Unresolved,
    /// Any other definition (a function, a contract, ...).
    Other,
}

/// The result type of an array literal.
#[derive(Debug, Clone, Copy, PartialEq, Eq, Structural)]
pub enum ArrayLiteralType {
    /// `T[n]`.
    FixedSize,
    /// `T[]`.
    Dynamic,
    /// Anything else.
    Other,
}

/// The shape of an expression, with the facts its lowering reads.
#[derive(Debug, Clone, Copy, PartialEq, Eq, Structural)]
pub enum ExpressionShape {
    /// A decimal number; whether it evaluates to an integer once units apply.
    DecimalNumber { integer_valued: bool },
    /// A hexadecimal number.
    HexNumber,
    /// `true`.
    TrueKeyword,
    /// `false`.
    FalseKeyword,
    /// `this`.
    ThisKeyword,
    /// A string literal.
    StringLiteral,
    /// A name.
    Identifier(IdentifierBinding),
    /// `a = b`, `a += b`, ...
    Assignment,
    /// `a + b` / `a - b`.
    Additive(AdditiveOperator),
    /// `a * b` / `a % b` / `a / b`.
    Multiplicative(MultiplicativeOperator),
    /// `a ** b`.
    Exponentiation,
    /// `a == b` / `a != b`.
    Equality(EqualityOperator),
    /// `a < b`, ...
    Inequality(InequalityOperator),
    /// `a && b`.
    And,
    /// `a || b`.
    Or,
    /// `a++` / `a--`.
    Postfix(PostfixOperator),
    /// `!a`, `-a`, `++a`, ...
    Prefix(PrefixOperator),
    /// `a & b`.
    BitwiseAnd,
    /// `a | b`.
    BitwiseOr,
    /// `a ^ b`.
    BitwiseXor,
    /// `a << b`, `a >> b`, `a >>> b`.
    Shift(ShiftOperator),
    /// `f(...)`.
    FunctionCall,
    /// `(a, b, ...)`; the number of items and whether the first item is present.
    Tuple { item_count: usize, first_present: bool },
    /// `c ? a : b`.
    Conditional,
    /// `[a, b, ...]` with its result type.
    ArrayLiteral(ArrayLiteralType),
    /// `x.m`; whether `x` is a struct.
    MemberAccess { struct_base: bool },
    /// `a[i]`.
    IndexAccess,
    /// Any other expression.
    Other,
}

/// How an expression lowers.
#[derive(Debug, Clone, Copy, PartialEq, Eq, Structural)]
pub enum Lowering {
    /// A `sol.constant` of the literal's integer value at its type.
    IntegerConstant,
    /// A boolean `sol.constant`.
    BooleanConstant(bool),
    /// `sol.this` of the current contract.
    This,
    /// A string literal value.
    StringLiteral,
    /// `sol.addr_of` of the state variable's slot, then `sol.load`.
    StateVariableLoad,
    /// `sol.load` from the variable's stack slot.
    StackLoad,
    /// The constant's initializer, lowered in its place.
    ConstantInitializer,
    /// An assignment.
    Assignment,
    /// A binary operation: the operator and the operation it emits, checked or not as
    /// the context asks.
    Binary(Operator, BinaryOperation),
    /// A `sol.cmp` with the predicate.
    Comparison(CmpPredicate),
    /// Short-circuit `&&`.
    And,
    /// Short-circuit `||`.
    Or,
    /// A postfix step, yielding the old value: the operator and the operation that
    /// computes the new value.
    Postfix(Operator, BinaryOperation),
    /// A prefix operator, with the binary operation it emits when it is arithmetic
    /// (`-a`, `++a`, `--a`).
    Prefix(Operator, Option<BinaryOperation>),
    /// A function call.
    Call,
    /// The single item of a parenthesized expression.
    Parenthesized,
    /// A conditional expression.
    Conditional,
    /// An array literal.
    ArrayLiteral,
    /// A struct field read (`sol.gep`, then `sol.load`).
    StructField,
    /// A built-in member access (`msg.sender`, `a.length`, ...).
    BuiltInMember,
    /// An index access.
    IndexAccess,
}

/// Why an expression cannot be lowered.
#[derive(Debug, Clone, Copy, PartialEq, Eq, Structural)]
pub enum LoweringError {
    /// A decimal literal that is not an integer after its units apply.
    DecimalNotInteger,
    /// `this` outside a contract.
    ThisOutsideContract,
    /// A state variable with no storage slot.
    UnregisteredStateVariable,
    /// A state variable whose type is not resolved.
    UnresolvedStateVariableType,
    /// A constant without an initializer.
    ConstantWithoutInitializer,
    /// A name the binder did not resolve.
    UnresolvedIdentifier,
    /// A name that resolves to a definition that is not a value.
    UnsupportedIdentifier,
    /// A tuple of other than one item.
    MultiValueTuple,
    /// A tuple whose single item is empty.
    EmptyTupleElement,
    /// An array literal that is not typed as an array.
    UnexpectedArrayLiteralType,
    /// An expression the lowering does not support.
    UnsupportedExpression,
    /// An expression that produced no value where one is required.
    NoValue,
}

/// Lowers expressions; the facts about the lowering state that its choices read.
#[derive(Debug, Clone, Copy, PartialEq, Eq, Structural)]
pub struct ExpressionEmitter {
    /// Whether a contract is being lowered (so `this` has a type).
    pub in_contract: bool,
    /// Whether arithmetic uses the checked variants: `true` by default, `false` inside
    /// `unchecked {}` blocks and for-loop step expressions.
    pub checked: bool,
}

/// The operator an additive expression lowers with.
pub open spec fn spec_additive(operator: AdditiveOperator) -> Operator {
    match operator {
        AdditiveOperator::Plus => Operator::Add,
        AdditiveOperator::Minus => Operator::Subtract,
    }
}

/// The operator a multiplicative expression lowers with.
pub open spec fn spec_multiplicative(operator: MultiplicativeOperator) -> Operator {
    match operator {
        MultiplicativeOperator::Asterisk => Operator::Multiply,
        MultiplicativeOperator::Percent => Operator::Remainder,
        MultiplicativeOperator::Slash => Operator::Divide,
    }
}

/// The predicate an equality expression compares with.
pub open spec fn spec_equality(operator: EqualityOperator) -> CmpPredicate {
    match operator {
        EqualityOperator::BangEqual => CmpPredicate::Ne,
        EqualityOperator::EqualEqual => CmpPredicate::Eq,
    }
}

/// The predicate an inequality expression compares with.
pub open spec fn spec_inequality(operator: InequalityOperator) -> CmpPredicate {
    match operator {
        InequalityOperator::GreaterThan => CmpPredicate::Gt,
        InequalityOperator::GreaterThanEqual => CmpPredicate::Ge,
        InequalityOperator::LessThan => CmpPredicate::Lt,
        InequalityOperator::LessThanEqual => CmpPredicate::Le,
    }
}

/// The step operator of a postfix expression.
pub open spec fn spec_postfix(operator: PostfixOperator) -> Operator {
    match operator {
        PostfixOperator::MinusMinus => Operator::Decrement,
        PostfixOperator::PlusPlus => Operator::Increment,
    }
}

/// The operator of a prefix expression.
pub open spec fn spec_prefix(operator: PrefixOperator) -> Operator {
    match operator {
        PrefixOperator::Bang => Operator::Not,
        PrefixOperator::DeleteKeyword => Operator::Delete,
        PrefixOperator::Minus => Operator::Subtract,
        PrefixOperator::MinusMinus => Operator::Decrement,
        PrefixOperator::PlusPlus => Operator::Increment,
        PrefixOperator::Tilde => Operator::BitwiseNot,
    }
}

/// The operator of a shift expression: both right shifts lower to `sol.shr`.
pub open spec fn spec_shift(operator: ShiftOperator) -> Operator {
    match operator {
        ShiftOperator::GreaterThanGreaterThan => Operator::ShiftRight,
        ShiftOperator::GreaterThanGreaterThanGreaterThan => Operator::ShiftRight,
        ShiftOperator::LessThanLessThan => Operator::ShiftLeft,
    }
}

/// How an identifier lowers.
pub open spec fn spec_identifier(binding: IdentifierBinding) -> Result<Lowering, LoweringError> {
    match binding {
        IdentifierBinding::StateVariable { registered, typed } => if !registered {
            Err(LoweringError::UnregisteredStateVariable)
        } else if !typed {
            Err(LoweringError::UnresolvedStateVariableType)
        } else {
            Ok(Lowering::StateVariableLoad)
        },
        IdentifierBinding::Local => Ok(Lowering::StackLoad),
        IdentifierBinding::Constant { has_initializer } => if has_initializer {
            Ok(Lowering::ConstantInitializer)
        } else {
            Err(LoweringError::ConstantWithoutInitializer)
        },
        IdentifierBinding::Unresolved => Err(LoweringError::UnresolvedIdentifier),
        IdentifierBinding::Other => Err(LoweringError::UnsupportedIdentifier),
    }
}

/// The lowering of a binary operator in a checked or unchecked context.
pub open spec fn spec_binary(operator: Operator, checked: bool) -> Lowering {
    Lowering::Binary(operator, operator.spec_emit(checked))
}

/// The lowering of a prefix operator in a checked or unchecked context.
pub open spec fn spec_prefix_lowering(operator: Operator, checked: bool) -> Lowering {
    Lowering::Prefix(
        operator,
        if operator.spec_is_binary() {
            Some(operator.spec_emit(checked))
        } else {
            None
        },
    )
}

/// How an expression lowers, given whether a contract is being lowered and whether
/// arithmetic is checked.
pub open spec fn spec_emit(in_contract: bool, checked: bool, shape: ExpressionShape) -> Result<Lowering, LoweringError> {
    match shape {
        ExpressionShape::DecimalNumber { integer_valued } => if integer_valued {
            Ok(Lowering::IntegerConstant)
        } else {
            Err(LoweringError::DecimalNotInteger)
        },
        ExpressionShape::HexNumber => Ok(Lowering::IntegerConstant),
        ExpressionShape::TrueKeyword => Ok(Lowering::BooleanConstant(true)),
        ExpressionShape::FalseKeyword => Ok(Lowering::BooleanConstant(false)),
        ExpressionShape::ThisKeyword => if in_contract {
            Ok(Lowering::This)
        } else {
            Err(LoweringError::ThisOutsideContract)
        },
        ExpressionShape::StringLiteral => Ok(Lowering::StringLiteral),
        ExpressionShape::Identifier(binding) => spec_identifier(binding),
        ExpressionShape::Assignment => Ok(Lowering::Assignment),
        ExpressionShape::Additive(operator) => Ok(spec_binary(spec_additive(operator), checked)),
        ExpressionShape::Multiplicative(operator) => Ok(
            spec_binary(spec_multiplicative(operator), checked),
        ),
        ExpressionShape::Exponentiation => Ok(spec_binary(Operator::Exponentiation, checked)),
        ExpressionShape::Equality(operator) => Ok(Lowering::Comparison(spec_equality(operator))),
        ExpressionShape::Inequality(operator) => Ok(
            Lowering::Comparison(spec_inequality(operator)),
        ),
        ExpressionShape::And => Ok(Lowering::And),
        ExpressionShape::Or => Ok(Lowering::Or),
        ExpressionShape::Postfix(operator) => Ok(
            Lowering::Postfix(spec_postfix(operator), spec_postfix(operator).spec_emit(checked)),
        ),
        ExpressionShape::Prefix(operator) => Ok(spec_prefix_lowering(spec_prefix(operator), checked)),
        ExpressionShape::BitwiseAnd => Ok(spec_binary(Operator::BitwiseAnd, checked)),
        ExpressionShape::BitwiseOr => Ok(spec_binary(Operator::BitwiseOr, checked)),
        ExpressionShape::BitwiseXor => Ok(spec_binary(Operator::BitwiseXor, checked)),
        ExpressionShape::Shift(operator) => Ok(spec_binary(spec_shift(operator), checked)),
        ExpressionShape::FunctionCall => Ok(Lowering::Call),
        ExpressionShape::Tuple { item_count, first_present } => if item_count != 1 {
            Err(LoweringError::MultiValueTuple)
        } else if !first_present {
            Err(LoweringError::EmptyTupleElement)
        } else {
            Ok(Lowering::Parenthesized)
        },
        ExpressionShape::Conditional => Ok(Lowering::Conditional),
        ExpressionShape::ArrayLiteral(result_type) => match result_type {
            ArrayLiteralType::Other => Err(LoweringError::UnexpectedArrayLiteralType),
            _ => Ok(Lowering::ArrayLiteral),
        },
        ExpressionShape::MemberAccess { struct_base } => if struct_base {
            Ok(Lowering::StructField)
        } else {
            Ok(Lowering::BuiltInMember)
        },
        ExpressionShape::IndexAccess => Ok(Lowering::IndexAccess),
        ExpressionShape::Other => Err(LoweringError::UnsupportedExpression),
    }
}

/// How a name resolving to a constant lowers: as its initializer.
pub open spec fn spec_constant_identifier(
    in_contract: bool,
    checked: bool,
    initializer: Option<ExpressionShape>,
) -> Result<Lowering, LoweringError> {
    match initializer {
        Some(shape) => spec_emit(in_contract, checked, shape),
        None => Err(LoweringError::ConstantWithoutInitializer),
    }
}

/// A constant lowers exactly like its initializer, in every context, and fails only
/// when it has none.
pub proof fn lemma_constant_lowers_as_initializer(
    in_contract: bool,
    checked: bool,
    initializer: ExpressionShape,
)
    ensures
        spec_constant_identifier(in_contract, checked, Some(initializer)) == spec_emit(
            in_contract,
            checked,
            initializer,
        ),
        spec_constant_identifier(in_contract, checked, None) == Err::<Lowering, LoweringError>(
            LoweringError::ConstantWithoutInitializer,
        ),
{
}

impl ExpressionEmitter {
    /// Creates an emitter for a lowering state.
    pub fn new(in_contract: bool, checked: bool) -> (result: ExpressionEmitter)
        ensures
            result.in_contract == in_contract,
            result.checked == checked,
    {
        ExpressionEmitter { in_contract, checked }
    }

    /// Chooses how an expression lowers: literals become constants, names load from
    /// their slot, binary syntax maps to its operator or comparison predicate, with the
    /// reverting arithmetic variants when the emitter is checked (see
    /// [`lemma_emit_checked_arithmetic`]), a conditional as in [`Self::emit_conditional`],
    /// and a parenthesized single item lowers as the item. Fails on a non-integer decimal,
    /// `this` outside a contract, an unusable name, a multi-value or empty tuple, a
    /// mistyped array literal, and unsupported expressions.
    pub fn emit(&self, shape: ExpressionShape) -> (result: Result<Lowering, LoweringError>)
        ensures
            result == spec_emit(self.in_contract, self.checked, shape),
    {
        match shape {
            ExpressionShape::DecimalNumber { integer_valued } => {
                if integer_valued {
                    Ok(Lowering::IntegerConstant)
                } else {
                    Err(LoweringError::DecimalNotInteger)
                }
            },
            ExpressionShape::HexNumber => Ok(Lowering::IntegerConstant),
            ExpressionShape::TrueKeyword => Ok(Lowering::BooleanConstant(true)),
            ExpressionShape::FalseKeyword => Ok(Lowering::BooleanConstant(false)),
            ExpressionShape::ThisKeyword => {
                if self.in_contract {
                    Ok(Lowering::This)
                } else {
                    Err(LoweringError::ThisOutsideContract)
                }
            },
            ExpressionShape::StringLiteral => Ok(Lowering::StringLiteral),
            ExpressionShape::Identifier(binding) => Self::emit_identifier(binding),
            ExpressionShape::Assignment => Ok(Lowering::Assignment),
            ExpressionShape::Additive(operator) => {
                let operator = match operator {
                    AdditiveOperator::Plus => Operator::Add,
                    AdditiveOperator::Minus => Operator::Subtract,
                };
                Ok(Lowering::Binary(operator, operator.emit(self.checked)))
            },
            ExpressionShape::Multiplicative(operator) => {
                let operator = match operator {
                    MultiplicativeOperator::Asterisk => Operator::Multiply,
                    MultiplicativeOperator::Percent => Operator::Remainder,
                    MultiplicativeOperator::Slash => Operator::Divide,
                };
                Ok(Lowering::Binary(operator, operator.emit(self.checked)))
            },
            ExpressionShape::Exponentiation => Ok(
                Lowering::Binary(Operator::Exponentiation, Operator::Exponentiation.emit(self.checked)),
            ),
            ExpressionShape::Equality(operator) => {
                let predicate = match operator {
                    EqualityOperator::BangEqual => CmpPredicate::Ne,
                    EqualityOperator::EqualEqual => CmpPredicate::Eq,
                };
                Ok(Lowering::Comparison(predicate))
            },
            ExpressionShape::Inequality(operator) => {
                let predicate = match operator {
                    InequalityOperator::GreaterThan => CmpPredicate::Gt,
                    InequalityOperator::GreaterThanEqual => CmpPredicate::Ge,
                    InequalityOperator::LessThan => CmpPredicate::Lt,
                    InequalityOperator::LessThanEqual => CmpPredicate::Le,
                };
                Ok(Lowering::Comparison(predicate))
            },
            ExpressionShape::And => Ok(Lowering::And),
            ExpressionShape::Or => Ok(Lowering::Or),
            ExpressionShape::Postfix(operator) => {
                let operator = match operator {
                    PostfixOperator::MinusMinus => Operator::Decrement,
                    PostfixOperator::PlusPlus => Operator::Increment,
                };
                Ok(Lowering::Postfix(operator, operator.emit(self.checked)))
            },
            ExpressionShape::Prefix(operator) => {
                let operator = match operator {
                    PrefixOperator::Bang => Operator::Not,
                    PrefixOperator::DeleteKeyword => Operator::Delete,
                    PrefixOperator::Minus => Operator::Subtract,
                    PrefixOperator::MinusMinus => Operator::Decrement,
                    PrefixOperator::PlusPlus => Operator::Increment,
                    PrefixOperator::Tilde => Operator::BitwiseNot,
                };
                let operation = if operator.is_binary() {
                    Some(operator.emit(self.checked))
                } else {
                    None
                };
                Ok(Lowering::Prefix(operator, operation))
            },
            ExpressionShape::BitwiseAnd => Ok(
                Lowering::Binary(Operator::BitwiseAnd, Operator::BitwiseAnd.emit(self.checked)),
            ),
            ExpressionShape::BitwiseOr => Ok(
                Lowering::Binary(Operator::BitwiseOr, Operator::BitwiseOr.emit(self.checked)),
            ),
            ExpressionShape::BitwiseXor => Ok(
                Lowering::Binary(Operator::BitwiseXor, Operator::BitwiseXor.emit(self.checked)),
            ),
            ExpressionShape::Shift(operator) => {
                let operator = match operator {
                    ShiftOperator::GreaterThanGreaterThan => Operator::ShiftRight,
                    ShiftOperator::GreaterThanGreaterThanGreaterThan => Operator::ShiftRight,
                    ShiftOperator::LessThanLessThan => Operator::ShiftLeft,
                };
                Ok(Lowering::Binary(operator, operator.emit(self.checked)))
            },
            ExpressionShape::FunctionCall => Ok(Lowering::Call),
            ExpressionShape::Tuple { item_count, first_present } => {
                if item_count != 1 {
                    Err(LoweringError::MultiValueTuple)
                } else if !first_present {
                    Err(LoweringError::EmptyTupleElement)
                } else {
                    Ok(Lowering::Parenthesized)
                }
            },
            ExpressionShape::Conditional => Ok(Lowering::Conditional),
            ExpressionShape::ArrayLiteral(result_type) => match result_type {
                ArrayLiteralType::Other => Err(LoweringError::UnexpectedArrayLiteralType),
                _ => Ok(Lowering::ArrayLiteral),
            },
            ExpressionShape::MemberAccess { struct_base } => {
                if struct_base {
                    Ok(Lowering::StructField)
                } else {
                    Ok(Lowering::BuiltInMember)
                }
            },
            ExpressionShape::IndexAccess => Ok(Lowering::IndexAccess),
            ExpressionShape::Other => Err(LoweringError::UnsupportedExpression),
        }
    }

    /// Chooses how a name lowers: a registered, typed state variable loads from its
    /// slot, a local or parameter from its stack slot, and a constant lowers as its
    /// initializer.
    pub fn emit_identifier(binding: IdentifierBinding) -> (result: Result<Lowering, LoweringError>)
        ensures
            result == spec_identifier(binding),
    {
        match binding {
            IdentifierBinding::StateVariable { registered, typed } => {
                if !registered {
                    Err(LoweringError::UnregisteredStateVariable)
                } else if !typed {
                    Err(LoweringError::UnresolvedStateVariableType)
                } else {
                    Ok(Lowering::StateVariableLoad)
                }
            },
            IdentifierBinding::Local => Ok(Lowering::StackLoad),
            IdentifierBinding::Constant { has_initializer } => {
                if has_initializer {
                    Ok(Lowering::ConstantInitializer)
                } else {
                    Err(LoweringError::ConstantWithoutInitializer)
                }
            },
            IdentifierBinding::Unresolved => Err(LoweringError::UnresolvedIdentifier),
            IdentifierBinding::Other => Err(LoweringError::UnsupportedIdentifier),
        }
    }

    /// Lowers an expression whose value is required: as [`Self::emit`], failing with
    /// [`LoweringError::NoValue`] when the lowering produced no value (`produced_value`,
    /// false for a call of a function that returns nothing).
    pub fn emit_value(&self, shape: ExpressionShape, produced_value: bool) -> (result: Result<Lowering, LoweringError>)
        ensures
            result == match spec_emit(self.in_contract, self.checked, shape) {
                Ok(lowering) => if produced_value {
                    Ok(lowering)
                } else {
                    Err(LoweringError::NoValue)
                },
                Err(error) => Err(error),
            },
    {
        let lowering = self.emit(shape)?;
        if produced_value {
            Ok(lowering)
        } else {
            Err(LoweringError::NoValue)
        }
    }

    /// Lowers a name that resolves to a constant: the constant's initializer expression
    /// lowers in its place, exactly as the initializer would on its own; a constant
    /// without an initializer is an error.
    pub fn emit_constant_identifier(&self, initializer: Option<ExpressionShape>) -> (result: Result<Lowering, LoweringError>)
        ensures
            result == spec_constant_identifier(self.in_contract, self.checked, initializer),
    {
        match initializer {
            Some(shape) => self.emit(shape),
            None => Err(LoweringError::ConstantWithoutInitializer),
        }
    }

    /// The Sol dialect type of a binder type, when the binder typed the node.
    pub fn resolve_slang_type(slang_type: Option<&SlangType>) -> (result: Option<MlirType>)
        requires
            slang_type matches Some(t) ==> resolvable(*t, None),
        ensures
            match (result, slang_type) {
                (Some(r), Some(t)) => r@ == spec_resolve(*t, None),
                (None, None) => true,
                _ => false,
            },
    {
        match slang_type {
            Some(t) => Some(TypeConversion::resolve_slang_type(t, None)),
            None => None,
        }
    }

    /// Lowers a conditional expression that is not tuple-typed: one result slot of its
    /// resolved type (`ui256` when the binder left it untyped), holding the true branch
    /// converted to that type when the condition is non-zero and the false branch
    /// otherwise (see [`lemma_conditional_semantics`]).
    pub fn emit_conditional(&self, resolved: Option<MlirType>) -> (result: ConditionalPlan)
        ensures
            result.slot_types@.len() == 1,
            spec_is_conditional_plan(result, result.slot_types@),
            result.slot_types@[0]@ == match resolved {
                Some(t) => t@,
                None => TypeView::Unsigned(256),
            },
    {
        let result_type = Self::conditional_result_type(resolved);
        let mut slot_types: Vec<MlirType> = Vec::new();
        slot_types.push(result_type);
        ConditionalExpression::emit(slot_types)
    }

    /// The result type of a conditional expression: its resolved type, or `ui256` when
    /// the binder left it untyped.
    pub fn conditional_result_type(resolved: Option<MlirType>) -> (result: MlirType)
        ensures
            result@ == match resolved {
                Some(t) => t@,
                None => TypeView::Unsigned(256),
            },
    {
        match resolved {
            Some(t) => t,
            None => MlirType::ui256(),
        }
    }
}

/// Every comparison syntax lowers to a comparison, and each predicate has exactly one
/// syntax: the six comparison operators map one to one onto the six predicates.
pub proof fn lemma_comparisons_distinct(
    a: ExpressionShape,
    b: ExpressionShape,
    in_contract: bool,
    checked: bool,
)
    requires
        a is Equality || a is Inequality,
        b is Equality || b is Inequality,
        spec_emit(in_contract, checked, a) == spec_emit(in_contract, checked, b),
    ensures
        a == b,
{
}

/// Only `this` depends on being inside a contract.
pub proof fn lemma_emit_contract_independent(shape: ExpressionShape, checked: bool)
    ensures
        !(shape is ThisKeyword) ==> spec_emit(true, checked, shape) == spec_emit(false, checked, shape),
{
}

/// Whether an expression is `a + b`, `a - b`, `a * b`, `a / b` or `a ** b`.
pub open spec fn is_checked_arithmetic(shape: ExpressionShape) -> bool {
    match shape {
        ExpressionShape::Additive(_) | ExpressionShape::Exponentiation => true,
        ExpressionShape::Multiplicative(operator) => operator != MultiplicativeOperator::Percent,
        _ => false,
    }
}

/// Arithmetic expressions follow the emitter's `checked` flag: `a op b` for `op` among
/// `+ - * / **` lowers to an operation whose exact result, when it does not fit the
/// `bits`-bit type, reverts when the emitter is checked and wraps modulo `2^bits` when it
/// is not; `a % b` never reverts on a non-zero divisor; and only arithmetic expressions
/// depend on the flag.
pub proof fn lemma_emit_checked_arithmetic(
    emitter: ExpressionEmitter,
    shape: ExpressionShape,
    bits: nat,
    signed: bool,
    x: int,
    y: int,
)
    requires
        shape is Additive || shape is Multiplicative || shape is Exponentiation,
        shape matches ExpressionShape::Multiplicative(operator) && operator != MultiplicativeOperator::Asterisk
            ==> y != 0,
    ensures
        spec_emit(emitter.in_contract, emitter.checked, shape) matches Ok(
            Lowering::Binary(_, operation),
        ) && ({
            let value = exact_value(operation.operation, x, y);
            &&& operation.checked == (emitter.checked && is_checked_arithmetic(shape))
            &&& fits(value, bits, signed) ==> operation.outcome(bits, signed, x, y) == Some(value)
            &&& !fits(value, bits, signed) ==> (operation.outcome(bits, signed, x, y) == if emitter.checked
                && is_checked_arithmetic(shape) {
                None
            } else {
                Some(wrap(value, bits, signed))
            })
        }),
{
    let operator = match shape {
        ExpressionShape::Additive(o) => spec_additive(o),
        ExpressionShape::Multiplicative(o) => spec_multiplicative(o),
        _ => Operator::Exponentiation,
    };
    crate::operator::lemma_checked_reverts_unchecked_wraps(operator, emitter.checked, bits, signed, x, y);
}

/// Only arithmetic and step expressions read the `checked` flag: every other expression
/// lowers the same in checked and unchecked contexts.
pub proof fn lemma_emit_checked_only_arithmetic(in_contract: bool, shape: ExpressionShape)
    requires
        !(shape is Additive || shape is Multiplicative || shape is Exponentiation
            || shape is Postfix || shape is Prefix),
    ensures
        spec_emit(in_contract, true, shape) == spec_emit(in_contract, false, shape),
{
}

/// Each comparison syntax lowers to the predicate of the same name, in every context:
/// `==` to `Eq`, `!=` to `Ne`, `>` to `Gt`, `>=` to `Ge`, `<` to `Lt`, `<=` to `Le`.
pub proof fn lemma_comparison_predicates(in_contract: bool, checked: bool)
    ensures
        spec_emit(in_contract, checked, ExpressionShape::Equality(EqualityOperator::EqualEqual)) == Ok::<Lowering, LoweringError>(Lowering::Comparison(CmpPredicate::Eq)),
        spec_emit(in_contract, checked, ExpressionShape::Equality(EqualityOperator::BangEqual)) == Ok::<Lowering, LoweringError>(Lowering::Comparison(CmpPredicate::Ne)),
        spec_emit(in_contract, checked, ExpressionShape::Inequality(InequalityOperator::GreaterThan)) == Ok::<Lowering, LoweringError>(Lowering::Comparison(CmpPredicate::Gt)),
        spec_emit(in_contract, checked, ExpressionShape::Inequality(InequalityOperator::GreaterThanEqual)) == Ok::<Lowering, LoweringError>(Lowering::Comparison(CmpPredicate::Ge)),
        spec_emit(in_contract, checked, ExpressionShape::Inequality(InequalityOperator::LessThan)) == Ok::<Lowering, LoweringError>(Lowering::Comparison(CmpPredicate::Lt)),
        spec_emit(in_contract, checked, ExpressionShape::Inequality(InequalityOperator::LessThanEqual)) == Ok::<Lowering, LoweringError>(Lowering::Comparison(CmpPredicate::Le)),
{
}

/// Each binary syntax lowers to the operator and the operation of its own name, in every
/// context: `+ - * / **` with the checked variant exactly when the emitter is checked,
/// `%`, `& | ^`, `<<` and both right shifts unchecked.
pub proof fn lemma_binary_syntax_operations(in_contract: bool, checked: bool)
    ensures
        spec_emit(in_contract, checked, ExpressionShape::Additive(AdditiveOperator::Plus)) == Ok::<Lowering, LoweringError>(Lowering::Binary(Operator::Add, BinaryOperation { operation: SolBinaryOperation::Add, checked: checked })),
        spec_emit(in_contract, checked, ExpressionShape::Additive(AdditiveOperator::Minus)) == Ok::<Lowering, LoweringError>(Lowering::Binary(Operator::Subtract, BinaryOperation { operation: SolBinaryOperation::Subtract, checked: checked })),
        spec_emit(in_contract, checked, ExpressionShape::Multiplicative(MultiplicativeOperator::Asterisk)) == Ok::<Lowering, LoweringError>(Lowering::Binary(Operator::Multiply, BinaryOperation { operation: SolBinaryOperation::Multiply, checked: checked })),
        spec_emit(in_contract, checked, ExpressionShape::Multiplicative(MultiplicativeOperator::Slash)) == Ok::<Lowering, LoweringError>(Lowering::Binary(Operator::Divide, BinaryOperation { operation: SolBinaryOperation::Divide, checked: checked })),
        spec_emit(in_contract, checked, ExpressionShape::Multiplicative(MultiplicativeOperator::Percent)) == Ok::<Lowering, LoweringError>(Lowering::Binary(Operator::Remainder, BinaryOperation { operation: SolBinaryOperation::Remainder, checked: false })),
        spec_emit(in_contract, checked, ExpressionShape::Exponentiation) == Ok::<Lowering, LoweringError>(Lowering::Binary(Operator::Exponentiation, BinaryOperation { operation: SolBinaryOperation::Exponentiate, checked: checked })),
        spec_emit(in_contract, checked, ExpressionShape::BitwiseAnd) == Ok::<Lowering, LoweringError>(Lowering::Binary(Operator::BitwiseAnd, BinaryOperation { operation: SolBinaryOperation::BitAnd, checked: false })),
        spec_emit(in_contract, checked, ExpressionShape::BitwiseOr) == Ok::<Lowering, LoweringError>(Lowering::Binary(Operator::BitwiseOr, BinaryOperation { operation: SolBinaryOperation::BitOr, checked: false })),
        spec_emit(in_contract, checked, ExpressionShape::BitwiseXor) == Ok::<Lowering, LoweringError>(Lowering::Binary(Operator::BitwiseXor, BinaryOperation { operation: SolBinaryOperation::BitXor, checked: false })),
        spec_emit(in_contract, checked, ExpressionShape::Shift(ShiftOperator::LessThanLessThan)) == Ok::<Lowering, LoweringError>(Lowering::Binary(Operator::ShiftLeft, BinaryOperation { operation: SolBinaryOperation::ShiftLeft, checked: false })),
        spec_emit(in_contract, checked, ExpressionShape::Shift(ShiftOperator::GreaterThanGreaterThan)) == Ok::<Lowering, LoweringError>(Lowering::Binary(Operator::ShiftRight, BinaryOperation { operation: SolBinaryOperation::ShiftRight, checked: false })),
        spec_emit(in_contract, checked, ExpressionShape::Shift(ShiftOperator::GreaterThanGreaterThanGreaterThan)) == Ok::<Lowering, LoweringError>(Lowering::Binary(Operator::ShiftRight, BinaryOperation { operation: SolBinaryOperation::ShiftRight, checked: false })),
{
}

/// Each step and prefix syntax lowers to its operator: `++` adds and `--` subtracts
/// (checked as the emitter is), `-a` subtracts, and `!`, `~` and `delete` emit no binary
/// operation.
pub proof fn lemma_step_and_prefix_operations(in_contract: bool, checked: bool)
    ensures
        spec_emit(in_contract, checked, ExpressionShape::Postfix(PostfixOperator::PlusPlus)) == Ok::<Lowering, LoweringError>(Lowering::Postfix(Operator::Increment, BinaryOperation { operation: SolBinaryOperation::Add, checked })),
        spec_emit(in_contract, checked, ExpressionShape::Postfix(PostfixOperator::MinusMinus)) == Ok::<Lowering, LoweringError>(Lowering::Postfix(Operator::Decrement, BinaryOperation { operation: SolBinaryOperation::Subtract, checked })),
        spec_emit(in_contract, checked, ExpressionShape::Prefix(PrefixOperator::PlusPlus)) == Ok::<Lowering, LoweringError>(Lowering::Prefix(Operator::Increment, Some(BinaryOperation { operation: SolBinaryOperation::Add, checked }))),
        spec_emit(in_contract, checked, ExpressionShape::Prefix(PrefixOperator::MinusMinus)) == Ok::<Lowering, LoweringError>(Lowering::Prefix(Operator::Decrement, Some(BinaryOperation { operation: SolBinaryOperation::Subtract, checked }))),
        spec_emit(in_contract, checked, ExpressionShape::Prefix(PrefixOperator::Minus)) == Ok::<Lowering, LoweringError>(Lowering::Prefix(Operator::Subtract, Some(BinaryOperation { operation: SolBinaryOperation::Subtract, checked }))),
        spec_emit(in_contract, checked, ExpressionShape::Prefix(PrefixOperator::Bang)) == Ok::<Lowering, LoweringError>(Lowering::Prefix(Operator::Not, None)),
        spec_emit(in_contract, checked, ExpressionShape::Prefix(PrefixOperator::Tilde)) == Ok::<Lowering, LoweringError>(Lowering::Prefix(Operator::BitwiseNot, None)),
        spec_emit(in_contract, checked, ExpressionShape::Prefix(PrefixOperator::DeleteKeyword)) == Ok::<Lowering, LoweringError>(Lowering::Prefix(Operator::Delete, None)),
{
}

/// Literals and names lower to what they denote, in every context: `true` and `false`
/// to the boolean constants of that value, numbers to integer constants (a decimal only
/// when it is an integer), `this` to the current contract exactly inside a contract, a
/// local to a load from its stack slot, a registered and typed state variable to a load
/// from its slot, a constant to its initializer, and `a && b` / `a || b` to the
/// short-circuit forms of their own names.
pub proof fn lemma_literals_and_names(in_contract: bool, checked: bool, integer_valued: bool)
    ensures
        spec_emit(in_contract, checked, ExpressionShape::TrueKeyword) == Ok::<Lowering, LoweringError>(
            Lowering::BooleanConstant(true),
        ),
        spec_emit(in_contract, checked, ExpressionShape::FalseKeyword) == Ok::<Lowering, LoweringError>(
            Lowering::BooleanConstant(false),
        ),
        spec_emit(in_contract, checked, ExpressionShape::HexNumber) == Ok::<Lowering, LoweringError>(
            Lowering::IntegerConstant,
        ),
        spec_emit(in_contract, checked, ExpressionShape::DecimalNumber { integer_valued }) is Ok
            <==> integer_valued,
        spec_emit(in_contract, checked, ExpressionShape::ThisKeyword) is Ok <==> in_contract,
        in_contract ==> spec_emit(in_contract, checked, ExpressionShape::ThisKeyword) == Ok::<
            Lowering,
            LoweringError,
        >(Lowering::This),
        spec_emit(in_contract, checked, ExpressionShape::Identifier(IdentifierBinding::Local)) == Ok::<
            Lowering,
            LoweringError,
        >(Lowering::StackLoad),
        spec_emit(
            in_contract,
            checked,
            ExpressionShape::Identifier(IdentifierBinding::StateVariable { registered: true, typed: true }),
        ) == Ok::<Lowering, LoweringError>(Lowering::StateVariableLoad),
        spec_emit(
            in_contract,
            checked,
            ExpressionShape::Identifier(IdentifierBinding::Constant { has_initializer: true }),
        ) == Ok::<Lowering, LoweringError>(Lowering::ConstantInitializer),
        spec_emit(in_contract, checked, ExpressionShape::And) == Ok::<Lowering, LoweringError>(Lowering::And),
        spec_emit(in_contract, checked, ExpressionShape::Or) == Ok::<Lowering, LoweringError>(Lowering::Or),
        spec_emit(in_contract, checked, ExpressionShape::Conditional) == Ok::<Lowering, LoweringError>(
            Lowering::Conditional,
        ),
{
}

} // verus!
