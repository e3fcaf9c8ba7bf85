use solx_slang::call_kind::{CalleeShape, MemberAccessFacts, OperandShape};
use solx_slang::comparison::{ComparisonPlan, NonZeroTest};
use solx_slang::context::ExpressionContext;
use solx_slang::conditional::{BranchShape, ConditionalExpression, ConditionalOperand};
use solx_slang::definition::{Definition, FunctionFacts, FunctionMutability, FunctionVisibility};
use solx_slang::expression::{
    AdditiveOperator, EqualityOperator, ExpressionEmitter, ExpressionShape, IdentifierBinding,
    InequalityOperator, Lowering, LoweringError, MultiplicativeOperator, PostfixOperator, PrefixOperator,
    ShiftOperator,
};
use solx_slang::location::{DataLocation, SlangDataLocation};
use solx_slang::logical::{Branch, ContinuationBlock, LogicalOperator, ShortCircuitPlan};
use solx_slang::mlir_type::MlirType;
use solx_slang::operator::{BinaryOperation, CmpPredicate, Operator, SolBinaryOperation};
use solx_slang::slang_type::SlangType;
use solx_slang::type_conversion::{ConversionStep, TypeConversion};

fn function(selector: Option<u32>) -> FunctionFacts {
    FunctionFacts {
        selector,
        mutability: FunctionMutability::NonPayable,
        visibility: FunctionVisibility::Public,
        in_library: false,
    }
}

#[test]
fn short_circuit_values() {
    assert!(!LogicalOperator::And.short_circuit_value());
    assert!(LogicalOperator::Or.short_circuit_value());
}

#[test]
fn and_evaluates_rhs_in_then_branch() {
    assert_eq!(
        LogicalOperator::And.emit(),
        ShortCircuitPlan { default_value: false, rhs_branch: Branch::Then, continuation: ContinuationBlock::WhereFirstOperandEnded }
    );
    assert_eq!(
        LogicalOperator::Or.emit(),
        ShortCircuitPlan { default_value: true, rhs_branch: Branch::Else, continuation: ContinuationBlock::WhereFirstOperandEnded }
    );
    assert!(LogicalOperator::result_slot_type().same_as(&MlirType::Signless(1)));
}

#[test]
fn short_circuit_plan_computes_the_operator() {
    for operator in [LogicalOperator::And, LogicalOperator::Or] {
        let plan = operator.emit();
        for lhs in [false, true] {
            for rhs in [false, true] {
                let taken = if lhs { Branch::Then } else { Branch::Else };
                let evaluates_rhs = taken == plan.rhs_branch;
                let result = if evaluates_rhs { rhs } else { plan.default_value };
                let expected = match operator {
                    LogicalOperator::And => lhs && rhs,
                    LogicalOperator::Or => lhs || rhs,
                };
                assert_eq!(result, expected);
                assert_eq!(evaluates_rhs, lhs != operator.short_circuit_value());
            }
        }
    }
}

#[test]
fn literals_lower_to_constants() {
    let emitter = ExpressionEmitter::new(true, true);
    assert_eq!(emitter.emit(ExpressionShape::HexNumber), Ok(Lowering::IntegerConstant));
    assert_eq!(emitter.emit(ExpressionShape::TrueKeyword), Ok(Lowering::BooleanConstant(true)));
    assert_eq!(
        emitter.emit(ExpressionShape::DecimalNumber { integer_valued: false }),
        Err(LoweringError::DecimalNotInteger)
    );
}

#[test]
fn this_outside_contract_fails() {
    assert_eq!(
        ExpressionEmitter::new(false, true).emit(ExpressionShape::ThisKeyword),
        Err(LoweringError::ThisOutsideContract)
    );
    assert_eq!(ExpressionEmitter::new(true, false).emit(ExpressionShape::ThisKeyword), Ok(Lowering::This));
}

#[test]
fn identifier_errors() {
    assert_eq!(
        ExpressionEmitter::emit_identifier(IdentifierBinding::StateVariable { registered: false, typed: true }),
        Err(LoweringError::UnregisteredStateVariable)
    );
    assert_eq!(
        ExpressionEmitter::emit_identifier(IdentifierBinding::StateVariable { registered: true, typed: false }),
        Err(LoweringError::UnresolvedStateVariableType)
    );
    assert_eq!(
        ExpressionEmitter::emit_identifier(IdentifierBinding::Constant { has_initializer: false }),
        Err(LoweringError::ConstantWithoutInitializer)
    );
    assert_eq!(ExpressionEmitter::emit_identifier(IdentifierBinding::Unresolved), Err(LoweringError::UnresolvedIdentifier));
    assert_eq!(ExpressionEmitter::emit_identifier(IdentifierBinding::Other), Err(LoweringError::UnsupportedIdentifier));
    assert_eq!(ExpressionEmitter::emit_identifier(IdentifierBinding::Local), Ok(Lowering::StackLoad));
}

#[test]
fn tuples_and_unsupported_expressions() {
    let emitter = ExpressionEmitter::new(true, true);
    assert_eq!(
        emitter.emit(ExpressionShape::Tuple { item_count: 2, first_present: true }),
        Err(LoweringError::MultiValueTuple)
    );
    assert_eq!(
        emitter.emit(ExpressionShape::Tuple { item_count: 1, first_present: false }),
        Err(LoweringError::EmptyTupleElement)
    );
    assert_eq!(
        emitter.emit(ExpressionShape::Tuple { item_count: 1, first_present: true }),
        Ok(Lowering::Parenthesized)
    );
    assert_eq!(emitter.emit(ExpressionShape::Other), Err(LoweringError::UnsupportedExpression));
    assert_eq!(
        emitter.emit(ExpressionShape::ArrayLiteral(solx_slang::expression::ArrayLiteralType::Other)),
        Err(LoweringError::UnexpectedArrayLiteralType)
    );
}

#[test]
fn operators_map_to_binary_operations() {
    let emitter = ExpressionEmitter::new(true, true);
    assert_eq!(
        emitter.emit(ExpressionShape::Additive(AdditiveOperator::Minus)),
        Ok(Lowering::Binary(Operator::Subtract, BinaryOperation { operation: SolBinaryOperation::Subtract, checked: true }))
    );
    assert_eq!(
        emitter.emit(ExpressionShape::Shift(ShiftOperator::GreaterThanGreaterThanGreaterThan)),
        Ok(Lowering::Binary(Operator::ShiftRight, BinaryOperation { operation: SolBinaryOperation::ShiftRight, checked: false }))
    );
    assert_eq!(
        emitter.emit(ExpressionShape::Equality(EqualityOperator::BangEqual)),
        Ok(Lowering::Comparison(CmpPredicate::Ne))
    );
    assert_eq!(
        emitter.emit(ExpressionShape::Inequality(InequalityOperator::LessThanEqual)),
        Ok(Lowering::Comparison(CmpPredicate::Le))
    );
    assert_eq!(emitter.emit(ExpressionShape::Prefix(PrefixOperator::Tilde)), Ok(Lowering::Prefix(Operator::BitwiseNot, None)));
    assert_eq!(
        emitter.emit(ExpressionShape::Prefix(PrefixOperator::Minus)),
        Ok(Lowering::Prefix(Operator::Subtract, Some(BinaryOperation { operation: SolBinaryOperation::Subtract, checked: true })))
    );
    assert_eq!(emitter.emit(ExpressionShape::And), Ok(Lowering::And));
}

#[test]
fn checked_flag_only_reaches_arithmetic() {
    assert_eq!(Operator::Add.emit(true), BinaryOperation { operation: SolBinaryOperation::Add, checked: true });
    assert_eq!(Operator::Increment.emit(false), BinaryOperation { operation: SolBinaryOperation::Add, checked: false });
    assert_eq!(Operator::Remainder.emit(true), BinaryOperation { operation: SolBinaryOperation::Remainder, checked: false });
    assert_eq!(Operator::ShiftLeft.emit(true), BinaryOperation { operation: SolBinaryOperation::ShiftLeft, checked: false });
    assert!(Operator::BitwiseXor.is_binary());
    assert!(!Operator::Not.is_binary());
}

#[test]
fn comparison_of_equal_types_is_direct() {
    let plan = ExpressionContext::emit_comparison(false, &MlirType::Unsigned(8), &MlirType::Unsigned(8));
    assert!(matches!(plan, ComparisonPlan::Direct));
    let plan = ExpressionContext::emit_comparison(true, &MlirType::Unsigned(8), &MlirType::Unsigned(16));
    assert!(matches!(plan, ComparisonPlan::OperatorCall));
}

#[test]
fn comparison_widens_integers() {
    match ExpressionContext::emit_comparison(false, &MlirType::Unsigned(8), &MlirType::Unsigned(16)) {
        ComparisonPlan::Integer(common) => assert!(common.same_as(&MlirType::Unsigned(16))),
        _ => panic!("expected an integer comparison"),
    }
    match ExpressionContext::emit_comparison(false, &MlirType::Signed(8), &MlirType::Unsigned(16)) {
        ComparisonPlan::Integer(common) => assert!(common.same_as(&MlirType::Signed(16))),
        _ => panic!("expected an integer comparison"),
    }
    match ExpressionContext::emit_comparison(false, &MlirType::Unsigned(64), &MlirType::Signed(64)) {
        ComparisonPlan::Integer(common) => assert!(common.same_as(&MlirType::Signed(64))),
        _ => panic!("expected an integer comparison"),
    }
}

#[test]
fn comparison_of_fixed_bytes_takes_the_wider_width() {
    match ExpressionContext::emit_comparison(false, &MlirType::FixedBytes(4), &MlirType::FixedBytes(8)) {
        ComparisonPlan::FixedBytes(width) => assert_eq!(width, 8),
        _ => panic!("expected a fixed-bytes comparison"),
    }
    match ExpressionContext::emit_comparison(false, &MlirType::Byte, &MlirType::Unsigned(8)) {
        ComparisonPlan::FixedBytes(width) => assert_eq!(width, 1),
        _ => panic!("expected a fixed-bytes comparison"),
    }
}

#[test]
fn emitter_comparison_widens_to_uint256() {
    let conversions = ExpressionEmitter::emit_comparison(&MlirType::Unsigned(8), &MlirType::Unsigned(16));
    assert!(conversions.common_type.same_as(&MlirType::Unsigned(256)));
    match conversions.lhs_step {
        ConversionStep::Cast(t) => assert!(t.same_as(&MlirType::Unsigned(256))),
        _ => panic!("expected a cast"),
    }
    let same = ExpressionEmitter::emit_comparison(&MlirType::Signed(32), &MlirType::Signed(32));
    assert!(same.common_type.same_as(&MlirType::Signed(32)));
    assert!(matches!(same.lhs_step, ConversionStep::Keep));
    assert!(matches!(same.rhs_step, ConversionStep::Keep));
}

#[test]
fn nonzero_test_keeps_booleans() {
    assert!(matches!(ExpressionEmitter::emit_is_nonzero(&MlirType::Signless(1)), NonZeroTest::Keep));
    match ExpressionEmitter::emit_is_nonzero(&MlirType::Unsigned(8)) {
        NonZeroTest::CompareWithZero(t) => assert!(t.same_as(&MlirType::Unsigned(8))),
        NonZeroTest::Keep => panic!("expected a comparison"),
    }
}

#[test]
fn conversions_by_target() {
    let to_bool = TypeConversion::from_target_type(MlirType::Signless(1));
    assert!(matches!(to_bool, TypeConversion::Bool));
    assert!(matches!(to_bool.emit(&MlirType::Unsigned(8)), ConversionStep::CompareNonZero));
    assert!(matches!(to_bool.emit(&MlirType::Signless(1)), ConversionStep::Keep));
    let to_address = TypeConversion::from_target_type(MlirType::Address(false));
    assert!(matches!(to_address.emit(&MlirType::Unsigned(160)), ConversionStep::CastThenAddressCast));
    assert!(matches!(to_address.emit(&MlirType::Address(true)), ConversionStep::AddressCast));
    let to_payable = TypeConversion::from_target_type(MlirType::Address(true));
    assert!(to_payable.to_target_type().same_as(&MlirType::Address(true)));
}

#[test]
fn resolve_solidity_types() {
    let uint = SlangType::Integer { bits: 256, signed: false };
    assert!(TypeConversion::resolve_slang_type(&uint, None).same_as(&MlirType::Unsigned(256)));
    let bytes = SlangType::Bytes(SlangDataLocation::CallData);
    assert!(TypeConversion::resolve_slang_type(&bytes, None).same_as(&MlirType::String(DataLocation::CallData)));
    let wrapped = SlangType::UserDefinedValue(Box::new(SlangType::Integer { bits: 8, signed: true }));
    assert!(TypeConversion::resolve_slang_type(&wrapped, None).same_as(&MlirType::Signed(8)));
    assert!(TypeConversion::is_resolvable(&SlangType::String(SlangDataLocation::Inherited), Some(DataLocation::Storage)));
    assert!(!TypeConversion::is_resolvable(&SlangType::String(SlangDataLocation::Inherited), None));
    assert!(!TypeConversion::is_resolvable(&SlangType::Enum(0), None));
    assert!(TypeConversion::resolve_slang_type(&SlangType::Enum(3), None).same_as(&MlirType::Enum(2)));
}

#[test]
fn conditional_result_type_prefers_function_references() {
    let reference = MlirType::FuncRef(vec![], vec![MlirType::Unsigned(8)]);
    let result = ConditionalExpression::result_type(None, Some(reference), Some(MlirType::Unsigned(256)));
    assert!(result.same_as(&MlirType::FuncRef(vec![], vec![MlirType::Unsigned(8)])));
    let resolved = ConditionalExpression::result_type(None, None, Some(MlirType::Signed(16)));
    assert!(resolved.same_as(&MlirType::Signed(16)));
    assert!(ExpressionEmitter::conditional_result_type(None).same_as(&MlirType::Unsigned(256)));
}

#[test]
fn conditional_function_references() {
    let named = CalleeShape::Identifier {
        definition: Some(Definition::Function(function(None))),
        built_in: None,
        function_type: Some(false),
    };
    assert_eq!(ConditionalExpression::function_reference(&named), Some(function(None)));
    let qualified = CalleeShape::MemberAccess(MemberAccessFacts {
        operand: OperandShape::Identifier(Some(Definition::Contract)),
        operand_is_instance: false,
        member_definition: Some(Definition::Function(function(Some(7)))),
        member_built_in: None,
        function_type: Some(true),
        super_redirect: false,
    });
    assert_eq!(ConditionalExpression::function_reference(&qualified), Some(function(Some(7))));
    let local = CalleeShape::Identifier { definition: Some(Definition::Variable), built_in: None, function_type: None };
    assert_eq!(ConditionalExpression::function_reference(&local), None);
}

#[test]
fn conditional_tuple_result_types() {
    let items = || BranchShape::Tuple(vec![Some(SlangType::Boolean), None, Some(SlangType::Address)]);
    let tuple_types = vec![SlangType::Integer { bits: 8, signed: false }];
    let both_tuples = ConditionalExpression::tuple_result_types(&items(), &BranchShape::Tuple(vec![]), &tuple_types);
    assert_eq!(both_tuples.len(), 2);
    assert!(both_tuples[0].same_as(&MlirType::Signless(1)));
    assert!(both_tuples[1].same_as(&MlirType::Address(false)));
    let from_type = ConditionalExpression::tuple_result_types(&items(), &BranchShape::Other, &tuple_types);
    assert_eq!(from_type.len(), 1);
    assert!(from_type[0].same_as(&MlirType::Unsigned(8)));
    let parenthesized_true = BranchShape::Parenthesized(Box::new(BranchShape::Parenthesized(Box::new(items()))));
    let parenthesized_false = BranchShape::Parenthesized(Box::new(BranchShape::Tuple(vec![])));
    let through_parentheses =
        ConditionalExpression::tuple_result_types(&parenthesized_true, &parenthesized_false, &tuple_types);
    assert_eq!(through_parentheses.len(), 2);
    assert!(through_parentheses[1].same_as(&MlirType::Address(false)));
}

#[test]
fn optional_type_resolution() {
    let resolved = ExpressionEmitter::resolve_slang_type(Some(&SlangType::ByteArray(20))).expect("typed");
    assert!(resolved.same_as(&MlirType::FixedBytes(20)));
    assert!(ExpressionEmitter::resolve_slang_type(None).is_none());
}

#[test]
fn unchecked_context_wraps_arithmetic() {
    let checked = ExpressionEmitter::new(true, true);
    let unchecked = ExpressionEmitter::new(true, false);
    assert_eq!(
        checked.emit(ExpressionShape::Multiplicative(MultiplicativeOperator::Asterisk)),
        Ok(Lowering::Binary(Operator::Multiply, BinaryOperation { operation: SolBinaryOperation::Multiply, checked: true }))
    );
    assert_eq!(
        unchecked.emit(ExpressionShape::Multiplicative(MultiplicativeOperator::Asterisk)),
        Ok(Lowering::Binary(Operator::Multiply, BinaryOperation { operation: SolBinaryOperation::Multiply, checked: false }))
    );
    assert_eq!(
        unchecked.emit(ExpressionShape::Postfix(PostfixOperator::PlusPlus)),
        Ok(Lowering::Postfix(Operator::Increment, BinaryOperation { operation: SolBinaryOperation::Add, checked: false }))
    );
    assert_eq!(
        checked.emit(ExpressionShape::Multiplicative(MultiplicativeOperator::Percent)),
        Ok(Lowering::Binary(Operator::Remainder, BinaryOperation { operation: SolBinaryOperation::Remainder, checked: false }))
    );
    assert_eq!(checked.emit(ExpressionShape::And), unchecked.emit(ExpressionShape::And));
}

#[test]
fn constant_lowers_as_initializer() {
    let emitter = ExpressionEmitter::new(false, true);
    assert_eq!(emitter.emit_constant_identifier(Some(ExpressionShape::HexNumber)), Ok(Lowering::IntegerConstant));
    assert_eq!(
        emitter.emit_constant_identifier(Some(ExpressionShape::ThisKeyword)),
        Err(LoweringError::ThisOutsideContract)
    );
    assert_eq!(emitter.emit_constant_identifier(None), Err(LoweringError::ConstantWithoutInitializer));
}

#[test]
fn value_required() {
    let emitter = ExpressionEmitter::new(true, true);
    assert_eq!(emitter.emit_value(ExpressionShape::FunctionCall, true), Ok(Lowering::Call));
    assert_eq!(emitter.emit_value(ExpressionShape::FunctionCall, false), Err(LoweringError::NoValue));
    assert_eq!(emitter.emit_value(ExpressionShape::Other, false), Err(LoweringError::UnsupportedExpression));
}

#[test]
fn conditional_stores_each_branch_in_its_region() {
    let emitter = ExpressionEmitter::new(true, true);
    let plan = emitter.emit_conditional(None);
    assert_eq!(plan.slot_types.len(), 1);
    assert!(plan.slot_types[0].same_as(&MlirType::Unsigned(256)));
    assert_eq!(plan.then_source, ConditionalOperand::TrueBranch);
    assert_eq!(plan.else_source, ConditionalOperand::FalseBranch);
    assert_eq!(plan.continuation, ContinuationBlock::WhereFirstOperandEnded);
    let tuple = ConditionalExpression::emit(vec![MlirType::Signless(1), MlirType::Address(false)]);
    assert_eq!(tuple.slot_types.len(), 2);
    assert!(tuple.slot_types[1].same_as(&MlirType::Address(false)));
}

#[test]
fn short_circuit_continues_after_left_operand() {
    let plan = LogicalOperator::And.emit();
    assert_eq!(plan.continuation, ContinuationBlock::WhereFirstOperandEnded);
    assert_eq!(plan.rhs_branch, Branch::Then);
    assert!(!plan.default_value);
}

#[test]
fn and_or_plans() {
    assert_eq!(ExpressionEmitter::emit_and(), LogicalOperator::And.emit());
    assert_eq!(ExpressionEmitter::emit_or(), LogicalOperator::Or.emit());
    assert!(ExpressionEmitter::emit_or().default_value);
}
