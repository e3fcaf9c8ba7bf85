use solx_slang::built_in::{
    BareCallKind, BareCallOperand, CallPositionBuiltIn, BuiltIn, CallArgumentFacts, EncodeMode, EnvironmentValue,
    IdentifierBuiltInCall, MemberIntrinsic, MemberOperand, OperandRole, OperandSource, SelectorOperand, SelectorSource,
    TransferOperand, UnsupportedMemberAccess,
};
use solx_slang::call_dispatch::{CallError, EmitterCallRoute};
use solx_slang::context::{CallContext, CallEmitter, ExpressionContext};
use solx_slang::call_kind::{
    CallFacts, CallKind, CalleeShape, GuardedExpressionFacts, LibraryVisibility, MemberAccessFacts,
    MemberCallKind, MemberCallLowering, OperandShape, StaticMode, TryCallKind,
};
use solx_slang::call_options::{CallOptionFacts, CallOptions, OptionEmission};
use solx_slang::definition::{
    Definition, FunctionFacts, FunctionMutability, FunctionVisibility, StateVariableFacts,
    StateVariableMutability,
};
use solx_slang::external_call::{ExternalOperand, TryCall, is_static_call_mutability, ordered_by};
use solx_slang::push::PushPlan;
use solx_slang::library_call::{InternalMemberCall, LibraryExternalTarget, ReturnParameter};
use solx_slang::location::{DataLocation, SlangDataLocation};
use solx_slang::member_reference::FunctionSelectorPlan;
use solx_slang::mlir_type::MlirType;
use solx_slang::slang_type::SlangType;
use solx_slang::type_conversion::ConversionStep;

fn function(selector: Option<u32>, mutability: FunctionMutability, in_library: bool) -> FunctionFacts {
    FunctionFacts { selector, mutability, visibility: FunctionVisibility::Public, in_library }
}

fn access(operand: OperandShape, member: Option<Definition>) -> MemberAccessFacts {
    MemberAccessFacts {
        operand,
        operand_is_instance: false,
        member_definition: member,
        member_built_in: None,
        function_type: None,
        super_redirect: false,
    }
}

fn call(callee: CalleeShape, positional_count: Option<usize>) -> CallFacts {
    CallFacts { callee, positional_count, is_type_conversion: false }
}

fn identifier(definition: Option<Definition>) -> CalleeShape {
    CalleeShape::Identifier { definition, built_in: None, function_type: None }
}

#[test]
fn struct_name_builds_a_struct() {
    let kind = CallKind::from_call(&call(identifier(Some(Definition::Struct)), Some(1)));
    assert_eq!(kind, CallKind::StructConstruction);
}

#[test]
fn one_argument_conversion_and_array_cast() {
    let mut conversion = call(identifier(None), Some(1));
    conversion.is_type_conversion = true;
    assert_eq!(CallKind::from_call(&conversion), CallKind::TypeConversion);
    let array_cast = call(CalleeShape::IndexAccess { has_start: false, has_end: false, is_slice: false }, Some(1));
    assert_eq!(CallKind::from_call(&array_cast), CallKind::TypeConversion);
    assert!(CallKind::is_array_type_cast_callee(&CalleeShape::IndexAccess {
        has_start: false,
        has_end: false,
        is_slice: false,
    }));
    assert!(!CallKind::is_array_type_cast_callee(&CalleeShape::IndexAccess {
        has_start: true,
        has_end: false,
        is_slice: false,
    }));
}

#[test]
fn function_typed_local_is_a_pointer_call() {
    let callee = CalleeShape::Identifier { definition: Some(Definition::Variable), built_in: None, function_type: Some(false) };
    assert!(CallKind::is_function_pointer_callee(&callee));
    assert_eq!(CallKind::from_call(&call(callee, Some(2))), CallKind::FunctionPointerCall);
    let not_function = CalleeShape::Identifier { definition: Some(Definition::Variable), built_in: None, function_type: None };
    assert!(!CallKind::is_function_pointer_callee(&not_function));
}

#[test]
fn builtins_members_and_new() {
    let keccak = CalleeShape::Identifier { definition: None, built_in: Some(BuiltIn::Keccak256), function_type: None };
    assert_eq!(CallKind::from_call(&call(keccak, Some(1))), CallKind::IdentifierBuiltinCall);
    let mut decode = access(OperandShape::Other, None);
    decode.member_built_in = Some(BuiltIn::AbiDecode);
    assert_eq!(CallKind::from_call(&call(CalleeShape::MemberAccess(decode), Some(2))), CallKind::IdentifierBuiltinCall);
    let mut encode = access(OperandShape::Other, None);
    encode.member_built_in = Some(BuiltIn::AbiEncode);
    assert_eq!(CallKind::from_call(&call(CalleeShape::MemberAccess(encode), Some(2))), CallKind::MemberBuiltinCall);
    assert_eq!(CallKind::from_call(&call(CalleeShape::New, Some(0))), CallKind::NewExpressionCall);
    let f = function(None, FunctionMutability::Pure, false);
    assert_eq!(
        CallKind::from_call(&call(identifier(Some(Definition::Function(f))), Some(0))),
        CallKind::IdentifierFunctionCall(f)
    );
}

#[test]
fn external_member_callee_needs_instance_and_selector() {
    let f = function(Some(0xa9059cbb), FunctionMutability::NonPayable, false);
    let mut member = access(OperandShape::Identifier(Some(Definition::Variable)), Some(Definition::Function(f)));
    member.operand_is_instance = true;
    assert_eq!(CallKind::external_member_callee(&member), Some(Definition::Function(f)));
    assert_eq!(
        CallKind::from_call(&call(CalleeShape::MemberAccess(member), Some(2))),
        CallKind::ExternalMemberCall(Definition::Function(f))
    );
    let internal = function(None, FunctionMutability::NonPayable, false);
    member.member_definition = Some(Definition::Function(internal));
    assert_eq!(CallKind::external_member_callee(&member), None);
    let immutable = StateVariableFacts { selector: Some(1), mutability: StateVariableMutability::Immutable };
    member.member_definition = Some(Definition::StateVariable(immutable));
    assert_eq!(CallKind::external_member_callee(&member), None);
    let getter = StateVariableFacts { selector: Some(1), mutability: StateVariableMutability::Mutable };
    member.member_definition = Some(Definition::StateVariable(getter));
    assert_eq!(CallKind::external_member_callee(&member), Some(Definition::StateVariable(getter)));
}

#[test]
fn member_call_kinds() {
    let external = function(Some(1), FunctionMutability::View, false);
    let library_external = function(Some(2), FunctionMutability::View, true);
    let internal = function(None, FunctionMutability::View, true);
    let this_call = access(OperandShape::This, Some(Definition::Function(external)));
    assert_eq!(MemberCallKind::new(&this_call), MemberCallKind::SelfExternal);
    let super_call = access(OperandShape::Super, Some(Definition::Function(internal)));
    assert_eq!(MemberCallKind::new(&super_call), MemberCallKind::Super);
    let library = access(OperandShape::Identifier(Some(Definition::Library)), Some(Definition::Function(library_external)));
    assert_eq!(MemberCallKind::new(&library), MemberCallKind::Library(LibraryVisibility::External));
    let library_internal = access(OperandShape::Identifier(Some(Definition::Library)), Some(Definition::Function(internal)));
    assert_eq!(MemberCallKind::new(&library_internal), MemberCallKind::Library(LibraryVisibility::Internal));
    let using_for = access(OperandShape::Identifier(Some(Definition::Variable)), Some(Definition::Function(library_external)));
    assert_eq!(MemberCallKind::new(&using_for), MemberCallKind::Library(LibraryVisibility::External));
    let instance = access(OperandShape::Identifier(Some(Definition::Variable)), Some(Definition::Function(external)));
    assert_eq!(MemberCallKind::new(&instance), MemberCallKind::ExternalInstance);
    let variable = StateVariableFacts { selector: Some(3), mutability: StateVariableMutability::Mutable };
    let this_getter = access(OperandShape::This, Some(Definition::StateVariable(variable)));
    assert_eq!(MemberCallKind::new(&this_getter), MemberCallKind::SelfGetter);
    let mut pointer = access(OperandShape::Identifier(Some(Definition::Contract)), Some(Definition::StateVariable(variable)));
    pointer.function_type = Some(false);
    assert_eq!(MemberCallKind::new(&pointer), MemberCallKind::FunctionPointer);
    let getter = access(OperandShape::Identifier(Some(Definition::Variable)), Some(Definition::StateVariable(variable)));
    assert_eq!(MemberCallKind::new(&getter), MemberCallKind::ExternalGetter);
    let unsupported = access(OperandShape::Other, Some(Definition::Event));
    assert!(!MemberCallKind::supports(&unsupported));
    assert!(MemberCallKind::supports(&getter));
}

#[test]
fn member_call_lowering() {
    assert_eq!(
        MemberCallKind::Library(LibraryVisibility::External).emit(true, true),
        MemberCallLowering::LibraryExternal { receiver_is_first_parameter: true }
    );
    assert_eq!(MemberCallKind::SelfExternal.emit(false, false), MemberCallLowering::ExternalCall);
    assert_eq!(MemberCallKind::Super.emit(false, false), MemberCallLowering::SuperCall);
    assert_eq!(MemberCallKind::FunctionPointer.emit(false, false), MemberCallLowering::IndirectCall);
    assert_eq!(MemberCallKind::explicit_parameter_ids(&vec![10, 11, 12], true), vec![11, 12]);
    assert_eq!(MemberCallKind::explicit_parameter_ids(&vec![10, 11, 12], false), vec![10, 11, 12]);
}

#[test]
fn static_mode_by_mutability() {
    assert_eq!(StaticMode::from_function(&function(Some(1), FunctionMutability::View, false)), StaticMode::Static);
    assert_eq!(StaticMode::from_function(&function(Some(1), FunctionMutability::Pure, false)), StaticMode::Static);
    assert_eq!(StaticMode::from_function(&function(Some(1), FunctionMutability::Payable, false)), StaticMode::Call);
    assert!(!is_static_call_mutability(&function(None, FunctionMutability::NonPayable, false)));
}

#[test]
fn try_call_kinds() {
    let pointer = CalleeShape::Identifier { definition: Some(Definition::Parameter), built_in: None, function_type: Some(true) };
    let guarded = GuardedExpressionFacts { is_call: true, has_options: true, callee: pointer, contract_typed: false };
    assert_eq!(TryCallKind::from_expression(&guarded), TryCallKind::FunctionPointer);
    let f = function(Some(9), FunctionMutability::NonPayable, false);
    let mut member = access(OperandShape::Identifier(Some(Definition::Variable)), Some(Definition::Function(f)));
    member.operand_is_instance = true;
    let external = GuardedExpressionFacts { is_call: true, has_options: false, callee: CalleeShape::MemberAccess(member), contract_typed: false };
    assert_eq!(TryCallKind::from_expression(&external), TryCallKind::External(Definition::Function(f)));
    let creation = GuardedExpressionFacts { is_call: true, has_options: true, callee: CalleeShape::New, contract_typed: true };
    assert_eq!(TryCallKind::from_expression(&creation), TryCallKind::NewExpression);
}

#[test]
fn identifier_built_ins_by_argument_count() {
    let require = CallContext::try_emit_built_in_call(Some(BuiltIn::Require), 2).expect("require with a message");
    assert_eq!(require.call, IdentifierBuiltInCall::Require);
    assert_eq!(require.operand_roles, vec![OperandRole::Condition, OperandRole::Message]);
    assert!(CallContext::try_emit_built_in_call(Some(BuiltIn::Require), 3).is_none());
    let ecrecover = CallContext::try_emit_built_in_call(Some(BuiltIn::Ecrecover), 4).expect("ecrecover");
    assert_eq!(ecrecover.call, IdentifierBuiltInCall::Ecrecover);
    assert_eq!(ecrecover.operand_roles, vec![OperandRole::Hash, OperandRole::V, OperandRole::R, OperandRole::S]);
    assert_eq!(ecrecover.evaluation_order, vec![0, 1, 2, 3]);
    let mulmod = CallContext::try_emit_built_in_call(Some(BuiltIn::Mulmod), 3).expect("mulmod");
    assert_eq!(mulmod.operand_roles, vec![OperandRole::X, OperandRole::Y, OperandRole::Modulus]);
    assert!(CallContext::try_emit_built_in_call(Some(BuiltIn::Gasleft), 1).is_none());
    let gasleft = CallContext::try_emit_built_in_call(Some(BuiltIn::Gasleft), 0).expect("gasleft");
    assert!(gasleft.operand_roles.is_empty());
    assert!(CallContext::try_emit_built_in_call(None, 1).is_none());
    let hash_type = IdentifierBuiltInCall::Keccak256.result_type(None).expect("keccak256 yields a value");
    assert!(hash_type.same_as(&MlirType::FixedBytes(32)));
    assert!(IdentifierBuiltInCall::Assert.result_type(None).is_none());
}

#[test]
fn member_intrinsics() {
    let args = Some(CallArgumentFacts { count: 3, first_is_string_literal: true });
    let with_signature = CallContext::emit_built_in_member_access(
        BuiltIn::AbiEncodeWithSignature,
        args,
        Some(b"transfer(address,uint256)".as_slice()),
    );
    assert_eq!(with_signature.intrinsic, MemberIntrinsic::Encode(EncodeMode::Standard, SelectorSource::SignatureLiteral));
    assert_eq!(with_signature.selector, SelectorOperand::Constant(0xa9059cbb));
    assert_eq!(with_signature.evaluation, vec![MemberOperand::Argument(1), MemberOperand::Argument(2)]);
    assert_eq!(with_signature.operands, vec![MemberOperand::Argument(1), MemberOperand::Argument(2)]);
    let sender = CallContext::emit_built_in_member_access(BuiltIn::MsgSender, None, None);
    assert_eq!(sender.intrinsic, MemberIntrinsic::Environment(EnvironmentValue::Caller));
    assert!(sender.evaluation.is_empty() && sender.operands.is_empty());
    let selector_args = Some(CallArgumentFacts { count: 2, first_is_string_literal: false });
    let with_selector = CallContext::emit_built_in_member_access(BuiltIn::AbiEncodeWithSelector, selector_args, None);
    assert_eq!(with_selector.selector, SelectorOperand::FirstArgumentAsBytes4);
    assert_eq!(with_selector.evaluation, vec![MemberOperand::Argument(0), MemberOperand::Argument(1)]);
    assert_eq!(with_selector.operands, vec![MemberOperand::Argument(1)]);
    let packed = CallContext::emit_built_in_member_access(BuiltIn::AbiEncodePacked, selector_args, None);
    assert_eq!(packed.selector, SelectorOperand::Absent);
    assert_eq!(packed.operands, vec![MemberOperand::Argument(0), MemberOperand::Argument(1)]);
    let send = CallContext::emit_built_in_member_access(
        BuiltIn::AddressSend,
        Some(CallArgumentFacts { count: 1, first_is_string_literal: false }),
        None,
    );
    assert_eq!(send.evaluation, vec![MemberOperand::Receiver, MemberOperand::Argument(0)]);
    assert_eq!(send.operands, vec![MemberOperand::Receiver, MemberOperand::Argument(0)]);
    assert!(!MemberIntrinsic::is_supported(BuiltIn::AddressSend, None));
    assert!(!MemberIntrinsic::is_supported(
        BuiltIn::AbiEncodeWithSignature,
        Some(CallArgumentFacts { count: 1, first_is_string_literal: false })
    ));
    let sender_type = MemberIntrinsic::Environment(EnvironmentValue::Sig).result_type().expect("msg.sig has a value");
    assert!(sender_type.same_as(&MlirType::FixedBytes(4)));
    assert!(matches!(
        CallEmitter::emit_built_in_member_access(
            BuiltIn::StringConcat,
            Some(CallArgumentFacts { count: 0, first_is_string_literal: false }),
            None,
            None,
            None,
        ),
        Err(UnsupportedMemberAccess)
    ));
    assert!(matches!(
        CallEmitter::emit_built_in_member_access(BuiltIn::Other, None, None, None, None),
        Err(UnsupportedMemberAccess)
    ));
    let length = CallEmitter::emit_built_in_member_access(BuiltIn::Length, None, None, None, None).expect("length");
    assert_eq!(length.lowering.intrinsic, MemberIntrinsic::Length);
    assert_eq!(length.lowering.operands, vec![MemberOperand::Receiver]);
    assert!(length.push.is_none());
    let array = SlangType::Array(Box::new(SlangType::Integer { bits: 64, signed: false }), SlangDataLocation::Storage);
    let push = CallEmitter::emit_built_in_member_access(
        BuiltIn::ArrayPush,
        Some(CallArgumentFacts { count: 1, first_is_string_literal: false }),
        None,
        Some(&array),
        Some(&MlirType::Unsigned(8)),
    )
    .expect("push");
    assert_eq!(push.lowering.evaluation, vec![MemberOperand::Receiver, MemberOperand::Argument(0)]);
    match push.push {
        Some(PushPlan::PushSlot { element_type, slot_type, store }) => {
            assert!(element_type.same_as(&MlirType::Unsigned(64)));
            assert!(slot_type.same_as(&MlirType::Pointer(Box::new(MlirType::Unsigned(64)), DataLocation::Storage)));
            assert!(matches!(store, Some(ConversionStep::Cast(_))));
        },
        _ => panic!("expected a slot push"),
    }
}

#[test]
fn encode_segments() {
    let encode = ExpressionContext::emit_sol_encode(3, true, EncodeMode::Packed);
    assert_eq!(encode.value_segment, 3);
    assert_eq!(encode.selector_segment, 1);
    assert!(encode.packed);
}

#[test]
fn bare_calls() {
    assert_eq!(CallEmitter::resolve_bare_call_kind(None, false, b"delegatecall"), Some(BareCallKind::Delegatecall));
    assert_eq!(CallEmitter::resolve_bare_call_kind(None, true, b"call"), None);
    assert_eq!(CallEmitter::resolve_bare_call_kind(Some(BuiltIn::AddressStaticcall), true, b"x"), Some(BareCallKind::Staticcall));
    assert_eq!(CallEmitter::resolve_bare_call_kind(None, false, b"transfer"), None);
    let plan = BareCallKind::Call.emit_bare_call(false, false);
    assert_eq!(plan.evaluation, (BareCallOperand::Receiver, BareCallOperand::Payload));
    assert!(plan.payload_target.same_as(&MlirType::String(DataLocation::Memory)));
    assert_eq!(plan.value, OperandSource::Zero);
    assert_eq!(plan.gas, OperandSource::GasLeft);
    let delegate = BareCallKind::Delegatecall.emit_bare_call(true, true);
    assert_eq!(delegate.value, OperandSource::Absent);
    assert_eq!(delegate.gas, OperandSource::Option);
}

#[test]
fn emitter_call_dispatch() {
    let named = call(identifier(None), None);
    assert_eq!(CallEmitter::emit_function_call(&named, true), Err(CallError::NamedArguments));
    let mut conversion = call(identifier(None), Some(1));
    conversion.is_type_conversion = true;
    assert_eq!(CallEmitter::emit_function_call(&conversion, false), Err(CallError::UnresolvedConversionTarget));
    assert_eq!(CallEmitter::emit_function_call(&conversion, true), Ok(EmitterCallRoute::TypeConversion));
    let require = call(CalleeShape::Identifier { definition: None, built_in: Some(BuiltIn::Require), function_type: None }, Some(1));
    assert_eq!(CallEmitter::emit_function_call(&require, true), Ok(EmitterCallRoute::IdentifierBuiltIn(IdentifierBuiltInCall::Require)));
    let bad_require = call(CalleeShape::Identifier { definition: None, built_in: Some(BuiltIn::Require), function_type: None }, Some(3));
    assert_eq!(CallEmitter::emit_function_call(&bad_require, true), Err(CallError::NotAFunction));
    let literal = call(identifier(Some(Definition::Struct)), Some(2));
    assert_eq!(CallEmitter::emit_function_call(&literal, false), Err(CallError::UnresolvedStructType));
    assert_eq!(CallEmitter::emit_function_call(&call(CalleeShape::New, Some(1)), true), Err(CallError::UnsupportedCallee));
    let mut decode = access(OperandShape::Other, None);
    decode.member_built_in = Some(BuiltIn::AbiDecode);
    assert_eq!(CallEmitter::emit_function_call(&call(CalleeShape::MemberAccess(decode), Some(2)), true), Ok(EmitterCallRoute::AbiDecode));
}

#[test]
fn call_options_last_wins() {
    let value = CallOptionFacts { name: Some(BuiltIn::CallOptionValue), string_literal: false };
    let gas = CallOptionFacts { name: Some(BuiltIn::CallOptionGas), string_literal: false };
    let salt = CallOptionFacts { name: Some(BuiltIn::CallOptionSalt), string_literal: true };
    let captured = CallOptions::capture(&vec![value, gas, salt, value]);
    assert_eq!(captured.value, Some(3));
    assert_eq!(captured.gas, Some(1));
    assert_eq!(captured.salt, Some(2));
    assert_eq!(
        captured.emissions,
        vec![OptionEmission::CastToWord, OptionEmission::CastToWord, OptionEmission::LiteralSaltToWord, OptionEmission::CastToWord]
    );
    let none = CallOptions::capture(&vec![]);
    assert_eq!((none.value, none.salt, none.gas), (None, None, None));
}

#[test]
fn external_member_call_plan() {
    let f = function(Some(0x70a08231), FunctionMutability::View, false);
    let plan = CallContext::emit_external_member_call_fallible(
        &f,
        &vec![7],
        &vec![MlirType::Address(false)],
        &vec![MlirType::Unsigned(256)],
        None,
        &vec![MlirType::Unsigned(160), MlirType::Unsigned(8)],
        true,
        false,
        false,
    );
    assert_eq!(plan.selector, 0x70a08231);
    assert_eq!(plan.static_mode, StaticMode::Static);
    assert!(plan.reverts_on_failure);
    assert_eq!(plan.argument_steps.len(), 1);
    assert!(matches!(plan.argument_steps[0], ConversionStep::CastThenAddressCast));
    assert_eq!(plan.evaluation, vec![ExternalOperand::Receiver, ExternalOperand::Argument(0)]);
    assert_eq!(plan.result_types.len(), 1);
    assert!(plan.forwards_value && !plan.forwards_gas);
    let named = CallContext::emit_external_member_call_fallible(
        &f,
        &vec![7, 9],
        &vec![MlirType::Address(false), MlirType::Unsigned(8)],
        &vec![],
        Some(&vec![9, 7]),
        &vec![MlirType::Unsigned(8), MlirType::Address(false)],
        false,
        false,
        true,
    );
    assert_eq!(named.argument_order, vec![1, 0]);
    assert_eq!(named.evaluation, vec![ExternalOperand::Receiver, ExternalOperand::Argument(1), ExternalOperand::Argument(0)]);
    assert!(matches!(named.argument_steps[0], ConversionStep::Keep));
    assert!(!named.reverts_on_failure);
}

#[test]
fn arguments_ordered_by_parameter() {
    assert_eq!(ordered_by(&vec![1, 2], None, 2), Some(vec![0, 1]));
    assert_eq!(ordered_by(&vec![1, 2, 3], Some(&vec![3, 1, 2]), 3), Some(vec![1, 2, 0]));
    assert_eq!(ordered_by(&vec![1, 2], Some(&vec![1]), 1), None);
}

#[test]
fn value_receiver_and_self_calls() {
    let f = function(Some(5), FunctionMutability::NonPayable, false);
    let namespace = access(OperandShape::Identifier(Some(Definition::Contract)), Some(Definition::Function(f)));
    let parameters = vec![MlirType::Unsigned(256)];
    let returns = vec![MlirType::Signless(1), MlirType::Unsigned(8)];
    assert!(CallEmitter::try_emit_external_call_results(&namespace, 1, false, &parameters, &returns).is_none());
    let receiver = access(OperandShape::Identifier(Some(Definition::Variable)), Some(Definition::Function(f)));
    let call = CallEmitter::try_emit_external_call_results(&receiver, 2, false, &parameters, &returns)
        .expect("an external call");
    assert_eq!(call.function, f);
    assert_eq!(call.selector, 5);
    assert_eq!(
        call.evaluation,
        vec![ExternalOperand::Receiver, ExternalOperand::Argument(0), ExternalOperand::Argument(1)]
    );
    assert!(call.receiver_cast.same_as(&MlirType::Address(false)));
    assert_eq!(call.argument_targets.len(), 1);
    assert!(MlirType::same_list(&call.result_types, &returns));
    assert_eq!(call.value, OperandSource::Zero);
    assert_eq!(call.static_mode, StaticMode::Call);
    let this_call = access(OperandShape::This, Some(Definition::Function(f)));
    assert_eq!(CallEmitter::try_emit_this_external_call(&this_call), Some(f));
    let this_external = CallEmitter::try_emit_external_call_results(&this_call, 0, true, &parameters, &returns)
        .expect("a self call");
    assert_eq!(this_external.value, OperandSource::Option);
    let variable = StateVariableFacts { selector: Some(0x18160ddd), mutability: StateVariableMutability::Mutable };
    let getter = access(OperandShape::This, Some(Definition::StateVariable(variable)));
    assert_eq!(CallEmitter::try_emit_this_getter_call(&getter), Some(0x18160ddd));
}

#[test]
fn library_calls() {
    let returns = vec![
        ReturnParameter { slang_type: SlangType::String(SlangDataLocation::CallData), calldata: true },
        ReturnParameter { slang_type: SlangType::Integer { bits: 32, signed: false }, calldata: false },
    ];
    let types = CallContext::library_return_types(Some(&returns));
    assert!(types[0].same_as(&MlirType::String(DataLocation::Memory)));
    assert!(types[1].same_as(&MlirType::Unsigned(32)));
    assert!(CallContext::library_return_types(None).is_empty());
    let arguments = MemberCallKind::emit_library_call(false, 2);
    assert!(arguments.receiver_first);
    assert_eq!(arguments.first_explicit_parameter, 1);
    let plan = MemberCallKind::emit_library_external_call(Some(0xdeadbeef), 2);
    assert_eq!(plan.selector, 0xdeadbeef);
    assert!(plan.delegate_call && plan.library_call);
    assert_eq!(plan.value, 0);
    assert_eq!(plan.result_indices, vec![1, 2]);
}

#[test]
fn internal_member_calls() {
    let internal = function(None, FunctionMutability::Pure, true);
    let using_for = access(OperandShape::Identifier(Some(Definition::Variable)), Some(Definition::Function(internal)));
    assert_eq!(
        InternalMemberCall::from_callee(&using_for, false),
        Some(InternalMemberCall { function: internal, receiver_first: true })
    );
    assert_eq!(
        InternalMemberCall::from_callee(&using_for, true),
        Some(InternalMemberCall { function: internal, receiver_first: false })
    );
    let external = function(Some(1), FunctionMutability::Pure, true);
    let with_selector = access(OperandShape::Identifier(Some(Definition::Variable)), Some(Definition::Function(external)));
    assert_eq!(InternalMemberCall::from_callee(&with_selector, false), None);
}

#[test]
fn enum_variant_ordinals() {
    let operand = CalleeShape::Identifier { definition: Some(Definition::Enum), built_in: None, function_type: None };
    let ids = vec![40u64, 41, 42];
    assert_eq!(CallEmitter::enum_variant_ordinal(false, Some(Definition::EnumMember), &operand, &ids, 42), Some(2));
    assert_eq!(CallEmitter::enum_variant_ordinal(true, Some(Definition::EnumMember), &operand, &ids, 42), None);
    assert_eq!(CallEmitter::enum_variant_ordinal(false, Some(Definition::EnumMember), &operand, &ids, 7), None);
    let not_enum = CalleeShape::Identifier { definition: Some(Definition::Contract), built_in: None, function_type: None };
    assert_eq!(CallEmitter::enum_variant_ordinal(false, Some(Definition::EnumMember), &not_enum, &ids, 40), None);
}

#[test]
fn function_selector_plans() {
    let f = function(Some(0x12345678), FunctionMutability::View, false);
    let operand = CalleeShape::MemberAccess(access(OperandShape::This, Some(Definition::Function(f))));
    let receiver = CalleeShape::Identifier { definition: Some(Definition::Variable), built_in: None, function_type: None };
    assert_eq!(
        CallEmitter::emit_function_selector(&operand, Some(&receiver)),
        FunctionSelectorPlan::Constant { selector: 0x12345678, evaluate_receiver: true }
    );
    let namespace = CalleeShape::Identifier { definition: Some(Definition::Contract), built_in: None, function_type: None };
    assert_eq!(
        CallEmitter::emit_function_selector(&operand, Some(&namespace)),
        FunctionSelectorPlan::Constant { selector: 0x12345678, evaluate_receiver: false }
    );
    let pointer = CalleeShape::Identifier { definition: Some(Definition::Variable), built_in: None, function_type: Some(true) };
    assert_eq!(CallEmitter::emit_function_selector(&pointer, None), FunctionSelectorPlan::Runtime);
    assert!(CallEmitter::is_namespace_or_type_operand(&namespace));
}

#[test]
fn emitter_library_external_targets() {
    let external = function(Some(3), FunctionMutability::NonPayable, true);
    let qualified = access(OperandShape::Identifier(Some(Definition::Library)), Some(Definition::Function(external)));
    assert_eq!(CallEmitter::try_emit_library_external_call(&qualified, false), Some(LibraryExternalTarget::Qualified));
    let using_for = access(OperandShape::Identifier(Some(Definition::Variable)), Some(Definition::Function(external)));
    assert_eq!(CallEmitter::try_emit_library_external_call(&using_for, true), Some(LibraryExternalTarget::UsingFor));
    assert_eq!(CallEmitter::try_emit_library_external_call(&using_for, false), None);
    let this_call = access(OperandShape::This, Some(Definition::Function(external)));
    assert_eq!(CallEmitter::try_emit_library_external_call(&this_call, true), None);
    let mut internal = external;
    internal.visibility = FunctionVisibility::Internal;
    let qualified_internal = access(OperandShape::Identifier(Some(Definition::Library)), Some(Definition::Function(internal)));
    assert_eq!(CallEmitter::try_emit_library_external_call(&qualified_internal, true), None);
    let imported = access(OperandShape::Identifier(Some(Definition::Import)), Some(Definition::Function(internal)));
    let parameters = vec![MlirType::Unsigned(256), MlirType::Signless(1)];
    let returns = vec![MlirType::Unsigned(8)];
    let qualified_call = CallEmitter::try_emit_library_call(&imported, true, 2, &parameters, &returns).expect("a library call");
    assert!(!qualified_call.receiver_first);
    assert_eq!(qualified_call.evaluation, vec![ExternalOperand::Argument(0), ExternalOperand::Argument(1)]);
    assert!(qualified_call.argument_targets[1].same_as(&MlirType::Signless(1)));
    let through_contract = access(OperandShape::Identifier(Some(Definition::Contract)), Some(Definition::Function(internal)));
    let using_call = CallEmitter::try_emit_library_call(&through_contract, true, 1, &parameters, &returns).expect("a library call");
    assert!(using_call.receiver_first);
    assert_eq!(using_call.evaluation, vec![ExternalOperand::Receiver, ExternalOperand::Argument(0)]);
    assert!(using_call.argument_targets[0].same_as(&MlirType::Unsigned(256)));
    assert!(MlirType::same_list(&using_call.result_types, &returns));
    assert!(CallEmitter::try_emit_library_call(&through_contract, false, 1, &parameters, &returns).is_none());
}

#[test]
fn library_linker_symbol() {
    assert_eq!(CallEmitter::library_symbol("contracts/Math.sol", "Math"), "contracts/Math.sol:Math");
}

#[test]
fn multi_result_call_target() {
    let f = function(None, FunctionMutability::Pure, false);
    assert_eq!(CallEmitter::emit_function_call_results(&call(identifier(Some(Definition::Function(f))), Some(1))), Ok(f));
    assert_eq!(CallEmitter::emit_function_call_results(&call(identifier(Some(Definition::Variable)), Some(1))), Err(CallError::NotAFunction));
    assert_eq!(CallEmitter::emit_function_call_results(&call(CalleeShape::New, Some(1))), Err(CallError::UnsupportedCallee));
    assert_eq!(CallEmitter::emit_function_call_results(&call(identifier(None), None)), Err(CallError::NamedArguments));
}

#[test]
fn call_position_built_ins() {
    assert_eq!(ExpressionContext::emit_built_in_member_access(BuiltIn::AbiEncodeCall, true), CallPositionBuiltIn::EncodeCall);
    assert_eq!(ExpressionContext::emit_built_in_member_access(BuiltIn::ArrayPop, false), CallPositionBuiltIn::Pop);
    assert_eq!(ExpressionContext::emit_built_in_member_access(BuiltIn::BytesConcat, true), CallPositionBuiltIn::Concat);
    assert!(CallPositionBuiltIn::is_call_position(BuiltIn::AddressSend));
    assert!(!CallPositionBuiltIn::is_call_position(BuiltIn::MsgSender));
}

#[test]
fn instance_and_getter_calls() {
    let f = function(Some(0x2e1a7d4d), FunctionMutability::NonPayable, false);
    let member = access(OperandShape::Identifier(Some(Definition::Variable)), Some(Definition::Function(f)));
    assert_eq!(CallEmitter::try_emit_external_instance_call(&member), Some(f));
    let variable = StateVariableFacts { selector: Some(0x3fa4f245), mutability: StateVariableMutability::Mutable };
    let getter = access(OperandShape::Identifier(Some(Definition::Variable)), Some(Definition::StateVariable(variable)));
    let (selector, return_type) = CallEmitter::try_emit_external_getter_call(&getter, 0, Some(&SlangType::Boolean))
        .expect("a scalar getter");
    assert_eq!(selector, 0x3fa4f245);
    assert!(return_type.same_as(&MlirType::Signless(1)));
    assert!(CallEmitter::try_emit_external_getter_call(&getter, 1, Some(&SlangType::Boolean)).is_none());
    assert!(CallEmitter::try_emit_external_getter_call(&getter, 0, None).is_none());
}

#[test]
fn emitter_library_call_plan() {
    let parameters = vec![MlirType::Unsigned(256), MlirType::Unsigned(256), MlirType::Address(false)];
    let returns = vec![MlirType::Unsigned(256)];
    let plan = CallEmitter::emit_library_external_call(Some(0xabcdef01), 2, true, "contracts/Math.sol:Math", &parameters, &returns);
    assert_eq!(plan.selector, 0xabcdef01);
    assert_eq!(plan.encode.value_segment, 3);
    assert_eq!(plan.encode.selector_segment, 1);
    assert!(!plan.encode.packed);
    assert!(plan.yields_first_result);
    assert_eq!(plan.library, "contracts/Math.sol:Math");
    assert!(plan.bare_delegate_call && plan.reverts_with_return_data);
    assert_eq!(
        plan.arguments.evaluation,
        vec![ExternalOperand::Receiver, ExternalOperand::Argument(0), ExternalOperand::Argument(1)]
    );
    assert!(plan.arguments.argument_targets[2].same_as(&MlirType::Address(false)));
    assert!(MlirType::same_list(&plan.decoded_types, &returns));
    assert!(!CallEmitter::emit_library_external_call(Some(1), 0, false, "L", &vec![], &vec![]).yields_first_result);
}

#[test]
fn send_and_transfer() {
    let send = CallEmitter::emit_address_send();
    assert_eq!(send.evaluation, (TransferOperand::Recipient, TransferOperand::Amount));
    assert!(send.amount_type.same_as(&MlirType::Unsigned(256)));
    assert!(send.status_type.expect("send yields a status").same_as(&MlirType::Signless(1)));
    assert!(!send.reverts_on_failure);
    let transfer = CallEmitter::emit_address_transfer();
    assert!(transfer.status_type.is_none());
    assert!(transfer.reverts_on_failure);
}

#[test]
fn try_call_targets() {
    let f = function(Some(9), FunctionMutability::NonPayable, false);
    assert_eq!(TryCall::from_expression(true, Some(Definition::Function(f))), Some(Definition::Function(f)));
    assert_eq!(TryCall::from_expression(false, Some(Definition::Function(f))), None);
    let internal = function(None, FunctionMutability::NonPayable, false);
    assert_eq!(TryCall::from_expression(true, Some(Definition::Function(internal))), None);
    let constant = StateVariableFacts { selector: Some(1), mutability: StateVariableMutability::Constant };
    assert_eq!(TryCall::from_expression(true, Some(Definition::StateVariable(constant))), None);
    let mutable = StateVariableFacts { selector: Some(1), mutability: StateVariableMutability::Mutable };
    assert_eq!(
        TryCall::from_expression(true, Some(Definition::StateVariable(mutable))),
        Some(Definition::StateVariable(mutable))
    );
    let plan = TryCall::emit(&f, &vec![1], &vec![MlirType::Unsigned(256)], &vec![MlirType::Signless(1)], &vec![MlirType::Unsigned(8)]);
    assert!(!plan.reverts_on_failure);
    assert_eq!(plan.selector, 9);
    assert_eq!(plan.argument_order, vec![0]);
    assert!(matches!(plan.argument_steps[0], ConversionStep::Cast(_)));
}

#[test]
fn external_function_pointer_value() {
    let pointer = CallEmitter::emit_external_function_pointer(
        Some(0x12345678),
        &vec![MlirType::String(DataLocation::Memory)],
        &vec![MlirType::Signless(1)],
    );
    assert_eq!(pointer.selector, 0x12345678);
    assert!(pointer.receiver_cast.same_as(&MlirType::Address(false)));
    assert!(pointer.reference_type.same_as(&MlirType::ExtFuncRef(
        vec![MlirType::String(DataLocation::Memory)],
        vec![MlirType::Signless(1)]
    )));
}
