use solx_slang::context::{CallContext, CallEmitter, ExpressionContext};
use solx_slang::expression::ExpressionEmitter;
use solx_slang::call_kind::{CalleeShape, CallKind, MemberAccessFacts, OperandShape};
use solx_slang::definition::Definition;
use solx_slang::index_access::{IndexAccessExpression, IndexOperand, IndexPlace, SliceBound};
use solx_slang::location::{DataLocation, SlangDataLocation};
use solx_slang::lvalue::{Lvalue, LvalueBinding, LvalueRead, LvalueTarget, LvalueWrite};
use solx_slang::mlir_type::{ArraySize, MlirType};
use solx_slang::new_expression::{NewPlan, TryNewExpression};
use solx_slang::operator::CmpPredicate;
use solx_slang::push::PushPlan;
use solx_slang::require::RequireMessage;
use solx_slang::slang_type::SlangType;
use solx_slang::storage::{ComponentValues, InitializerWrite, StateVariableInitializer};
use solx_slang::type_conversion::{ConversionStep, FunctionSignature, StateVariableType, TypeConversion};

fn uint(bits: u32) -> SlangType {
    SlangType::Integer { bits, signed: false }
}

#[test]
fn mapping_getter_signature() {
    let mapping = SlangType::Mapping(Box::new(SlangType::Address), Box::new(uint(256)));
    let (parameters, results) = ExpressionContext::getter_signature(Some(&mapping), None).expect("a mapping has a getter");
    assert_eq!(parameters.len(), 1);
    assert!(parameters[0].same_as(&MlirType::Address(false)));
    assert!(results[0].same_as(&MlirType::Unsigned(256)));
}

#[test]
fn array_and_scalar_getter_signatures() {
    let array = SlangType::Array(Box::new(SlangType::Boolean), SlangDataLocation::Storage);
    let (parameters, results) = ExpressionContext::getter_signature(Some(&array), None).expect("an array has a getter");
    assert!(parameters[0].same_as(&MlirType::Unsigned(256)));
    assert!(results[0].same_as(&MlirType::Signless(1)));
    let (parameters, results) = ExpressionContext::getter_signature(Some(&uint(8)), None).expect("a scalar has a getter");
    assert!(parameters.is_empty());
    assert!(results[0].same_as(&MlirType::Unsigned(8)));
}

#[test]
fn reference_getters_have_no_signature() {
    let nested = SlangType::Mapping(
        Box::new(uint(256)),
        Box::new(SlangType::Array(Box::new(uint(8)), SlangDataLocation::Storage)),
    );
    assert!(ExpressionContext::getter_signature(Some(&nested), None).is_none());
    assert!(ExpressionContext::getter_signature(Some(&SlangType::String(SlangDataLocation::Storage)), None).is_none());
    assert!(ExpressionContext::getter_signature(None, None).is_none());
    let record = SlangType::Struct(vec![uint(8)], SlangDataLocation::Storage);
    assert!(ExpressionContext::getter_signature(Some(&record), None).is_none());
    let layout = vec![MlirType::Unsigned(8), MlirType::Address(false)];
    let (parameters, results) = ExpressionContext::getter_signature(Some(&record), Some(&layout)).expect("a struct with a layout has a getter");
    assert!(parameters.is_empty());
    assert_eq!(results.len(), 2);
    assert!(results[1].same_as(&MlirType::Address(false)));
}

#[test]
fn new_dynamic_array_allocates() {
    let array = SlangType::Array(Box::new(uint(256)), SlangDataLocation::Memory);
    match CallKind::emit_new(Some(&array), false, 1, false, false, &vec![]) {
        NewPlan::Allocate { result_type, sized, size_type } => {
            assert!(sized);
            assert!(size_type.same_as(&MlirType::Unsigned(256)));
            assert!(result_type.same_as(&MlirType::Array(
                ArraySize::Dynamic,
                Box::new(MlirType::Unsigned(256)),
                DataLocation::Memory
            )));
        },
        NewPlan::CreateContract { .. } => panic!("expected an allocation"),
    }
    match CallKind::emit_new(None, true, 1, false, false, &vec![]) {
        NewPlan::Allocate { result_type, .. } => assert!(result_type.same_as(&MlirType::String(DataLocation::Memory))),
        NewPlan::CreateContract { .. } => panic!("expected an allocation"),
    }
}

#[test]
fn new_contract_segments() {
    let contract = SlangType::Contract("Vault".to_string(), true);
    let parameters = vec![MlirType::Unsigned(256), MlirType::Address(false)];
    match CallKind::emit_new(Some(&contract), false, 2, true, true, &parameters) {
        NewPlan::CreateContract { contract_name, dependency, result_type, explicit_value, argument_targets, segment_sizes } => {
            assert_eq!(contract_name, "Vault");
            assert_eq!(dependency, "Vault");
            assert!(MlirType::same_list(&argument_targets, &parameters));
            assert!(result_type.same_as(&MlirType::Contract("Vault".to_string(), true)));
            assert!(explicit_value);
            assert_eq!(segment_sizes, (1, 1, 2));
        },
        NewPlan::Allocate { .. } => panic!("expected a creation"),
    }
    match CallKind::emit_new(Some(&contract), false, 0, false, false, &parameters) {
        NewPlan::CreateContract { explicit_value, segment_sizes, .. } => {
            assert!(!explicit_value);
            assert_eq!(segment_sizes, (1, 0, 0));
        },
        NewPlan::Allocate { .. } => panic!("expected a creation"),
    }
}

#[test]
fn push_to_storage_array() {
    let array = SlangType::Array(Box::new(uint(256)), SlangDataLocation::Storage);
    match CallContext::emit_array_push(&array, None) {
        PushPlan::PushSlot { element_type, slot_type, store } => {
            assert!(element_type.same_as(&MlirType::Unsigned(256)));
            assert!(slot_type.same_as(&MlirType::Pointer(Box::new(MlirType::Unsigned(256)), DataLocation::Storage)));
            assert!(store.is_none());
        },
        PushPlan::PushByte => panic!("expected a slot push"),
    }
    match CallContext::emit_array_push(&array, Some(&MlirType::Unsigned(8))) {
        PushPlan::PushSlot { store: Some(ConversionStep::Cast(target)), .. } => {
            assert!(target.same_as(&MlirType::Unsigned(256)))
        },
        _ => panic!("expected a converted store"),
    }
}

#[test]
fn push_byte_and_reference_slots() {
    let bytes = SlangType::Bytes(SlangDataLocation::Storage);
    assert!(matches!(CallContext::emit_array_push(&bytes, Some(&MlirType::FixedBytes(1))), PushPlan::PushByte));
    let strings = SlangType::Array(Box::new(SlangType::String(SlangDataLocation::Storage)), SlangDataLocation::Storage);
    let slot = ExpressionContext::emit_push_slot(&strings);
    assert!(slot.slot_type.same_as(&MlirType::String(DataLocation::Storage)));
    let numbers = SlangType::Array(Box::new(uint(8)), SlangDataLocation::Memory);
    let slot = ExpressionContext::emit_push_slot(&numbers);
    assert!(slot.slot_type.same_as(&MlirType::Pointer(Box::new(MlirType::Unsigned(8)), DataLocation::Memory)));
}

#[test]
fn require_forms() {
    let plain = ExpressionContext::emit_require(&RequireMessage::Absent);
    assert!(plain.message.is_none() && !plain.call_form && plain.argument_types.is_empty());
    let literal = ExpressionContext::emit_require(&RequireMessage::StringLiteral("too low".to_string()));
    assert_eq!(literal.message, Some("too low".to_string()));
    assert!(!literal.call_form);
    let runtime = ExpressionContext::emit_require(&RequireMessage::Expression);
    assert_eq!(runtime.message, Some("Error(string)".to_string()));
    assert!(runtime.call_form);
    assert!(runtime.argument_types[0].same_as(&MlirType::String(DataLocation::Memory)));
}

#[test]
fn require_custom_error_coerces_matched_arguments() {
    let message = RequireMessage::CustomError {
        signature: "Insufficient(uint256,address)".to_string(),
        parameter_types: vec![uint(256), SlangType::Address],
        argument_count: 3,
    };
    let operation = ExpressionContext::emit_require(&message);
    assert_eq!(operation.message, Some("Insufficient(uint256,address)".to_string()));
    assert!(operation.call_form);
    assert_eq!(operation.argument_types.len(), 2);
    assert!(operation.argument_types[1].same_as(&MlirType::Address(false)));
    let fewer = RequireMessage::CustomError {
        signature: "E(uint8,uint8)".to_string(),
        parameter_types: vec![uint(8), uint(8)],
        argument_count: 1,
    };
    assert_eq!(ExpressionContext::emit_require(&fewer).argument_types.len(), 1);
}

#[test]
fn require_message_callee() {
    let error = CalleeShape::MemberAccess(MemberAccessFacts {
        operand: OperandShape::Identifier(Some(Definition::Library)),
        operand_is_instance: false,
        member_definition: Some(Definition::Error),
        member_built_in: None,
        function_type: None,
        super_redirect: false,
    });
    assert!(ExpressionContext::call_resolves_to_error(&error));
    let function = CalleeShape::Identifier { definition: Some(Definition::Variable), built_in: None, function_type: None };
    assert!(!ExpressionContext::call_resolves_to_error(&function));
}

#[test]
fn struct_field_index() {
    let names = vec!["a".to_string(), "b".to_string(), "a".to_string()];
    assert_eq!(ExpressionEmitter::emit_struct_field_address(&names, &"a".to_string()), Ok(0));
    assert_eq!(ExpressionEmitter::emit_struct_field_address(&names, &"b".to_string()), Ok(1));
    let missing = ExpressionEmitter::emit_struct_field_address(&names, &"c".to_string()).unwrap_err();
    assert_eq!(missing.name, "c");
}

#[test]
fn component_values() {
    assert_eq!(ExpressionEmitter::emit_component_values(true, 3, true), ComponentValues::Components(3));
    assert_eq!(ExpressionEmitter::emit_component_values(true, 1, false), ComponentValues::Single);
    assert_eq!(ExpressionEmitter::emit_component_values(false, 0, false), ComponentValues::Single);
}

#[test]
fn state_variable_initializers() {
    let variables = vec![
        StateVariableInitializer {
            name: "count".to_string(),
            has_slot: true,
            initializer_type: Some(MlirType::Unsigned(8)),
            array_literal: false,
            declared_type: Some(uint(256)),
        },
        StateVariableInitializer {
            name: "skipped".to_string(),
            has_slot: false,
            initializer_type: Some(MlirType::Unsigned(8)),
            array_literal: false,
            declared_type: None,
        },
        StateVariableInitializer {
            name: "label".to_string(),
            has_slot: true,
            initializer_type: Some(MlirType::String(DataLocation::Memory)),
            array_literal: false,
            declared_type: Some(SlangType::String(SlangDataLocation::Storage)),
        },
    ];
    let plans = ExpressionEmitter::emit_state_var_initializers(&variables).expect("every type resolves");
    assert_eq!(plans.len(), 2);
    assert_eq!(plans[0].index, 0);
    assert!(plans[0].address_type.same_as(&MlirType::Pointer(Box::new(MlirType::Unsigned(256)), DataLocation::Storage)));
    assert!(matches!(&plans[0].write, InitializerWrite::Store(ConversionStep::Cast(_))));
    assert_eq!(plans[1].index, 2);
    assert!(plans[1].address_type.same_as(&MlirType::String(DataLocation::Storage)));
    assert!(matches!(plans[1].write, InitializerWrite::Copy));
}

#[test]
fn unresolved_state_variable_initializer_fails() {
    let variables = vec![StateVariableInitializer {
        name: "mystery".to_string(),
        has_slot: true,
        initializer_type: Some(MlirType::Unsigned(8)),
        array_literal: false,
        declared_type: None,
    }];
    let error = ExpressionEmitter::emit_state_var_initializers(&variables).unwrap_err();
    assert_eq!(error.name, "mystery");
}

#[test]
fn struct_constructor_stores() {
    let stores = CallContext::emit_struct_constructor(
        &vec![uint(256), SlangType::Bytes(SlangDataLocation::Inherited)],
        &vec![MlirType::Unsigned(8), MlirType::String(DataLocation::Memory), MlirType::Byte],
    );
    assert_eq!(stores.len(), 2);
    assert_eq!(stores[1].index, 1);
    assert!(stores[0].field_type.same_as(&MlirType::Unsigned(256)));
    assert!(stores[1].field_type.same_as(&MlirType::String(DataLocation::Memory)));
    assert!(matches!(stores[1].step, ConversionStep::Keep));
}

#[test]
fn lvalues() {
    let local = ExpressionEmitter::resolve_lvalue(LvalueTarget::Identifier(LvalueBinding::Local(MlirType::Unsigned(8))));
    assert_eq!(ExpressionEmitter::emit_lvalue_load(&local), LvalueRead::Load);
    assert_eq!(ExpressionEmitter::emit_lvalue_store(&local), LvalueWrite::Store);
    let scalar = ExpressionEmitter::resolve_identifier_lvalue(LvalueBinding::StateVariable {
        slot_name: "total".to_string(),
        declared_type: uint(128),
    });
    assert!(scalar.element_type().same_as(&MlirType::Unsigned(128)));
    assert_eq!(ExpressionEmitter::emit_lvalue_store(&scalar), LvalueWrite::StorageStore);
    let aggregate = ExpressionEmitter::resolve_identifier_lvalue(LvalueBinding::StateVariable {
        slot_name: "names".to_string(),
        declared_type: SlangType::Array(Box::new(uint(8)), SlangDataLocation::Storage),
    });
    assert_eq!(ExpressionEmitter::emit_lvalue_load(&aggregate), LvalueRead::AddressOf);
    assert_eq!(ExpressionEmitter::emit_lvalue_store(&aggregate), LvalueWrite::CopyInto);
    let field = ExpressionEmitter::resolve_lvalue(LvalueTarget::StructField(MlirType::Address(false)));
    assert!(matches!(field, Lvalue::Pointer(_)));
}

#[test]
fn mapping_index_place() {
    let mapping = SlangType::Mapping(Box::new(SlangType::Address), Box::new(uint(256)));
    let mapping_value = MlirType::Mapping(Box::new(MlirType::Address(false)), Box::new(MlirType::Unsigned(256)));
    let place = IndexAccessExpression::emit_place(&mapping, &uint(256), &mapping_value, false);
    assert_eq!(place.evaluation, (IndexOperand::Base, IndexOperand::Index));
    match place.place {
        IndexPlace::MapEntry { element_type, address_type } => {
            assert!(element_type.same_as(&MlirType::Unsigned(256)));
            assert!(address_type.same_as(&MlirType::Pointer(Box::new(MlirType::Unsigned(256)), DataLocation::Storage)));
        },
        IndexPlace::Element { .. } => panic!("expected a map entry"),
    }
    let nested = SlangType::Array(Box::new(uint(8)), SlangDataLocation::Storage);
    match IndexAccessExpression::emit_place(&mapping, &nested, &mapping_value, false).place {
        IndexPlace::MapEntry { address_type, .. } => {
            assert!(address_type.same_as(&MlirType::Array(ArraySize::Dynamic, Box::new(MlirType::Unsigned(8)), DataLocation::Storage)));
        },
        IndexPlace::Element { .. } => panic!("expected a map entry"),
    }
    let array = SlangType::Array(Box::new(uint(8)), SlangDataLocation::Memory);
    let array_value = MlirType::Array(ArraySize::Dynamic, Box::new(MlirType::Unsigned(8)), DataLocation::Memory);
    match IndexAccessExpression::emit_place(&array, &uint(8), &array_value, false).place {
        IndexPlace::Element { element_type } => assert!(element_type.same_as(&MlirType::Unsigned(8))),
        IndexPlace::MapEntry { .. } => panic!("expected an element"),
    }
    let bytes = SlangType::Bytes(SlangDataLocation::Memory);
    match IndexAccessExpression::emit_place(&bytes, &SlangType::ByteArray(1), &MlirType::String(DataLocation::Memory), false).place {
        IndexPlace::Element { element_type } => assert!(element_type.same_as(&MlirType::Byte)),
        IndexPlace::MapEntry { .. } => panic!("expected an element"),
    }
}

#[test]
fn slices_and_loads() {
    let slice = IndexAccessExpression::emit_slice(false, true, &SlangType::Bytes(SlangDataLocation::CallData));
    assert_eq!(slice.start, SliceBound::Zero);
    assert_eq!(slice.end, SliceBound::Given);
    let open = IndexAccessExpression::emit_slice(true, false, &SlangType::Bytes(SlangDataLocation::CallData));
    assert_eq!(open.end, SliceBound::Length);
    assert!(IndexAccessExpression::load_conversion(&MlirType::String(DataLocation::Memory), &uint(8)).is_none());
    let cast = IndexAccessExpression::load_conversion(&MlirType::FixedBytes(1), &SlangType::ByteArray(1)).expect("scalars are cast");
    assert!(cast.same_as(&MlirType::FixedBytes(1)));
}

#[test]
fn abi_decode_types() {
    let tuple = SlangType::Tuple(vec![uint(8), SlangType::Boolean]);
    let types = ExpressionContext::abi_decode_result_types(&tuple);
    assert_eq!(types.len(), 2);
    assert!(types[1].same_as(&MlirType::Signless(1)));
    let single = ExpressionContext::abi_decode_result_types(&SlangType::Address);
    assert_eq!(single.len(), 1);
    assert!(CallContext::emit_abi_decode(&SlangType::Address, 2).same_as(&MlirType::Address(false)));
}

#[test]
fn function_and_state_variable_types() {
    let signature = FunctionSignature { parameters: vec![uint(8)], results: None };
    let (parameters, results) = TypeConversion::resolve_function_types(&signature);
    assert!(parameters[0].same_as(&MlirType::Unsigned(8)));
    assert!(results.is_empty());
    let unresolved = StateVariableType { name: "x".to_string(), declared_type: None };
    assert_eq!(TypeConversion::resolve_state_variable_type(&unresolved).unwrap_err().name, "x");
    let resolved = StateVariableType { name: "y".to_string(), declared_type: Some(SlangType::ByteArray(32)) };
    assert!(TypeConversion::resolve_state_variable_type(&resolved).expect("typed").same_as(&MlirType::FixedBytes(32)));
}

#[test]
fn try_new_status_is_nonzero_address() {
    let contract = SlangType::Contract("Vault".to_string(), false);
    let plan = TryNewExpression::emit(&contract, 1, false, true, &vec![MlirType::Unsigned(8)]);
    assert!(!plan.reverts_on_failure);
    assert!(plan.status_casts.0.same_as(&MlirType::Address(false)));
    assert!(plan.status_casts.1.same_as(&MlirType::Unsigned(160)));
    assert_eq!(plan.status_predicate, CmpPredicate::Ne);
    assert!(plan.status_zero_type.same_as(&MlirType::Unsigned(160)));
    assert_eq!(plan.result_count, 1);
    match plan.creation {
        NewPlan::CreateContract { dependency, segment_sizes, .. } => {
            assert_eq!(dependency, "Vault");
            assert_eq!(segment_sizes, (1, 1, 1));
        },
        NewPlan::Allocate { .. } => panic!("expected a creation"),
    }
}

#[test]
fn constructor_arguments_beyond_parameters_are_not_passed() {
    let contract = SlangType::Contract("Box".to_string(), false);
    match CallKind::emit_new(Some(&contract), false, 3, false, false, &vec![MlirType::Unsigned(8)]) {
        NewPlan::CreateContract { argument_targets, segment_sizes, .. } => {
            assert_eq!(argument_targets.len(), 1);
            assert_eq!(segment_sizes, (1, 0, 1));
        },
        NewPlan::Allocate { .. } => panic!("expected a creation"),
    }
}

#[test]
fn storage_load_and_store_share_the_slot_pointer() {
    let load = ExpressionEmitter::emit_storage_load("balance", &MlirType::Unsigned(256));
    let store = ExpressionEmitter::emit_storage_store("balance", &MlirType::Unsigned(256));
    assert_eq!(load.slot_name, "balance");
    assert_eq!(store.slot_name, "balance");
    assert!(load.pointer_type.same_as(&MlirType::Pointer(Box::new(MlirType::Unsigned(256)), DataLocation::Storage)));
    assert!(load.pointer_type.same_as(&store.pointer_type));
}

#[test]
fn emitter_new_array() {
    let array = SlangType::Array(Box::new(uint(16)), SlangDataLocation::Memory);
    let plan = CallEmitter::try_emit_new_array(true, Some(&array), false, 1).expect("an allocation");
    assert!(plan.sized);
    assert!(plan.size_type.same_as(&MlirType::Unsigned(256)));
    assert!(plan.result_type.same_as(&MlirType::Array(ArraySize::Dynamic, Box::new(MlirType::Unsigned(16)), DataLocation::Memory)));
    let unsized_string = CallEmitter::try_emit_new_array(true, None, true, 0).expect("an allocation");
    assert!(!unsized_string.sized);
    let contract = SlangType::Contract("C".to_string(), false);
    assert!(CallEmitter::try_emit_new_array(true, Some(&contract), false, 0).is_none());
    assert!(CallEmitter::try_emit_new_array(false, Some(&array), false, 1).is_none());
}

#[test]
fn new_without_size_allocates_unsized() {
    let array = SlangType::Array(Box::new(uint(8)), SlangDataLocation::Memory);
    match CallKind::emit_new(Some(&array), false, 0, false, false, &vec![]) {
        NewPlan::Allocate { sized, .. } => assert!(!sized),
        NewPlan::CreateContract { .. } => panic!("expected an allocation"),
    }
    match CallKind::emit_new(None, true, 0, false, false, &vec![]) {
        NewPlan::Allocate { result_type, sized, .. } => {
            assert!(!sized);
            assert!(result_type.same_as(&MlirType::String(DataLocation::Memory)));
        },
        NewPlan::CreateContract { .. } => panic!("expected an allocation"),
    }
}
