use solx_slang::built_in::BuiltIn;
use solx_slang::context::{CallEmitter, ExpressionContext};
use solx_slang::literal::{StringExpression, StringLiteralPlan};
use solx_slang::location::DataLocation;
use solx_slang::mlir_type::MlirType;
use solx_slang::selector::{event_topic, selector_from_hash, signature_selector, word_from_be_bytes, Word};
use solx_slang::type_introspection::IntegerConstant;

#[test]
fn transfer_signature_selector() {
    assert_eq!(signature_selector(b"transfer(address,uint256)"), 0xa9059cbb);
}

#[test]
fn supports_interface_signature_selector() {
    assert_eq!(signature_selector(b"supportsInterface(bytes4)"), 0x01ffc9a7);
}

#[test]
fn transfer_event_topic() {
    let topic = event_topic(b"Transfer(address,address,uint256)");
    assert_eq!(
        topic,
        Word {
            high: 0xddf252ad1be2c89b69c2b068fc378daa,
            low: 0x952ba7f163c4a11628f55a4df523b3ef,
        }
    );
}

#[test]
fn selector_reads_the_first_four_bytes_big_endian() {
    let mut hash = [0u8; 32];
    hash[0] = 0x12;
    hash[1] = 0x34;
    hash[2] = 0x56;
    hash[3] = 0x78;
    hash[4] = 0xff;
    assert_eq!(selector_from_hash(&hash), 0x12345678);
}

#[test]
fn word_from_short_and_long_byte_strings() {
    assert_eq!(word_from_be_bytes(&[]), Word { high: 0, low: 0 });
    assert_eq!(word_from_be_bytes(&[0x01, 0x02]), Word { high: 0, low: 0x0102 });
    let mut bytes = [0u8; 17];
    bytes[0] = 0x01;
    bytes[16] = 0x02;
    assert_eq!(word_from_be_bytes(&bytes), Word { high: 0x01, low: 0x02 });
}

#[test]
fn int8_bounds() {
    let min = ExpressionContext::emit_type_min_max(BuiltIn::TypeMin, &MlirType::Signed(8));
    let max = ExpressionContext::emit_type_min_max(BuiltIn::TypeMax, &MlirType::Signed(8));
    assert_eq!(min, IntegerConstant { negative: true, magnitude: Word { high: 0, low: 128 } });
    assert_eq!(max, IntegerConstant { negative: false, magnitude: Word { high: 0, low: 127 } });
}

#[test]
fn uint8_bounds() {
    let min = ExpressionContext::emit_type_min_max(BuiltIn::TypeMin, &MlirType::Unsigned(8));
    let max = ExpressionContext::emit_type_min_max(BuiltIn::TypeMax, &MlirType::Unsigned(8));
    assert_eq!(min, IntegerConstant { negative: false, magnitude: Word { high: 0, low: 0 } });
    assert_eq!(max, IntegerConstant { negative: false, magnitude: Word { high: 0, low: 255 } });
}

#[test]
fn wide_integer_bounds() {
    let uint256_max = ExpressionContext::emit_type_min_max(BuiltIn::TypeMax, &MlirType::Unsigned(256));
    assert_eq!(uint256_max.magnitude, Word { high: u128::MAX, low: u128::MAX });
    let uint136_max = ExpressionContext::emit_type_min_max(BuiltIn::TypeMax, &MlirType::Unsigned(136));
    assert_eq!(uint136_max.magnitude, Word { high: 0xff, low: u128::MAX });
    let uint128_max = ExpressionContext::emit_type_min_max(BuiltIn::TypeMax, &MlirType::Unsigned(128));
    assert_eq!(uint128_max.magnitude, Word { high: 0, low: u128::MAX });
    let int256_max = ExpressionContext::emit_type_min_max(BuiltIn::TypeMax, &MlirType::Signed(256));
    assert_eq!(int256_max, IntegerConstant {
        negative: false,
        magnitude: Word { high: u128::MAX >> 1, low: u128::MAX },
    });
    let int256_min = ExpressionContext::emit_type_min_max(BuiltIn::TypeMin, &MlirType::Signed(256));
    assert_eq!(int256_min, IntegerConstant {
        negative: true,
        magnitude: Word { high: 1u128 << 127, low: 0 },
    });
}

#[test]
fn integer_bounds_are_symmetric_around_minus_one() {
    for bits in [8u32, 64, 128, 200, 256] {
        let min = ExpressionContext::emit_type_min_max(BuiltIn::TypeMin, &MlirType::Signed(bits));
        let max = ExpressionContext::emit_type_min_max(BuiltIn::TypeMax, &MlirType::Signed(bits));
        assert!(min.negative);
        assert!(!max.negative);
        let max_plus_one = if max.magnitude.low == u128::MAX {
            Word { high: max.magnitude.high + 1, low: 0 }
        } else {
            Word { high: max.magnitude.high, low: max.magnitude.low + 1 }
        };
        assert_eq!(min.magnitude, max_plus_one);
    }
}

#[test]
fn enum_bounds() {
    let max = ExpressionContext::emit_type_enum_min_max(BuiltIn::TypeEnumMax, 3, MlirType::Enum(2));
    let min = ExpressionContext::emit_type_enum_min_max(BuiltIn::TypeEnumMin, 3, MlirType::Enum(2));
    assert_eq!(max.ordinal, 2);
    assert_eq!(min.ordinal, 0);
    assert!(max.constant_type.same_as(&MlirType::Unsigned(256)));
    assert!(max.result_type.same_as(&MlirType::Enum(2)));
    let empty = ExpressionContext::emit_type_enum_min_max(BuiltIn::TypeEnumMax, 0, MlirType::Enum(0));
    assert_eq!(empty.ordinal, 0);
}

#[test]
fn interface_id_is_the_xor_of_member_selectors() {
    let erc165 = vec![Some(0x01ffc9a7u32)];
    assert_eq!(ExpressionContext::emit_type_interface_id(&erc165), 0x01ffc9a7);
    let members = vec![Some(0x70a08231u32), None, Some(0x6352211eu32)];
    assert_eq!(ExpressionContext::emit_type_interface_id(&members), 0x70a08231 ^ 0x6352211e);
    assert_eq!(ExpressionContext::emit_type_interface_id(&vec![]), 0);
}

#[test]
fn interface_id_duplicate_selector_cancels() {
    let members = vec![Some(0x11111111u32), Some(0x22222222), Some(0x22222222)];
    assert_eq!(ExpressionContext::emit_type_interface_id(&members), 0x11111111);
}

#[test]
fn interface_id_types_are_uint32_and_bytes4() {
    let types = ExpressionContext::interface_id_types();
    assert!(types.integer_type.same_as(&MlirType::Unsigned(32)));
    assert!(types.bytes_type.same_as(&MlirType::FixedBytes(4)));
    let topic = CallEmitter::emit_selector_constant(32);
    assert!(topic.integer_type.same_as(&MlirType::Unsigned(256)));
    assert!(topic.bytes_type.same_as(&MlirType::FixedBytes(32)));
}

#[test]
fn object_names_for_code_access() {
    let runtime = ExpressionContext::emit_type_code("Token", BuiltIn::TypeRuntimeCode, None);
    assert_eq!(runtime.object_name, "Token_deployed");
    assert_eq!(runtime.dependency, "Token_deployed");
    assert!(runtime.result_type.same_as(&MlirType::String(DataLocation::Memory)));
    let creation = ExpressionContext::emit_type_code("Token", BuiltIn::TypeCreationCode, Some(MlirType::String(DataLocation::Storage)));
    assert_eq!(creation.object_name, "Token");
    assert_eq!(creation.dependency, "Token");
    assert!(creation.result_type.same_as(&MlirType::String(DataLocation::Storage)));
}

#[test]
fn string_literal_to_bytes4_is_left_aligned() {
    match StringExpression::emit_as(b"abc", &MlirType::FixedBytes(4)) {
        StringLiteralPlan::Constant { value, integer_type } => {
            assert_eq!(value, Word { high: 0, low: 0x61626300 });
            assert!(integer_type.same_as(&MlirType::Unsigned(32)));
        },
        StringLiteralPlan::Runtime => panic!("expected a constant"),
    }
}

#[test]
fn string_literal_longer_than_target_is_cut() {
    match StringExpression::emit_as(b"abc", &MlirType::FixedBytes(2)) {
        StringLiteralPlan::Constant { value, .. } => assert_eq!(value, Word { high: 0, low: 0x6162 }),
        StringLiteralPlan::Runtime => panic!("expected a constant"),
    }
    match StringExpression::emit_as(b"xyz", &MlirType::Byte) {
        StringLiteralPlan::Constant { value, integer_type } => {
            assert_eq!(value, Word { high: 0, low: 0x78 });
            assert!(integer_type.same_as(&MlirType::Unsigned(8)));
        },
        StringLiteralPlan::Runtime => panic!("expected a constant"),
    }
}

#[test]
fn string_literal_to_string_is_runtime() {
    assert!(matches!(
        StringExpression::emit_as(b"abc", &MlirType::String(DataLocation::Memory)),
        StringLiteralPlan::Runtime
    ));
}

#[test]
fn string_literal_to_bytes32_fills_the_high_bytes() {
    match StringExpression::emit_as(b"a", &MlirType::FixedBytes(32)) {
        StringLiteralPlan::Constant { value, integer_type } => {
            assert_eq!(value, Word { high: 0x61u128 << 120, low: 0 });
            assert!(integer_type.same_as(&MlirType::Unsigned(256)));
        },
        StringLiteralPlan::Runtime => panic!("expected a constant"),
    }
    assert_eq!(StringExpression::left_aligned(b"ab", 4), vec![0x61, 0x62, 0, 0]);
}

#[test]
fn interface_id_ignores_member_order() {
    let forward = vec![Some(0x12345678u32), None, Some(0x9abcdef0)];
    let backward = vec![Some(0x9abcdef0u32), Some(0x12345678), None];
    assert_eq!(
        ExpressionContext::emit_type_interface_id(&forward),
        ExpressionContext::emit_type_interface_id(&backward)
    );
}

#[test]
fn selector_is_the_top_of_the_topic_word() {
    let mut hash = [0u8; 32];
    for (i, byte) in hash.iter_mut().enumerate() {
        *byte = (i as u8).wrapping_mul(37).wrapping_add(11);
    }
    let word = solx_slang::selector::word_from_hash(&hash);
    assert_eq!(selector_from_hash(&hash) as u128, word.high >> 96);
}

#[test]
fn left_aligned_literal_is_shifted_up_by_the_padding() {
    match StringExpression::emit_as(b"ab", &MlirType::FixedBytes(4)) {
        StringLiteralPlan::Constant { value, .. } => assert_eq!(value.low, 0x6162u128 << 16),
        StringLiteralPlan::Runtime => panic!("expected a constant"),
    }
}

#[test]
fn type_name_is_a_memory_string() {
    let (name, string_type) = ExpressionContext::emit_type_name(solx_slang::definition::Definition::Interface, "IERC20");
    assert_eq!(name, "IERC20");
    assert!(string_type.same_as(&MlirType::String(DataLocation::Memory)));
}

#[test]
fn error_and_event_selectors() {
    let error = CallEmitter::emit_error_selector(0x08c379a0);
    assert_eq!(error.value, Word { high: 0, low: 0x08c379a0 });
    assert!(error.types.bytes_type.same_as(&MlirType::FixedBytes(4)));
    assert!(error.types.integer_type.same_as(&MlirType::Unsigned(32)));
    let event = CallEmitter::emit_event_selector(b"Transfer(address,address,uint256)");
    assert_eq!(event.value, event_topic(b"Transfer(address,address,uint256)"));
    assert_eq!(event.value.high, 0xddf252ad1be2c89b69c2b068fc378daa);
    assert!(event.types.bytes_type.same_as(&MlirType::FixedBytes(32)));
}

#[test]
fn enum_variant_reference() {
    let plan = CallEmitter::emit_enum_variant(2, MlirType::Enum(3));
    assert_eq!(plan.ordinal, 2);
    assert!(plan.constant_type.same_as(&MlirType::Unsigned(256)));
    assert!(plan.result_type.same_as(&MlirType::Enum(3)));
}
