//! `type(T).min` / `max`, `type(E).min` / `max`, `type(I).interfaceId`,
//! `type(C).creationCode` / `runtimeCode` and `type(C).name`: compile-time constants.

use vstd::prelude::*;

use crate::context::{CallEmitter, ExpressionContext};
use vstd::string::StringExecFns;
use vstd::arithmetic::power2::{pow2, lemma_pow2_adds, lemma_pow2_unfold, lemma2_to64};

use crate::built_in::BuiltIn;
use crate::definition::Definition;
use crate::location::DataLocation;
use crate::mlir_type::{MlirType, TypeView, spec_integer_bit_width, BIT_LENGTH_BYTE, BIT_LENGTH_FIELD, BIT_LENGTH_X32};
use crate::selector::{Word, word_value, two_128};

verus! {

/// An integer constant of up to 256 bits and a sign: `-magnitude` when `negative`.
#[derive(Debug, Clone, Copy, PartialEq, Eq, Structural)]
pub struct IntegerConstant {
    /// Whether the constant is below zero.
    pub negative: bool,
    /// The absolute value.
    pub magnitude: Word,
}

/// The value of an integer constant.
pub open spec fn constant_value(constant: IntegerConstant) -> int {
    if constant.negative {
        -(word_value(constant.magnitude) as int)
    } else {
        word_value(constant.magnitude) as int
    }
}

/// The bound `type(T).min` / `type(T).max` of an integer type of `bits` bits:
/// `0` and `2^bits - 1` unsigned, `-2^(bits-1)` and `2^(bits-1) - 1` signed.
pub open spec fn spec_integer_bound(is_max: bool, signed: bool, bits: nat) -> int {
    if !is_max && !signed {
        0
    } else if !is_max && signed {
        -(pow2((bits - 1) as nat) as int)
    } else if !signed {
        pow2(bits) - 1
    } else {
        pow2((bits - 1) as nat) - 1
    }
}

/// `2^128` as a power of two.
proof fn lemma_pow2_128()
    ensures
        pow2(128) == two_128(),
{
    lemma2_to64();
    lemma_pow2_adds(64, 64);
}

/// `2^e` for `e < 128`, by doubling.
fn pow2_u128(e: u32) -> (result: u128)
    requires
        e < 128,
    ensures
        result == pow2(e as nat),
{
    let mut value: u128 = 1;
    let mut i: u32 = 0;
    proof {
        lemma2_to64();
    }
    while i < e
        invariant
            i <= e < 128,
            value == pow2(i as nat),
        decreases e - i,
    {
        proof {
            lemma_pow2_unfold((i + 1) as nat);
            if i + 1 < 127 {
                vstd::arithmetic::power2::lemma_pow2_strictly_increases((i + 1) as nat, 127);
            }
            lemma_pow2_unfold(128);
            lemma_pow2_128();
        }
        value = value * 2;
        i = i + 1;
    }
    value
}

/// `2^e - 1` as a 256-bit word, for `e <= 256`.
fn word_pow2_minus_one(e: u32) -> (word: Word)
    requires
        e <= 256,
    ensures
        word_value(word) == pow2(e as nat) - 1,
{
    proof {
        lemma_pow2_128();
    }
    if e < 128 {
        let p = pow2_u128(e);
        proof {
            vstd::arithmetic::power2::lemma_pow2_pos(e as nat);
        }
        Word { high: 0, low: p - 1 }
    } else if e < 256 {
        let p = pow2_u128(e - 128);
        proof {
            vstd::arithmetic::power2::lemma_pow2_pos((e - 128) as nat);
            lemma_pow2_adds(128, (e - 128) as nat);
            assert(pow2(128) * pow2((e - 128) as nat) - 1 == (pow2((e - 128) as nat) - 1)
                * two_128() + (two_128() - 1)) by (nonlinear_arith)
                requires
                    pow2(128) == two_128(),
            ;
        }
        Word { high: p - 1, low: u128::MAX }
    } else {
        proof {
            lemma_pow2_adds(128, 128);
            assert(two_128() * two_128() - 1 == (two_128() - 1) * two_128() + (two_128() - 1))
                by (nonlinear_arith);
        }
        Word { high: u128::MAX, low: u128::MAX }
    }
}

/// `2^e` as a 256-bit word, for `e < 256`.
fn word_pow2(e: u32) -> (word: Word)
    requires
        e < 256,
    ensures
        word_value(word) == pow2(e as nat),
{
    if e < 128 {
        Word { high: 0, low: pow2_u128(e) }
    } else {
        let p = pow2_u128(e - 128);
        proof {
            lemma_pow2_128();
            lemma_pow2_adds(128, (e - 128) as nat);
            assert(pow2(128) * pow2((e - 128) as nat) == pow2((e - 128) as nat) * two_128())
                by (nonlinear_arith)
                requires
                    pow2(128) == two_128(),
            ;
        }
        Word { high: p, low: 0 }
    }
}

/// Whether `built_in` is `type(T).min` / `type(T).max` and `result_type` an integer type
/// of 1 to 256 bits, as the lowering of the bound needs.
pub open spec fn spec_integer_bound_input(built_in: BuiltIn, result_type: TypeView) -> bool {
    &&& (built_in == BuiltIn::TypeMin || built_in == BuiltIn::TypeMax)
    &&& spec_integer_bit_width(result_type) matches Some(bits)
    &&& 1 <= bits <= 256
}

/// `type(E).min` / `type(E).max` of an enum with `member_count` members: the lowest
/// ordinal `0`, or the highest `member_count - 1` (`0` for an enum without members).
pub open spec fn spec_enum_bound(is_max: bool, member_count: nat) -> nat {
    if is_max && member_count > 0 {
        (member_count - 1) as nat
    } else {
        0
    }
}

/// The XOR of the selectors that `members` carry, in order: `type(I).interfaceId`
/// (EIP-165). A member without a selector (not a function, or not an external one)
/// leaves the identifier as it is.
pub open spec fn spec_interface_id(members: Seq<Option<u32>>) -> u32
    decreases members.len(),
{
    if members.len() == 0 {
        0
    } else {
        let rest = spec_interface_id(members.drop_last());
        match members.last() {
            Some(selector) => rest ^ selector,
            None => rest,
        }
    }
}

/// The name of the object that `type(C).creationCode` (`runtime == false`) or
/// `type(C).runtimeCode` (`runtime == true`) references: `C`, or `C_deployed`.
pub open spec fn spec_object_name(contract_name: Seq<char>, runtime: bool) -> Seq<char> {
    if runtime {
        contract_name + "_deployed"@
    } else {
        contract_name
    }
}

/// A compile-time bound of an integer or enum type, with the type it is first
/// materialised in.
pub struct EnumBound {
    /// The member ordinal.
    pub ordinal: u64,
    /// The type of the integer constant.
    pub constant_type: MlirType,
    /// The enum type the constant is cast to: the access's resolved type.
    pub result_type: MlirType,
}

/// The types of a compile-time selector of `width` bytes: the unsigned integer constant
/// and the `bytes<width>` it is bridged to by `sol.bytes_cast`.
pub struct SelectorConstantTypes {
    /// `ui<8 * width>`.
    pub integer_type: MlirType,
    /// `!sol.fixedbytes<width>`.
    pub bytes_type: MlirType,
}

impl ExpressionContext {
    /// `type(T).min` / `type(T).max` for an integer type `result_type`.
    pub fn emit_type_min_max(built_in: BuiltIn, result_type: &MlirType) -> (result: IntegerConstant)
        requires
            spec_integer_bound_input(built_in, result_type@),
        ensures
            constant_value(result) == spec_integer_bound(
                built_in == BuiltIn::TypeMax,
                result_type@ is Signed,
                spec_integer_bit_width(result_type@)->0 as nat,
            ),
    {
        let (bits, signed) = match result_type {
            MlirType::Unsigned(bits) => (*bits, false),
            MlirType::Signed(bits) => (*bits, true),
            MlirType::Signless(bits) => (*bits, false),
            _ => (0, false),
        };
        let zero = Word { high: 0, low: 0 };
        match (built_in, signed) {
            (BuiltIn::TypeMin, false) => IntegerConstant { negative: false, magnitude: zero },
            (BuiltIn::TypeMin, true) => IntegerConstant { negative: true, magnitude: word_pow2(bits - 1) },
            (BuiltIn::TypeMax, false) => IntegerConstant {
                negative: false,
                magnitude: word_pow2_minus_one(bits),
            },
            _ => IntegerConstant { negative: false, magnitude: word_pow2_minus_one(bits - 1) },
        }
    }

    /// `type(E).min` / `type(E).max` for an enum with `member_count` members: the ordinal
    /// as a `ui256` constant, cast to the enum type `result_type` (the access's resolved
    /// type).
    pub fn emit_type_enum_min_max(built_in: BuiltIn, member_count: usize, result_type: MlirType) -> (result: EnumBound)
        requires
            built_in == BuiltIn::TypeEnumMin || built_in == BuiltIn::TypeEnumMax,
        ensures
            result.ordinal == spec_enum_bound(built_in == BuiltIn::TypeEnumMax, member_count as nat),
            result.constant_type@ == TypeView::Unsigned(BIT_LENGTH_FIELD),
            result.result_type@ == result_type@,
    {
        let ordinal: u64 = match built_in {
            BuiltIn::TypeEnumMax => member_count.saturating_sub(1) as u64,
            _ => 0,
        };
        EnumBound { ordinal, constant_type: MlirType::Unsigned(BIT_LENGTH_FIELD), result_type }
    }

    /// `type(I).interfaceId`: the XOR of the selectors of the functions declared in the
    /// interface itself, each member given as the selector it carries, if any.
    pub fn emit_type_interface_id(members: &Vec<Option<u32>>) -> (result: u32)
        ensures
            result == spec_interface_id(members@),
    {
        let mut interface_id: u32 = 0;
        let mut i: usize = 0;
        while i < members.len()
            invariant
                i <= members@.len(),
                interface_id == spec_interface_id(members@.subrange(0, i as int)),
            decreases members@.len() - i,
        {
            proof {
                assert(members@.subrange(0, i + 1).drop_last() =~= members@.subrange(0, i as int));
            }
            if let Some(selector) = members[i] {
                interface_id = interface_id ^ selector;
            }
            i += 1;
        }
        proof {
            assert(members@.subrange(0, i as int) =~= members@);
        }
        interface_id
    }

    /// The types of `type(I).interfaceId`: a `ui32` constant bridged to `bytes4`.
    pub fn interface_id_types() -> (result: SelectorConstantTypes)
        ensures
            result.integer_type@ == TypeView::Unsigned(32),
            result.bytes_type@ == TypeView::FixedBytes(4),
    {
        SelectorConstantTypes {
            integer_type: MlirType::Unsigned(BIT_LENGTH_X32),
            bytes_type: MlirType::FixedBytes(4),
        }
    }

    /// `type(C).name` of a contract or interface named `name`: the name as a `string memory`
    /// literal.
    pub fn emit_type_name(definition: Definition, name: &str) -> (result: (String, MlirType))
        requires
            definition == Definition::Contract || definition == Definition::Interface,
        ensures
            result.0@ == name@,
            result.1@ == TypeView::String(DataLocation::Memory),
    {
        (String::from_str(name), MlirType::String(DataLocation::Memory))
    }

    /// `type(C).creationCode` / `type(C).runtimeCode`: the object it references (`C`, or
    /// `C_deployed` for the runtime code), which is recorded as a dependency of the object
    /// being built, and the type of the code value: the access's resolved type, else a
    /// memory string.
    pub fn emit_type_code(contract_name: &str, built_in: BuiltIn, resolved: Option<MlirType>) -> (result: TypeCodePlan)
        ensures
            result.object_name@ == spec_object_name(contract_name@, built_in == BuiltIn::TypeRuntimeCode),
            result.dependency@ == result.object_name@,
            result.result_type@ == match resolved {
                Some(t) => t@,
                None => TypeView::String(DataLocation::Memory),
            },
    {
        let object_name = match built_in {
            BuiltIn::TypeRuntimeCode => {
                let name = String::from_str(contract_name);
                name.concat("_deployed")
            },
            _ => String::from_str(contract_name),
        };
        let dependency = object_name.clone();
        let result_type = match resolved {
            Some(t) => t,
            None => MlirType::String(DataLocation::Memory),
        };
        TypeCodePlan { object_name, dependency, result_type }
    }
}

/// The lowering of `type(C).creationCode` / `type(C).runtimeCode`: a `sol.code` of the
/// object, which is recorded as a dependency, with the code value's type.
pub struct TypeCodePlan {
    /// The object referenced.
    pub object_name: String,
    /// The name recorded as a dependency of the object being built.
    pub dependency: String,
    /// The type of the code value.
    pub result_type: MlirType,
}

impl CallEmitter {
    /// The types of the compile-time `bytes<width>` constant that carries a selector, an
    /// event topic or an interface identifier.
    pub fn emit_selector_constant(width: u32) -> (result: SelectorConstantTypes)
        requires
            1 <= width <= 32,
        ensures
            result.integer_type@ == TypeView::Unsigned((width * 8) as u32),
            result.bytes_type@ == TypeView::FixedBytes(width),
    {
        SelectorConstantTypes {
            integer_type: MlirType::Unsigned(width * BIT_LENGTH_BYTE),
            bytes_type: MlirType::FixedBytes(width),
        }
    }
}

/// Listing a selector twice in an interface cancels it: the identifier is as without
/// either.
pub proof fn lemma_interface_id_pair_cancels(members: Seq<Option<u32>>, selector: u32)
    ensures
        spec_interface_id(members.push(Some(selector)).push(Some(selector))) == spec_interface_id(
            members,
        ),
{
    let once = members.push(Some(selector));
    let twice = once.push(Some(selector));
    assert(twice.drop_last() =~= once);
    assert(once.drop_last() =~= members);
    let base = spec_interface_id(members);
    assert(spec_interface_id(once) == base ^ selector);
    assert(spec_interface_id(twice) == spec_interface_id(once) ^ selector);
    assert((base ^ selector) ^ selector == base) by (bit_vector);
}

/// The identifier does not depend on the order of the interface's members: exchanging
/// two neighbours leaves it unchanged.
pub proof fn lemma_interface_id_order_independent(members: Seq<Option<u32>>, a: Option<u32>, b: Option<u32>)
    ensures
        spec_interface_id(members.push(a).push(b)) == spec_interface_id(members.push(b).push(a)),
{
    let ab = members.push(a).push(b);
    let ba = members.push(b).push(a);
    assert(ab.drop_last() =~= members.push(a));
    assert(ba.drop_last() =~= members.push(b));
    assert(members.push(a).drop_last() =~= members);
    assert(members.push(b).drop_last() =~= members);
    let base = spec_interface_id(members);
    let after_a = spec_interface_id(members.push(a));
    let after_b = spec_interface_id(members.push(b));
    assert(after_a == match a {
        Some(x) => base ^ x,
        None => base,
    });
    assert(after_b == match b {
        Some(y) => base ^ y,
        None => base,
    });
    assert(spec_interface_id(ab) == match b {
        Some(y) => after_a ^ y,
        None => after_a,
    });
    assert(spec_interface_id(ba) == match a {
        Some(x) => after_b ^ x,
        None => after_b,
    });
    match (a, b) {
        (Some(x), Some(y)) => {
            assert((base ^ x) ^ y == (base ^ y) ^ x) by (bit_vector);
        },
        _ => {},
    }
}

/// A member that carries no selector leaves the identifier unchanged.
pub proof fn lemma_interface_id_ignores_members_without_selector(members: Seq<Option<u32>>)
    ensures
        spec_interface_id(members.push(None)) == spec_interface_id(members),
{
    assert(members.push(None).drop_last() =~= members);
}

/// The bounds of every integer type satisfy `min <= 0 <= max` and, signed, `min == -max - 1`.
pub proof fn lemma_integer_bounds(signed: bool, bits: nat)
    requires
        1 <= bits,
    ensures
        spec_integer_bound(false, signed, bits) <= 0 <= spec_integer_bound(true, signed, bits),
        signed ==> spec_integer_bound(false, signed, bits) == -spec_integer_bound(true, signed, bits) - 1,
{
    vstd::arithmetic::power2::lemma_pow2_pos(bits);
    vstd::arithmetic::power2::lemma_pow2_pos((bits - 1) as nat);
}

/// The bounds span exactly the values of the type: an unsigned type of `bits` bits has
/// `2^bits` values from `0`, a signed one as many centred on zero; `max - min + 1` is
/// `2^bits` either way.
pub proof fn lemma_integer_bounds_span_type(signed: bool, bits: nat)
    requires
        1 <= bits,
    ensures
        spec_integer_bound(true, signed, bits) - spec_integer_bound(false, signed, bits) + 1 == pow2(bits),
        !signed ==> spec_integer_bound(false, signed, bits) == 0,
        signed ==> spec_integer_bound(true, signed, bits) + 1 == pow2((bits - 1) as nat),
{
    vstd::arithmetic::power2::lemma_pow2_unfold(bits);
}

/// `type(E).min` is the first member and `type(E).max` the last: the bounds of an enum
/// with `n > 0` members are `0` and `n - 1`, and `max - min + 1` counts the members.
pub proof fn lemma_enum_bounds_span_members(member_count: nat)
    requires
        member_count > 0,
    ensures
        spec_enum_bound(false, member_count) == 0,
        spec_enum_bound(true, member_count) + 1 == member_count,
{
}

/// The creation code references the contract's own object and the runtime code the
/// object whose name is the contract's followed by `_deployed`; the two differ.
pub proof fn lemma_code_objects(contract_name: Seq<char>)
    ensures
        spec_object_name(contract_name, false) == contract_name,
        spec_object_name(contract_name, true) == contract_name + "_deployed"@,
        spec_object_name(contract_name, true) != spec_object_name(contract_name, false),
{
    reveal_strlit("_deployed");
    assert(spec_object_name(contract_name, true).len() == contract_name.len() + 9);
}

} // verus!
