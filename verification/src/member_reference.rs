//! Member references that are values rather than calls: enum variants `E.V`, selectors
//! `f.selector` / `E.selector`, and the receiver evaluation that a compile-time selector
//! still owes.

use vstd::prelude::*;

use crate::context::CallEmitter;

use crate::call_kind::CalleeShape;
use crate::definition::{Definition, spec_is_namespace_or_type};
use crate::mlir_type::{MlirType, TypeView, type_views};
use crate::selector::{Word, be_value, event_topic, spec_keccak256, word_value};
use crate::type_introspection::SelectorConstantTypes;

verus! {

/// The definition a member-access operand names: a name's, or, for a qualified path
/// `C.E`, its member's.
pub open spec fn spec_operand_definition(operand: CalleeShape) -> Option<Definition> {
    match operand {
        CalleeShape::Identifier { definition, .. } => definition,
        CalleeShape::MemberAccess(access) => access.member_definition,
        _ => None,
    }
}

/// The first position of `id` in `ids`.
pub open spec fn spec_first_position(ids: Seq<u64>, id: u64) -> Option<int>
    decreases ids.len(),
{
    if ids.len() == 0 {
        None
    } else if ids[0] == id {
        Some(0)
    } else {
        match spec_first_position(ids.subrange(1, ids.len() as int), id) {
            Some(p) => Some(p + 1),
            None => None,
        }
    }
}

/// The ordinal of an enum-variant reference `E.V`: not a call, the member an enum member
/// and the operand an enum; the position of the member among the enum's members.
pub open spec fn spec_enum_variant_ordinal(
    has_arguments: bool,
    member: Option<Definition>,
    operand: Option<Definition>,
    enum_member_ids: Seq<u64>,
    member_id: u64,
) -> Option<int> {
    if has_arguments || member != Some(Definition::EnumMember) || operand != Some(Definition::Enum) {
        None
    } else {
        spec_first_position(enum_member_ids, member_id)
    }
}

/// How `f.selector` is produced.
#[derive(Debug, Clone, Copy, PartialEq, Eq, Structural)]
pub enum FunctionSelectorPlan {
    /// A compile-time `bytes4` constant; the receiver of `r.f.selector` is still
    /// evaluated for its effects when it is a runtime value.
    Constant { selector: u32, evaluate_receiver: bool },
    /// `sol.ext_func_selector` of an external function-pointer value.
    Runtime,
}

/// The selector a member-access operand carries statically: that of a named function or
/// of a public state variable's getter.
pub open spec fn spec_static_selector(operand: Option<Definition>) -> Option<u32> {
    match operand {
        Some(Definition::Function(function)) => function.selector,
        Some(Definition::StateVariable(variable)) => variable.selector,
        _ => None,
    }
}

/// Whether a `.selector` access evaluates its receiver: only `r.f.selector` with `r` a
/// runtime value (not a namespace or type name).
pub open spec fn spec_evaluates_receiver(receiver: Option<CalleeShape>) -> bool {
    match receiver {
        Some(r) => !(spec_operand_definition(r) matches Some(d) && spec_is_namespace_or_type(d)),
        None => false,
    }
}

impl CallEmitter {
    /// The definition a member-access operand names (see [`spec_operand_definition`]).
    pub fn resolve_member_access_operand(operand: &CalleeShape) -> (result: Option<Definition>)
        ensures
            result == spec_operand_definition(*operand),
    {
        match operand {
            CalleeShape::Identifier { definition, .. } => *definition,
            CalleeShape::MemberAccess(access) => access.member_definition,
            _ => None,
        }
    }

    /// Whether an operand names a namespace or a type rather than a runtime value.
    pub fn is_namespace_or_type_operand(operand: &CalleeShape) -> (result: bool)
        ensures
            result == (spec_operand_definition(*operand) matches Some(d) && spec_is_namespace_or_type(d)),
    {
        match Self::resolve_member_access_operand(operand) {
            Some(definition) => definition.is_namespace_or_type(),
            None => false,
        }
    }

    /// The ordinal of an enum-variant reference, if the access is one.
    pub fn enum_variant_ordinal(
        has_arguments: bool,
        member: Option<Definition>,
        operand: &CalleeShape,
        enum_member_ids: &Vec<u64>,
        member_id: u64,
    ) -> (result: Option<usize>)
        ensures
            match result {
                Some(p) => spec_enum_variant_ordinal(
                    has_arguments,
                    member,
                    spec_operand_definition(*operand),
                    enum_member_ids@,
                    member_id,
                ) == Some(p as int),
                None => spec_enum_variant_ordinal(
                    has_arguments,
                    member,
                    spec_operand_definition(*operand),
                    enum_member_ids@,
                    member_id,
                ) is None,
            },
    {
        if has_arguments {
            return None;
        }
        match member {
            Some(Definition::EnumMember) => {},
            _ => return None,
        }
        match Self::resolve_member_access_operand(operand) {
            Some(Definition::Enum) => {},
            _ => return None,
        }
        let mut i: usize = 0;
        while i < enum_member_ids.len()
            invariant
                i <= enum_member_ids@.len(),
                !has_arguments,
                member == Some(Definition::EnumMember),
                spec_operand_definition(*operand) == Some(Definition::Enum),
                forall|j: int| 0 <= j < i ==> enum_member_ids@[j] != member_id,
            decreases enum_member_ids@.len() - i,
        {
            if enum_member_ids[i] == member_id {
                proof {
                    lemma_first_position(enum_member_ids@, member_id, i as int);
                }
                return Some(i);
            }
            i += 1;
        }
        proof {
            lemma_first_position_absent(enum_member_ids@, member_id);
        }
        None
    }

    /// How `f.selector` lowers: a statically known selector (of a named function or a
    /// public getter) is a constant, evaluating a runtime receiver `r` of `r.f.selector`
    /// for its effects; an external function-pointer value yields its selector at run time.
    pub fn emit_function_selector(operand: &CalleeShape, receiver: Option<&CalleeShape>) -> (result: FunctionSelectorPlan)
        ensures
            result == match spec_static_selector(spec_operand_definition(*operand)) {
                Some(selector) => FunctionSelectorPlan::Constant {
                    selector,
                    evaluate_receiver: spec_evaluates_receiver(
                        match receiver {
                            Some(r) => Some(*r),
                            None => None,
                        },
                    ),
                },
                None => FunctionSelectorPlan::Runtime,
            },
    {
        let static_selector = match Self::resolve_member_access_operand(operand) {
            Some(Definition::Function(function)) => function.selector,
            Some(Definition::StateVariable(variable)) => variable.selector,
            _ => None,
        };
        match static_selector {
            Some(selector) => {
                let evaluate_receiver = Self::eval_selector_receiver_side_effects(receiver);
                FunctionSelectorPlan::Constant { selector, evaluate_receiver }
            },
            None => FunctionSelectorPlan::Runtime,
        }
    }

    /// Whether a `.selector` access evaluates its receiver (see
    /// [`spec_evaluates_receiver`]).
    pub fn eval_selector_receiver_side_effects(receiver: Option<&CalleeShape>) -> (result: bool)
        ensures
            result == spec_evaluates_receiver(
                match receiver {
                    Some(r) => Some(*r),
                    None => None,
                },
            ),
    {
        match receiver {
            Some(r) => !Self::is_namespace_or_type_operand(r),
            None => false,
        }
    }
}

/// A position where `id` occurs, with no earlier occurrence, is its first position.
pub proof fn lemma_first_position(ids: Seq<u64>, id: u64, i: int)
    requires
        0 <= i < ids.len(),
        ids[i] == id,
        forall|j: int| 0 <= j < i ==> ids[j] != id,
    ensures
        spec_first_position(ids, id) == Some(i),
    decreases i,
{
    if i > 0 {
        let rest = ids.subrange(1, ids.len() as int);
        assert forall|j: int| 0 <= j < i - 1 implies rest[j] != id by {
            assert(rest[j] == ids[j + 1]);
        }
        lemma_first_position(rest, id, i - 1);
    }
}

/// An id that does not occur has no position.
pub proof fn lemma_first_position_absent(ids: Seq<u64>, id: u64)
    requires
        forall|j: int| 0 <= j < ids.len() ==> ids[j] != id,
    ensures
        spec_first_position(ids, id) is None,
    decreases ids.len(),
{
    if ids.len() > 0 {
        let rest = ids.subrange(1, ids.len() as int);
        assert forall|j: int| 0 <= j < rest.len() implies rest[j] != id by {
            assert(rest[j] == ids[j + 1]);
        }
        lemma_first_position_absent(rest, id);
    }
}

/// The ordinal of a variant is the position of its member, so the enum's members have
/// the ordinals `0, 1, ...` in declaration order: the member at position `i`, occurring
/// nowhere earlier, has ordinal `i`.
pub proof fn lemma_variant_ordinals_follow_declaration(ids: Seq<u64>, i: int)
    requires
        0 <= i < ids.len(),
        forall|j: int, k: int| 0 <= j < k < ids.len() ==> ids[j] != ids[k],
    ensures
        spec_enum_variant_ordinal(false, Some(Definition::EnumMember), Some(Definition::Enum), ids, ids[i]) == Some(i),
{
    lemma_first_position(ids, ids[i], i);
}

/// An enum-variant reference `E.V`: its ordinal as a `ui256` constant, then
/// `sol.enum_cast` to the enum type.
pub struct EnumVariantPlan {
    /// The ordinal.
    pub ordinal: usize,
    /// The type of the constant.
    pub constant_type: MlirType,
    /// The enum type it is cast to.
    pub result_type: MlirType,
}

/// A compile-time selector value: the constant, of the integer type, bridged to the
/// fixed-bytes type by `sol.bytes_cast`.
pub struct SelectorValue {
    /// The constant.
    pub value: Word,
    /// Its integer and fixed-bytes types.
    pub types: SelectorConstantTypes,
}

impl CallEmitter {
    /// Lowers an enum-variant reference of ordinal `ordinal` to the enum type
    /// `result_type`.
    pub fn emit_enum_variant(ordinal: usize, result_type: MlirType) -> (result: EnumVariantPlan)
        ensures
            result.ordinal == ordinal,
            result.constant_type@ == TypeView::Unsigned(256),
            result.result_type@ == result_type@,
    {
        EnumVariantPlan { ordinal, constant_type: MlirType::ui256(), result_type }
    }

    /// `MyError.selector`: the error's 4-byte selector as a `bytes4` constant.
    pub fn emit_error_selector(selector: u32) -> (result: SelectorValue)
        ensures
            word_value(result.value) == selector,
            result.types.integer_type@ == TypeView::Unsigned(32),
            result.types.bytes_type@ == TypeView::FixedBytes(4),
    {
        let types = Self::emit_selector_constant(4);
        SelectorValue { value: Word { high: 0, low: selector as u128 }, types }
    }

    /// `MyEvent.selector`: the Keccak-256 hash of the event's canonical signature, as a
    /// `bytes32` constant.
    pub fn emit_event_selector(canonical_signature: &[u8]) -> (result: SelectorValue)
        ensures
            word_value(result.value) == be_value(spec_keccak256(canonical_signature@)),
            result.types.integer_type@ == TypeView::Unsigned(256),
            result.types.bytes_type@ == TypeView::FixedBytes(32),
    {
        let value = event_topic(canonical_signature);
        let types = Self::emit_selector_constant(32);
        SelectorValue { value, types }
    }
}

/// `this.f` / `instance.f` used as a value: the receiver cast to a non-payable address,
/// packed with the function's selector into an external function reference by
/// `sol.ext_func_constant`.
pub struct ExternalFunctionPointer {
    /// The type the receiver is cast to.
    pub receiver_cast: MlirType,
    /// The function's selector.
    pub selector: u32,
    /// The type of the reference.
    pub reference_type: MlirType,
}

impl CallEmitter {
    /// Lowers an external function used as a value, given its selector and its external
    /// signature (`parameter_types`, `return_types`).
    pub fn emit_external_function_pointer(
        selector: Option<u32>,
        parameter_types: &Vec<MlirType>,
        return_types: &Vec<MlirType>,
    ) -> (result: ExternalFunctionPointer)
        requires
            selector is Some,
        ensures
            result.receiver_cast@ == TypeView::Address(false),
            result.selector == selector->0,
            result.reference_type@ == TypeView::ExtFuncRef(type_views(parameter_types@), type_views(return_types@)),
    {
        let selector = match selector {
            Some(s) => s,
            None => 0,
        };
        let parameters = MlirType::duplicate_list(parameter_types);
        let results = MlirType::duplicate_list(return_types);
        ExternalFunctionPointer {
            receiver_cast: MlirType::Address(false),
            selector,
            reference_type: MlirType::ExtFuncRef(parameters, results),
        }
    }
}

} // verus!
