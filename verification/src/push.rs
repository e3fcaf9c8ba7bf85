//! `arr.push()`, `arr.push(x)` and `bytes.push(b)`: the slot `sol.push` yields, and how a
//! pushed value is stored into it.

use vstd::prelude::*;

use crate::context::{CallContext, ExpressionContext};

use crate::location::{DataLocation, SlangDataLocation, spec_location_from_slang};
use crate::mlir_type::{MlirType, TypeView, spec_is_reference};
use crate::slang_type::SlangType;
use crate::type_conversion::{
    resolvable, spec_resolve, spec_conversion_steps, spec_from_target_type, ConversionStep,
    TypeConversion,
};

verus! {

/// Whether a type is a valid `push` receiver: a dynamic array whose element resolves, or
/// dynamic `bytes`, at a location that is not inherited.
pub open spec fn spec_push_base(base: SlangType) -> bool {
    match base {
        SlangType::Array(element, location) => location != SlangDataLocation::Inherited && resolvable(
            *element,
            None,
        ),
        SlangType::Bytes(location) => location != SlangDataLocation::Inherited,
        _ => false,
    }
}

/// The element type a `push` appends: the array's element, or `bytes1` for `bytes`.
pub open spec fn spec_push_element(base: SlangType) -> TypeView {
    match base {
        SlangType::Array(element, _) => spec_resolve(*element, None),
        _ => TypeView::FixedBytes(1),
    }
}

/// The location of the receiver of a `push`.
pub open spec fn spec_push_location(base: SlangType) -> DataLocation {
    match base {
        SlangType::Array(_, location) => spec_location_from_slang(location, None).unwrap(),
        SlangType::Bytes(location) => spec_location_from_slang(location, None).unwrap(),
        _ => DataLocation::Memory,
    }
}

/// The new element's slot as the expression context types it: the element type itself
/// when it is a reference type (copied into), else a pointer to it at the receiver's
/// location (stored into).
pub open spec fn spec_push_slot_type(base: SlangType) -> TypeView {
    let element = spec_push_element(base);
    if spec_is_reference(element) {
        element
    } else {
        TypeView::Pointer(Box::new(element), spec_push_location(base))
    }
}

/// The slot of a pushed element.
pub struct PushSlot {
    /// The element type.
    pub element_type: MlirType,
    /// The type of the slot `sol.push` yields.
    pub slot_type: MlirType,
}

/// How a call `push(...)` lowers.
#[derive(Debug)]
pub enum PushPlan {
    /// `bytes.push(b)`: `sol.push_string` of `b` cast to `bytes1`.
    PushByte,
    /// `sol.push` yielding a pointer of `slot_type` to the new element; with a value, the
    /// value is converted to `element_type` by `store` and stored, and the call yields
    /// nothing; without one, the call yields the slot.
    PushSlot { element_type: MlirType, slot_type: MlirType, store: Option<ConversionStep> },
}

/// The element type of a `push` receiver.
fn push_element(base: &SlangType) -> (result: MlirType)
    requires
        spec_push_base(*base),
    ensures
        result@ == spec_push_element(*base),
{
    match base {
        SlangType::Array(element, _) => TypeConversion::resolve_slang_type(element, None),
        _ => MlirType::FixedBytes(1),
    }
}

/// The location of a `push` receiver.
fn push_location(base: &SlangType) -> (result: DataLocation)
    requires
        spec_push_base(*base),
    ensures
        result == spec_push_location(*base),
{
    let location = match base {
        SlangType::Array(_, location) => *location,
        SlangType::Bytes(location) => *location,
        _ => SlangDataLocation::Memory,
    };
    match DataLocation::from_slang(location, None) {
        Some(resolved) => resolved,
        None => DataLocation::Memory,
    }
}

impl ExpressionContext {
    /// The slot of `base.push()` as the expression context emits it: the element type,
    /// and the slot type (the element itself when it is a reference type, else a pointer
    /// to it at the receiver's location).
    pub fn emit_push_slot(base: &SlangType) -> (result: PushSlot)
        requires
            spec_push_base(*base),
        ensures
            result.element_type@ == spec_push_element(*base),
            result.slot_type@ == spec_push_slot_type(*base),
    {
        let element_type = push_element(base);
        let location = push_location(base);
        let slot_type = if element_type.is_reference() {
            element_type.duplicate()
        } else {
            MlirType::Pointer(Box::new(element_type.duplicate()), location)
        };
        PushSlot { element_type, slot_type }
    }
}

/// Whether a plan is the lowering of `base.push(...)` with a value of type `value`, or
/// none: a value pushed onto `bytes` is a `sol.push_string`; otherwise `sol.push` yields a
/// pointer to the new element, of the element type at the receiver's location, and a
/// given value is stored into it after its conversion to the element type.
pub open spec fn spec_array_push(plan: PushPlan, base: SlangType, value: Option<TypeView>) -> bool {
    &&& (base is Bytes && value is Some) <==> plan is PushByte
    &&& plan matches PushPlan::PushSlot { element_type, slot_type, store } ==> {
        &&& element_type@ == spec_push_element(base)
        &&& slot_type@ == TypeView::Pointer(Box::new(spec_push_element(base)), spec_push_location(base))
        &&& match (store, value) {
            (None, None) => true,
            (Some(step), Some(v)) => step@ == spec_conversion_steps(spec_from_target_type(element_type), v),
            _ => false,
        }
    }
}

impl CallContext {

    /// The lowering of a `push` call with an optional value of type `value_type`: a byte
    /// pushed onto `bytes` is a `sol.push_string`; otherwise `sol.push` yields a pointer to
    /// the new element at the receiver's location, into which a given value is stored
    /// after its conversion to the element type.
    pub fn emit_array_push(base: &SlangType, value_type: Option<&MlirType>) -> (result: PushPlan)
        requires
            spec_push_base(*base),
        ensures
            spec_array_push(
                result,
                *base,
                match value_type {
                    Some(v) => Some(v@),
                    None => None,
                },
            ),
    {
        if let SlangType::Bytes(_) = base {
            if value_type.is_some() {
                return PushPlan::PushByte;
            }
        }
        let element_type = push_element(base);
        let location = push_location(base);
        let slot_type = MlirType::Pointer(Box::new(element_type.duplicate()), location);
        let store = match value_type {
            Some(value) => Some(TypeConversion::from_target_type(element_type.duplicate()).emit(value)),
            None => None,
        };
        PushPlan::PushSlot { element_type, slot_type, store }
    }
}

/// A value-typed element is always reached through a pointer at the receiver's location,
/// and a reference-typed element never is.
pub proof fn lemma_push_slot_pointer(base: SlangType)
    requires
        spec_push_base(base),
    ensures
        spec_push_slot_type(base) is Pointer <==> !spec_is_reference(spec_push_element(base)),
{
}

/// `push` appends an element of the receiver's own element type: an array's element
/// resolved, `bytes1` for `bytes`; the new slot is a pointer to that element at the
/// receiver's declared location, and a pushed value is converted to the element type
/// before it is stored.
pub proof fn lemma_push_appends_element(
    plan: PushPlan,
    element: SlangType,
    location: SlangDataLocation,
    value: Option<TypeView>,
)
    requires
        location != SlangDataLocation::Inherited,
        spec_array_push(plan, SlangType::Array(Box::new(element), location), value),
    ensures
        plan matches PushPlan::PushSlot { element_type, slot_type, store } && element_type@ == spec_resolve(
            element,
            None,
        ) && slot_type@ == TypeView::Pointer(
            Box::new(spec_resolve(element, None)),
            spec_location_from_slang(location, None)->0,
        ) && (store is Some <==> value is Some),
        spec_push_element(SlangType::Bytes(location)) == TypeView::FixedBytes(1),
{
}

} // verus!
