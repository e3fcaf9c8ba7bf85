//! Index access `a[i]`, `m[k]` and slices `a[i:j]`: the address an access denotes, and
//! the conversions around the load.

use vstd::prelude::*;

use crate::expression::ExpressionEmitter;

use crate::location::DataLocation;
use crate::mlir_type::{MlirType, TypeView, spec_is_reference, type_view};
use crate::slang_type::SlangType;
use crate::type_conversion::{resolvable, spec_resolve, TypeConversion};

verus! {

/// The type of the address `sol.gep` / `sol.map` yields: the element type itself when the
/// element is a reference type in storage or calldata, else a pointer to the element at
/// the base's location.
pub open spec fn spec_address_type(element: TypeView, location: DataLocation, result_is_reference: bool) -> TypeView {
    if result_is_reference && (location == DataLocation::Storage || location == DataLocation::CallData) {
        element
    } else {
        TypeView::Pointer(Box::new(element), location)
    }
}

/// The address an index access denotes.
#[derive(Debug)]
pub enum IndexPlace {
    /// `m[k]`: `sol.map` of the key to an address of `address_type`, holding `element_type`.
    MapEntry { element_type: MlirType, address_type: MlirType },
    /// `a[i]`: `sol.gep` at the index, holding `element_type`, the element type of the
    /// base value.
    Element { element_type: MlirType },
}

/// A value an index access evaluates.
#[derive(Debug, Clone, Copy, PartialEq, Eq, Structural)]
pub enum IndexOperand {
    /// The base `a` of `a[i]`.
    Base,
    /// The index `i` of `a[i]`.
    Index,
}

/// The lowering of `base[index]`: the values evaluated, in order, and the address.
#[derive(Debug)]
pub struct IndexAccessPlace {
    /// The values evaluated, in order.
    pub evaluation: (IndexOperand, IndexOperand),
    /// The address the access denotes.
    pub place: IndexPlace,
}

/// The type of the element a `sol.gep` at an index reaches in a value of this type:
/// an array's element, a byte of a string, the first member of a struct.
pub open spec fn spec_element_type(t: TypeView) -> Option<TypeView> {
    match t {
        TypeView::Array(_, element, _) => Some(*element),
        TypeView::String(_) => Some(TypeView::Byte),
        TypeView::Struct(members, _) => if members.len() > 0 {
            Some(members[0])
        } else {
            None
        },
        _ => None,
    }
}

/// The element type a `sol.gep` reaches in a value of this type.
pub fn gep_element_type(t: &MlirType) -> (result: Option<MlirType>)
    ensures
        result matches Some(found) ==> spec_element_type(t@) == Some(found@),
        result is None ==> spec_element_type(t@) is None,
{
    match t {
        MlirType::Array(_, element, _) => {
            let inner = element.duplicate();
            proof {
                assert(type_view(*t) matches TypeView::Array(_, boxed, _) && *boxed == type_view(**element));
            }
            Some(inner)
        },
        MlirType::String(_) => Some(MlirType::Byte),
        MlirType::Struct(members, _) => {
            proof {
                crate::mlir_type::lemma_type_views(members@);
            }
            if members.len() > 0 {
                Some(members[0].duplicate())
            } else {
                None
            }
        },
        _ => None,
    }
}

/// A bound of a slice `a[start:end]`.
#[derive(Debug, Clone, Copy, PartialEq, Eq, Structural)]
pub enum SliceBound {
    /// The written bound, cast to `ui256`.
    Given,
    /// An omitted start: a `ui256` zero.
    Zero,
    /// An omitted end: the length of the base.
    Length,
}

/// A `sol.slice`: its bounds and result type.
pub struct SlicePlan {
    /// The start bound.
    pub start: SliceBound,
    /// The end bound.
    pub end: SliceBound,
    /// The type of the sub-array.
    pub result_type: MlirType,
}

impl ExpressionEmitter {
    /// The address type of an element of `element_type` reached through a base at
    /// `base_location` (see [`spec_address_type`]).
    pub fn address_type(element_type: MlirType, base_location: DataLocation, result_type: &SlangType) -> (result: MlirType)
        ensures
            result@ == spec_address_type(element_type@, base_location, result_type.spec_is_reference_type()),
    {
        let in_place = match base_location {
            DataLocation::Storage | DataLocation::CallData => true,
            _ => false,
        };
        if result_type.is_reference_type() && in_place {
            element_type
        } else {
            MlirType::Pointer(Box::new(element_type), base_location)
        }
    }
}

/// An index access expression `a[i]`, `m[k]` or `a[i:j]`.
pub struct IndexAccessExpression;

impl IndexAccessExpression {
    /// The address `base[index]` denotes, after evaluating the base and then the index: a
    /// mapping (in storage) maps the key to an address of the resolved result type; any
    /// other base takes the indexed element, of the element type of the base value's type
    /// `base_value_type`.
    pub fn emit_place(base_type: &SlangType, result_type: &SlangType, base_value_type: &MlirType, has_end: bool) -> (result: IndexAccessPlace)
        requires
            !has_end,
            base_type is Mapping ==> resolvable(*result_type, None),
            !(base_type is Mapping) ==> spec_element_type(base_value_type@) is Some,
        ensures
            result.evaluation == (IndexOperand::Base, IndexOperand::Index),
            base_type is Mapping <==> result.place is MapEntry,
            result.place matches IndexPlace::Element { element_type } ==> Some(element_type@) == spec_element_type(
                base_value_type@,
            ),
            result.place matches IndexPlace::MapEntry { element_type, address_type } ==> {
                &&& element_type@ == spec_resolve(*result_type, None)
                &&& address_type@ == spec_address_type(
                    spec_resolve(*result_type, None),
                    DataLocation::Storage,
                    result_type.spec_is_reference_type(),
                )
            },
    {
        let place = match base_type {
            SlangType::Mapping(_, _) => {
                let element_type = TypeConversion::resolve_slang_type(result_type, None);
                let address_type = ExpressionEmitter::address_type(element_type.duplicate(), DataLocation::Storage, result_type);
                IndexPlace::MapEntry { element_type, address_type }
            },
            _ => match gep_element_type(base_value_type) {
                Some(element_type) => IndexPlace::Element { element_type },
                None => IndexPlace::Element { element_type: MlirType::Byte },
            },
        };
        IndexAccessPlace { evaluation: (IndexOperand::Base, IndexOperand::Index), place }
    }

    /// The `sol.slice` of `base[start:end]`: an omitted start is zero and an omitted end the
    /// base's length; the result is the resolved type of the access.
    pub fn emit_slice(has_start: bool, has_end: bool, result_type: &SlangType) -> (result: SlicePlan)
        requires
            resolvable(*result_type, None),
        ensures
            result.start == (if has_start { SliceBound::Given } else { SliceBound::Zero }),
            result.end == (if has_end { SliceBound::Given } else { SliceBound::Length }),
            result.result_type@ == spec_resolve(*result_type, None),
    {
        SlicePlan {
            start: if has_start { SliceBound::Given } else { SliceBound::Zero },
            end: if has_end { SliceBound::Given } else { SliceBound::Length },
            result_type: TypeConversion::resolve_slang_type(result_type, None),
        }
    }

    /// The cast after loading an element of `loaded_type`: a reference is kept as loaded,
    /// a scalar is cast to the access's resolved type.
    pub fn load_conversion(loaded_type: &MlirType, result_type: &SlangType) -> (result: Option<MlirType>)
        requires
            !spec_is_reference(loaded_type@) ==> resolvable(*result_type, None),
        ensures
            spec_is_reference(loaded_type@) <==> result is None,
            result matches Some(t) ==> t@ == spec_resolve(*result_type, None),
    {
        if loaded_type.is_reference() {
            None
        } else {
            Some(TypeConversion::resolve_slang_type(result_type, None))
        }
    }
}

/// An element is reached through a pointer except a reference element of a storage or
/// calldata base, which is its own address; memory elements are always behind a pointer.
pub proof fn lemma_address_type_pointer(element: TypeView, location: DataLocation, result_is_reference: bool)
    ensures
        spec_address_type(element, location, result_is_reference) is Pointer <==> !(result_is_reference && (
        location == DataLocation::Storage || location == DataLocation::CallData)) || element is Pointer,
        location == DataLocation::Memory ==> spec_address_type(element, location, result_is_reference)
            == TypeView::Pointer(Box::new(element), location),
{
}

/// `a[i]` reaches an element of the base value's own element type: an array's element,
/// a byte of a string; and a mapping entry or an element is reached through a pointer at
/// the base's location, except a reference-typed element of a storage or calldata base,
/// which is its own address.
pub proof fn lemma_index_reaches_element(
    size: crate::mlir_type::ArraySize,
    element: TypeView,
    location: DataLocation,
    result_is_reference: bool,
)
    ensures
        spec_element_type(TypeView::Array(size, Box::new(element), location)) == Some(element),
        spec_element_type(TypeView::String(location)) == Some(TypeView::Byte),
        !result_is_reference ==> spec_address_type(element, location, result_is_reference) == TypeView::Pointer(
            Box::new(element),
            location,
        ),
        location == DataLocation::Memory ==> spec_address_type(element, location, result_is_reference)
            == TypeView::Pointer(Box::new(element), location),
        (result_is_reference && location == DataLocation::Storage) ==> spec_address_type(
            element,
            location,
            result_is_reference,
        ) == element,
{
}

} // verus!
