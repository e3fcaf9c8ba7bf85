//! The ABI signature of the getter that a `public` state variable synthesises.

use vstd::prelude::*;

use crate::context::ExpressionContext;

use crate::mlir_type::{MlirType, TypeView, type_views, type_view};
use crate::location::SlangDataLocation;
use crate::slang_type::SlangType;
use crate::type_conversion::{resolvable, spec_resolve, TypeConversion};

verus! {

/// The parameter and result types of a getter.
pub open spec fn spec_getter_signature(
    declared_type: Option<SlangType>,
    struct_layout: Option<Seq<TypeView>>,
) -> Option<(Seq<TypeView>, Seq<TypeView>)> {
    match declared_type {
        None => None,
        Some(SlangType::Mapping(key, value)) => if key.spec_is_reference_type()
            || value.spec_is_reference_type() {
            None
        } else {
            Some((seq![spec_resolve(*key, None)], seq![spec_resolve(*value, None)]))
        },
        Some(SlangType::Array(element, _)) => if element.spec_is_reference_type() {
            None
        } else {
            Some((seq![TypeView::Unsigned(256)], seq![spec_resolve(*element, None)]))
        },
        Some(SlangType::FixedSizeArray(element, _, _)) => if element.spec_is_reference_type() {
            None
        } else {
            Some((seq![TypeView::Unsigned(256)], seq![spec_resolve(*element, None)]))
        },
        Some(SlangType::Struct(_, _)) => match struct_layout {
            Some(layout) => Some((Seq::empty(), layout)),
            None => None,
        },
        Some(other) => if other.spec_is_reference_type() {
            None
        } else {
            Some((Seq::empty(), seq![spec_resolve(other, None)]))
        },
    }
}

/// Whether every type that the getter signature resolves has a Sol dialect type.
pub open spec fn spec_getter_types_resolvable(declared_type: Option<SlangType>) -> bool {
    match declared_type {
        None => true,
        Some(SlangType::Mapping(key, value)) => (key.spec_is_reference_type()
            || value.spec_is_reference_type()) || (resolvable(*key, None) && resolvable(*value, None)),
        Some(SlangType::Array(element, _)) => element.spec_is_reference_type() || resolvable(*element, None),
        Some(SlangType::FixedSizeArray(element, _, _)) => element.spec_is_reference_type()
            || resolvable(*element, None),
        Some(SlangType::Struct(_, _)) => true,
        Some(other) => other.spec_is_reference_type() || resolvable(other, None),
    }
}

/// A list of one type.
fn single(t: MlirType) -> (result: Vec<MlirType>)
    ensures
        type_views(result@) == seq![t@],
{
    let mut result: Vec<MlirType> = Vec::new();
    result.push(t);
    proof {
        crate::mlir_type::lemma_type_views(result@);
        assert(type_views(result@) =~= seq![type_view(t)]);
    }
    result
}

impl ExpressionContext {
    /// The getter's ABI signature: a scalar `T x` is `() -> (T)`; a mapping `(K) -> (V)`;
    /// an array `(uint256) -> (element)`; a struct `() -> (returnable members)`, as the
    /// struct's getter layout gives them. A reference-typed key, value or element, a
    /// struct without a layout, and an untyped variable have none.
    pub fn getter_signature(declared_type: Option<&SlangType>, struct_layout: Option<&Vec<MlirType>>) -> (result: Option<(Vec<MlirType>, Vec<MlirType>)>)
        requires
            spec_getter_types_resolvable(match declared_type {
                Some(t) => Some(*t),
                None => None,
            }),
        ensures
            match (result, spec_getter_signature(
                match declared_type {
                    Some(t) => Some(*t),
                    None => None,
                },
                match struct_layout {
                    Some(l) => Some(type_views(l@)),
                    None => None,
                },
            )) {
                (None, None) => true,
                (Some((parameters, results)), Some((spec_parameters, spec_results))) => type_views(parameters@)
                    == spec_parameters && type_views(results@) == spec_results,
                _ => false,
            },
    {
        let declared_type = match declared_type {
            Some(t) => t,
            None => return None,
        };
        match declared_type {
            SlangType::Mapping(key, value) => {
                if key.is_reference_type() || value.is_reference_type() {
                    return None;
                }
                let key_type = TypeConversion::resolve_slang_type(key, None);
                let value_type = TypeConversion::resolve_slang_type(value, None);
                Some((single(key_type), single(value_type)))
            },
            SlangType::Array(element, _) | SlangType::FixedSizeArray(element, _, _) => {
                if element.is_reference_type() {
                    return None;
                }
                let element_type = TypeConversion::resolve_slang_type(element, None);
                Some((single(MlirType::ui256()), single(element_type)))
            },
            SlangType::Struct(_, _) => match struct_layout {
                Some(layout) => {
                    let empty: Vec<MlirType> = Vec::new();
                    proof {
                        assert(type_views(empty@) =~= Seq::<TypeView>::empty());
                    }
                    Some((empty, MlirType::duplicate_list(layout)))
                },
                None => None,
            },
            other => {
                if other.is_reference_type() {
                    return None;
                }
                let empty: Vec<MlirType> = Vec::new();
                proof {
                    assert(type_views(empty@) =~= Seq::<TypeView>::empty());
                }
                Some((empty, single(TypeConversion::resolve_slang_type(other, None))))
            },
        }
    }
}

/// A mapping or array getter takes exactly one key and returns exactly one value, and a
/// scalar getter takes no key: the getter signature never takes more than one parameter.
pub proof fn lemma_getter_arity(declared_type: Option<SlangType>, struct_layout: Option<Seq<TypeView>>)
    requires
        spec_getter_signature(declared_type, struct_layout) is Some,
    ensures
        spec_getter_signature(declared_type, struct_layout).unwrap().0.len() <= 1,
        !(declared_type matches Some(SlangType::Struct(_, _))) ==> spec_getter_signature(
            declared_type,
            struct_layout,
        ).unwrap().1.len() == 1,
{
}

/// The getter of an array, dynamic or fixed-size, whose element is not a reference type
/// takes exactly one parameter, the `ui256` index, and returns exactly the element; the
/// getter of such a mapping takes the key and returns the value; a scalar getter takes
/// nothing and returns the value. The declared length of a fixed-size array plays no part.
pub proof fn lemma_getter_parameters(
    element: SlangType,
    key: SlangType,
    n: u64,
    location: SlangDataLocation,
    struct_layout: Option<Seq<TypeView>>,
)
    requires
        !element.spec_is_reference_type(),
        !key.spec_is_reference_type(),
    ensures
        spec_getter_signature(Some(SlangType::FixedSizeArray(Box::new(element), n, location)), struct_layout)
            == Some((seq![TypeView::Unsigned(256)], seq![spec_resolve(element, None)])),
        spec_getter_signature(Some(SlangType::Array(Box::new(element), location)), struct_layout) == Some(
            (seq![TypeView::Unsigned(256)], seq![spec_resolve(element, None)]),
        ),
        spec_getter_signature(Some(SlangType::Mapping(Box::new(key), Box::new(element))), struct_layout)
            == Some((seq![spec_resolve(key, None)], seq![spec_resolve(element, None)])),
        !(element is Mapping || element is Struct || element is Array || element is FixedSizeArray)
            ==> spec_getter_signature(Some(element), struct_layout) == Some(
            (Seq::<TypeView>::empty(), seq![spec_resolve(element, None)]),
        ),
{
}

} // verus!
