//! `abi.decode(payload, T)` and `abi.decode(payload, (A, B, ...))`: the types a
//! `sol.decode` yields.

use vstd::prelude::*;

use crate::context::{CallContext, ExpressionContext};

use crate::mlir_type::{MlirType, TypeView, type_views, lemma_type_views};
use crate::slang_type::SlangType;
use crate::type_conversion::{all_resolvable, resolvable, spec_resolve, spec_resolve_all, TypeConversion};

verus! {

/// The types `abi.decode` yields for the call's type: one per tuple element, or the one
/// requested type.
pub open spec fn spec_decode_result_types(call_type: SlangType) -> Seq<TypeView> {
    match call_type {
        SlangType::Tuple(types) => spec_resolve_all(types@, None),
        other => seq![spec_resolve(other, None)],
    }
}

/// Whether the requested types resolve.
pub open spec fn spec_decode_resolvable(call_type: SlangType) -> bool {
    match call_type {
        SlangType::Tuple(types) => all_resolvable(types@, None),
        other => resolvable(other, None),
    }
}

impl ExpressionContext {
    /// The result types of an `abi.decode` call (see [`spec_decode_result_types`]).
    pub fn abi_decode_result_types(call_type: &SlangType) -> (result: Vec<MlirType>)
        requires
            spec_decode_resolvable(*call_type),
        ensures
            type_views(result@) == spec_decode_result_types(*call_type),
    {
        match call_type {
            SlangType::Tuple(types) => TypeConversion::resolve_all(types, None),
            other => {
                let mut result: Vec<MlirType> = Vec::new();
                result.push(TypeConversion::resolve_slang_type(other, None));
                proof {
                    lemma_type_views(result@);
                }
                assert(type_views(result@) =~= seq![spec_resolve(*other, None)]);
                result
            },
        }
    }
}

impl CallContext {
    /// The single result type of an `abi.decode` call that requests one type (the
    /// payload argument is decoded to it).
    pub fn emit_abi_decode(call_type: &SlangType, argument_count: usize) -> (result: MlirType)
        requires
            !(call_type is Tuple),
            argument_count >= 1,
            resolvable(*call_type, None),
        ensures
            result@ == spec_resolve(*call_type, None),
            seq![result@] == spec_decode_result_types(*call_type),
    {
        TypeConversion::resolve_slang_type(call_type, None)
    }
}

} // verus!
