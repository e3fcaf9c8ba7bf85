//! Struct literals `S(a, b, c)`: a memory struct, each field stored from its argument.

use vstd::prelude::*;

use crate::context::CallContext;

use crate::location::DataLocation;
use crate::mlir_type::{MlirType, TypeView, type_view};
use crate::slang_type::SlangType;
use crate::type_conversion::{
    ConversionStep, TypeConversion, resolvable, spec_resolve, spec_steps_to, lemma_steps_to,
};

verus! {

/// The store of one field of a struct literal: the `ui64` index of the `sol.gep`, the
/// field's type, and the conversion of the argument to it.
#[derive(Debug)]
pub struct FieldStore {
    /// The field's position.
    pub index: u64,
    /// The field's type, in memory.
    pub field_type: MlirType,
    /// The conversion of the argument to the field's type.
    pub step: ConversionStep,
}

impl CallContext {
    /// The field stores of a struct literal with arguments (in member order) of
    /// `argument_types`: one per member that has an argument, at the member's position, of
    /// the member's type in memory, the argument converted to it.
    pub fn emit_struct_constructor(member_types: &Vec<SlangType>, argument_types: &Vec<MlirType>) -> (result: Vec<FieldStore>)
        requires
            forall|i: int| 0 <= i < member_types@.len() ==> resolvable(#[trigger] member_types@[i], Some(DataLocation::Memory)),
        ensures
            result@.len() == (if member_types@.len() <= argument_types@.len() {
                member_types@.len()
            } else {
                argument_types@.len()
            }),
            forall|i: int| 0 <= i < result@.len() ==> {
                &&& (#[trigger] result@[i]).index == i
                &&& result@[i].field_type@ == spec_resolve(member_types@[i], Some(DataLocation::Memory))
                &&& result@[i].step@ == spec_steps_to(
                    spec_resolve(member_types@[i], Some(DataLocation::Memory)),
                    type_view(argument_types@[i]),
                )
            },
    {
        let count = if member_types.len() <= argument_types.len() {
            member_types.len()
        } else {
            argument_types.len()
        };
        let mut result: Vec<FieldStore> = Vec::new();
        let mut i: usize = 0;
        while i < count
            invariant
                i <= count,
                count <= member_types@.len(),
                count <= argument_types@.len(),
                forall|j: int| 0 <= j < member_types@.len() ==> resolvable(#[trigger] member_types@[j], Some(DataLocation::Memory)),
                result@.len() == i,
                forall|j: int| 0 <= j < i ==> {
                    &&& (#[trigger] result@[j]).index == j
                    &&& result@[j].field_type@ == spec_resolve(member_types@[j], Some(DataLocation::Memory))
                    &&& result@[j].step@ == spec_steps_to(
                        spec_resolve(member_types@[j], Some(DataLocation::Memory)),
                        type_view(argument_types@[j]),
                    )
                },
            decreases count - i,
        {
            let field_type = TypeConversion::resolve_slang_type(&member_types[i], Some(DataLocation::Memory));
            let target = field_type.duplicate();
            proof {
                lemma_steps_to(target, type_view(argument_types@[i as int]));
            }
            let step = TypeConversion::from_target_type(target).emit(&argument_types[i]);
            result.push(FieldStore { index: i as u64, field_type, step });
            i += 1;
        }
        result
    }
}

} // verus!
