//! Struct fields `s.f`, tuple components, and the inline initializers of state variables.

use vstd::prelude::*;
use vstd::string::StringExecFns;

use crate::expression::ExpressionEmitter;
use crate::index_access::spec_address_type;
use crate::location::DataLocation;
use crate::mlir_type::{MlirType, TypeView};
use crate::slang_type::SlangType;
use crate::type_conversion::{
    ConversionStep, TypeConversion, resolvable, spec_resolve, spec_steps_to, UnresolvedStateVariable,
};

verus! {

/// A struct has no member of the accessed name.
#[derive(Debug, Clone, PartialEq, Eq)]
pub struct UnknownStructMember {
    /// The accessed name.
    pub name: String,
}

/// The index of the first member named `name`.
pub open spec fn spec_field_index(names: Seq<Seq<char>>, name: Seq<char>) -> Option<int>
    decreases names.len(),
{
    if names.len() == 0 {
        None
    } else if names[0] == name {
        Some(0)
    } else {
        match spec_field_index(names.subrange(1, names.len() as int), name) {
            Some(i) => Some(i + 1),
            None => None,
        }
    }
}

/// The names of a list of members.
pub open spec fn spec_names(names: Seq<String>) -> Seq<Seq<char>> {
    names.map_values(|n: String| n@)
}

/// How an expression yields its component values.
#[derive(Debug, Clone, Copy, PartialEq, Eq, Structural)]
pub enum ComponentValues {
    /// One value: a non-tuple, or a tuple of at most one item (a parenthesized
    /// expression).
    Single,
    /// One value per item of a tuple of more than one item.
    Components(usize),
}

/// A state variable and its inline initializer, as their lowering reads them.
#[derive(Debug)]
pub struct StateVariableInitializer {
    /// The variable's name.
    pub name: String,
    /// Whether the storage layout has a slot for it.
    pub has_slot: bool,
    /// The initializer's value type, if the variable has an initializer.
    pub initializer_type: Option<MlirType>,
    /// Whether the initializer is an array literal.
    pub array_literal: bool,
    /// The declared type, if the binder resolved it.
    pub declared_type: Option<SlangType>,
}

/// How an initialized state variable is written.
#[derive(Debug)]
pub enum InitializerWrite {
    /// A reference-typed slot: `sol.copy` of the value into the storage reference.
    Copy,
    /// A value-typed slot: the value converted to the element type, then `sol.store`.
    Store(ConversionStep),
}

/// The initialization of one state variable: which variable, the type of its storage
/// address, and how the value is written.
#[derive(Debug)]
pub struct InitializerPlan {
    /// The position of the variable among the contract's state variables.
    pub index: usize,
    /// The type of the address `sol.addr_of` yields for the slot.
    pub address_type: MlirType,
    /// How the value is written.
    pub write: InitializerWrite,
}

/// Whether a state variable is initialized inline: it has a slot and an initializer.
pub open spec fn spec_initialized(variable: StateVariableInitializer) -> bool {
    variable.has_slot && variable.initializer_type is Some
}

/// Whether the initializers can be lowered as far as the first unresolved type: no
/// initialized variable has an array literal, and every resolved declared type resolves.
pub open spec fn spec_initializers_supported(variables: Seq<StateVariableInitializer>) -> bool {
    forall|i: int| 0 <= i < variables.len() && spec_initialized(#[trigger] variables[i]) ==> {
        &&& !variables[i].array_literal
        &&& variables[i].declared_type matches Some(t) ==> resolvable(t, None)
    }
}

/// The position of the first initialized variable without a declared type.
pub open spec fn spec_first_unresolved(variables: Seq<StateVariableInitializer>) -> Option<int> {
    if exists|i: int| 0 <= i < variables.len() && spec_initialized(#[trigger] variables[i]) && variables[i].declared_type is None {
        Some(choose|i: int| 0 <= i < variables.len() && spec_initialized(#[trigger] variables[i])
            && variables[i].declared_type is None && forall|j: int| 0 <= j < i ==> !(spec_initialized(
            #[trigger] variables[j]) && variables[j].declared_type is None))
    } else {
        None
    }
}

/// A storage slot reached through `sol.addr_of`: the slot's name and the pointer type
/// (`!sol.ptr<element, Storage>`) the load or store goes through.
pub struct StorageAccess {
    /// The slot's name.
    pub slot_name: String,
    /// The pointer type of `sol.addr_of`.
    pub pointer_type: MlirType,
}

/// Whether an access reaches the named slot through a storage pointer to the element.
pub open spec fn spec_storage_access(access: StorageAccess, slot_name: Seq<char>, element: TypeView) -> bool {
    &&& access.slot_name@ == slot_name
    &&& access.pointer_type@ == TypeView::Pointer(Box::new(element), DataLocation::Storage)
}

impl ExpressionEmitter {
    /// A storage load: `sol.addr_of` of the slot as a storage pointer to the element,
    /// then `sol.load` of the element type.
    pub fn emit_storage_load(slot_name: &str, element_type: &MlirType) -> (result: StorageAccess)
        ensures
            spec_storage_access(result, slot_name@, element_type@),
    {
        Self::emit_storage_addr_of(slot_name, element_type)
    }

    /// A storage store: `sol.addr_of` of the slot as a storage pointer to the element,
    /// then `sol.store` of the value.
    pub fn emit_storage_store(slot_name: &str, element_type: &MlirType) -> (result: StorageAccess)
        ensures
            spec_storage_access(result, slot_name@, element_type@),
    {
        Self::emit_storage_addr_of(slot_name, element_type)
    }

    /// The `sol.addr_of` of a slot, as a storage pointer to the element.
    fn emit_storage_addr_of(slot_name: &str, element_type: &MlirType) -> (result: StorageAccess)
        ensures
            spec_storage_access(result, slot_name@, element_type@),
    {
        StorageAccess {
            slot_name: String::from_str(slot_name),
            pointer_type: MlirType::Pointer(Box::new(element_type.duplicate()), DataLocation::Storage),
        }
    }
}

/// A storage load and a storage store of the same slot and element type go through the
/// same pointer.
pub proof fn lemma_storage_load_store_same_pointer(
    load: StorageAccess,
    store: StorageAccess,
    slot_name: Seq<char>,
    element: TypeView,
)
    requires
        spec_storage_access(load, slot_name, element),
        spec_storage_access(store, slot_name, element),
    ensures
        load.slot_name@ == store.slot_name@,
        load.pointer_type@ == store.pointer_type@,
{
}

impl ExpressionEmitter {
    /// The index of the struct member named `member_name`: the first member of that name.
    pub fn emit_struct_field_address(member_names: &Vec<String>, member_name: &String) -> (result: Result<usize, UnknownStructMember>)
        ensures
            match result {
                Ok(i) => spec_field_index(spec_names(member_names@), member_name@) == Some(i as int),
                Err(e) => spec_field_index(spec_names(member_names@), member_name@) is None && e.name@
                    == member_name@,
            },
    {
        let ghost names = spec_names(member_names@);
        let mut i: usize = 0;
        while i < member_names.len()
            invariant
                i <= member_names@.len(),
                names == spec_names(member_names@),
                names.len() == member_names@.len(),
                forall|j: int| 0 <= j < i ==> names[j] != member_name@,
            decreases member_names@.len() - i,
        {
            if member_names[i] == *member_name {
                proof {
                    assert(names[i as int] == member_names@[i as int]@);
                    lemma_field_index(names, member_name@, i as int);
                }
                return Ok(i);
            }
            proof {
                assert(names[i as int] == member_names@[i as int]@);
            }
            i += 1;
        }
        proof {
            lemma_field_index_absent(names, member_name@);
        }
        Err(UnknownStructMember { name: member_name.clone() })
    }

    /// How an expression yields its component values: one per item of a tuple of more
    /// than one item, else one.
    pub fn emit_component_values(is_tuple: bool, item_count: usize, all_items_present: bool) -> (result: ComponentValues)
        requires
            is_tuple && item_count > 1 ==> all_items_present,
        ensures
            result == (if is_tuple && item_count > 1 {
                ComponentValues::Components(item_count)
            } else {
                ComponentValues::Single
            }),
    {
        if is_tuple && item_count > 1 {
            ComponentValues::Components(item_count)
        } else {
            ComponentValues::Single
        }
    }

    /// The initializations of a contract's state variables, in source order: each variable
    /// with a slot and an initializer is written at its storage address (by copy for a
    /// reference type, by a converted store otherwise); an initialized variable whose type
    /// the binder did not resolve fails.
    pub fn emit_state_var_initializers(variables: &Vec<StateVariableInitializer>) -> (result: Result<Vec<InitializerPlan>, UnresolvedStateVariable>)
        requires
            spec_initializers_supported(variables@),
        ensures
            match result {
                Ok(plans) => {
                    &&& spec_first_unresolved(variables@) is None
                    &&& forall|k: int| 0 <= k < plans@.len() ==> {
                        let plan = #[trigger] plans@[k];
                        let variable = variables@[plan.index as int];
                        &&& plan.index < variables@.len()
                        &&& spec_initialized(variable)
                        &&& plan.address_type@ == spec_address_type(
                            spec_resolve(variable.declared_type->0, None),
                            DataLocation::Storage,
                            variable.declared_type->0.spec_is_reference_type(),
                        )
                        &&& match plan.write {
                            InitializerWrite::Copy => variable.declared_type->0.spec_is_reference_type(),
                            InitializerWrite::Store(step) => !variable.declared_type->0.spec_is_reference_type()
                                && step@ == spec_steps_to(
                                    spec_resolve(variable.declared_type->0, None),
                                    variable.initializer_type->0@,
                                ),
                        }
                    }
                    &&& forall|k: int, l: int| 0 <= k < l < plans@.len() ==> plans@[k].index < plans@[l].index
                    &&& forall|i: int| 0 <= i < variables@.len() && spec_initialized(#[trigger] variables@[i])
                        ==> exists|k: int| 0 <= k < plans@.len() && #[trigger] plans@[k].index == i
                },
                Err(e) => spec_first_unresolved(variables@) matches Some(i) && e.name@ == variables@[i].name@,
            },
    {
        let mut plans: Vec<InitializerPlan> = Vec::new();
        let mut i: usize = 0;
        while i < variables.len()
            invariant
                i <= variables@.len(),
                spec_initializers_supported(variables@),
                forall|j: int| 0 <= j < i ==> !(spec_initialized(#[trigger] variables@[j])
                    && variables@[j].declared_type is None),
                forall|k: int| 0 <= k < plans@.len() ==> {
                    let plan = #[trigger] plans@[k];
                    let variable = variables@[plan.index as int];
                    &&& plan.index < i
                    &&& spec_initialized(variable)
                    &&& variable.declared_type is Some
                    &&& plan.address_type@ == spec_address_type(
                        spec_resolve(variable.declared_type->0, None),
                        DataLocation::Storage,
                        variable.declared_type->0.spec_is_reference_type(),
                    )
                    &&& match plan.write {
                        InitializerWrite::Copy => variable.declared_type->0.spec_is_reference_type(),
                        InitializerWrite::Store(step) => !variable.declared_type->0.spec_is_reference_type()
                            && step@ == spec_steps_to(
                                spec_resolve(variable.declared_type->0, None),
                                variable.initializer_type->0@,
                            ),
                    }
                },
                forall|k: int, l: int| 0 <= k < l < plans@.len() ==> plans@[k].index < plans@[l].index,
                forall|j: int| 0 <= j < i && spec_initialized(#[trigger] variables@[j]) ==> exists|k: int|
                    0 <= k < plans@.len() && #[trigger] plans@[k].index == j,
            decreases variables@.len() - i,
        {
            let variable = &variables[i];
            if variable.has_slot {
                if let Some(initializer_type) = &variable.initializer_type {
                    proof {
                        assert(spec_initialized(variables@[i as int]));
                    }
                    let declared_type = match &variable.declared_type {
                        Some(t) => t,
                        None => {
                            proof {
                                lemma_first_unresolved(variables@, i as int);
                            }
                            return Err(UnresolvedStateVariable { name: variable.name.clone() });
                        },
                    };
                    let element_type = TypeConversion::resolve_slang_type(declared_type, None);
                    let address_type = ExpressionEmitter::address_type(
                        element_type.duplicate(),
                        DataLocation::Storage,
                        declared_type,
                    );
                    let write = if declared_type.is_reference_type() {
                        InitializerWrite::Copy
                    } else {
                        proof {
                            crate::type_conversion::lemma_steps_to(element_type, initializer_type@);
                        }
                        InitializerWrite::Store(TypeConversion::from_target_type(element_type).emit(initializer_type))
                    };
                    let ghost old_plans = plans@;
                    plans.push(InitializerPlan { index: i, address_type, write });
                    proof {
                        assert forall|j: int| 0 <= j < i + 1 && spec_initialized(#[trigger] variables@[j]) implies exists|k: int|
                            0 <= k < plans@.len() && #[trigger] plans@[k].index == j by {
                            if j < i {
                                let k = choose|k: int| 0 <= k < old_plans.len() && #[trigger] old_plans[k].index == j;
                                assert(plans@[k] == old_plans[k]);
                            } else {
                                assert(plans@[plans@.len() - 1].index == j);
                            }
                        }
                    }
                }
            }
            i += 1;
        }
        proof {
            assert(spec_first_unresolved(variables@) is None);
        }
        Ok(plans)
    }
}

/// A position where `name` occurs, with no earlier occurrence, is its index.
pub proof fn lemma_field_index(names: Seq<Seq<char>>, name: Seq<char>, i: int)
    requires
        0 <= i < names.len(),
        names[i] == name,
        forall|j: int| 0 <= j < i ==> names[j] != name,
    ensures
        spec_field_index(names, name) == Some(i),
    decreases i,
{
    if i > 0 {
        let rest = names.subrange(1, names.len() as int);
        assert forall|j: int| 0 <= j < i - 1 implies rest[j] != name by {
            assert(rest[j] == names[j + 1]);
        }
        lemma_field_index(rest, name, i - 1);
    }
}

/// A name that occurs nowhere has no index.
pub proof fn lemma_field_index_absent(names: Seq<Seq<char>>, name: Seq<char>)
    requires
        forall|j: int| 0 <= j < names.len() ==> names[j] != name,
    ensures
        spec_field_index(names, name) is None,
    decreases names.len(),
{
    if names.len() > 0 {
        let rest = names.subrange(1, names.len() as int);
        assert forall|j: int| 0 <= j < rest.len() implies rest[j] != name by {
            assert(rest[j] == names[j + 1]);
        }
        lemma_field_index_absent(rest, name);
    }
}

/// The first unresolved initialized variable is the one the lowering stops at.
proof fn lemma_first_unresolved(variables: Seq<StateVariableInitializer>, i: int)
    requires
        0 <= i < variables.len(),
        spec_initialized(variables[i]),
        variables[i].declared_type is None,
        forall|j: int| 0 <= j < i ==> !(spec_initialized(#[trigger] variables[j]) && variables[j].declared_type is None),
    ensures
        spec_first_unresolved(variables) == Some(i),
{
    let w = choose|k: int| 0 <= k < variables.len() && spec_initialized(#[trigger] variables[k])
        && variables[k].declared_type is None && forall|j: int| 0 <= j < k ==> !(spec_initialized(
        #[trigger] variables[j]) && variables[j].declared_type is None);
    assert(0 <= i < variables.len() && spec_initialized(variables[i]) && variables[i].declared_type is None
        && forall|j: int| 0 <= j < i ==> !(spec_initialized(#[trigger] variables[j]) && variables[j].declared_type is None));
    if w < i {
        assert(!(spec_initialized(variables[w]) && variables[w].declared_type is None));
    } else if w > i {
        assert(!(spec_initialized(variables[i]) && variables[i].declared_type is None));
    }
}

} // verus!
