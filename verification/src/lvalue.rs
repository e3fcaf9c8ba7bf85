//! Assignable locations: what a target of assignment, compound assignment, `++` and `--`
//! resolves to, and how it is read and written.

use vstd::prelude::*;

use crate::expression::ExpressionEmitter;

use crate::mlir_type::{MlirType, TypeView};
use crate::slang_type::SlangType;
use crate::type_conversion::{resolvable, spec_resolve, TypeConversion};

verus! {

/// A resolved assignable location, with its element type.
#[derive(Debug)]
pub enum Lvalue {
    /// The stack slot of a local variable or parameter.
    Stack(MlirType),
    /// The storage slot, by name, of a value-typed state variable.
    Storage(String, MlirType),
    /// A materialised element address: a struct field or an array / mapping element.
    Pointer(MlirType),
    /// The storage slot, by name, of a reference-typed state variable: reached through
    /// `sol.addr_of`, and written by copying the whole aggregate in.
    StorageReference(String, MlirType),
}

/// What a named assignment target resolves to.
#[derive(Debug)]
pub enum LvalueBinding {
    /// A local variable or parameter, with the type of its stack slot.
    Local(MlirType),
    /// A state variable: its slot name and declared type.
    StateVariable { slot_name: String, declared_type: SlangType },
}

/// An assignment target, as far as its resolution reads it.
#[derive(Debug)]
pub enum LvalueTarget {
    /// A name.
    Identifier(LvalueBinding),
    /// A struct field `s.f`, with the field's type.
    StructField(MlirType),
    /// An index access `a[i]` / `m[k]`, with the element's type.
    IndexAccess(MlirType),
}

/// The operation that reads a location.
#[derive(Debug, Clone, Copy, PartialEq, Eq, Structural)]
pub enum LvalueRead {
    /// `sol.load` through the pointer.
    Load,
    /// A load from the storage slot.
    StorageLoad,
    /// `sol.addr_of` of the slot: the reference itself.
    AddressOf,
}

/// The operations that write a location.
#[derive(Debug, Clone, Copy, PartialEq, Eq, Structural)]
pub enum LvalueWrite {
    /// `sol.store` through the pointer.
    Store,
    /// A store to the storage slot.
    StorageStore,
    /// `sol.addr_of` of the slot, then `sol.copy` of the aggregate into it.
    CopyInto,
}

/// The element type of a location.
pub open spec fn spec_element_type(lvalue: Lvalue) -> TypeView {
    match lvalue {
        Lvalue::Stack(t) => t@,
        Lvalue::Storage(_, t) => t@,
        Lvalue::Pointer(t) => t@,
        Lvalue::StorageReference(_, t) => t@,
    }
}

/// Whether a target's types resolve.
pub open spec fn spec_target_resolvable(target: LvalueTarget) -> bool {
    match target {
        LvalueTarget::Identifier(LvalueBinding::StateVariable { declared_type, .. }) => resolvable(
            declared_type,
            None,
        ),
        _ => true,
    }
}

/// How the location a target resolves to is read: a local, field or element through its
/// pointer; a state variable from its storage slot, or, when its type is a reference
/// type, as the slot's address.
pub open spec fn spec_target_read(target: LvalueTarget) -> LvalueRead {
    match target {
        LvalueTarget::Identifier(LvalueBinding::StateVariable { declared_type, .. }) => {
            if declared_type.spec_is_reference_type() {
                LvalueRead::AddressOf
            } else {
                LvalueRead::StorageLoad
            }
        },
        _ => LvalueRead::Load,
    }
}

/// The slot name of the location a target resolves to: a state variable's.
pub open spec fn spec_target_slot(target: LvalueTarget) -> Option<Seq<char>> {
    match target {
        LvalueTarget::Identifier(LvalueBinding::StateVariable { slot_name, .. }) => Some(slot_name@),
        _ => None,
    }
}

/// The element type of the location a target resolves to.
pub open spec fn spec_target_element_type(target: LvalueTarget) -> TypeView {
    match target {
        LvalueTarget::Identifier(LvalueBinding::Local(t)) => t@,
        LvalueTarget::Identifier(LvalueBinding::StateVariable { declared_type, .. }) => spec_resolve(
            declared_type,
            None,
        ),
        LvalueTarget::StructField(t) => t@,
        LvalueTarget::IndexAccess(t) => t@,
    }
}

/// How a location is read.
pub open spec fn spec_lvalue_read(lvalue: Lvalue) -> LvalueRead {
    match lvalue {
        Lvalue::Stack(_) | Lvalue::Pointer(_) => LvalueRead::Load,
        Lvalue::Storage(_, _) => LvalueRead::StorageLoad,
        Lvalue::StorageReference(_, _) => LvalueRead::AddressOf,
    }
}

/// How a location is written.
pub open spec fn spec_lvalue_write(lvalue: Lvalue) -> LvalueWrite {
    match lvalue {
        Lvalue::Stack(_) | Lvalue::Pointer(_) => LvalueWrite::Store,
        Lvalue::Storage(_, _) => LvalueWrite::StorageStore,
        Lvalue::StorageReference(_, _) => LvalueWrite::CopyInto,
    }
}

/// The slot name of a storage location.
pub open spec fn spec_slot_name(lvalue: Lvalue) -> Option<Seq<char>> {
    match lvalue {
        Lvalue::Storage(name, _) => Some(name@),
        Lvalue::StorageReference(name, _) => Some(name@),
        _ => None,
    }
}

impl Lvalue {
    /// The declared element type of the location.
    pub fn element_type(&self) -> (result: MlirType)
        ensures
            result@ == spec_element_type(*self),
    {
        match self {
            Lvalue::Stack(t) | Lvalue::Storage(_, t) | Lvalue::Pointer(t)
            | Lvalue::StorageReference(_, t) => t.duplicate(),
        }
    }
}

impl ExpressionEmitter {
    /// Resolves an assignment target to the location it denotes.
    pub fn resolve_lvalue(target: LvalueTarget) -> (result: Lvalue)
        requires
            spec_target_resolvable(target),
        ensures
            spec_element_type(result) == spec_target_element_type(target),
            spec_lvalue_read(result) == spec_target_read(target),
            spec_slot_name(result) == spec_target_slot(target),
    {
        match target {
            LvalueTarget::Identifier(binding) => ExpressionEmitter::resolve_identifier_lvalue(binding),
            LvalueTarget::StructField(t) => Lvalue::Pointer(t),
            LvalueTarget::IndexAccess(t) => Lvalue::Pointer(t),
        }
    }

    /// Resolves a name to the stack or storage slot it names.
    pub fn resolve_identifier_lvalue(binding: LvalueBinding) -> (result: Lvalue)
        requires
            spec_target_resolvable(LvalueTarget::Identifier(binding)),
        ensures
            spec_element_type(result) == spec_target_element_type(LvalueTarget::Identifier(binding)),
            spec_lvalue_read(result) == spec_target_read(LvalueTarget::Identifier(binding)),
            spec_slot_name(result) == spec_target_slot(LvalueTarget::Identifier(binding)),
    {
        match binding {
            LvalueBinding::Local(t) => Lvalue::Stack(t),
            LvalueBinding::StateVariable { slot_name, declared_type } => {
                let element_type = TypeConversion::resolve_slang_type(&declared_type, None);
                if declared_type.is_reference_type() {
                    Lvalue::StorageReference(slot_name, element_type)
                } else {
                    Lvalue::Storage(slot_name, element_type)
                }
            },
        }
    }

    /// How the value held at the location is read.
    pub fn emit_lvalue_load(lvalue: &Lvalue) -> (result: LvalueRead)
        ensures
            result == spec_lvalue_read(*lvalue),
    {
        match lvalue {
            Lvalue::Stack(_) | Lvalue::Pointer(_) => LvalueRead::Load,
            Lvalue::Storage(_, _) => LvalueRead::StorageLoad,
            Lvalue::StorageReference(_, _) => LvalueRead::AddressOf,
        }
    }

    /// How a value is written to the location.
    pub fn emit_lvalue_store(lvalue: &Lvalue) -> (result: LvalueWrite)
        ensures
            result == spec_lvalue_write(*lvalue),
    {
        match lvalue {
            Lvalue::Stack(_) | Lvalue::Pointer(_) => LvalueWrite::Store,
            Lvalue::Storage(_, _) => LvalueWrite::StorageStore,
            Lvalue::StorageReference(_, _) => LvalueWrite::CopyInto,
        }
    }
}

/// Reads and writes of a location agree: a location read by `sol.load` is written by
/// `sol.store`, a storage slot by storage loads and stores, and a storage reference is read
/// as its address and written by copying into that address.
pub proof fn lemma_read_write_agree(lvalue: Lvalue)
    ensures
        (spec_lvalue_read(lvalue) == LvalueRead::Load) <==> (spec_lvalue_write(lvalue) == LvalueWrite::Store),
        (spec_lvalue_read(lvalue) == LvalueRead::StorageLoad) <==> (spec_lvalue_write(lvalue)
            == LvalueWrite::StorageStore),
        (spec_lvalue_read(lvalue) == LvalueRead::AddressOf) <==> (spec_lvalue_write(lvalue)
            == LvalueWrite::CopyInto),
{
}

/// A state variable is read as its address, and so written by copying into it, exactly
/// when its type is a reference type.
pub proof fn lemma_state_variable_by_reference(lvalue: Lvalue, slot_name: String, declared_type: SlangType)
    requires
        spec_lvalue_read(lvalue) == spec_target_read(
            LvalueTarget::Identifier(LvalueBinding::StateVariable { slot_name, declared_type }),
        ),
    ensures
        spec_lvalue_write(lvalue) == LvalueWrite::CopyInto <==> declared_type.spec_is_reference_type(),
{
}

/// A model of the state a location lives in: memory cells by address, and storage slots
/// by name.
pub type ModelState<V> = (Map<int, V>, Map<Seq<char>, V>);

/// The cell a location denotes: its storage slot, or the memory cell at `address` (the
/// stack slot or element address the location holds).
pub open spec fn spec_cell(lvalue: Lvalue, address: int) -> (bool, int, Seq<char>) {
    match spec_slot_name(lvalue) {
        Some(name) => (true, 0, name),
        None => (false, address, Seq::empty()),
    }
}

/// The state after the write of `value` the lowering emits for a location: `sol.store`
/// writes the memory cell; a storage store, or a copy into the slot's address, writes
/// the slot.
pub open spec fn spec_model_store<V>(state: ModelState<V>, lvalue: Lvalue, address: int, value: V) -> ModelState<V> {
    match spec_lvalue_write(lvalue) {
        LvalueWrite::Store => (state.0.insert(address, value), state.1),
        _ => (state.0, state.1.insert(spec_slot_name(lvalue)->0, value)),
    }
}

/// The value the read the lowering emits for a location observes: `sol.load` reads the
/// memory cell; a storage load reads the slot, and so does the address of a storage
/// reference.
pub open spec fn spec_model_load<V>(state: ModelState<V>, lvalue: Lvalue, address: int) -> V {
    match spec_lvalue_read(lvalue) {
        LvalueRead::Load => state.0[address],
        _ => state.1[spec_slot_name(lvalue)->0],
    }
}

/// A load after a store to the same location yields the stored value, and a store leaves
/// every other cell as it was.
pub proof fn lemma_load_after_store<V>(
    state: ModelState<V>,
    lvalue: Lvalue,
    address: int,
    value: V,
    other: Lvalue,
    other_address: int,
)
    ensures
        spec_model_load(spec_model_store(state, lvalue, address, value), lvalue, address) == value,
        spec_cell(other, other_address) != spec_cell(lvalue, address) ==> spec_model_load(
            spec_model_store(state, lvalue, address, value),
            other,
            other_address,
        ) == spec_model_load(state, other, other_address),
{
}

} // verus!
