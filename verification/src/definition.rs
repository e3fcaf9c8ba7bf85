//! What names resolve to, with the facts of each definition that the lowering reads.

use vstd::prelude::*;

verus! {

/// The declared state mutability of a function.
#[derive(Debug, Clone, Copy, PartialEq, Eq, Structural)]
pub enum FunctionMutability {
    NonPayable,
    Payable,
    View,
    Pure,
}

/// The declared visibility of a function.
#[derive(Debug, Clone, Copy, PartialEq, Eq, Structural)]
pub enum FunctionVisibility {
    External,
    Public,
    Internal,
    Private,
}

/// The declared mutability of a state variable.
#[derive(Debug, Clone, Copy, PartialEq, Eq, Structural)]
pub enum StateVariableMutability {
    Mutable,
    Constant,
    Immutable,
    Transient,
}

/// The facts of a function definition.
#[derive(Debug, Clone, Copy, PartialEq, Eq, Structural)]
pub struct FunctionFacts {
    /// The ABI selector; only externally callable functions have one.
    pub selector: Option<u32>,
    /// The declared state mutability.
    pub mutability: FunctionMutability,
    /// The declared visibility.
    pub visibility: FunctionVisibility,
    /// Whether the function is declared in a library.
    pub in_library: bool,
}

/// The facts of a state variable definition.
#[derive(Debug, Clone, Copy, PartialEq, Eq, Structural)]
pub struct StateVariableFacts {
    /// The ABI selector of the variable's getter; only `public` variables have one.
    pub selector: Option<u32>,
    /// The declared mutability.
    pub mutability: StateVariableMutability,
}

/// The definition a name resolves to.
#[derive(Debug, Clone, Copy, PartialEq, Eq, Structural)]
pub enum Definition {
    Contract,
    Interface,
    Library,
    Import,
    ImportedSymbol,
    Struct,
    StructMember,
    Enum,
    EnumMember,
    Error,
    Event,
    UserDefinedValueType,
    Function(FunctionFacts),
    StateVariable(StateVariableFacts),
    Variable,
    Parameter,
    Constant,
    Other,
}

/// Whether a function is `view` or `pure`, so that an external call to it is a
/// `STATICCALL`.
pub open spec fn spec_is_static_mutability(mutability: FunctionMutability) -> bool {
    mutability == FunctionMutability::View || mutability == FunctionMutability::Pure
}

/// Whether a definition names a namespace or a type rather than a runtime value.
pub open spec fn spec_is_namespace_or_type(definition: Definition) -> bool {
    match definition {
        Definition::Contract | Definition::Interface | Definition::Library | Definition::Import
        | Definition::ImportedSymbol | Definition::Enum | Definition::Struct
        | Definition::UserDefinedValueType => true,
        _ => false,
    }
}

impl Definition {
    /// Whether a definition names a namespace or a type (a contract, interface, library,
    /// import, enum, struct or user-defined value type) rather than a runtime value.
    pub fn is_namespace_or_type(&self) -> (result: bool)
        ensures
            result == spec_is_namespace_or_type(*self),
    {
        match self {
            Definition::Contract | Definition::Interface | Definition::Library
            | Definition::Import | Definition::ImportedSymbol | Definition::Enum
            | Definition::Struct | Definition::UserDefinedValueType => true,
            _ => false,
        }
    }
}

} // verus!
