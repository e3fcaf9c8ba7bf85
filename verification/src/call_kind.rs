//! Classification of calls: which emission kind a callee selects, how a member call
//! dispatches, and which operation a `try` statement guards.

use vstd::prelude::*;

use crate::built_in::BuiltIn;
use crate::definition::{Definition, FunctionFacts, FunctionMutability, StateVariableMutability};

verus! {

/// The operand `x` of a member access `x.m`, as far as the dispatch reads it.
#[derive(Debug, Clone, Copy, PartialEq, Eq, Structural)]
pub enum OperandShape {
    /// `super`.
    Super,
    /// `this`.
    This,
    /// A name, with the definition it resolves to.
    Identifier(Option<Definition>),
    /// Any other expression.
    Other,
}

/// The facts of a member access `x.m` that call dispatch reads.
#[derive(Debug, Clone, Copy, PartialEq, Eq, Structural)]
pub struct MemberAccessFacts {
    /// The operand `x`.
    pub operand: OperandShape,
    /// Whether the operand's type is a contract or an interface (a runtime instance).
    pub operand_is_instance: bool,
    /// The definition the member resolves to.
    pub member_definition: Option<Definition>,
    /// The built-in the member resolves to.
    pub member_built_in: Option<BuiltIn>,
    /// The access's function type, if it is function-typed: whether it is externally
    /// visible.
    pub function_type: Option<bool>,
    /// Whether a base-qualified call `Base.f` has a recorded redirect up the linearisation.
    pub super_redirect: bool,
}

/// The callee of a call, as far as its classification reads it.
#[derive(Debug, Clone, Copy, PartialEq, Eq, Structural)]
pub enum CalleeShape {
    /// A name: the definition and the built-in it resolves to, and its function type (is it
    /// externally visible), if it is function-typed.
    Identifier { definition: Option<Definition>, built_in: Option<BuiltIn>, function_type: Option<bool> },
    /// `x.m`.
    MemberAccess(MemberAccessFacts),
    /// `a[i]`, `a[i:j]` or `T[]`: which bounds are written, and whether it is a slice.
    IndexAccess { has_start: bool, has_end: bool, is_slice: bool },
    /// `new T`.
    New,
    /// Any other expression.
    Other,
}

/// The facts of a call expression `callee(arguments)` that its classification reads.
#[derive(Debug, Clone, Copy, PartialEq, Eq, Structural)]
pub struct CallFacts {
    /// The callee.
    pub callee: CalleeShape,
    /// The number of positional arguments, or `None` for named arguments.
    pub positional_count: Option<usize>,
    /// Whether the binder marks the call as a type conversion.
    pub is_type_conversion: bool,
}

/// The one emission kind a call's callee resolves to; the variants are tested in
/// declaration order, so an earlier match wins.
#[derive(Debug, Clone, Copy, PartialEq, Eq, Structural)]
pub enum CallKind {
    /// The callee names a struct: the call builds a struct value.
    StructConstruction,
    /// A one-argument elementary or user-defined-value-type conversion.
    TypeConversion,
    /// A call through a function-typed value.
    FunctionPointerCall,
    /// A built-in called by name, or `abi.decode` / `wrap` / `unwrap`.
    IdentifierBuiltinCall,
    /// An external call to an instance method or a public getter.
    ExternalMemberCall(Definition),
    /// A built-in reached through member access.
    MemberBuiltinCall,
    /// `new C(...)` or `new T[](...)`.
    NewExpressionCall,
    /// A direct call to a named function.
    IdentifierFunctionCall(FunctionFacts),
}

/// Whether the callee is `T[]`, the callee of a cast `T[](value)`: an index access with
/// neither bound nor slice.
pub open spec fn spec_is_array_type_cast_callee(callee: CalleeShape) -> bool {
    match callee {
        CalleeShape::IndexAccess { has_start, has_end, is_slice } => !has_start && !has_end && !is_slice,
        _ => false,
    }
}

/// Whether the callee is a function-typed value called indirectly: a local, parameter or
/// state variable named directly, a struct field, or a state variable read through a
/// contract name; and typed as a function.
pub open spec fn spec_is_function_pointer_callee(callee: CalleeShape) -> bool {
    match callee {
        CalleeShape::Identifier { definition, function_type, .. } => {
            &&& match definition {
                Some(Definition::Variable) | Some(Definition::Parameter) | Some(Definition::StateVariable(_)) => true,
                _ => false,
            }
            &&& function_type is Some
        },
        CalleeShape::MemberAccess(access) => {
            &&& match access.member_definition {
                Some(Definition::StructMember) => true,
                Some(Definition::StateVariable(_)) => access.operand == OperandShape::Identifier(
                    Some(Definition::Contract),
                ),
                _ => false,
            }
            &&& access.function_type is Some
        },
        _ => false,
    }
}

/// The method or getter an external member call dispatches to: the receiver must be a
/// contract or interface instance, and the member a function with a selector or a
/// mutable public state variable (constants and immutables have no getter call).
pub open spec fn spec_external_member_callee(access: MemberAccessFacts) -> Option<Definition> {
    if !access.operand_is_instance {
        None
    } else {
        match access.member_definition {
            Some(Definition::Function(function)) => if function.selector is Some {
                Some(Definition::Function(function))
            } else {
                None
            },
            Some(Definition::StateVariable(variable)) => if variable.selector is Some
                && variable.mutability != StateVariableMutability::Constant
                && variable.mutability != StateVariableMutability::Immutable {
                Some(Definition::StateVariable(variable))
            } else {
                None
            },
            _ => None,
        }
    }
}

/// Whether the member built-in is one whose result type comes from the call.
pub open spec fn spec_is_call_typed_member_built_in(built_in: Option<BuiltIn>) -> bool {
    built_in == Some(BuiltIn::AbiDecode) || built_in == Some(BuiltIn::Wrap) || built_in == Some(
        BuiltIn::Unwrap,
    )
}

/// Whether a call can be classified: every callee that falls through the earlier kinds
/// must be a name that resolves to a function.
pub open spec fn spec_classifiable(call: CallFacts) -> bool {
    spec_call_kind_partial(call) is Some || match call.callee {
        CalleeShape::Identifier { definition: Some(Definition::Function(_)), .. } => true,
        _ => false,
    }
}

/// The kinds tested before the direct call, in order; `None` when none applies.
pub open spec fn spec_call_kind_partial(call: CallFacts) -> Option<CallKind> {
    if call.callee matches CalleeShape::Identifier { definition: Some(Definition::Struct), .. } {
        Some(CallKind::StructConstruction)
    } else if call.positional_count == Some(1usize) && (call.is_type_conversion
        || spec_is_array_type_cast_callee(call.callee)) {
        Some(CallKind::TypeConversion)
    } else if spec_is_function_pointer_callee(call.callee) {
        Some(CallKind::FunctionPointerCall)
    } else if call.callee matches CalleeShape::Identifier { built_in: Some(_), .. } {
        Some(CallKind::IdentifierBuiltinCall)
    } else if call.callee matches CalleeShape::MemberAccess(access)
        && spec_is_call_typed_member_built_in(access.member_built_in) {
        Some(CallKind::IdentifierBuiltinCall)
    } else if call.callee matches CalleeShape::MemberAccess(access) && spec_external_member_callee(
        access,
    ) is Some {
        Some(CallKind::ExternalMemberCall(spec_external_member_callee(call.callee->MemberAccess_0)->0))
    } else if call.callee is MemberAccess {
        Some(CallKind::MemberBuiltinCall)
    } else if call.callee is New {
        Some(CallKind::NewExpressionCall)
    } else {
        None
    }
}

/// The kind of a classifiable call.
pub open spec fn spec_call_kind(call: CallFacts) -> CallKind {
    match spec_call_kind_partial(call) {
        Some(kind) => kind,
        None => match call.callee {
            CalleeShape::Identifier { definition: Some(Definition::Function(function)), .. } => CallKind::IdentifierFunctionCall(function),
            _ => CallKind::StructConstruction,
        },
    }
}

impl CallKind {
    /// Classifies a call's callee into the single kind that emits it.
    pub fn from_call(call: &CallFacts) -> (result: CallKind)
        requires
            spec_classifiable(*call),
        ensures
            result == spec_call_kind(*call),
    {
        if let CalleeShape::Identifier { definition: Some(Definition::Struct), .. } = call.callee {
            return CallKind::StructConstruction;
        }
        if let Some(count) = call.positional_count {
            if count == 1 && (call.is_type_conversion || Self::is_array_type_cast_callee(&call.callee)) {
                return CallKind::TypeConversion;
            }
        }
        if Self::is_function_pointer_callee(&call.callee) {
            return CallKind::FunctionPointerCall;
        }
        if let CalleeShape::Identifier { built_in: Some(_), .. } = call.callee {
            return CallKind::IdentifierBuiltinCall;
        }
        if let CalleeShape::MemberAccess(access) = call.callee {
            match access.member_built_in {
                Some(BuiltIn::AbiDecode) | Some(BuiltIn::Wrap) | Some(BuiltIn::Unwrap) => {
                    return CallKind::IdentifierBuiltinCall;
                },
                _ => {},
            }
            if let Some(definition) = Self::external_member_callee(&access) {
                return CallKind::ExternalMemberCall(definition);
            }
            return CallKind::MemberBuiltinCall;
        }
        if let CalleeShape::New = call.callee {
            return CallKind::NewExpressionCall;
        }
        match call.callee {
            CalleeShape::Identifier { definition: Some(Definition::Function(function)), .. } => {
                CallKind::IdentifierFunctionCall(function)
            },
            _ => CallKind::StructConstruction,
        }
    }

    /// Whether the callee is the array type `T[]` of a cast `T[](value)`.
    pub fn is_array_type_cast_callee(callee: &CalleeShape) -> (result: bool)
        ensures
            result == spec_is_array_type_cast_callee(*callee),
    {
        match callee {
            CalleeShape::IndexAccess { has_start, has_end, is_slice } => !*has_start && !*has_end && !*is_slice,
            _ => false,
        }
    }

    /// Whether the callee is a function-typed value the call dispatches through.
    pub fn is_function_pointer_callee(callee: &CalleeShape) -> (result: bool)
        ensures
            result == spec_is_function_pointer_callee(*callee),
    {
        match callee {
            CalleeShape::Identifier { definition, function_type, .. } => {
                let addresses_value = match definition {
                    Some(Definition::Variable) | Some(Definition::Parameter)
                    | Some(Definition::StateVariable(_)) => true,
                    _ => false,
                };
                addresses_value && function_type.is_some()
            },
            CalleeShape::MemberAccess(access) => {
                let addresses_value = match access.member_definition {
                    Some(Definition::StructMember) => true,
                    Some(Definition::StateVariable(_)) => match access.operand {
                        OperandShape::Identifier(Some(Definition::Contract)) => true,
                        _ => false,
                    },
                    _ => false,
                };
                addresses_value && access.function_type.is_some()
            },
            _ => false,
        }
    }

    /// The method or getter an external member call dispatches to, if the access is one.
    pub fn external_member_callee(access: &MemberAccessFacts) -> (result: Option<Definition>)
        ensures
            result == spec_external_member_callee(*access),
    {
        if !access.operand_is_instance {
            return None;
        }
        match access.member_definition {
            Some(Definition::Function(function)) => {
                if function.selector.is_some() {
                    Some(Definition::Function(function))
                } else {
                    None
                }
            },
            Some(Definition::StateVariable(variable)) => {
                let constant_like = match variable.mutability {
                    StateVariableMutability::Constant | StateVariableMutability::Immutable => true,
                    _ => false,
                };
                if variable.selector.is_some() && !constant_like {
                    Some(Definition::StateVariable(variable))
                } else {
                    None
                }
            },
            _ => None,
        }
    }
}

/// Whether a called library function is inlined or delegatecalled.
#[derive(Debug, Clone, Copy, PartialEq, Eq, Structural)]
pub enum LibraryVisibility {
    /// An `internal` library function: inlined at the call site.
    Internal,
    /// An `external` / `public` library function (it has a selector): delegatecalled.
    External,
}

/// The kind of a member call `x.f(...)` whose member resolves to a definition.
#[derive(Debug, Clone, Copy, PartialEq, Eq, Structural)]
pub enum MemberCallKind {
    /// `super.f(...)` or a base-qualified call up the linearisation.
    Super,
    /// A library call.
    Library(LibraryVisibility),
    /// A call through a function-pointer member.
    FunctionPointer,
    /// `this.f(...)`: a self external call.
    SelfExternal,
    /// `instance.f(...)`: an external call on another instance.
    ExternalInstance,
    /// `this.x`: a self getter.
    SelfGetter,
    /// `instance.x`: an external getter.
    ExternalGetter,
}

/// Whether the member call can be classified: past `super` and a library name, the member
/// is a function, a state variable, or a function-typed struct field.
pub open spec fn spec_member_call_supported(access: MemberAccessFacts) -> bool {
    ||| access.operand == OperandShape::Super
    ||| access.super_redirect
    ||| access.operand == OperandShape::Identifier(Some(Definition::Library))
    ||| access.member_definition matches Some(Definition::Function(_))
    ||| access.member_definition matches Some(Definition::StateVariable(_))
    ||| (access.member_definition == Some(Definition::StructMember) && access.function_type is Some)
}

/// The kind of a member call.
pub open spec fn spec_member_call_kind(access: MemberAccessFacts) -> MemberCallKind {
    let is_this = access.operand == OperandShape::This;
    if access.operand == OperandShape::Super || access.super_redirect {
        MemberCallKind::Super
    } else if access.operand == OperandShape::Identifier(Some(Definition::Library)) {
        match access.member_definition {
            Some(Definition::Function(function)) => if function.selector is Some {
                MemberCallKind::Library(LibraryVisibility::External)
            } else {
                MemberCallKind::Library(LibraryVisibility::Internal)
            },
            _ => MemberCallKind::Library(LibraryVisibility::Internal),
        }
    } else {
        match access.member_definition {
            Some(Definition::Function(function)) => if is_this {
                MemberCallKind::SelfExternal
            } else if function.selector is None {
                MemberCallKind::Library(LibraryVisibility::Internal)
            } else if function.in_library {
                MemberCallKind::Library(LibraryVisibility::External)
            } else {
                MemberCallKind::ExternalInstance
            },
            Some(Definition::StateVariable(_)) => if is_this {
                MemberCallKind::SelfGetter
            } else if access.operand == OperandShape::Identifier(Some(Definition::Contract))
                && access.function_type is Some {
                MemberCallKind::FunctionPointer
            } else {
                MemberCallKind::ExternalGetter
            },
            _ => MemberCallKind::FunctionPointer,
        }
    }
}

/// How a member call lowers once its kind is known.
#[derive(Debug, Clone, Copy, PartialEq, Eq, Structural)]
pub enum MemberCallLowering {
    /// Delegatecall to the deployed library; with a using-for receiver, the receiver is the
    /// implicit first parameter and the arguments are ordered against the others.
    LibraryExternal { receiver_is_first_parameter: bool },
    /// An external call whose signature comes from the callee function.
    ExternalCall,
    /// A getter call on `this`.
    SelfGetter,
    /// A getter call on another instance.
    ExternalGetter,
    /// The library function inlined as an internal call.
    LibraryInternal,
    /// An internal call to the recorded redirect target.
    SuperCall,
    /// An indirect call through the loaded function reference.
    IndirectCall,
}

/// The lowering of a member call of a kind.
pub open spec fn spec_member_call_lowering(kind: MemberCallKind, self_receiver: bool) -> MemberCallLowering {
    match kind {
        MemberCallKind::Library(LibraryVisibility::External) => MemberCallLowering::LibraryExternal {
            receiver_is_first_parameter: self_receiver,
        },
        MemberCallKind::SelfExternal | MemberCallKind::ExternalInstance => MemberCallLowering::ExternalCall,
        MemberCallKind::SelfGetter => MemberCallLowering::SelfGetter,
        MemberCallKind::ExternalGetter => MemberCallLowering::ExternalGetter,
        MemberCallKind::Library(LibraryVisibility::Internal) => MemberCallLowering::LibraryInternal,
        MemberCallKind::Super => MemberCallLowering::SuperCall,
        MemberCallKind::FunctionPointer => MemberCallLowering::IndirectCall,
    }
}

impl MemberCallKind {
    /// Resolves a member-access callee `x.f(...)` to its kind: `super` and recorded base
    /// redirects first, then a library name (external when the member has a selector),
    /// then by what the member resolves to.
    pub fn new(access: &MemberAccessFacts) -> (result: MemberCallKind)
        requires
            spec_member_call_supported(*access),
        ensures
            result == spec_member_call_kind(*access),
    {
        if let OperandShape::Super = access.operand {
            return MemberCallKind::Super;
        }
        if access.super_redirect {
            return MemberCallKind::Super;
        }
        if let OperandShape::Identifier(Some(Definition::Library)) = access.operand {
            let visibility = match access.member_definition {
                Some(Definition::Function(function)) => {
                    if function.selector.is_some() {
                        LibraryVisibility::External
                    } else {
                        LibraryVisibility::Internal
                    }
                },
                _ => LibraryVisibility::Internal,
            };
            return MemberCallKind::Library(visibility);
        }
        let is_this = match access.operand {
            OperandShape::This => true,
            _ => false,
        };
        match access.member_definition {
            Some(Definition::Function(function)) => {
                if is_this {
                    MemberCallKind::SelfExternal
                } else if function.selector.is_none() {
                    MemberCallKind::Library(LibraryVisibility::Internal)
                } else if function.in_library {
                    MemberCallKind::Library(LibraryVisibility::External)
                } else {
                    MemberCallKind::ExternalInstance
                }
            },
            Some(Definition::StateVariable(_)) => {
                let contract_operand = match access.operand {
                    OperandShape::Identifier(Some(Definition::Contract)) => true,
                    _ => false,
                };
                if is_this {
                    MemberCallKind::SelfGetter
                } else if contract_operand && access.function_type.is_some() {
                    MemberCallKind::FunctionPointer
                } else {
                    MemberCallKind::ExternalGetter
                }
            },
            _ => MemberCallKind::FunctionPointer,
        }
    }

    /// Whether a member access can be classified (see [`spec_member_call_supported`]).
    pub fn supports(access: &MemberAccessFacts) -> (result: bool)
        ensures
            result == spec_member_call_supported(*access),
    {
        let operand_ok = match access.operand {
            OperandShape::Super => true,
            OperandShape::Identifier(Some(Definition::Library)) => true,
            _ => false,
        };
        let member_ok = match access.member_definition {
            Some(Definition::Function(_)) | Some(Definition::StateVariable(_)) => true,
            Some(Definition::StructMember) => access.function_type.is_some(),
            _ => false,
        };
        operand_ok || access.super_redirect || member_ok
    }

    /// How the call lowers: an external library call orders its arguments against the
    /// library function's parameters (past a using-for receiver); every other kind takes
    /// positional arguments only.
    pub fn emit(&self, named_arguments: bool, self_receiver: bool) -> (result: MemberCallLowering)
        requires
            named_arguments ==> *self == MemberCallKind::Library(LibraryVisibility::External),
        ensures
            result == spec_member_call_lowering(*self, self_receiver),
    {
        match self {
            MemberCallKind::Library(LibraryVisibility::External) => MemberCallLowering::LibraryExternal {
                receiver_is_first_parameter: self_receiver,
            },
            MemberCallKind::SelfExternal | MemberCallKind::ExternalInstance => MemberCallLowering::ExternalCall,
            MemberCallKind::SelfGetter => MemberCallLowering::SelfGetter,
            MemberCallKind::ExternalGetter => MemberCallLowering::ExternalGetter,
            MemberCallKind::Library(LibraryVisibility::Internal) => MemberCallLowering::LibraryInternal,
            MemberCallKind::Super => MemberCallLowering::SuperCall,
            MemberCallKind::FunctionPointer => MemberCallLowering::IndirectCall,
        }
    }

    /// The parameters that the arguments of an external library call name: all of them,
    /// or all but the first when a using-for receiver fills it.
    pub fn explicit_parameter_ids(parameter_ids: &Vec<u64>, self_receiver: bool) -> (result: Vec<u64>)
        requires
            self_receiver ==> parameter_ids@.len() >= 1,
        ensures
            result@ == if self_receiver {
                parameter_ids@.subrange(1, parameter_ids@.len() as int)
            } else {
                parameter_ids@
            },
    {
        let start: usize = if self_receiver { 1 } else { 0 };
        let mut result: Vec<u64> = Vec::new();
        let mut i: usize = start;
        while i < parameter_ids.len()
            invariant
                start <= i <= parameter_ids@.len(),
                start == (if self_receiver { 1usize } else { 0usize }),
                result@ == parameter_ids@.subrange(start as int, i as int),
            decreases parameter_ids@.len() - i,
        {
            result.push(parameter_ids[i]);
            i += 1;
        }
        proof {
            if !self_receiver {
                assert(parameter_ids@.subrange(0, parameter_ids@.len() as int) =~= parameter_ids@);
            }
        }
        result
    }
}

/// Whether an external call is a `STATICCALL`.
#[derive(Debug, Clone, Copy, PartialEq, Eq, Structural)]
pub enum StaticMode {
    /// A normal `CALL`: the callee may change state.
    Call,
    /// A `STATICCALL`: a `view` or `pure` callee.
    Static,
}

impl StaticMode {
    /// Classifies an external callee from its declared mutability: `view` and `pure` are
    /// static, anything else a normal call.
    pub fn from_function(function: &FunctionFacts) -> (result: StaticMode)
        ensures
            result == (if crate::definition::spec_is_static_mutability(function.mutability) {
                StaticMode::Static
            } else {
                StaticMode::Call
            }),
    {
        match function.mutability {
            FunctionMutability::View | FunctionMutability::Pure => StaticMode::Static,
            _ => StaticMode::Call,
        }
    }
}

/// The facts of the expression a `try` statement guards.
#[derive(Debug, Clone, Copy, PartialEq, Eq, Structural)]
pub struct GuardedExpressionFacts {
    /// Whether the expression is a call.
    pub is_call: bool,
    /// Whether the callee is wrapped in a `{value: ..}` / `{gas: ..}` / `{salt: ..}` layer.
    pub has_options: bool,
    /// The callee, inside the options layer and parentheses.
    pub callee: CalleeShape,
    /// Whether the call's type is a contract.
    pub contract_typed: bool,
}

/// The operation a `try` statement guards; tested in declaration order.
#[derive(Debug, Clone, Copy, PartialEq, Eq, Structural)]
pub enum TryCallKind {
    /// `try functionPointer(args)`: through an external function-pointer value.
    FunctionPointer,
    /// `try c.foo(args)`: an external method or getter call.
    External(Definition),
    /// `try new C(args)`: a contract creation.
    NewExpression,
}

/// Whether the guarded callee is an external function-pointer value.
pub open spec fn spec_try_function_pointer(facts: GuardedExpressionFacts) -> bool {
    &&& facts.is_call
    &&& spec_is_function_pointer_callee(facts.callee)
    &&& match facts.callee {
        CalleeShape::Identifier { function_type, .. } => function_type == Some(true),
        CalleeShape::MemberAccess(access) => access.function_type == Some(true),
        _ => false,
    }
}

/// The external method a guarded call without options dispatches to, if any.
pub open spec fn spec_try_external(facts: GuardedExpressionFacts) -> Option<Definition> {
    if facts.is_call && !facts.has_options {
        match facts.callee {
            CalleeShape::MemberAccess(access) => spec_external_member_callee(access),
            _ => None,
        }
    } else {
        None
    }
}

/// Whether the guarded expression is a contract creation.
pub open spec fn spec_try_new(facts: GuardedExpressionFacts) -> bool {
    facts.is_call && facts.callee == CalleeShape::New && facts.contract_typed
}

/// The guarded operation.
pub open spec fn spec_try_call_kind(facts: GuardedExpressionFacts) -> Option<TryCallKind> {
    if spec_try_function_pointer(facts) {
        Some(TryCallKind::FunctionPointer)
    } else if spec_try_external(facts) is Some {
        Some(TryCallKind::External(spec_try_external(facts)->0))
    } else if spec_try_new(facts) {
        Some(TryCallKind::NewExpression)
    } else {
        None
    }
}

impl TryCallKind {
    /// Classifies the guarded expression: an external function-pointer call, an external
    /// member call, or a contract creation.
    pub fn from_expression(facts: &GuardedExpressionFacts) -> (result: TryCallKind)
        requires
            spec_try_call_kind(*facts) is Some,
        ensures
            Some(result) == spec_try_call_kind(*facts),
    {
        if facts.is_call && CallKind::is_function_pointer_callee(&facts.callee) {
            let external = match facts.callee {
                CalleeShape::Identifier { function_type, .. } => function_type == Some(true),
                CalleeShape::MemberAccess(access) => access.function_type == Some(true),
                _ => false,
            };
            if external {
                return TryCallKind::FunctionPointer;
            }
        }
        if facts.is_call && !facts.has_options {
            if let CalleeShape::MemberAccess(access) = facts.callee {
                if let Some(definition) = CallKind::external_member_callee(&access) {
                    return TryCallKind::External(definition);
                }
            }
        }
        TryCallKind::NewExpression
    }
}

/// A struct name always builds a struct, and a one-argument conversion wins over every
/// other kind but that: the classification honours its order.
pub proof fn lemma_call_kind_priority(call: CallFacts)
    ensures
        (call.callee matches CalleeShape::Identifier { definition: Some(Definition::Struct), .. })
            ==> spec_call_kind(call) == CallKind::StructConstruction,
        (!(call.callee matches CalleeShape::Identifier { definition: Some(Definition::Struct), .. })
            && call.positional_count == Some(1usize) && call.is_type_conversion)
            ==> spec_call_kind(call) == CallKind::TypeConversion,
        spec_is_function_pointer_callee(call.callee) && call.positional_count != Some(1usize)
            ==> spec_call_kind(call) == CallKind::FunctionPointerCall,
{
}

/// A direct call is chosen only for a name that resolves to a function and is not a
/// function-typed value.
pub proof fn lemma_direct_call_names_function(call: CallFacts)
    requires
        spec_classifiable(call),
        spec_call_kind(call) is IdentifierFunctionCall,
    ensures
        call.callee matches CalleeShape::Identifier { definition: Some(Definition::Function(_)), .. },
        !spec_is_function_pointer_callee(call.callee),
{
}

/// An external member call, in a call and under `try`, targets a function with a selector
/// or a mutable state variable with a getter, on an instance receiver.
pub proof fn lemma_external_callee_has_selector(call: CallFacts)
    requires
        spec_call_kind(call) matches CallKind::ExternalMemberCall(_),
    ensures
        call.callee matches CalleeShape::MemberAccess(access) && access.operand_is_instance,
        match spec_call_kind(call) {
            CallKind::ExternalMemberCall(Definition::Function(function)) => function.selector is Some,
            CallKind::ExternalMemberCall(Definition::StateVariable(variable)) => variable.selector is Some
                && variable.mutability != StateVariableMutability::Constant
                && variable.mutability != StateVariableMutability::Immutable,
            _ => false,
        },
{
}

/// A library member call is delegatecalled exactly when the called function carries a
/// selector.
pub proof fn lemma_library_visibility_follows_selector(access: MemberAccessFacts, function: FunctionFacts)
    requires
        access.operand != OperandShape::Super,
        !access.super_redirect,
        access.operand != OperandShape::This,
        access.member_definition == Some(Definition::Function(function)),
        spec_member_call_kind(access) is Library,
    ensures
        spec_member_call_kind(access) == MemberCallKind::Library(LibraryVisibility::External)
            <==> function.selector is Some,
{
}

/// A `try` guards the first kind that applies: a function-pointer call before an
/// external member call, and that before a contract creation; and it guards nothing else.
pub proof fn lemma_try_call_kind_order(facts: GuardedExpressionFacts)
    ensures
        spec_try_function_pointer(facts) ==> spec_try_call_kind(facts) == Some(TryCallKind::FunctionPointer),
        (!spec_try_function_pointer(facts) && spec_try_external(facts) is Some) ==> spec_try_call_kind(facts)
            == Some(TryCallKind::External(spec_try_external(facts)->0)),
        spec_try_call_kind(facts) is None <==> (!spec_try_function_pointer(facts) && spec_try_external(facts) is None
            && !spec_try_new(facts)),
{
}

/// A member call goes where its receiver says: through `super` (or a recorded
/// redirect) it is a `super` call; through a library name it is a library call, external
/// exactly when the function has a selector; `this.f` is an external self-call and
/// `this.v` a self getter; on any other receiver, a function with a selector declared
/// outside a library is an external call on the instance, and one without a selector an
/// internal library call. External self-calls and instance calls both lower to an
/// external call, and an external library call passes the receiver first exactly when
/// it is a using-for call.
pub proof fn lemma_member_call_destinations(access: MemberAccessFacts, function: FunctionFacts, self_receiver: bool)
    ensures
        (access.operand == OperandShape::Super || access.super_redirect) ==> spec_member_call_kind(access)
            == MemberCallKind::Super,
        (access.operand == OperandShape::Identifier(Some(Definition::Library)) && !access.super_redirect
            && access.member_definition == Some(Definition::Function(function))) ==> spec_member_call_kind(access)
            == MemberCallKind::Library(
            if function.selector is Some {
                LibraryVisibility::External
            } else {
                LibraryVisibility::Internal
            },
        ),
        (access.operand == OperandShape::This && !access.super_redirect && access.member_definition == Some(
            Definition::Function(function),
        )) ==> spec_member_call_kind(access) == MemberCallKind::SelfExternal,
        (access.operand == OperandShape::This && !access.super_redirect
            && access.member_definition matches Some(Definition::StateVariable(_))) ==> spec_member_call_kind(access)
            == MemberCallKind::SelfGetter,
        (access.operand != OperandShape::This && access.operand != OperandShape::Super
            && access.operand != OperandShape::Identifier(Some(Definition::Library)) && !access.super_redirect
            && access.member_definition == Some(Definition::Function(function)) && function.selector is Some
            && !function.in_library) ==> spec_member_call_kind(access) == MemberCallKind::ExternalInstance,
        (access.operand != OperandShape::This && access.operand != OperandShape::Super
            && access.operand != OperandShape::Identifier(Some(Definition::Library)) && !access.super_redirect
            && access.member_definition == Some(Definition::Function(function)) && function.selector is None)
            ==> spec_member_call_kind(access) == MemberCallKind::Library(LibraryVisibility::Internal),
        spec_member_call_lowering(MemberCallKind::SelfExternal, self_receiver) == MemberCallLowering::ExternalCall,
        spec_member_call_lowering(MemberCallKind::ExternalInstance, self_receiver) == MemberCallLowering::ExternalCall,
        spec_member_call_lowering(MemberCallKind::Library(LibraryVisibility::External), self_receiver)
            == (MemberCallLowering::LibraryExternal { receiver_is_first_parameter: self_receiver }),
        spec_member_call_lowering(MemberCallKind::Library(LibraryVisibility::Internal), self_receiver)
            == MemberCallLowering::LibraryInternal,
        spec_member_call_lowering(MemberCallKind::Super, self_receiver) == MemberCallLowering::SuperCall,
{
}

} // verus!
