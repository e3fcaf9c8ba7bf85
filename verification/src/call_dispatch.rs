//! The expression emitter's dispatch of a call `callee(arguments)`: a conversion, a
//! built-in, `abi.decode`, a member built-in, a struct literal or a direct call.

use vstd::prelude::*;

use crate::context::{CallContext, CallEmitter};

use crate::built_in::{BuiltIn, IdentifierBuiltInCall, spec_identifier_built_in};
use crate::call_kind::{CalleeShape, CallFacts};
use crate::definition::{Definition, FunctionFacts};

verus! {

/// Where the expression emitter routes a call.
#[derive(Debug, Clone, Copy, PartialEq, Eq, Structural)]
pub enum EmitterCallRoute {
    /// A one-argument type conversion to the call's resolved type.
    TypeConversion,
    /// A built-in called by name.
    IdentifierBuiltIn(IdentifierBuiltInCall),
    /// `abi.decode(...)`.
    AbiDecode,
    /// A built-in reached through member access.
    MemberBuiltIn,
    /// A struct literal of the call's resolved type.
    StructConstructor,
    /// A direct call to a named function.
    DirectCall(FunctionFacts),
}

/// Why the expression emitter cannot lower a call.
#[derive(Debug, Clone, Copy, PartialEq, Eq, Structural)]
pub enum CallError {
    /// The call has named arguments.
    NamedArguments,
    /// A conversion whose target type is unresolved.
    UnresolvedConversionTarget,
    /// The callee is neither a name nor a member access.
    UnsupportedCallee,
    /// A struct literal whose type is unresolved.
    UnresolvedStructType,
    /// The callee's name does not resolve to a function.
    NotAFunction,
}

/// The route of a call, given whether the call's type is resolved.
pub open spec fn spec_emitter_call_route(call: CallFacts, call_type_resolved: bool) -> Result<EmitterCallRoute, CallError> {
    match call.positional_count {
        None => Err(CallError::NamedArguments),
        Some(count) => if call.is_type_conversion && count == 1 {
            if call_type_resolved {
                Ok(EmitterCallRoute::TypeConversion)
            } else {
                Err(CallError::UnresolvedConversionTarget)
            }
        } else {
            match call.callee {
                CalleeShape::Identifier { definition, built_in, .. } => {
                    if built_in is Some && spec_identifier_built_in(built_in->0, count) is Some {
                        Ok(EmitterCallRoute::IdentifierBuiltIn(spec_identifier_built_in(built_in->0, count)->0))
                    } else {
                        match definition {
                            Some(Definition::Function(function)) => Ok(EmitterCallRoute::DirectCall(function)),
                            Some(Definition::Struct) => if call_type_resolved {
                                Ok(EmitterCallRoute::StructConstructor)
                            } else {
                                Err(CallError::UnresolvedStructType)
                            },
                            _ => Err(CallError::NotAFunction),
                        }
                    }
                },
                CalleeShape::MemberAccess(access) => if access.member_built_in == Some(BuiltIn::AbiDecode) {
                    Ok(EmitterCallRoute::AbiDecode)
                } else {
                    Ok(EmitterCallRoute::MemberBuiltIn)
                },
                _ => Err(CallError::UnsupportedCallee),
            }
        },
    }
}

impl CallEmitter {
    /// Routes a call: positional arguments only; a one-argument conversion first; then a
    /// built-in called by name with its argument count; `abi.decode`; any other member
    /// access as a member built-in; and a name that resolves to a struct (a literal) or a
    /// function (a direct call).
    pub fn emit_function_call(call: &CallFacts, call_type_resolved: bool) -> (result: Result<EmitterCallRoute, CallError>)
        ensures
            result == spec_emitter_call_route(*call, call_type_resolved),
    {
        let count = match call.positional_count {
            Some(count) => count,
            None => return Err(CallError::NamedArguments),
        };
        if call.is_type_conversion && count == 1 {
            if call_type_resolved {
                return Ok(EmitterCallRoute::TypeConversion);
            }
            return Err(CallError::UnresolvedConversionTarget);
        }
        match call.callee {
            CalleeShape::Identifier { definition, built_in, .. } => {
                let built_in_call = CallContext::try_emit_built_in_call(built_in, count);
                if let Some(lowering) = built_in_call {
                    return Ok(EmitterCallRoute::IdentifierBuiltIn(lowering.call));
                }
                match definition {
                    Some(Definition::Function(function)) => Ok(EmitterCallRoute::DirectCall(function)),
                    Some(Definition::Struct) => {
                        if call_type_resolved {
                            Ok(EmitterCallRoute::StructConstructor)
                        } else {
                            Err(CallError::UnresolvedStructType)
                        }
                    },
                    _ => Err(CallError::NotAFunction),
                }
            },
            CalleeShape::MemberAccess(access) => {
                match access.member_built_in {
                    Some(BuiltIn::AbiDecode) => Ok(EmitterCallRoute::AbiDecode),
                    _ => Ok(EmitterCallRoute::MemberBuiltIn),
                }
            },
            _ => Err(CallError::UnsupportedCallee),
        }
    }
}

/// The function a multi-result call targets: only a direct call of a named function.
pub open spec fn spec_results_call_target(call: CallFacts) -> Result<FunctionFacts, CallError> {
    match call.positional_count {
        None => Err(CallError::NamedArguments),
        Some(_) => match call.callee {
            CalleeShape::Identifier { definition: Some(Definition::Function(function)), .. } => Ok(function),
            CalleeShape::Identifier { .. } => Err(CallError::NotAFunction),
            _ => Err(CallError::UnsupportedCallee),
        },
    }
}

impl CallEmitter {
    /// The function a call yielding several results targets: positional arguments only,
    /// and the callee a name that resolves to a function.
    pub fn emit_function_call_results(call: &CallFacts) -> (result: Result<FunctionFacts, CallError>)
        ensures
            result == spec_results_call_target(*call),
    {
        if call.positional_count.is_none() {
            return Err(CallError::NamedArguments);
        }
        match call.callee {
            CalleeShape::Identifier { definition: Some(Definition::Function(function)), .. } => Ok(function),
            CalleeShape::Identifier { .. } => Err(CallError::NotAFunction),
            _ => Err(CallError::UnsupportedCallee),
        }
    }
}

/// A name that resolves to a built-in is called as that built-in only with the argument
/// count the built-in takes; with any other count it falls through to the name's
/// definition.
pub proof fn lemma_built_in_arity_decides(call: CallFacts, call_type_resolved: bool)
    requires
        call.positional_count matches Some(count) && !(call.is_type_conversion && count == 1),
        call.callee matches CalleeShape::Identifier { built_in: Some(b), .. },
    ensures
        spec_emitter_call_route(call, call_type_resolved) is Ok && spec_emitter_call_route(call, call_type_resolved)->Ok_0 is IdentifierBuiltIn
            <==> spec_identifier_built_in(call.callee->Identifier_built_in->0, call.positional_count->0) is Some,
{
}

} // verus!
