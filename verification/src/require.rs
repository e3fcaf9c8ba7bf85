//! `require(condition)` and `require(condition, message)`: the `sol.require` each message
//! form lowers to.

use vstd::prelude::*;

use crate::context::ExpressionContext;

use crate::call_kind::CalleeShape;
use crate::definition::Definition;
use crate::location::DataLocation;
use crate::mlir_type::{MlirType, TypeView, type_views, lemma_type_views};
use crate::slang_type::SlangType;
use crate::type_conversion::{all_resolvable, spec_resolve_all, TypeConversion};

verus! {

/// The message of a `require`, with what its lowering reads.
#[derive(Debug)]
pub enum RequireMessage {
    /// `require(c)`.
    Absent,
    /// `require(c, "literal")`, with the literal's text.
    StringLiteral(String),
    /// `require(c, CustomError(args))` with positional arguments: the error's canonical
    /// signature, its parameter types, and the number of arguments.
    CustomError { signature: String, parameter_types: Vec<SlangType>, argument_count: usize },
    /// `require(c, expression)`: a message computed at run time.
    Expression,
}

/// A `sol.require`: its message attribute, whether it is the `call` form (which
/// ABI-encodes its arguments under the message's signature), and the types its arguments
/// are coerced to.
pub struct RequireOperation {
    /// The `msg` attribute.
    pub message: Option<String>,
    /// Whether the `call` unit attribute is set.
    pub call_form: bool,
    /// The types the arguments are coerced to, in order.
    pub argument_types: Vec<MlirType>,
}

/// The view of a `sol.require`.
pub struct RequireOperationView {
    pub message: Option<Seq<char>>,
    pub call_form: bool,
    pub argument_types: Seq<TypeView>,
}

impl View for RequireOperation {
    type V = RequireOperationView;

    open spec fn view(&self) -> RequireOperationView {
        RequireOperationView {
            message: match self.message {
                Some(m) => Some(m@),
                None => None,
            },
            call_form: self.call_form,
            argument_types: type_views(self.argument_types@),
        }
    }
}

/// The `sol.require` of a message: none is a bare `sol.require`; a literal is the message
/// attribute; a custom error is the `call` form with the error's signature and its
/// arguments, each coerced to its parameter's type (as many as both lists have); any other
/// message is the `call` form of `Error(string)` with the message as a memory string.
pub open spec fn spec_require_operation(message: RequireMessage) -> RequireOperationView {
    match message {
        RequireMessage::Absent => RequireOperationView {
            message: None,
            call_form: false,
            argument_types: Seq::empty(),
        },
        RequireMessage::StringLiteral(literal) => RequireOperationView {
            message: Some(literal@),
            call_form: false,
            argument_types: Seq::empty(),
        },
        RequireMessage::CustomError { signature, parameter_types, argument_count } => {
            let count = if argument_count <= parameter_types@.len() {
                argument_count as int
            } else {
                parameter_types@.len() as int
            };
            RequireOperationView {
                message: Some(signature@),
                call_form: true,
                argument_types: spec_resolve_all(parameter_types@.subrange(0, count), None),
            }
        },
        RequireMessage::Expression => RequireOperationView {
            message: Some(error_string_signature()@),
            call_form: true,
            argument_types: seq![TypeView::String(DataLocation::Memory)],
        },
    }
}

/// The signature a run-time `require` message is encoded under.
pub open spec fn error_string_signature() -> &'static str {
    "Error(string)"
}

/// Whether the parameters a custom error's arguments are coerced to resolve.
pub open spec fn spec_require_resolvable(message: RequireMessage) -> bool {
    match message {
        RequireMessage::CustomError { parameter_types, .. } => all_resolvable(parameter_types@, None),
        _ => true,
    }
}

/// The definition a call's callee names: the name's, or the member's for `Lib.Error`.
pub open spec fn spec_callee_definition(callee: CalleeShape) -> Option<Definition> {
    match callee {
        CalleeShape::Identifier { definition, .. } => definition,
        CalleeShape::MemberAccess(access) => access.member_definition,
        _ => None,
    }
}

impl ExpressionContext {
    /// The `sol.require` of a `require` message (see [`spec_require_operation`]).
    pub fn emit_require(message: &RequireMessage) -> (result: RequireOperation)
        requires
            spec_require_resolvable(*message),
        ensures
            result@ == spec_require_operation(*message),
    {
        match message {
            RequireMessage::Absent => {
                let argument_types: Vec<MlirType> = Vec::new();
                proof {
                    assert(type_views(argument_types@) =~= Seq::<TypeView>::empty());
                }
                RequireOperation { message: None, call_form: false, argument_types }
            },
            RequireMessage::StringLiteral(literal) => {
                let argument_types: Vec<MlirType> = Vec::new();
                proof {
                    assert(type_views(argument_types@) =~= Seq::<TypeView>::empty());
                }
                RequireOperation { message: Some(literal.clone()), call_form: false, argument_types }
            },
            RequireMessage::CustomError { signature, parameter_types, argument_count } => {
                let argument_types = Self::custom_error_argument_types(parameter_types, *argument_count);
                RequireOperation { message: Some(signature.clone()), call_form: true, argument_types }
            },
            RequireMessage::Expression => {
                let mut argument_types: Vec<MlirType> = Vec::new();
                argument_types.push(MlirType::String(DataLocation::Memory));
                proof {
                    lemma_type_views(argument_types@);
                    assert(type_views(argument_types@) =~= seq![TypeView::String(DataLocation::Memory)]);
                }
                RequireOperation {
                    message: Some(String::from_str("Error(string)")),
                    call_form: true,
                    argument_types,
                }
            },
        }
    }

    /// The parameter types the arguments of a custom error are coerced to: one per
    /// argument that has a parameter.
    fn custom_error_argument_types(parameter_types: &Vec<SlangType>, argument_count: usize) -> (result: Vec<MlirType>)
        requires
            all_resolvable(parameter_types@, None),
        ensures
            type_views(result@) == spec_resolve_all(
                parameter_types@.subrange(
                    0,
                    if argument_count <= parameter_types@.len() {
                        argument_count as int
                    } else {
                        parameter_types@.len() as int
                    },
                ),
                None,
            ),
    {
        let count = if argument_count <= parameter_types.len() {
            argument_count
        } else {
            parameter_types.len()
        };
        TypeConversion::resolve_prefix(parameter_types, count, None)
    }

    /// The definition a message call's callee names.
    pub fn callee_definition(callee: &CalleeShape) -> (result: Option<Definition>)
        ensures
            result == spec_callee_definition(*callee),
    {
        match callee {
            CalleeShape::Identifier { definition, .. } => *definition,
            CalleeShape::MemberAccess(access) => access.member_definition,
            _ => None,
        }
    }

    /// Whether a message call constructs a custom error: its callee names an error.
    pub fn call_resolves_to_error(callee: &CalleeShape) -> (result: bool)
        ensures
            result == (spec_callee_definition(*callee) == Some(Definition::Error)),
    {
        match Self::callee_definition(callee) {
            Some(Definition::Error) => true,
            _ => false,
        }
    }
}

/// Only a run-time message or a custom error uses the `call` form, and only they carry
/// arguments.
pub proof fn lemma_require_call_form(message: RequireMessage)
    ensures
        spec_require_operation(message).call_form <==> (message is CustomError || message is Expression),
        !spec_require_operation(message).call_form ==> spec_require_operation(message).argument_types.len() == 0,
{
}

} // verus!
