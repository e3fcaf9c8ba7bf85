//! Library calls: an internal library function is called like any internal function; an
//! external one is a `DELEGATECALL` to the linked library through `sol.ext_call`.

use vstd::prelude::*;
use vstd::string::StringExecFns;

use crate::call_kind::{MemberAccessFacts, MemberCallKind, OperandShape};
use crate::context::{CallContext, CallEmitter, ExpressionContext};
use crate::definition::{Definition, FunctionFacts, FunctionVisibility};
use crate::built_in::{EncodeMode, EncodeOperation, spec_encode_segments};
use crate::external_call::ExternalOperand;
use crate::location::DataLocation;
use crate::mlir_type::{MlirType, TypeView, type_view, type_views, lemma_type_views};
use crate::slang_type::SlangType;
use crate::type_conversion::{resolvable, spec_resolve, TypeConversion};

verus! {

/// A return parameter of a library function.
#[derive(Debug)]
pub struct ReturnParameter {
    /// The parameter's type.
    pub slang_type: SlangType,
    /// Whether the parameter is declared `calldata`.
    pub calldata: bool,
}

/// The type a caller receives a library return parameter as: a `calldata` `bytes` or
/// `string` is relocated to memory (the caller cannot address the library's calldata),
/// anything else resolves as declared.
pub open spec fn spec_library_return_type(parameter: ReturnParameter) -> TypeView {
    if parameter.calldata && (parameter.slang_type is Bytes || parameter.slang_type is String) {
        TypeView::String(DataLocation::Memory)
    } else {
        spec_resolve(parameter.slang_type, None)
    }
}

/// The types a caller receives a list of return parameters as.
pub open spec fn spec_library_return_types(parameters: Seq<ReturnParameter>) -> Seq<TypeView> {
    parameters.map_values(|p: ReturnParameter| spec_library_return_type(p))
}

/// Whether a return parameter's type resolves where it is not relocated.
pub open spec fn spec_return_resolvable(parameter: ReturnParameter) -> bool {
    (parameter.calldata && (parameter.slang_type is Bytes || parameter.slang_type is String)) || resolvable(
        parameter.slang_type,
        None,
    )
}

/// How the arguments of a library call map onto the function's parameters.
#[derive(Debug, Clone, Copy, PartialEq, Eq, Structural)]
pub struct LibraryArguments {
    /// Whether the member access's receiver (`x` in a using-for `x.f(args)`) is passed,
    /// converted to the first parameter's type.
    pub receiver_first: bool,
    /// The index of the parameter the first explicit argument is coerced to.
    pub first_explicit_parameter: usize,
}

/// A `sol.ext_call` to an external library function.
pub struct ExternalLibraryCall {
    /// The function's selector, as a `ui256` constant.
    pub selector: u32,
    /// The `delegate_call` flag.
    pub delegate_call: bool,
    /// The `library_call` flag.
    pub library_call: bool,
    /// The wei forwarded: none.
    pub value: u64,
    /// The results of the operation that the call yields: all but the status (result 0),
    /// since the operation reverts on failure itself.
    pub result_indices: Vec<usize>,
}

impl CallContext {
    /// The types the caller receives a library function's results as, in order; no
    /// `returns` clause gives none.
    pub fn library_return_types(return_parameters: Option<&Vec<ReturnParameter>>) -> (result: Vec<MlirType>)
        requires
            return_parameters matches Some(parameters) ==> forall|i: int|
                0 <= i < parameters@.len() ==> spec_return_resolvable(#[trigger] parameters@[i]),
        ensures
            match return_parameters {
                Some(parameters) => type_views(result@) == spec_library_return_types(parameters@),
                None => result@.len() == 0,
            },
    {
        let parameters = match return_parameters {
            Some(parameters) => parameters,
            None => return Vec::new(),
        };
        let mut result: Vec<MlirType> = Vec::new();
        let mut i: usize = 0;
        while i < parameters.len()
            invariant
                i <= parameters@.len(),
                result@.len() == i,
                forall|j: int| 0 <= j < parameters@.len() ==> spec_return_resolvable(#[trigger] parameters@[j]),
                forall|j: int| 0 <= j < i ==> type_view(#[trigger] result@[j]) == spec_library_return_type(parameters@[j]),
            decreases parameters@.len() - i,
        {
            let parameter = &parameters[i];
            let relocated = parameter.calldata && match parameter.slang_type {
                SlangType::Bytes(_) | SlangType::String(_) => true,
                _ => false,
            };
            let t = if relocated {
                MlirType::String(DataLocation::Memory)
            } else {
                TypeConversion::resolve_slang_type(&parameter.slang_type, None)
            };
            result.push(t);
            i += 1;
        }
        proof {
            lemma_type_views(result@);
        }
        assert(type_views(result@) =~= spec_library_return_types(parameters@));
        result
    }
}

impl MemberCallKind {
    /// How a library call passes its arguments: a namespace-qualified call (`L.f(args)`)
    /// coerces the arguments to the parameters from the first; a using-for call
    /// (`x.f(args)`) passes the receiver as the first parameter and the arguments from
    /// the second.
    pub fn emit_library_call(namespace_qualified: bool, parameter_count: usize) -> (result: LibraryArguments)
        requires
            !namespace_qualified ==> parameter_count >= 1,
        ensures
            result.receiver_first == !namespace_qualified,
            result.first_explicit_parameter == (if namespace_qualified { 0usize } else { 1usize }),
            result.first_explicit_parameter <= parameter_count,
    {
        if namespace_qualified {
            LibraryArguments { receiver_first: false, first_explicit_parameter: 0 }
        } else {
            LibraryArguments { receiver_first: true, first_explicit_parameter: 1 }
        }
    }

    /// The `sol.ext_call` of an external library function with `return_count` results: a
    /// delegatecall flagged as a library call, forwarding no wei, under the function's
    /// selector, whose results past the status are the call's values.
    pub fn emit_library_external_call(selector: Option<u32>, return_count: usize) -> (result: ExternalLibraryCall)
        requires
            selector is Some,
            return_count < usize::MAX,
        ensures
            result.selector == selector->0,
            result.delegate_call,
            result.library_call,
            result.value == 0,
            result.result_indices@.len() == return_count,
            forall|i: int| 0 <= i < return_count ==> #[trigger] result.result_indices@[i] == i + 1,
    {
        let mut result_indices: Vec<usize> = Vec::new();
        let mut i: usize = 0;
        while i < return_count
            invariant
                i <= return_count < usize::MAX,
                result_indices@.len() == i,
                forall|j: int| 0 <= j < i ==> #[trigger] result_indices@[j] == j + 1,
            decreases return_count - i,
        {
            result_indices.push(i + 1);
            i += 1;
        }
        let selector = match selector {
            Some(s) => s,
            None => 0,
        };
        ExternalLibraryCall { selector, delegate_call: true, library_call: true, value: 0, result_indices }
    }
}

/// A member call to an internal function: the function, and whether the receiver is
/// passed as its first parameter.
#[derive(Debug, Clone, Copy, PartialEq, Eq, Structural)]
pub struct InternalMemberCall {
    /// The called function.
    pub function: FunctionFacts,
    /// Whether the member access's receiver is the first argument (a using-for call) rather
    /// than a namespace qualifier.
    pub receiver_first: bool,
}

/// The internal member call a member access makes: a member function without a selector;
/// the receiver is passed unless the operand is a namespace qualifier.
pub open spec fn spec_internal_member_call(access: MemberAccessFacts, namespace_qualifier: bool) -> Option<InternalMemberCall> {
    match access.member_definition {
        Some(Definition::Function(function)) => if function.selector is None {
            Some(InternalMemberCall { function, receiver_first: !namespace_qualifier })
        } else {
            None
        },
        _ => None,
    }
}

impl InternalMemberCall {
    /// Classifies a member call to an internal function (see
    /// [`spec_internal_member_call`]).
    pub fn from_callee(access: &MemberAccessFacts, namespace_qualifier: bool) -> (result: Option<InternalMemberCall>)
        ensures
            result == spec_internal_member_call(*access, namespace_qualifier),
    {
        match access.member_definition {
            Some(Definition::Function(function)) => {
                if function.selector.is_none() {
                    Some(InternalMemberCall { function, receiver_first: !namespace_qualifier })
                } else {
                    None
                }
            },
            _ => None,
        }
    }
}

/// How the expression emitter reaches an external library function.
#[derive(Debug, Clone, Copy, PartialEq, Eq, Structural)]
pub enum LibraryExternalTarget {
    /// `L.f(args)`: the library named by the qualifier, no receiver.
    Qualified,
    /// `x.f(args)` through `using L for T`: the library registered for the function, with
    /// the receiver as the implicit first argument.
    UsingFor,
}

/// Whether an operand is a name that qualifies rather than carries a value: a library,
/// contract, import or imported symbol.
pub open spec fn spec_qualifier_operand(operand: OperandShape) -> bool {
    operand == OperandShape::Identifier(Some(Definition::Library)) || operand == OperandShape::Identifier(
        Some(Definition::Contract),
    ) || operand == OperandShape::Identifier(Some(Definition::Import)) || operand
        == OperandShape::Identifier(Some(Definition::ImportedSymbol))
}

/// The external library call a member access makes in the expression emitter: a
/// library-qualified public or external function with a selector; or, through a runtime
/// receiver (not a qualifier, `this` or `super`), a function with a selector that a
/// library registers.
pub open spec fn spec_library_external_target(access: MemberAccessFacts, registered: bool) -> Option<LibraryExternalTarget> {
    match access.member_definition {
        Some(Definition::Function(function)) => if access.operand == OperandShape::Identifier(
            Some(Definition::Library),
        ) && (function.visibility == FunctionVisibility::External || function.visibility
            == FunctionVisibility::Public) && function.selector is Some {
            Some(LibraryExternalTarget::Qualified)
        } else if !spec_qualifier_operand(access.operand) && access.operand != OperandShape::This
            && access.operand != OperandShape::Super && function.selector is Some && registered {
            Some(LibraryExternalTarget::UsingFor)
        } else {
            None
        },
        _ => None,
    }
}

/// Whether the expression emitter passes the receiver of an internal library call: unless
/// the operand is a library, import or imported-symbol name.
pub open spec fn spec_internal_library_receiver(operand: OperandShape) -> bool {
    !(operand == OperandShape::Identifier(Some(Definition::Library)) || operand == OperandShape::Identifier(
        Some(Definition::Import),
    ) || operand == OperandShape::Identifier(Some(Definition::ImportedSymbol)))
}

impl CallEmitter {
    /// The external library call a member access makes in the expression emitter, given
    /// whether a library registers the member function (see
    /// [`spec_library_external_target`]).
    pub fn try_emit_library_external_call(access: &MemberAccessFacts, registered: bool) -> (result: Option<LibraryExternalTarget>)
        ensures
            result == spec_library_external_target(*access, registered),
    {
        let function = match access.member_definition {
            Some(Definition::Function(function)) => function,
            _ => return None,
        };
        let library_operand = match access.operand {
            OperandShape::Identifier(Some(Definition::Library)) => true,
            _ => false,
        };
        let externally_visible = match function.visibility {
            FunctionVisibility::External | FunctionVisibility::Public => true,
            _ => false,
        };
        if library_operand && externally_visible && function.selector.is_some() {
            return Some(LibraryExternalTarget::Qualified);
        }
        let value_receiver = match access.operand {
            OperandShape::Identifier(Some(Definition::Library))
            | OperandShape::Identifier(Some(Definition::Contract))
            | OperandShape::Identifier(Some(Definition::Import))
            | OperandShape::Identifier(Some(Definition::ImportedSymbol))
            | OperandShape::This | OperandShape::Super => false,
            _ => true,
        };
        if value_receiver && function.selector.is_some() && registered {
            Some(LibraryExternalTarget::UsingFor)
        } else {
            None
        }
    }

    /// An internal library call in the expression emitter: a member function that the
    /// contract collected from a library; the member access's receiver is passed as the
    /// first argument unless it is a namespace qualifier (see
    /// [`spec_internal_library_receiver`]); the receiver and then the arguments are
    /// evaluated left to right, each coerced to its parameter type by position, and the
    /// call yields results of the return types in order.
    pub fn try_emit_library_call(
        access: &MemberAccessFacts,
        collected: bool,
        argument_count: usize,
        parameter_types: &Vec<MlirType>,
        return_types: &Vec<MlirType>,
    ) -> (result: Option<LibraryCallArguments>)
        requires
            argument_count < usize::MAX,
        ensures
            match result {
                Some(call) => {
                    &&& access.member_definition matches Some(Definition::Function(_)) && collected
                    &&& call.receiver_first == spec_internal_library_receiver(access.operand)
                    &&& spec_library_call_arguments(call, argument_count, parameter_types@)
                    &&& type_views(call.result_types@) == type_views(return_types@)
                },
                None => !(access.member_definition matches Some(Definition::Function(_)) && collected),
            },
    {
        let receiver = match Self::internal_library_receiver(access, collected) {
            Some(receiver) => receiver,
            None => return None,
        };
        Some(library_call_arguments(receiver, argument_count, parameter_types, return_types))
    }

    /// Whether an internal library call passes its receiver, if the member is one.
    fn internal_library_receiver(access: &MemberAccessFacts, collected: bool) -> (result: Option<bool>)
        ensures
            result == (if access.member_definition matches Some(Definition::Function(_)) && collected {
                Some(spec_internal_library_receiver(access.operand))
            } else {
                None
            }),
    {
        match access.member_definition {
            Some(Definition::Function(_)) => {},
            _ => return None,
        }
        if !collected {
            return None;
        }
        let receiver = match access.operand {
            OperandShape::Identifier(Some(Definition::Library))
            | OperandShape::Identifier(Some(Definition::Import))
            | OperandShape::Identifier(Some(Definition::ImportedSymbol)) => false,
            _ => true,
        };
        Some(receiver)
    }

    /// The linker symbol of a library: `file:Library`.
    pub fn library_symbol(file_id: &str, library_name: &str) -> (result: String)
        ensures
            result@ == file_id@ + ":"@ + library_name@,
    {
        let symbol = String::from_str(file_id);
        let symbol = symbol.concat(":");
        symbol.concat(library_name)
    }
}

/// The values a library call passes: the receiver first when it is passed, then the
/// arguments left to right, each coerced to the parameter type at its position; and the
/// types of the results.
pub struct LibraryCallArguments {
    /// Whether the receiver is passed as the first value.
    pub receiver_first: bool,
    /// The values evaluated, in order.
    pub evaluation: Vec<ExternalOperand>,
    /// The type each passed value is coerced to, by position.
    pub argument_targets: Vec<MlirType>,
    /// The types of the results, in order.
    pub result_types: Vec<MlirType>,
}

/// The values a library call evaluates: the receiver when passed, then `count` arguments
/// left to right.
pub open spec fn spec_library_evaluation(receiver_first: bool, count: usize) -> Seq<ExternalOperand> {
    let arguments = Seq::new(count as nat, |i: int| ExternalOperand::Argument(i as usize));
    if receiver_first {
        seq![ExternalOperand::Receiver] + arguments
    } else {
        arguments
    }
}

/// Whether the passed values of a library call with `count` explicit arguments are
/// evaluated and coerced as described by [`LibraryCallArguments`].
pub open spec fn spec_library_call_arguments(call: LibraryCallArguments, count: usize, parameter_types: Seq<MlirType>) -> bool {
    let total = spec_library_evaluation(call.receiver_first, count).len();
    let passed = if total <= parameter_types.len() {
        total
    } else {
        parameter_types.len()
    };
    &&& call.evaluation@ == spec_library_evaluation(call.receiver_first, count)
    &&& call.argument_targets@.len() == passed
    &&& forall|i: int| 0 <= i < passed ==> #[trigger] call.argument_targets@[i]@ == parameter_types[i]@
}

/// The passed values of a library call (see [`LibraryCallArguments`]).
fn library_call_arguments(
    receiver_first: bool,
    count: usize,
    parameter_types: &Vec<MlirType>,
    return_types: &Vec<MlirType>,
) -> (result: LibraryCallArguments)
    requires
        count < usize::MAX,
    ensures
        result.receiver_first == receiver_first,
        spec_library_call_arguments(result, count, parameter_types@),
        type_views(result.result_types@) == type_views(return_types@),
{
    let mut evaluation: Vec<ExternalOperand> = Vec::new();
    if receiver_first {
        evaluation.push(ExternalOperand::Receiver);
    }
    let ghost head = evaluation@;
    let mut i: usize = 0;
    while i < count
        invariant
            i <= count,
            head == (if receiver_first { seq![ExternalOperand::Receiver] } else { Seq::<ExternalOperand>::empty() }),
            evaluation@ == head + Seq::new(i as nat, |k: int| ExternalOperand::Argument(k as usize)),
        decreases count - i,
    {
        evaluation.push(ExternalOperand::Argument(i));
        proof {
            assert(Seq::new((i + 1) as nat, |k: int| ExternalOperand::Argument(k as usize)) =~= Seq::new(
                i as nat,
                |k: int| ExternalOperand::Argument(k as usize),
            ).push(ExternalOperand::Argument(i)));
        }
        i += 1;
    }
    proof {
        let arguments = Seq::new(count as nat, |k: int| ExternalOperand::Argument(k as usize));
        if !receiver_first {
            assert(head + arguments =~= arguments);
        }
    }
    let total = evaluation.len();
    let passed = if total <= parameter_types.len() {
        total
    } else {
        parameter_types.len()
    };
    let mut argument_targets: Vec<MlirType> = Vec::new();
    let mut j: usize = 0;
    while j < passed
        invariant
            j <= passed,
            passed <= parameter_types@.len(),
            argument_targets@.len() == j,
            forall|k: int| 0 <= k < j ==> #[trigger] argument_targets@[k]@ == parameter_types@[k]@,
        decreases passed - j,
    {
        argument_targets.push(parameter_types[j].duplicate());
        j += 1;
    }
    LibraryCallArguments {
        receiver_first,
        evaluation,
        argument_targets,
        result_types: MlirType::duplicate_list(return_types),
    }
}

/// The expression emitter's external library call: the passed values are coerced to the
/// parameter types; the calldata is the selector (`bytes4`) followed by the ABI-encoded
/// values, sent by `sol.bare_delegate_call` to the address of the linked library
/// `library`; on failure the callee's return data is re-reverted; on success the return
/// data is decoded as the return types, and the call yields the first decoded result, if
/// the function returns any.
pub struct EmitterLibraryCall {
    /// The selector, a `ui32` constant cast to `bytes4`.
    pub selector: u32,
    /// The `sol.encode` of the calldata.
    pub encode: EncodeOperation,
    /// The passed values, their coercions and the result types.
    pub arguments: LibraryCallArguments,
    /// The linked library whose address (`sol.lib_addr`) is called.
    pub library: String,
    /// Whether the call is a `sol.bare_delegate_call`.
    pub bare_delegate_call: bool,
    /// Whether a failed call re-reverts with the callee's return data.
    pub reverts_with_return_data: bool,
    /// The types the return data is decoded as, in order.
    pub decoded_types: Vec<MlirType>,
    /// Whether the call yields a value (the first decoded result).
    pub yields_first_result: bool,
}

impl CallEmitter {
    /// The expression emitter's external library call with `argument_count` explicit
    /// arguments, a using-for receiver when `receiver` (encoded first), the callee's
    /// parameter and return types, and the linker symbol of its library (see
    /// [`EmitterLibraryCall`]).
    pub fn emit_library_external_call(
        selector: Option<u32>,
        argument_count: usize,
        receiver: bool,
        library: &str,
        parameter_types: &Vec<MlirType>,
        return_types: &Vec<MlirType>,
    ) -> (result: EmitterLibraryCall)
        requires
            selector is Some,
            argument_count < i32::MAX,
        ensures
            result.selector == selector->0,
            result.arguments.receiver_first == receiver,
            spec_library_call_arguments(result.arguments, argument_count, parameter_types@),
            result.library@ == library@,
            result.bare_delegate_call,
            result.reverts_with_return_data,
            type_views(result.decoded_types@) == type_views(return_types@),
            (result.encode.value_segment, result.encode.selector_segment) == spec_encode_segments(
                (argument_count + if receiver { 1usize } else { 0usize }) as usize,
                true,
            ),
            !result.encode.packed,
            result.yields_first_result == (return_types@.len() > 0),
    {
        let value_count = if receiver {
            argument_count + 1
        } else {
            argument_count
        };
        let encode = ExpressionContext::emit_sol_encode(value_count, true, EncodeMode::Standard);
        let selector = match selector {
            Some(s) => s,
            None => 0,
        };
        EmitterLibraryCall {
            selector,
            encode,
            arguments: library_call_arguments(receiver, argument_count, parameter_types, return_types),
            library: String::from_str(library),
            bare_delegate_call: true,
            reverts_with_return_data: true,
            decoded_types: MlirType::duplicate_list(return_types),
            yields_first_result: return_types.len() > 0,
        }
    }
}

/// A returned `calldata` `bytes` or `string` reaches the caller in memory, and no return
/// type the caller receives is in calldata unless the library declared a calldata
/// non-string type.
pub proof fn lemma_library_return_relocated(parameter: ReturnParameter)
    requires
        parameter.calldata,
        parameter.slang_type is Bytes || parameter.slang_type is String,
    ensures
        spec_library_return_type(parameter) == TypeView::String(DataLocation::Memory),
{
}

} // verus!
