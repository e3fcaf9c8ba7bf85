//! External calls `c.f(args)` and `this.f(args)`: which member calls are external, and
//! the `sol.ext_call` / `sol.ext_icall` they build.

use vstd::prelude::*;

use crate::context::{CallContext, CallEmitter};

use crate::call_kind::{MemberAccessFacts, OperandShape, StaticMode};
use crate::definition::{Definition, FunctionFacts, spec_is_static_mutability};
use crate::built_in::{OperandSource, spec_left_to_right};
use crate::mlir_type::{MlirType, TypeView, type_view, type_views};
use crate::slang_type::SlangType;
use crate::type_conversion::{
    ConversionStep, TypeConversion, resolvable, spec_conversion_steps, spec_from_target_type, spec_resolve,
};

verus! {

/// Whether an operand is a namespace qualifier that is not a runtime receiver: a library,
/// contract, import or imported symbol name, or `super`.
pub open spec fn spec_namespace_or_super(operand: OperandShape) -> bool {
    match operand {
        OperandShape::Super => true,
        OperandShape::Identifier(Some(Definition::Library)) | OperandShape::Identifier(
            Some(Definition::Contract),
        ) | OperandShape::Identifier(Some(Definition::Import)) | OperandShape::Identifier(
            Some(Definition::ImportedSymbol),
        ) => true,
        _ => false,
    }
}

/// The function a value-receiver external call `x.f(args)` targets: a member function
/// with a selector, reached through a runtime receiver.
pub open spec fn spec_value_receiver_callee(access: MemberAccessFacts) -> Option<FunctionFacts> {
    if spec_namespace_or_super(access.operand) {
        None
    } else {
        match access.member_definition {
            Some(Definition::Function(function)) => if function.selector is Some {
                Some(function)
            } else {
                None
            },
            _ => None,
        }
    }
}

/// The target of a `this.f(args)` external self-call: a member function with a selector
/// on `this`.
pub open spec fn spec_this_external_callee(access: MemberAccessFacts) -> Option<FunctionFacts> {
    if access.operand == OperandShape::This {
        match access.member_definition {
            Some(Definition::Function(function)) => if function.selector is Some {
                Some(function)
            } else {
                None
            },
            _ => None,
        }
    } else {
        None
    }
}

/// The selector of the getter a `this.v(args)` self-call targets: a state variable with a
/// getter, on `this`.
pub open spec fn spec_this_getter_selector(access: MemberAccessFacts) -> Option<u32> {
    if access.operand == OperandShape::This {
        match access.member_definition {
            Some(Definition::StateVariable(variable)) => variable.selector,
            _ => None,
        }
    } else {
        None
    }
}

/// A value an external call evaluates.
#[derive(Debug, Clone, Copy, PartialEq, Eq, Structural)]
pub enum ExternalOperand {
    /// The receiver `x` of `x.f(...)`.
    Receiver,
    /// The call argument at this source position.
    Argument(usize),
}

/// An external call: its selector, whether it is a `STATICCALL`, the values it evaluates
/// in order (the receiver, then the arguments in parameter order), the argument passed to
/// each parameter and its conversion to the parameter's type, the types of its results in
/// order, whether the value and gas options are forwarded, and whether it reverts on
/// failure (it surfaces its status instead under `try`).
pub struct ExternalCallPlan {
    /// The callee's selector.
    pub selector: u32,
    /// Whether the call is a `STATICCALL`.
    pub static_mode: StaticMode,
    /// The values evaluated, in order.
    pub evaluation: Vec<ExternalOperand>,
    /// For each parameter, by position, the source position of its argument.
    pub argument_order: Vec<usize>,
    /// The conversion of each passed argument to its parameter's type.
    pub argument_steps: Vec<ConversionStep>,
    /// The types of the call's results, in order.
    pub result_types: Vec<MlirType>,
    /// Whether the `{value: v}` option is forwarded.
    pub forwards_value: bool,
    /// Whether the `{gas: g}` option is forwarded.
    pub forwards_gas: bool,
    /// Whether the operation reverts on failure.
    pub reverts_on_failure: bool,
}

/// Whether `order` puts the arguments of a call in parameter order: with positional
/// arguments, source order; with named arguments (`named[j]` is the parameter id the
/// `j`-th argument names), for each parameter the first argument that names it.
pub open spec fn spec_ordered_by(parameter_ids: Seq<u64>, named: Option<Seq<u64>>, count: usize, order: Seq<usize>) -> bool {
    match named {
        None => order == spec_left_to_right(count),
        Some(names) => {
            &&& order.len() == parameter_ids.len()
            &&& forall|p: int| 0 <= p < order.len() ==> {
                &&& #[trigger] order[p] < names.len()
                &&& names[order[p] as int] == parameter_ids[p]
                &&& forall|k: int| 0 <= k < order[p] ==> names[k] != parameter_ids[p]
            }
        },
    }
}

/// Whether every parameter is named by some argument.
pub open spec fn spec_all_parameters_named(parameter_ids: Seq<u64>, names: Seq<u64>) -> bool {
    forall|p: int| 0 <= p < parameter_ids.len() ==> names.contains(#[trigger] parameter_ids[p])
}

/// The source positions of a call's arguments in parameter order: `None` when a
/// parameter is named by no argument.
pub fn ordered_by(parameter_ids: &Vec<u64>, named: Option<&Vec<u64>>, count: usize) -> (result: Option<Vec<usize>>)
    ensures
        match result {
            Some(order) => spec_ordered_by(
                parameter_ids@,
                match named {
                    Some(n) => Some(n@),
                    None => None,
                },
                count,
                order@,
            ),
            None => named matches Some(n) && !spec_all_parameters_named(parameter_ids@, n@),
        },
{
    match named {
        None => {
            let mut order: Vec<usize> = Vec::new();
            let mut i: usize = 0;
            while i < count
                invariant
                    i <= count,
                    order@ == spec_left_to_right(i),
                decreases count - i,
            {
                order.push(i);
                proof {
                    assert(spec_left_to_right((i + 1) as usize) =~= spec_left_to_right(i).push(i));
                }
                i += 1;
            }
            return Some(order);
        },
        Some(names) => order_named(parameter_ids, names),
    }
}

/// For each parameter id, the position of the first name that equals it; `None` when one
/// is named by no argument.
fn order_named(parameter_ids: &Vec<u64>, names: &Vec<u64>) -> (result: Option<Vec<usize>>)
    ensures
        match result {
            Some(order) => spec_ordered_by(parameter_ids@, Some(names@), 0, order@),
            None => !spec_all_parameters_named(parameter_ids@, names@),
        },
{
    let mut order: Vec<usize> = Vec::new();
    let mut p: usize = 0;
    while p < parameter_ids.len()
        invariant
            p <= parameter_ids@.len(),
            order@.len() == p,
            forall|q: int| 0 <= q < p ==> {
                &&& #[trigger] order@[q] < names@.len()
                &&& names@[order@[q] as int] == parameter_ids@[q]
                &&& forall|k: int| 0 <= k < order@[q] ==> names@[k] != parameter_ids@[q]
            },
        decreases parameter_ids@.len() - p,
    {
        let id = parameter_ids[p];
        let mut j: usize = 0;
        while j < names.len() && names[j] != id
            invariant
                j <= names@.len(),
                forall|k: int| 0 <= k < j ==> names@[k] != id,
            decreases names@.len() - j,
        {
            j += 1;
        }
        if j == names.len() {
            proof {
                assert(!names@.contains(parameter_ids@[p as int]));
                assert(!spec_all_parameters_named(parameter_ids@, names@));
            }
            return None;
        }
        order.push(j);
        p += 1;
    }
    Some(order)
}

/// Whether a callee's mutability makes an external call to it a `STATICCALL`.
pub fn is_static_call_mutability(function: &FunctionFacts) -> (result: bool)
    ensures
        result == spec_is_static_mutability(function.mutability),
{
    match function.mutability {
        crate::definition::FunctionMutability::View | crate::definition::FunctionMutability::Pure => true,
        _ => false,
    }
}

/// How the expression emitter lowers an external call through a runtime receiver
/// `x.f(args)`: the callee; the receiver evaluated first, then the arguments left to
/// right; the receiver cast to a non-payable address by `sol.address_cast` and paired
/// with the selector into an external function reference; each argument coerced to its
/// parameter type; the wei sent (the `{value: v}` option, else a `ui256` zero); and
/// `sol.ext_icall` yielding results of the return types in order, as a `STATICCALL` for
/// a `view` or `pure` callee.
pub struct EmitterExternalCall {
    /// The callee.
    pub function: FunctionFacts,
    /// The callee's selector.
    pub selector: u32,
    /// The values evaluated, in order.
    pub evaluation: Vec<ExternalOperand>,
    /// The type the receiver is cast to.
    pub receiver_cast: MlirType,
    /// The type each passed argument is coerced to, by position.
    pub argument_targets: Vec<MlirType>,
    /// The types of the call's results, in order.
    pub result_types: Vec<MlirType>,
    /// The wei sent.
    pub value: OperandSource,
    /// Whether the call is a `STATICCALL`.
    pub static_mode: StaticMode,
}

/// The receiver, then `count` arguments left to right.
pub open spec fn spec_receiver_then_arguments(count: usize) -> Seq<ExternalOperand> {
    seq![ExternalOperand::Receiver] + Seq::new(count as nat, |i: int| ExternalOperand::Argument(i as usize))
}

impl CallEmitter {
    /// The external call through a runtime receiver `x.f(args)` with `argument_count`
    /// positional arguments, if the member is one (see [`EmitterExternalCall`]);
    /// `parameter_types` and `return_types` are the callee's resolved signature.
    pub fn try_emit_external_call_results(
        access: &MemberAccessFacts,
        argument_count: usize,
        has_value_option: bool,
        parameter_types: &Vec<MlirType>,
        return_types: &Vec<MlirType>,
    ) -> (result: Option<EmitterExternalCall>)
        ensures
            match result {
                Some(call) => {
                    let passed = if argument_count <= parameter_types@.len() {
                        argument_count as int
                    } else {
                        parameter_types@.len() as int
                    };
                    &&& spec_value_receiver_callee(*access) == Some(call.function)
                    &&& call.function.selector == Some(call.selector)
                    &&& call.evaluation@ == spec_receiver_then_arguments(argument_count)
                    &&& call.receiver_cast@ == TypeView::Address(false)
                    &&& call.argument_targets@.len() == passed
                    &&& forall|i: int| 0 <= i < passed ==> #[trigger] call.argument_targets@[i]@ == parameter_types@[i]@
                    &&& type_views(call.result_types@) == type_views(return_types@)
                    &&& call.value == if has_value_option {
                        OperandSource::Option
                    } else {
                        OperandSource::Zero
                    }
                    &&& call.static_mode == if spec_is_static_mutability(call.function.mutability) {
                        StaticMode::Static
                    } else {
                        StaticMode::Call
                    }
                },
                None => spec_value_receiver_callee(*access) is None,
            },
    {
        let function = match Self::value_receiver_callee(access) {
            Some(function) => function,
            None => return None,
        };
        let selector = match function.selector {
            Some(s) => s,
            None => return None,
        };
        let mut evaluation: Vec<ExternalOperand> = Vec::new();
        evaluation.push(ExternalOperand::Receiver);
        let mut i: usize = 0;
        while i < argument_count
            invariant
                i <= argument_count,
                evaluation@ == spec_receiver_then_arguments(i),
            decreases argument_count - i,
        {
            evaluation.push(ExternalOperand::Argument(i));
            proof {
                assert(spec_receiver_then_arguments((i + 1) as usize) =~= spec_receiver_then_arguments(i).push(
                    ExternalOperand::Argument(i),
                ));
            }
            i += 1;
        }
        let passed = if argument_count <= parameter_types.len() {
            argument_count
        } else {
            parameter_types.len()
        };
        let mut argument_targets: Vec<MlirType> = Vec::new();
        let mut j: usize = 0;
        while j < passed
            invariant
                j <= passed,
                passed <= parameter_types@.len(),
                argument_targets@.len() == j,
                forall|k: int| 0 <= k < j ==> #[trigger] argument_targets@[k]@ == parameter_types@[k]@,
            decreases passed - j,
        {
            argument_targets.push(parameter_types[j].duplicate());
            j += 1;
        }
        Some(EmitterExternalCall {
            function,
            selector,
            evaluation,
            receiver_cast: MlirType::Address(false),
            argument_targets,
            result_types: MlirType::duplicate_list(return_types),
            value: if has_value_option {
                OperandSource::Option
            } else {
                OperandSource::Zero
            },
            static_mode: StaticMode::from_function(&function),
        })
    }

    /// The function a member call through a runtime receiver targets externally, if any.
    pub fn value_receiver_callee(access: &MemberAccessFacts) -> (result: Option<FunctionFacts>)
        ensures
            result == spec_value_receiver_callee(*access),
    {
        let namespace = match access.operand {
            OperandShape::Super => true,
            OperandShape::Identifier(Some(Definition::Library))
            | OperandShape::Identifier(Some(Definition::Contract))
            | OperandShape::Identifier(Some(Definition::Import))
            | OperandShape::Identifier(Some(Definition::ImportedSymbol)) => true,
            _ => false,
        };
        if namespace {
            return None;
        }
        match access.member_definition {
            Some(Definition::Function(function)) => {
                if function.selector.is_some() {
                    Some(function)
                } else {
                    None
                }
            },
            _ => None,
        }
    }

    /// The function a `this.f(args)` self-call targets, if the access is one.
    pub fn try_emit_this_external_call(access: &MemberAccessFacts) -> (result: Option<FunctionFacts>)
        ensures
            result == spec_this_external_callee(*access),
    {
        match access.operand {
            OperandShape::This => match access.member_definition {
                Some(Definition::Function(function)) => {
                    if function.selector.is_some() {
                        Some(function)
                    } else {
                        None
                    }
                },
                _ => None,
            },
            _ => None,
        }
    }

    /// The selector of the getter a `this.v(args)` self-call targets, if the access is one.
    pub fn try_emit_this_getter_call(access: &MemberAccessFacts) -> (result: Option<u32>)
        ensures
            result == spec_this_getter_selector(*access),
    {
        match access.operand {
            OperandShape::This => match access.member_definition {
                Some(Definition::StateVariable(variable)) => variable.selector,
                _ => None,
            },
            _ => None,
        }
    }
}

impl CallContext {
    /// The external call to `function` with arguments of `argument_types` (by source
    /// position) against its `parameter_types` and `return_types`: its selector,
    /// `STATICCALL` for a `view` or `pure` callee; the receiver evaluated first, then the
    /// arguments in parameter order (named arguments matched to parameters by id), each
    /// converted to its parameter type (as many as meet a parameter); results of the
    /// return types in order; the value and gas options forwarded when given; reverting
    /// on failure unless under `try`.
    pub fn emit_external_member_call_fallible(
        function: &FunctionFacts,
        parameter_ids: &Vec<u64>,
        parameter_types: &Vec<MlirType>,
        return_types: &Vec<MlirType>,
        named: Option<&Vec<u64>>,
        argument_types: &Vec<MlirType>,
        has_value_option: bool,
        has_gas_option: bool,
        try_call: bool,
    ) -> (result: ExternalCallPlan)
        requires
            function.selector is Some,
            parameter_ids@.len() == parameter_types@.len(),
            named matches Some(n) ==> n@.len() == argument_types@.len() && spec_all_parameters_named(
                parameter_ids@,
                n@,
            ),
        ensures
            spec_ordered_by(
                parameter_ids@,
                match named {
                    Some(n) => Some(n@),
                    None => None,
                },
                argument_types.len(),
                result.argument_order@,
            ),
            result.evaluation@.len() == result.argument_steps@.len() + 1,
            result.evaluation@[0] == ExternalOperand::Receiver,
            forall|p: int| 0 <= p < result.argument_steps@.len() ==> #[trigger] result.evaluation@[p + 1]
                == ExternalOperand::Argument(result.argument_order@[p]),
            type_views(result.result_types@) == type_views(return_types@),
            result.forwards_value == has_value_option,
            result.forwards_gas == has_gas_option,
            result.selector == function.selector->0,
            result.static_mode == (if spec_is_static_mutability(function.mutability) {
                StaticMode::Static
            } else {
                StaticMode::Call
            }),
            result.reverts_on_failure == !try_call,
            result.argument_steps@.len() == (if result.argument_order@.len() <= parameter_types@.len() {
                result.argument_order@.len()
            } else {
                parameter_types@.len()
            }),
            forall|i: int| 0 <= i < result.argument_steps@.len() ==> #[trigger] result.argument_steps@[i]@
                == spec_conversion_steps(
                    spec_from_target_type(parameter_types@[i]),
                    type_view(argument_types@[result.argument_order@[i] as int]),
                ),
    {
        let argument_order = match ordered_by(parameter_ids, named, argument_types.len()) {
            Some(order) => order,
            None => Vec::new(),
        };
        let count = if argument_order.len() <= parameter_types.len() {
            argument_order.len()
        } else {
            parameter_types.len()
        };
        let mut argument_steps: Vec<ConversionStep> = Vec::new();
        let mut evaluation: Vec<ExternalOperand> = Vec::new();
        evaluation.push(ExternalOperand::Receiver);
        let mut i: usize = 0;
        while i < count
            invariant
                i <= count,
                count <= argument_order@.len(),
                count <= parameter_types@.len(),
                forall|q: int| 0 <= q < argument_order@.len() ==> #[trigger] argument_order@[q] < argument_types@.len(),
                argument_steps@.len() == i,
                evaluation@.len() == i + 1,
                evaluation@[0] == ExternalOperand::Receiver,
                forall|j: int| 0 <= j < i ==> #[trigger] evaluation@[j + 1] == ExternalOperand::Argument(argument_order@[j]),
                forall|j: int| 0 <= j < i ==> #[trigger] argument_steps@[j]@ == spec_conversion_steps(
                    spec_from_target_type(parameter_types@[j]),
                    type_view(argument_types@[argument_order@[j] as int]),
                ),
            decreases count - i,
        {
            let position = argument_order[i];
            let target = parameter_types[i].duplicate();
            let conversion = TypeConversion::from_target_type(target);
            let step = conversion.emit(&argument_types[position]);
            proof {
                crate::type_conversion::lemma_from_target_view(target, parameter_types@[i as int], type_view(argument_types@[position as int]));
            }
            argument_steps.push(step);
            evaluation.push(ExternalOperand::Argument(position));
            i += 1;
        }
        let selector = match function.selector {
            Some(s) => s,
            None => 0,
        };
        ExternalCallPlan {
            selector,
            static_mode: StaticMode::from_function(function),
            evaluation,
            argument_order,
            argument_steps,
            result_types: MlirType::duplicate_list(return_types),
            forwards_value: has_value_option,
            forwards_gas: has_gas_option,
            reverts_on_failure: !try_call,
        }
    }
}

/// The function an external instance call `instance.f(args)` targets: a member function
/// with a selector.
pub open spec fn spec_instance_callee(access: MemberAccessFacts) -> Option<FunctionFacts> {
    match access.member_definition {
        Some(Definition::Function(function)) => if function.selector is Some {
            Some(function)
        } else {
            None
        },
        _ => None,
    }
}

/// The getter an external getter call `instance.value()` targets: a state variable with a
/// getter, called without arguments, whose type is resolved; its selector and the type
/// it returns.
pub open spec fn spec_external_getter(
    access: MemberAccessFacts,
    argument_count: usize,
    declared_type: Option<SlangType>,
) -> Option<(u32, TypeView)> {
    if argument_count != 0 {
        None
    } else {
        match (access.member_definition, declared_type) {
            (Some(Definition::StateVariable(variable)), Some(t)) => match variable.selector {
                Some(selector) => Some((selector, spec_resolve(t, None))),
                None => None,
            },
            _ => None,
        }
    }
}

impl CallEmitter {
    /// The function an external instance call targets, if the member is one.
    pub fn try_emit_external_instance_call(access: &MemberAccessFacts) -> (result: Option<FunctionFacts>)
        ensures
            result == spec_instance_callee(*access),
    {
        match access.member_definition {
            Some(Definition::Function(function)) => {
                if function.selector.is_some() {
                    Some(function)
                } else {
                    None
                }
            },
            _ => None,
        }
    }

    /// The selector and return type of an external getter call, if the access is one.
    pub fn try_emit_external_getter_call(
        access: &MemberAccessFacts,
        argument_count: usize,
        declared_type: Option<&SlangType>,
    ) -> (result: Option<(u32, MlirType)>)
        requires
            declared_type matches Some(t) ==> resolvable(*t, None),
        ensures
            match (result, spec_external_getter(
                *access,
                argument_count,
                match declared_type {
                    Some(t) => Some(*t),
                    None => None,
                },
            )) {
                (Some((selector, t)), Some((spec_selector, spec_type))) => selector == spec_selector && t@ == spec_type,
                (None, None) => true,
                _ => false,
            },
    {
        if argument_count != 0 {
            return None;
        }
        let selector = match access.member_definition {
            Some(Definition::StateVariable(variable)) => match variable.selector {
                Some(selector) => selector,
                None => return None,
            },
            _ => return None,
        };
        match declared_type {
            Some(t) => Some((selector, TypeConversion::resolve_slang_type(t, None))),
            None => None,
        }
    }
}

/// A `this.f(args)` self-call is an external call the value-receiver path never claims
/// differently: both target the same function.
pub proof fn lemma_this_call_is_value_receiver_call(access: MemberAccessFacts)
    requires
        spec_this_external_callee(access) is Some,
    ensures
        spec_value_receiver_callee(access) == spec_this_external_callee(access),
{
}

/// The target of `try x.f(args)`: on a receiver typed as a contract or interface, a
/// member function with a selector, or a state variable whose getter has a selector and
/// that is neither constant nor immutable.
pub open spec fn spec_try_call_target(receiver_is_contract: bool, member: Option<Definition>) -> Option<Definition> {
    if !receiver_is_contract {
        None
    } else {
        match member {
            Some(Definition::Function(function)) => if function.selector is Some {
                member
            } else {
                None
            },
            Some(Definition::StateVariable(variable)) => if variable.selector is Some && variable.mutability
                != crate::definition::StateVariableMutability::Constant && variable.mutability
                != crate::definition::StateVariableMutability::Immutable {
                member
            } else {
                None
            },
            _ => None,
        }
    }
}

/// `try x.f(args)`: an external call whose failure is surfaced as a status.
pub struct TryCall;

impl TryCall {
    /// The target of a `try` over a member call, if the call is one (see
    /// [`spec_try_call_target`]).
    pub fn from_expression(receiver_is_contract: bool, member: Option<Definition>) -> (result: Option<Definition>)
        ensures
            result == spec_try_call_target(receiver_is_contract, member),
    {
        if !receiver_is_contract {
            return None;
        }
        match member {
            Some(Definition::Function(function)) => {
                if function.selector.is_some() {
                    member
                } else {
                    None
                }
            },
            Some(Definition::StateVariable(variable)) => {
                let assignable = match variable.mutability {
                    crate::definition::StateVariableMutability::Constant
                    | crate::definition::StateVariableMutability::Immutable => false,
                    _ => true,
                };
                if variable.selector.is_some() && assignable {
                    member
                } else {
                    None
                }
            },
            _ => None,
        }
    }

    /// Lowers `try x.f(args)` for a function target: the external call of
    /// [`CallContext::emit_external_member_call_fallible`] with positional arguments and no
    /// call options, surfacing its status instead of reverting.
    pub fn emit(
        function: &FunctionFacts,
        parameter_ids: &Vec<u64>,
        parameter_types: &Vec<MlirType>,
        return_types: &Vec<MlirType>,
        argument_types: &Vec<MlirType>,
    ) -> (result: ExternalCallPlan)
        requires
            function.selector is Some,
            parameter_ids@.len() == parameter_types@.len(),
        ensures
            result.selector == function.selector->0,
            !result.reverts_on_failure,
            !result.forwards_value,
            !result.forwards_gas,
            result.argument_order@ == spec_left_to_right(argument_types.len()),
            type_views(result.result_types@) == type_views(return_types@),
    {
        CallContext::emit_external_member_call_fallible(
            function,
            parameter_ids,
            parameter_types,
            return_types,
            None,
            argument_types,
            false,
            false,
            true,
        )
    }
}

} // verus!
