//! `new` expressions: a zeroed `sol.malloc` of a dynamic memory aggregate (`new T[](n)`,
//! `new bytes(n)`, `new string(n)`), or a contract creation `sol.new` (`new C(args)`).

use vstd::prelude::*;

use crate::call_kind::CallKind;
use crate::context::CallEmitter;
use crate::location::DataLocation;
use crate::mlir_type::{MlirType, TypeView};
use crate::operator::CmpPredicate;
use crate::slang_type::SlangType;
use crate::type_conversion::{resolvable, spec_resolve, TypeConversion};

verus! {

/// How a `new` expression lowers.
#[derive(Debug)]
pub enum NewPlan {
    /// A zeroed `sol.malloc` of the aggregate type; `sized` when the first argument gives
    /// the element count, cast to `size_type` (`ui256`), and without a size operand
    /// otherwise.
    Allocate { result_type: MlirType, sized: bool, size_type: MlirType },
    /// `sol.new` of the contract's deploy object: `dependency` is the name recorded as a
    /// dependency of the object being built; forwards the `{value: v}` option when given,
    /// else a `ui256` zero, and selects `CREATE2` with the salt when given; constructor
    /// argument `i` is coerced to `argument_targets[i]` (the arguments beyond the
    /// constructor's parameters are not passed). `segment_sizes` are the operand segments
    /// (value, salt, constructor arguments).
    CreateContract {
        contract_name: String,
        dependency: String,
        result_type: MlirType,
        explicit_value: bool,
        argument_targets: Vec<MlirType>,
        segment_sizes: (i32, i32, i32),
    },
}

/// The aggregate type a dynamic `new` allocates: the call's array, `bytes` or `string`
/// type in memory; or, for an untyped `new` of an elementary type name (`new bytes`,
/// `new string`), a memory string.
pub open spec fn spec_dynamic_result_type(call_type: Option<SlangType>, elementary_operand: bool) -> Option<TypeView> {
    match call_type {
        Some(SlangType::Array(element, location)) => Some(
            spec_resolve(SlangType::Array(element, location), Some(DataLocation::Memory)),
        ),
        Some(SlangType::Bytes(location)) => Some(spec_resolve(SlangType::Bytes(location), Some(DataLocation::Memory))),
        Some(SlangType::String(location)) => Some(spec_resolve(SlangType::String(location), Some(DataLocation::Memory))),
        None => if elementary_operand {
            Some(TypeView::String(DataLocation::Memory))
        } else {
            None
        },
        _ => None,
    }
}

/// Whether a `new` expression can be lowered: a dynamic aggregate whose type resolves,
/// or a contract creation with no more constructor arguments than an `i32` counts.
pub open spec fn spec_new_supported(call_type: Option<SlangType>, elementary_operand: bool, argument_count: nat) -> bool {
    match call_type {
        Some(SlangType::Array(element, location)) => resolvable(
            SlangType::Array(element, location),
            Some(DataLocation::Memory),
        ),
        Some(SlangType::Bytes(location)) => resolvable(SlangType::Bytes(location), Some(DataLocation::Memory)),
        Some(SlangType::String(location)) => resolvable(SlangType::String(location), Some(DataLocation::Memory)),
        Some(SlangType::Contract(_, _)) => argument_count <= i32::MAX,
        None => elementary_operand,
        _ => false,
    }
}

/// The number of constructor arguments passed: the arguments that meet a parameter.
pub open spec fn spec_passed_arguments(argument_count: nat, parameter_count: nat) -> nat {
    if argument_count <= parameter_count {
        argument_count
    } else {
        parameter_count
    }
}

/// The operands of a `sol.new`, in the order they are appended.
pub enum NewOperand {
    /// The wei forwarded.
    Value,
    /// The `CREATE2` salt.
    Salt,
    /// A constructor argument, by position.
    Argument(nat),
}

/// The operand list of a `sol.new`: the value, the salt when given, then the constructor
/// arguments.
pub open spec fn spec_new_operands(has_salt: bool, argument_count: nat) -> Seq<NewOperand> {
    let head = if has_salt {
        seq![NewOperand::Value, NewOperand::Salt]
    } else {
        seq![NewOperand::Value]
    };
    head + Seq::new(argument_count, |i: int| NewOperand::Argument(i as nat))
}

/// Whether a plan is the lowering of a `new` expression (see [`NewPlan`]).
pub open spec fn spec_new_plan(
    result: NewPlan,
    call_type: Option<SlangType>,
    elementary_operand: bool,
    argument_count: usize,
    has_value: bool,
    has_salt: bool,
    parameter_types: Seq<MlirType>,
) -> bool {
    match result {
        NewPlan::Allocate { result_type, sized, size_type } => {
            &&& spec_dynamic_result_type(call_type, elementary_operand) == Some(result_type@)
            &&& sized == (argument_count > 0)
            &&& size_type@ == TypeView::Unsigned(256)
        },
        NewPlan::CreateContract {
            contract_name,
            dependency,
            result_type,
            explicit_value,
            argument_targets,
            segment_sizes,
        } => {
            let passed = spec_passed_arguments(argument_count as nat, parameter_types.len());
            &&& call_type matches Some(SlangType::Contract(name, payable))
            &&& contract_name@ == name@
            &&& dependency@ == name@
            &&& result_type@ == TypeView::Contract(name@, payable)
            &&& explicit_value == has_value
            &&& argument_targets@.len() == passed
            &&& forall|i: int| 0 <= i < passed ==> #[trigger] argument_targets@[i]@ == parameter_types[i]@
            &&& segment_sizes == (1i32, if has_salt { 1i32 } else { 0i32 }, passed as i32)
        },
    }
}

impl CallKind {
    /// Lowers a `new` expression: a typed array, `bytes` or `string` (or an untyped `new`
    /// of an elementary type name) allocates a zeroed memory aggregate, sized by its first
    /// argument cast to `ui256` when one is given and unsized otherwise; a contract type creates the contract, recording it as a
    /// dependency and coercing each constructor argument to the type of its parameter
    /// (`parameter_types`, the constructor's resolved parameter types).
    pub fn emit_new(
        call_type: Option<&SlangType>,
        elementary_operand: bool,
        argument_count: usize,
        has_value: bool,
        has_salt: bool,
        parameter_types: &Vec<MlirType>,
    ) -> (result: NewPlan)
        requires
            spec_new_supported(
                match call_type {
                    Some(t) => Some(*t),
                    None => None,
                },
                elementary_operand,
                argument_count as nat,
            ),
        ensures
            spec_new_plan(
                result,
                match call_type {
                    Some(t) => Some(*t),
                    None => None,
                },
                elementary_operand,
                argument_count,
                has_value,
                has_salt,
                parameter_types@,
            ),
    {
        let dynamic_type = match call_type {
            Some(t) => match t {
                SlangType::Array(_, _) | SlangType::Bytes(_) | SlangType::String(_) => {
                    Some(TypeConversion::resolve_slang_type(t, Some(DataLocation::Memory)))
                },
                _ => None,
            },
            None => {
                if elementary_operand {
                    Some(MlirType::String(DataLocation::Memory))
                } else {
                    None
                }
            },
        };
        if let Some(result_type) = dynamic_type {
            return NewPlan::Allocate { result_type, sized: argument_count > 0, size_type: MlirType::ui256() };
        }
        match call_type {
            Some(SlangType::Contract(name, payable)) => {
                let salt_segment: i32 = if has_salt { 1 } else { 0 };
                let passed = if argument_count <= parameter_types.len() {
                    argument_count
                } else {
                    parameter_types.len()
                };
                let mut argument_targets: Vec<MlirType> = Vec::new();
                let mut i: usize = 0;
                while i < passed
                    invariant
                        i <= passed,
                        passed <= parameter_types@.len(),
                        argument_targets@.len() == i,
                        forall|j: int| 0 <= j < i ==> #[trigger] argument_targets@[j]@ == parameter_types@[j]@,
                    decreases passed - i,
                {
                    argument_targets.push(parameter_types[i].duplicate());
                    i += 1;
                }
                NewPlan::CreateContract {
                    contract_name: name.clone(),
                    dependency: name.clone(),
                    result_type: MlirType::Contract(name.clone(), *payable),
                    explicit_value: has_value,
                    argument_targets,
                    segment_sizes: (1, salt_segment, passed as i32),
                }
            },
            _ => NewPlan::Allocate {
                result_type: MlirType::String(DataLocation::Memory),
                sized: false,
                size_type: MlirType::ui256(),
            },
        }
    }
}

/// The operand segments of a contract creation describe its operand list: one value, then
/// the salt exactly when one is given, then every constructor argument in order.
pub proof fn lemma_new_segments_cover_operands(has_salt: bool, argument_count: nat)
    requires
        argument_count <= i32::MAX,
    ensures
        ({
            let segments: (i32, i32, i32) = (1i32, if has_salt { 1i32 } else { 0i32 }, argument_count as i32);
            let operands = spec_new_operands(has_salt, argument_count);
            &&& operands.len() == segments.0 + segments.1 + segments.2
            &&& forall|i: int| 0 <= i < segments.0 ==> #[trigger] operands[i] is Value
            &&& forall|i: int| segments.0 <= i < segments.0 + segments.1 ==> #[trigger] operands[i] is Salt
            &&& forall|i: int| segments.0 + segments.1 <= i < operands.len() ==> #[trigger] operands[i]
                == NewOperand::Argument((i - segments.0 - segments.1) as nat)
        }),
{
}

/// `try new C(args)`: the creation, which does not revert on failure, and its status.
pub struct TryNewExpression;

/// The lowering of `try new C(args)`: the contract creation (forwarding the `value` and
/// `salt` options when given) with failure surfaced instead of reverted; the status is
/// the created contract cast to a non-payable address, then to `ui160`, compared not
/// equal (`status_predicate`) to a `ui160` zero; the single result is the contract.
pub struct TryNewPlan {
    /// The creation.
    pub creation: NewPlan,
    /// Whether a failed creation reverts.
    pub reverts_on_failure: bool,
    /// The two `sol.address_cast` targets applied to the contract, in order.
    pub status_casts: (MlirType, MlirType),
    /// The predicate comparing the cast contract with zero.
    pub status_predicate: CmpPredicate,
    /// The type of the zero compared against.
    pub status_zero_type: MlirType,
    /// The number of results past the status: the contract.
    pub result_count: usize,
}

impl TryNewExpression {
    /// Lowers `try new C(args)` with `argument_count` constructor arguments against the
    /// constructor's `parameter_types`: the status is non-zero exactly when the created
    /// contract's address is.
    pub fn emit(
        contract_type: &SlangType,
        argument_count: usize,
        has_value: bool,
        has_salt: bool,
        parameter_types: &Vec<MlirType>,
    ) -> (result: TryNewPlan)
        requires
            contract_type is Contract,
            argument_count <= i32::MAX,
        ensures
            spec_new_plan(
                result.creation,
                Some(*contract_type),
                false,
                argument_count,
                has_value,
                has_salt,
                parameter_types@,
            ),
            result.creation is CreateContract,
            !result.reverts_on_failure,
            result.status_casts.0@ == TypeView::Address(false),
            result.status_casts.1@ == TypeView::Unsigned(160),
            result.status_predicate == CmpPredicate::Ne,
            result.status_zero_type@ == TypeView::Unsigned(160),
            result.result_count == 1,
    {
        let creation = CallKind::emit_new(
            Some(contract_type),
            false,
            argument_count,
            has_value,
            has_salt,
            parameter_types,
        );
        TryNewPlan {
            creation,
            reverts_on_failure: false,
            status_casts: (MlirType::Address(false), MlirType::Unsigned(160)),
            status_predicate: CmpPredicate::Ne,
            status_zero_type: MlirType::Unsigned(160),
            result_count: 1,
        }
    }
}

/// The expression emitter's dynamic allocation `new T[](n)` / `new bytes(n)` /
/// `new string(n)`: a zeroed `sol.malloc` of the memory aggregate, sized by the first
/// argument converted to `size_type` (`ui256`) when there is one, else unsized.
pub struct NewArrayPlan {
    /// The aggregate type allocated.
    pub result_type: MlirType,
    /// Whether the first argument gives the element count.
    pub sized: bool,
    /// The type the count is converted to.
    pub size_type: MlirType,
}

impl CallEmitter {
    /// Tries a call as a dynamic allocation: `None` when the callee is not a `new`
    /// expression (`is_new`) or allocates no array, `bytes` or `string` (a contract
    /// creation), so the caller falls through.
    pub fn try_emit_new_array(
        is_new: bool,
        call_type: Option<&SlangType>,
        elementary_operand: bool,
        argument_count: usize,
    ) -> (result: Option<NewArrayPlan>)
        requires
            is_new ==> match call_type {
                Some(t) => (*t is Array || *t is Bytes || *t is String) ==> resolvable(*t, Some(DataLocation::Memory)),
                None => true,
            },
        ensures
            match result {
                Some(plan) => {
                    &&& is_new
                    &&& spec_dynamic_result_type(
                        match call_type {
                            Some(t) => Some(*t),
                            None => None,
                        },
                        elementary_operand,
                    ) == Some(plan.result_type@)
                    &&& plan.sized == (argument_count > 0)
                    &&& plan.size_type@ == TypeView::Unsigned(256)
                },
                None => !is_new || spec_dynamic_result_type(
                    match call_type {
                        Some(t) => Some(*t),
                        None => None,
                    },
                    elementary_operand,
                ) is None,
            },
    {
        if !is_new {
            return None;
        }
        let result_type = match call_type {
            Some(t) => match t {
                SlangType::Array(_, _) | SlangType::Bytes(_) | SlangType::String(_) => {
                    TypeConversion::resolve_slang_type(t, Some(DataLocation::Memory))
                },
                _ => return None,
            },
            None => {
                if elementary_operand {
                    MlirType::String(DataLocation::Memory)
                } else {
                    return None;
                }
            },
        };
        Some(NewArrayPlan { result_type, sized: argument_count > 0, size_type: MlirType::ui256() })
    }
}

/// A dynamic `new` allocates, sized by a `ui256` count exactly when an argument is
/// given; a contract `new` creates the named contract, records that same name as a
/// dependency, always passes one value operand, a salt exactly when one is given, and
/// one constructor argument per parameter that an argument meets, each coerced to the
/// type of that parameter.
pub proof fn lemma_new_plan_shape(
    plan: NewPlan,
    call_type: Option<SlangType>,
    elementary_operand: bool,
    argument_count: usize,
    has_value: bool,
    has_salt: bool,
    parameter_types: Seq<MlirType>,
)
    requires
        spec_new_plan(plan, call_type, elementary_operand, argument_count, has_value, has_salt, parameter_types),
        argument_count <= i32::MAX,
    ensures
        plan matches NewPlan::Allocate { sized, size_type, .. } ==> (sized <==> argument_count > 0)
            && size_type@ == TypeView::Unsigned(256),
        plan matches NewPlan::Allocate { .. } ==> !(call_type matches Some(SlangType::Contract(_, _))),
        plan matches NewPlan::CreateContract {
            contract_name,
            dependency,
            explicit_value,
            argument_targets,
            segment_sizes,
            ..
        } ==> {
            &&& call_type matches Some(SlangType::Contract(name, _)) && contract_name@ == name@
            &&& dependency@ == contract_name@
            &&& explicit_value == has_value
            &&& segment_sizes.0 == 1
            &&& (segment_sizes.1 == 1) == has_salt
            &&& segment_sizes.1 == 0 || segment_sizes.1 == 1
            &&& segment_sizes.2 as int == argument_targets@.len()
            &&& argument_targets@.len() <= argument_count
            &&& argument_targets@.len() <= parameter_types.len()
            &&& (argument_targets@.len() == argument_count || argument_targets@.len() == parameter_types.len())
            &&& forall|i: int| 0 <= i < argument_targets@.len() ==> #[trigger] argument_targets@[i]@ == parameter_types[i]@
        },
{
}

} // verus!
