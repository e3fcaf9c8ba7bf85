//! Mapping Solidity types to Sol dialect types, and the conversions between values.

use vstd::prelude::*;

use crate::location::{spec_location_from_slang, DataLocation, SlangDataLocation};
use crate::mlir_type::{
    lemma_type_views, type_view, type_views, ArraySize, MlirType, TypeView, BIT_LENGTH_BOOLEAN,
    BIT_LENGTH_BYTE, BIT_LENGTH_ETH_ADDRESS,
};
use crate::slang_type::{LiteralKind, SlangType};

verus! {

/// Whether a Solidity type has a Sol dialect type: its locations resolve (an `Inherited`
/// location needs an enclosing aggregate), literal widths fit, an enum has between one
/// and 256 members, and every part of it is supported.
pub open spec fn resolvable(t: SlangType, inherited: Option<DataLocation>) -> bool
    decreases t,
{
    match t {
        SlangType::Integer { .. } => true,
        SlangType::Boolean => true,
        SlangType::Address => true,
        SlangType::Literal(kind) => match kind {
            LiteralKind::Address => true,
            LiteralKind::Integer(Some(mobile)) => resolvable(*mobile, inherited),
            LiteralKind::Integer(None) => false,
            LiteralKind::HexInteger(bytes) => bytes * 8 <= u32::MAX,
            LiteralKind::String => true,
            LiteralKind::HexString(_) => true,
            LiteralKind::Rational => false,
        },
        SlangType::String(location) => spec_location_from_slang(location, inherited) is Some,
        SlangType::Bytes(location) => spec_location_from_slang(location, inherited) is Some,
        SlangType::ByteArray(_) => true,
        SlangType::Array(element, location) => resolvable(*element, inherited)
            && spec_location_from_slang(location, inherited) is Some,
        SlangType::FixedSizeArray(element, _, location) => resolvable(*element, inherited)
            && spec_location_from_slang(location, inherited) is Some,
        SlangType::Mapping(key, value) => resolvable(*key, Some(DataLocation::Storage))
            && resolvable(*value, Some(DataLocation::Storage)),
        SlangType::Struct(members, location) => match spec_location_from_slang(location, inherited) {
            Some(struct_location) => {
                proof {
                    broadcast use vstd::std_specs::vec::axiom_vec_decreases_to_view;

                    assert(decreases_to!(members => members@));
                }
                all_resolvable(members@, Some(struct_location))
            },
            None => false,
        },
        SlangType::Contract(_, _) => true,
        SlangType::Interface(_) => true,
        SlangType::Enum(count) => 1 <= count <= 256,
        SlangType::UserDefinedValue(target) => resolvable(*target, inherited),
        SlangType::Function(_) => false,
        SlangType::Tuple(_) => false,
        SlangType::Other => false,
    }
}

/// Whether every type of a sequence is resolvable.
pub open spec fn all_resolvable(types: Seq<SlangType>, inherited: Option<DataLocation>) -> bool
    decreases types,
{
    if types.len() == 0 {
        true
    } else {
        proof {
            assert(decreases_to!(types => types.subrange(0, types.len() - 1)));
        }
        all_resolvable(types.subrange(0, types.len() - 1), inherited) && resolvable(
            types[types.len() - 1],
            inherited,
        )
    }
}

/// The Sol dialect type of a Solidity type.
///
/// Integers keep their width and signedness, `bool` is `i1`, an integer literal takes
/// its mobile type, `string` and `bytes` are dialect strings, arrays keep their size,
/// mapping keys and values live in storage, struct members take the struct's location,
/// a contract keeps its name and payability (an interface is never payable), an enum
/// records its highest ordinal, and a user-defined value type is its underlying type.
pub open spec fn spec_resolve(t: SlangType, inherited: Option<DataLocation>) -> TypeView
    decreases t,
{
    match t {
        SlangType::Integer { bits, signed } => if signed {
            TypeView::Signed(bits)
        } else {
            TypeView::Unsigned(bits)
        },
        SlangType::Boolean => TypeView::Signless(1),
        SlangType::Address => TypeView::Address(false),
        SlangType::Literal(kind) => match kind {
            LiteralKind::Address => TypeView::Address(false),
            LiteralKind::Integer(Some(mobile)) => spec_resolve(*mobile, inherited),
            LiteralKind::HexInteger(bytes) => TypeView::Unsigned((bytes * 8) as u32),
            LiteralKind::String => TypeView::String(DataLocation::Memory),
            LiteralKind::HexString(bytes) => TypeView::FixedBytes(bytes),
            _ => TypeView::Byte,
        },
        SlangType::String(location) => TypeView::String(
            spec_location_from_slang(location, inherited).unwrap(),
        ),
        SlangType::Bytes(location) => TypeView::String(
            spec_location_from_slang(location, inherited).unwrap(),
        ),
        SlangType::ByteArray(width) => TypeView::FixedBytes(width),
        SlangType::Array(element, location) => TypeView::Array(
            ArraySize::Dynamic,
            Box::new(spec_resolve(*element, inherited)),
            spec_location_from_slang(location, inherited).unwrap(),
        ),
        SlangType::FixedSizeArray(element, size, location) => TypeView::Array(
            ArraySize::Fixed(size),
            Box::new(spec_resolve(*element, inherited)),
            spec_location_from_slang(location, inherited).unwrap(),
        ),
        SlangType::Mapping(key, value) => TypeView::Mapping(
            Box::new(spec_resolve(*key, Some(DataLocation::Storage))),
            Box::new(spec_resolve(*value, Some(DataLocation::Storage))),
        ),
        SlangType::Struct(members, location) => {
            let struct_location = spec_location_from_slang(location, inherited).unwrap();
            proof {
                broadcast use vstd::std_specs::vec::axiom_vec_decreases_to_view;

                assert(decreases_to!(members => members@));
            }
            TypeView::Struct(spec_resolve_all(members@, Some(struct_location)), struct_location)
        },
        SlangType::Contract(name, payable) => TypeView::Contract(name@, payable),
        SlangType::Interface(name) => TypeView::Contract(name@, false),
        SlangType::Enum(count) => TypeView::Enum((count - 1) as u8),
        SlangType::UserDefinedValue(target) => spec_resolve(*target, inherited),
        _ => TypeView::Byte,
    }
}

/// The Sol dialect types of a sequence of Solidity types, in order.
pub open spec fn spec_resolve_all(types: Seq<SlangType>, inherited: Option<DataLocation>) -> Seq<
    TypeView,
>
    decreases types,
{
    if types.len() == 0 {
        Seq::empty()
    } else {
        proof {
            assert(decreases_to!(types => types.subrange(0, types.len() - 1)));
        }
        spec_resolve_all(types.subrange(0, types.len() - 1), inherited).push(
            spec_resolve(types[types.len() - 1], inherited),
        )
    }
}

/// `all_resolvable` and `spec_resolve_all` go element by element.
pub proof fn lemma_resolve_all(types: Seq<SlangType>, inherited: Option<DataLocation>)
    ensures
        spec_resolve_all(types, inherited).len() == types.len(),
        forall|i: int|
            0 <= i < types.len() ==> #[trigger] spec_resolve_all(types, inherited)[i]
                == spec_resolve(types[i], inherited),
        all_resolvable(types, inherited) <==> forall|i: int|
            0 <= i < types.len() ==> resolvable(#[trigger] types[i], inherited),
    decreases types.len(),
{
    if types.len() > 0 {
        let prefix = types.subrange(0, types.len() - 1);
        lemma_resolve_all(prefix, inherited);
        assert forall|i: int| 0 <= i < types.len() implies #[trigger] spec_resolve_all(
            types,
            inherited,
        )[i] == spec_resolve(types[i], inherited) by {
            if i < types.len() - 1 {
                assert(prefix[i] == types[i]);
            }
        }
        if all_resolvable(types, inherited) {
            assert forall|i: int| 0 <= i < types.len() implies resolvable(
                #[trigger] types[i],
                inherited,
            ) by {
                if i < types.len() - 1 {
                    assert(prefix[i] == types[i]);
                }
            }
        }
        if forall|i: int| 0 <= i < types.len() ==> resolvable(#[trigger] types[i], inherited) {
            assert forall|i: int| 0 <= i < prefix.len() implies resolvable(
                #[trigger] prefix[i],
                inherited,
            ) by {
                assert(prefix[i] == types[i]);
            }
        }
    }
}

/// Classification of Solidity type conversions.
///
/// Used for both explicit conversions (`uint256(x)`, `address(x)`, `bool(x)`) and the
/// implicit widening of operands in arithmetic, assignment, and comparison.
#[derive(Debug)]
pub enum TypeConversion {
    /// `bool(x)`: a comparison against zero, not a truncation.
    Bool,
    /// `address(x)` / `payable(x)`: a cast to `ui160`, then an address cast.
    Address,
    /// An integer cast to the target type.
    Cast(MlirType),
}

/// The operations a conversion emits on a value.
#[derive(Debug)]
pub enum ConversionStep {
    /// The value already has the target type: nothing is emitted.
    Keep,
    /// `sol.cmp ne` against a zero constant of the value's own type.
    CompareNonZero,
    /// `sol.cast` to `ui160`, then `sol.address_cast` to the non-payable address.
    CastThenAddressCast,
    /// `sol.address_cast` to the non-payable address.
    AddressCast,
    /// `sol.cast` to the given type.
    Cast(MlirType),
}

/// The view of a conversion: the target type it produces.
pub open spec fn conversion_target(conversion: TypeConversion) -> TypeView {
    match conversion {
        TypeConversion::Bool => TypeView::Signless(1),
        TypeConversion::Address => TypeView::Address(false),
        TypeConversion::Cast(target) => target@,
    }
}

/// The steps a conversion emits on a value of type `value_type`: nothing when the value
/// already has the target type, else by the conversion's class.
pub open spec fn spec_conversion_steps(conversion: TypeConversion, value_type: TypeView) -> ConversionStepView {
    if value_type == conversion_target(conversion) {
        ConversionStepView::Keep
    } else {
        match conversion {
            TypeConversion::Bool => ConversionStepView::CompareNonZero,
            TypeConversion::Address => if spec_integer(value_type) {
                ConversionStepView::CastThenAddressCast
            } else {
                ConversionStepView::AddressCast
            },
            TypeConversion::Cast(target) => ConversionStepView::Cast(target@),
        }
    }
}

/// Whether a type is an integer type.
pub open spec fn spec_integer(t: TypeView) -> bool {
    match t {
        TypeView::Unsigned(_) | TypeView::Signed(_) | TypeView::Signless(_) => true,
        _ => false,
    }
}

/// The view of a conversion step.
pub enum ConversionStepView {
    Keep,
    CompareNonZero,
    CastThenAddressCast,
    AddressCast,
    Cast(TypeView),
}

impl View for ConversionStep {
    type V = ConversionStepView;

    open spec fn view(&self) -> ConversionStepView {
        match self {
            ConversionStep::Keep => ConversionStepView::Keep,
            ConversionStep::CompareNonZero => ConversionStepView::CompareNonZero,
            ConversionStep::CastThenAddressCast => ConversionStepView::CastThenAddressCast,
            ConversionStep::AddressCast => ConversionStepView::AddressCast,
            ConversionStep::Cast(target) => ConversionStepView::Cast(target@),
        }
    }
}

/// The type of the value a step produces from a value of type `value_type`.
pub open spec fn step_result_type(step: ConversionStepView, value_type: TypeView) -> TypeView {
    match step {
        ConversionStepView::Keep => value_type,
        ConversionStepView::CompareNonZero => TypeView::Signless(1),
        ConversionStepView::CastThenAddressCast => TypeView::Address(false),
        ConversionStepView::AddressCast => TypeView::Address(false),
        ConversionStepView::Cast(target) => target,
    }
}

impl TypeConversion {
    /// Maps a Solidity semantic type to a Sol dialect type.
    ///
    /// `inherited_location` is the location to substitute when a type's location is
    /// `Inherited` (struct-member-relative): top-level callers pass `None`, and the
    /// struct case passes the struct's own location while it resolves the members.
    pub fn resolve_slang_type(slang_type: &SlangType, inherited_location: Option<DataLocation>) -> (result: MlirType)
        requires
            resolvable(*slang_type, inherited_location),
        ensures
            result@ == spec_resolve(*slang_type, inherited_location),
        decreases slang_type,
    {
        match slang_type {
            SlangType::Integer { bits, signed } => {
                if *signed {
                    MlirType::Signed(*bits)
                } else {
                    MlirType::Unsigned(*bits)
                }
            },
            SlangType::Boolean => MlirType::Signless(BIT_LENGTH_BOOLEAN),
            SlangType::Address => MlirType::Address(false),
            SlangType::Literal(kind) => match kind {
                LiteralKind::Address => MlirType::Address(false),
                LiteralKind::Integer(Some(mobile)) => {
                    proof {
                        assert(decreases_to!(*slang_type => *mobile));
                    }
                    Self::resolve_slang_type(mobile, inherited_location)
                },
                LiteralKind::HexInteger(bytes) => MlirType::Unsigned(*bytes * BIT_LENGTH_BYTE),
                LiteralKind::String => MlirType::String(DataLocation::Memory),
                LiteralKind::HexString(bytes) => MlirType::FixedBytes(*bytes),
                LiteralKind::Integer(None) | LiteralKind::Rational => {
                    assert(false);
                    MlirType::Byte
                },
            },
            SlangType::String(location) => {
                MlirType::String(DataLocation::from_slang(*location, inherited_location).unwrap())
            },
            SlangType::Bytes(location) => {
                MlirType::String(DataLocation::from_slang(*location, inherited_location).unwrap())
            },
            SlangType::ByteArray(width) => MlirType::FixedBytes(*width),
            SlangType::Array(element, location) => {
                let element_type = Self::resolve_slang_type(element, inherited_location);
                let location = DataLocation::from_slang(*location, inherited_location).unwrap();
                MlirType::Array(ArraySize::Dynamic, Box::new(element_type), location)
            },
            SlangType::FixedSizeArray(element, size, location) => {
                let element_type = Self::resolve_slang_type(element, inherited_location);
                let location = DataLocation::from_slang(*location, inherited_location).unwrap();
                MlirType::Array(ArraySize::Fixed(*size), Box::new(element_type), location)
            },
            SlangType::Mapping(key, value) => {
                let key_type = Self::resolve_slang_type(key, Some(DataLocation::Storage));
                let value_type = Self::resolve_slang_type(value, Some(DataLocation::Storage));
                MlirType::Mapping(Box::new(key_type), Box::new(value_type))
            },
            SlangType::Struct(members, location) => {
                let struct_location = DataLocation::from_slang(*location, inherited_location).unwrap();
                proof {
                    assert(decreases_to!(*slang_type => *members));
                }
                let member_types = Self::resolve_all(members, Some(struct_location));
                MlirType::Struct(member_types, struct_location)
            },
            SlangType::Contract(name, payable) => MlirType::Contract(name.clone(), *payable),
            SlangType::Interface(name) => MlirType::Contract(name.clone(), false),
            SlangType::Enum(count) => MlirType::Enum((*count - 1) as u8),
            SlangType::UserDefinedValue(target) => {
                Self::resolve_slang_type(target, inherited_location)
            },
            SlangType::Function(_) | SlangType::Tuple(_) | SlangType::Other => {
                assert(false);
                MlirType::Byte
            },
        }
    }

    /// Maps the first `count` types of a list, in order, with the same inherited location.
    pub fn resolve_prefix(types: &Vec<SlangType>, count: usize, inherited_location: Option<DataLocation>) -> (result: Vec<MlirType>)
        requires
            count <= types@.len(),
            all_resolvable(types@, inherited_location),
        ensures
            type_views(result@) == spec_resolve_all(types@.subrange(0, count as int), inherited_location),
    {
        let ghost prefix = types@.subrange(0, count as int);
        proof {
            lemma_resolve_all(types@, inherited_location);
            lemma_resolve_all(prefix, inherited_location);
        }
        let mut result: Vec<MlirType> = Vec::new();
        let mut i: usize = 0;
        while i < count
            invariant
                i <= count <= types@.len(),
                prefix == types@.subrange(0, count as int),
                result@.len() == i,
                forall|j: int| 0 <= j < types@.len() ==> resolvable(#[trigger] types@[j], inherited_location),
                spec_resolve_all(prefix, inherited_location).len() == prefix.len(),
                forall|j: int|
                    0 <= j < prefix.len() ==> #[trigger] spec_resolve_all(prefix, inherited_location)[j]
                        == spec_resolve(prefix[j], inherited_location),
                forall|j: int| 0 <= j < i ==> type_view(#[trigger] result@[j]) == spec_resolve(types@[j], inherited_location),
            decreases count - i,
        {
            result.push(Self::resolve_slang_type(&types[i], inherited_location));
            i += 1;
        }
        proof {
            lemma_type_views(result@);
            assert forall|j: int| 0 <= j < prefix.len() implies #[trigger] type_views(result@)[j]
                == spec_resolve_all(prefix, inherited_location)[j] by {
                assert(prefix[j] == types@[j]);
            }
        }
        assert(type_views(result@) =~= spec_resolve_all(prefix, inherited_location));
        result
    }

    /// Maps each type of a list, in order, with the same inherited location.
    pub fn resolve_all(types: &Vec<SlangType>, inherited_location: Option<DataLocation>) -> (result: Vec<MlirType>)
        requires
            all_resolvable(types@, inherited_location),
        ensures
            type_views(result@) == spec_resolve_all(types@, inherited_location),
        decreases types,
    {
        proof {
            lemma_resolve_all(types@, inherited_location);
        }
        let mut result: Vec<MlirType> = Vec::new();
        let mut i: usize = 0;
        while i < types.len()
            invariant
                i <= types.len(),
                result@.len() == i,
                forall|j: int| 0 <= j < types@.len() ==> resolvable(#[trigger] types@[j], inherited_location),
                spec_resolve_all(types@, inherited_location).len() == types@.len(),
                forall|j: int|
                    0 <= j < types@.len() ==> #[trigger] spec_resolve_all(types@, inherited_location)[j]
                        == spec_resolve(types@[j], inherited_location),
                forall|j: int| 0 <= j < i ==> type_view(#[trigger] result@[j]) == spec_resolve(types@[j], inherited_location),
            decreases types.len() - i,
        {
            proof {
                broadcast use vstd::std_specs::vec::axiom_vec_decreases_to_view;

                assert(decreases_to!(*types => types@));
                assert(decreases_to!(types@ => types@[i as int]));
            }
            result.push(Self::resolve_slang_type(&types[i], inherited_location));
            i += 1;
        }
        proof {
            lemma_type_views(result@);
        }
        assert(type_views(result@) =~= spec_resolve_all(types@, inherited_location));
        result
    }
}


/// The conversion class a target type falls in.
pub open spec fn spec_from_target_type(target: MlirType) -> TypeConversion {
    if target@ == TypeView::Signless(1) {
        TypeConversion::Bool
    } else if target@ == TypeView::Address(false) {
        TypeConversion::Address
    } else {
        TypeConversion::Cast(target)
    }
}

/// The parameter and return types of a function, as the binder reports them.
#[derive(Debug)]
pub struct FunctionSignature {
    /// The parameter types, in declaration order.
    pub parameters: Vec<SlangType>,
    /// The return types, in declaration order; `None` when there is no `returns` clause.
    pub results: Option<Vec<SlangType>>,
}

/// A state variable's name and declared type; the type is absent when the binder could
/// not resolve it.
#[derive(Debug)]
pub struct StateVariableType {
    /// The variable's name.
    pub name: String,
    /// The declared type.
    pub declared_type: Option<SlangType>,
}

/// A state variable whose type the binder did not resolve.
#[derive(Debug)]
pub struct UnresolvedStateVariable {
    /// The variable's name.
    pub name: String,
}

impl TypeConversion {
    /// Classifies a target type into its conversion: `i1` is a boolean conversion, the
    /// non-payable address an address conversion, anything else an integer cast.
    pub fn from_target_type(target_type: MlirType) -> (result: TypeConversion)
        ensures
            result == spec_from_target_type(target_type),
            conversion_target(result) == target_type@,
    {
        match target_type {
            MlirType::Signless(bits) => {
                if bits == BIT_LENGTH_BOOLEAN {
                    return TypeConversion::Bool;
                }
                TypeConversion::Cast(MlirType::Signless(bits))
            },
            MlirType::Address(payable) => {
                if !payable {
                    return TypeConversion::Address;
                }
                TypeConversion::Cast(MlirType::Address(payable))
            },
            other => TypeConversion::Cast(other),
        }
    }

    /// The target type the conversion produces.
    pub fn to_target_type(&self) -> (result: MlirType)
        ensures
            result@ == conversion_target(*self),
    {
        match self {
            TypeConversion::Bool => MlirType::Signless(BIT_LENGTH_BOOLEAN),
            TypeConversion::Address => MlirType::Address(false),
            TypeConversion::Cast(target) => target.duplicate(),
        }
    }

    /// The operations that convert a value of `value_type` to the target type: nothing
    /// when the value already has it, a comparison against zero for `bool`, a cast to
    /// `ui160` (for an integer) and an address cast for `address`, and a cast otherwise.
    pub fn emit(&self, value_type: &MlirType) -> (step: ConversionStep)
        ensures
            step@ == spec_conversion_steps(*self, value_type@),
    {
        let target = self.to_target_type();
        if value_type.same_as(&target) {
            return ConversionStep::Keep;
        }
        match self {
            TypeConversion::Bool => ConversionStep::CompareNonZero,
            TypeConversion::Address => {
                if value_type.is_integer() {
                    ConversionStep::CastThenAddressCast
                } else {
                    ConversionStep::AddressCast
                }
            },
            TypeConversion::Cast(_) => ConversionStep::Cast(target),
        }
    }

    /// Whether a Solidity type has a Sol dialect type (see [`resolvable`]).
    pub fn is_resolvable(slang_type: &SlangType, inherited_location: Option<DataLocation>) -> (result: bool)
        ensures
            result == resolvable(*slang_type, inherited_location),
        decreases slang_type,
    {
        match slang_type {
            SlangType::Integer { .. } | SlangType::Boolean | SlangType::Address => true,
            SlangType::Literal(kind) => match kind {
                LiteralKind::Address => true,
                LiteralKind::Integer(Some(mobile)) => {
                    proof {
                        assert(decreases_to!(*slang_type => *mobile));
                    }
                    Self::is_resolvable(mobile, inherited_location)
                },
                LiteralKind::Integer(None) => false,
                LiteralKind::HexInteger(bytes) => *bytes <= u32::MAX / 8,
                LiteralKind::String => true,
                LiteralKind::HexString(_) => true,
                LiteralKind::Rational => false,
            },
            SlangType::String(location) | SlangType::Bytes(location) => {
                DataLocation::from_slang(*location, inherited_location).is_some()
            },
            SlangType::ByteArray(_) => true,
            SlangType::Array(element, location) => {
                Self::is_resolvable(element, inherited_location) && DataLocation::from_slang(
                    *location,
                    inherited_location,
                ).is_some()
            },
            SlangType::FixedSizeArray(element, _, location) => {
                Self::is_resolvable(element, inherited_location) && DataLocation::from_slang(
                    *location,
                    inherited_location,
                ).is_some()
            },
            SlangType::Mapping(key, value) => {
                Self::is_resolvable(key, Some(DataLocation::Storage)) && Self::is_resolvable(
                    value,
                    Some(DataLocation::Storage),
                )
            },
            SlangType::Struct(members, location) => {
                match DataLocation::from_slang(*location, inherited_location) {
                    Some(struct_location) => {
                        proof {
                            assert(decreases_to!(*slang_type => *members));
                            lemma_resolve_all(members@, Some(struct_location));
                        }
                        let mut i: usize = 0;
                        while i < members.len()
                            invariant
                                i <= members.len(),
                                *slang_type == SlangType::Struct(*members, *location),
                                all_resolvable(members@, Some(struct_location)) <==> forall|j: int|
                                    0 <= j < members@.len() ==> resolvable(
                                        #[trigger] members@[j],
                                        Some(struct_location),
                                    ),
                                resolvable(*slang_type, inherited_location) == all_resolvable(
                                    members@,
                                    Some(struct_location),
                                ),
                                forall|j: int|
                                    0 <= j < i ==> resolvable(
                                        #[trigger] members@[j],
                                        Some(struct_location),
                                    ),
                            decreases members.len() - i,
                        {
                            proof {
                                broadcast use vstd::std_specs::vec::axiom_vec_decreases_to_view;

                                assert(decreases_to!(*slang_type => *members));
                                assert(decreases_to!(*members => members@));
                                assert(decreases_to!(members@ => members@[i as int]));
                            }
                            if !Self::is_resolvable(&members[i], Some(struct_location)) {
                                return false;
                            }
                            i += 1;
                        }
                        true
                    },
                    None => false,
                }
            },
            SlangType::Contract(_, _) | SlangType::Interface(_) => true,
            SlangType::Enum(count) => 1 <= *count && *count <= 256,
            SlangType::UserDefinedValue(target) => Self::is_resolvable(target, inherited_location),
            SlangType::Function(_) | SlangType::Tuple(_) | SlangType::Other => false,
        }
    }

    /// Resolves a function's parameter and return types; no `returns` clause gives no
    /// return types.
    pub fn resolve_function_types(function: &FunctionSignature) -> (result: (Vec<MlirType>, Vec<MlirType>))
        requires
            all_resolvable(function.parameters@, None),
            function.results matches Some(results) ==> all_resolvable(results@, None),
        ensures
            type_views(result.0@) == spec_resolve_all(function.parameters@, None),
            type_views(result.1@) == match function.results {
                Some(results) => spec_resolve_all(results@, None),
                None => Seq::<TypeView>::empty(),
            },
    {
        let parameter_types = Self::resolve_all(&function.parameters, None);
        let return_types = match &function.results {
            Some(results) => Self::resolve_all(results, None),
            None => {
                let empty: Vec<MlirType> = Vec::new();
                assert(type_views(empty@) =~= Seq::<TypeView>::empty());
                empty
            },
        };
        (parameter_types, return_types)
    }

    /// Resolves the declared type of a state variable; fails when the binder did not
    /// resolve it.
    pub fn resolve_state_variable_type(state_variable: &StateVariableType) -> (result: Result<MlirType, UnresolvedStateVariable>)
        requires
            state_variable.declared_type matches Some(t) ==> resolvable(t, None),
        ensures
            state_variable.declared_type is None <==> result is Err,
            result matches Ok(t) ==> t@ == spec_resolve(state_variable.declared_type.unwrap(), None),
            result matches Err(e) ==> e.name@ == state_variable.name@,
    {
        match &state_variable.declared_type {
            Some(declared_type) => Ok(Self::resolve_slang_type(declared_type, None)),
            None => Err(UnresolvedStateVariable { name: state_variable.name.clone() }),
        }
    }
}

/// Converting to a target type's class targets that type again.
pub proof fn lemma_target_round_trip(target: MlirType)
    ensures
        conversion_target(spec_from_target_type(target)) == target@,
{
}

/// Whatever the value's type, the conversion steps produce a value of the target type,
/// and a value that already has the target type is kept as it is.
pub proof fn lemma_conversion_reaches_target(conversion: TypeConversion, value_type: TypeView)
    ensures
        step_result_type(spec_conversion_steps(conversion, value_type), value_type)
            == conversion_target(conversion),
        value_type == conversion_target(conversion) ==> spec_conversion_steps(conversion, value_type)
            == ConversionStepView::Keep,
{
}

/// Converting a converted value again emits nothing.
pub proof fn lemma_conversion_idempotent(conversion: TypeConversion, value_type: TypeView)
    ensures
        spec_conversion_steps(
            conversion,
            step_result_type(spec_conversion_steps(conversion, value_type), value_type),
        ) == ConversionStepView::Keep,
{
}

/// A user-defined value type maps to the type it wraps, and an integer literal to its
/// mobile type.
pub proof fn lemma_resolve_transparent_wrappers(inner: SlangType, inherited: Option<DataLocation>)
    ensures
        spec_resolve(SlangType::UserDefinedValue(Box::new(inner)), inherited) == spec_resolve(
            inner,
            inherited,
        ),
        spec_resolve(
            SlangType::Literal(LiteralKind::Integer(Some(Box::new(inner)))),
            inherited,
        ) == spec_resolve(inner, inherited),
        resolvable(SlangType::UserDefinedValue(Box::new(inner)), inherited) == resolvable(
            inner,
            inherited,
        ),
{
}

/// The conversion to a target type depends only on the target's value.
pub proof fn lemma_from_target_view(a: MlirType, b: MlirType, value_type: TypeView)
    requires
        a@ == b@,
    ensures
        spec_conversion_steps(spec_from_target_type(a), value_type) == spec_conversion_steps(
            spec_from_target_type(b),
            value_type,
        ),
{
}

/// Appending a type appends its resolution.
pub proof fn lemma_resolve_all_push(types: Seq<SlangType>, t: SlangType, inherited: Option<DataLocation>)
    ensures
        spec_resolve_all(types.push(t), inherited) == spec_resolve_all(types, inherited).push(
            spec_resolve(t, inherited),
        ),
{
    assert(types.push(t).subrange(0, types.len() as int) =~= types);
}

/// The steps that convert a value of type `value_type` to the type `target`, by the
/// target's value.
pub open spec fn spec_steps_to(target: TypeView, value_type: TypeView) -> ConversionStepView {
    if value_type == target {
        ConversionStepView::Keep
    } else if target == TypeView::Signless(1) {
        ConversionStepView::CompareNonZero
    } else if target == TypeView::Address(false) {
        if spec_integer(value_type) {
            ConversionStepView::CastThenAddressCast
        } else {
            ConversionStepView::AddressCast
        }
    } else {
        ConversionStepView::Cast(target)
    }
}

/// Converting to a target type emits the steps its value selects.
pub proof fn lemma_steps_to(target: MlirType, value_type: TypeView)
    ensures
        spec_conversion_steps(spec_from_target_type(target), value_type) == spec_steps_to(target@, value_type),
{
}

/// Resolving a Solidity type keeps what it declares: an integer keeps its width and
/// signedness, `bool` is `i1`, `address` the non-payable address, `bytes<N>` keeps its
/// width, `string` and `bytes` are strings at the declared location; an array keeps its
/// length (a fixed-size array of `n` elements has size `Fixed(n)`, a dynamic array is
/// dynamic), resolves its element on its own and sits at the declared location (the
/// inherited one for an inherited location); a mapping's key and value resolve in storage.
pub proof fn lemma_resolution_keeps_declared_shape(
    element: SlangType,
    key: SlangType,
    n: u64,
    bits: u32,
    signed: bool,
    width: u32,
    location: SlangDataLocation,
    inherited: Option<DataLocation>,
)
    requires
        spec_location_from_slang(location, inherited) is Some,
    ensures
        spec_resolve(SlangType::FixedSizeArray(Box::new(element), n, location), inherited) == TypeView::Array(
            ArraySize::Fixed(n),
            Box::new(spec_resolve(element, inherited)),
            spec_location_from_slang(location, inherited)->0,
        ),
        spec_resolve(SlangType::Array(Box::new(element), location), inherited) == TypeView::Array(
            ArraySize::Dynamic,
            Box::new(spec_resolve(element, inherited)),
            spec_location_from_slang(location, inherited)->0,
        ),
        spec_resolve(SlangType::Integer { bits, signed }, inherited) == if signed {
            TypeView::Signed(bits)
        } else {
            TypeView::Unsigned(bits)
        },
        spec_resolve(SlangType::Boolean, inherited) == TypeView::Signless(1),
        spec_resolve(SlangType::Address, inherited) == TypeView::Address(false),
        spec_resolve(SlangType::ByteArray(width), inherited) == TypeView::FixedBytes(width),
        spec_resolve(SlangType::String(location), inherited) == TypeView::String(
            spec_location_from_slang(location, inherited)->0,
        ),
        spec_resolve(SlangType::Bytes(location), inherited) == TypeView::String(
            spec_location_from_slang(location, inherited)->0,
        ),
        spec_resolve(SlangType::Mapping(Box::new(key), Box::new(element)), inherited) == TypeView::Mapping(
            Box::new(spec_resolve(key, Some(DataLocation::Storage))),
            Box::new(spec_resolve(element, Some(DataLocation::Storage))),
        ),
{
}

/// A fixed-size and a dynamic array of the same element at the same location resolve to
/// types that differ exactly in their size: the fixed one records its length, and two
/// fixed-size arrays of different lengths resolve to different types.
pub proof fn lemma_array_length_distinguishes(
    element: SlangType,
    n: u64,
    m: u64,
    location: SlangDataLocation,
    inherited: Option<DataLocation>,
)
    requires
        spec_location_from_slang(location, inherited) is Some,
    ensures
        spec_resolve(SlangType::FixedSizeArray(Box::new(element), n, location), inherited) != spec_resolve(
            SlangType::Array(Box::new(element), location),
            inherited,
        ),
        n != m ==> spec_resolve(SlangType::FixedSizeArray(Box::new(element), n, location), inherited)
            != spec_resolve(SlangType::FixedSizeArray(Box::new(element), m, location), inherited),
        spec_resolve(SlangType::FixedSizeArray(Box::new(element), n, location), inherited) matches TypeView::Array(
            ArraySize::Fixed(length),
            _,
            _,
        ) && length == n,
{
}

/// Named types keep their identity: a contract keeps its name and payability, an
/// interface is a non-payable contract of its name, an enum of `n` members records its
/// highest ordinal `n - 1`, and a user-defined value type is its underlying type.
pub proof fn lemma_resolution_keeps_names(
    name: String,
    payable: bool,
    count: usize,
    underlying: SlangType,
    inherited: Option<DataLocation>,
)
    requires
        1 <= count <= 256,
    ensures
        spec_resolve(SlangType::Contract(name, payable), inherited) == TypeView::Contract(name@, payable),
        spec_resolve(SlangType::Interface(name), inherited) == TypeView::Contract(name@, false),
        spec_resolve(SlangType::Enum(count), inherited) == TypeView::Enum((count - 1) as u8),
        spec_resolve(SlangType::UserDefinedValue(Box::new(underlying)), inherited) == spec_resolve(
            underlying,
            inherited,
        ),
{
}

} // verus!
