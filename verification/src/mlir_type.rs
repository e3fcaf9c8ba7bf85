//! Sol dialect types, as the lowering builds and compares them.

use vstd::prelude::*;

use crate::location::DataLocation;

verus! {

/// Bit width of a `bool` value (`i1`).
pub const BIT_LENGTH_BOOLEAN: u32 = 1;

/// Bit width of one byte.
pub const BIT_LENGTH_BYTE: u32 = 8;

/// Bit width of an Ethereum address.
pub const BIT_LENGTH_ETH_ADDRESS: u32 = 160;

/// Bit width of a machine word of the EVM.
pub const BIT_LENGTH_FIELD: u32 = 256;

/// Bit width of the struct-field and array index constants.
pub const BIT_LENGTH_X64: u32 = 64;

/// Bit width of a 4-byte selector word.
pub const BIT_LENGTH_X32: u32 = 32;

/// The size of a Sol dialect array type.
#[derive(Debug, Clone, Copy, PartialEq, Eq, Structural)]
pub enum ArraySize {
    /// A dynamically sized array (`T[]`).
    Dynamic,
    /// A fixed-size array (`T[n]`).
    Fixed(u64),
}

/// A Sol dialect type.
#[derive(Debug)]
pub enum MlirType {
    /// `ui<N>`.
    Unsigned(u32),
    /// `si<N>`.
    Signed(u32),
    /// `i<N>`; `i1` is the boolean type.
    Signless(u32),
    /// `!sol.address`, payable or not.
    Address(bool),
    /// `!sol.fixedbytes<N>`.
    FixedBytes(u32),
    /// `!sol.byte`, the element of a dynamic `bytes`.
    Byte,
    /// `!sol.string<location>`, also used for dynamic `bytes`.
    String(DataLocation),
    /// `!sol.array<size x element, location>`.
    Array(ArraySize, Box<MlirType>, DataLocation),
    /// `!sol.mapping<key, value>`.
    Mapping(Box<MlirType>, Box<MlirType>),
    /// `!sol.struct<(members), location>`.
    Struct(Vec<MlirType>, DataLocation),
    /// `!sol.contract<name, payable>`.
    Contract(String, bool),
    /// `!sol.enum<max>`, with `max` the highest member ordinal.
    Enum(u8),
    /// `!sol.ptr<element, location>`.
    Pointer(Box<MlirType>, DataLocation),
    /// `!sol.func_ref<(parameters) -> (results)>`, an internal function pointer.
    FuncRef(Vec<MlirType>, Vec<MlirType>),
    /// `!sol.ext_func_ref<(parameters) -> (results)>`, an external function pointer.
    ExtFuncRef(Vec<MlirType>, Vec<MlirType>),
}

/// The mathematical value of a Sol dialect type: names as character sequences and
/// member lists as sequences.
pub enum TypeView {
    Unsigned(u32),
    Signed(u32),
    Signless(u32),
    Address(bool),
    FixedBytes(u32),
    Byte,
    String(DataLocation),
    Array(ArraySize, Box<TypeView>, DataLocation),
    Mapping(Box<TypeView>, Box<TypeView>),
    Struct(Seq<TypeView>, DataLocation),
    Contract(Seq<char>, bool),
    Enum(u8),
    Pointer(Box<TypeView>, DataLocation),
    FuncRef(Seq<TypeView>, Seq<TypeView>),
    ExtFuncRef(Seq<TypeView>, Seq<TypeView>),
}

/// The value of a type.
pub open spec fn type_view(t: MlirType) -> TypeView
    decreases t,
{
    match t {
        MlirType::Unsigned(bits) => TypeView::Unsigned(bits),
        MlirType::Signed(bits) => TypeView::Signed(bits),
        MlirType::Signless(bits) => TypeView::Signless(bits),
        MlirType::Address(payable) => TypeView::Address(payable),
        MlirType::FixedBytes(width) => TypeView::FixedBytes(width),
        MlirType::Byte => TypeView::Byte,
        MlirType::String(location) => TypeView::String(location),
        MlirType::Array(size, element, location) => TypeView::Array(
            size,
            Box::new(type_view(*element)),
            location,
        ),
        MlirType::Mapping(key, value) => TypeView::Mapping(
            Box::new(type_view(*key)),
            Box::new(type_view(*value)),
        ),
        MlirType::Struct(members, location) => {
            proof {
                broadcast use vstd::std_specs::vec::axiom_vec_decreases_to_view;

                assert(decreases_to!(members => members@));
            }
            TypeView::Struct(type_views(members@), location)
        },
        MlirType::Contract(name, payable) => TypeView::Contract(name@, payable),
        MlirType::Enum(max) => TypeView::Enum(max),
        MlirType::Pointer(element, location) => TypeView::Pointer(
            Box::new(type_view(*element)),
            location,
        ),
        MlirType::FuncRef(parameters, results) => {
            proof {
                broadcast use vstd::std_specs::vec::axiom_vec_decreases_to_view;

                assert(decreases_to!(parameters => parameters@));
                assert(decreases_to!(results => results@));
            }
            TypeView::FuncRef(type_views(parameters@), type_views(results@))
        },
        MlirType::ExtFuncRef(parameters, results) => {
            proof {
                broadcast use vstd::std_specs::vec::axiom_vec_decreases_to_view;

                assert(decreases_to!(parameters => parameters@));
                assert(decreases_to!(results => results@));
            }
            TypeView::ExtFuncRef(type_views(parameters@), type_views(results@))
        },
    }
}

/// The values of a sequence of types, in order.
pub open spec fn type_views(types: Seq<MlirType>) -> Seq<TypeView>
    decreases types,
{
    if types.len() == 0 {
        Seq::empty()
    } else {
        proof {
            assert(decreases_to!(types => types.subrange(0, types.len() - 1)));
        }
        type_views(types.subrange(0, types.len() - 1)).push(type_view(types[types.len() - 1]))
    }
}

/// `type_views` maps each element to its value.
pub proof fn lemma_type_views(types: Seq<MlirType>)
    ensures
        type_views(types).len() == types.len(),
        forall|i: int| 0 <= i < types.len() ==> #[trigger] type_views(types)[i] == type_view(types[i]),
    decreases types.len(),
{
    if types.len() > 0 {
        let prefix = types.subrange(0, types.len() - 1);
        lemma_type_views(prefix);
        assert forall|i: int| 0 <= i < types.len() implies #[trigger] type_views(types)[i]
            == type_view(types[i]) by {
            if i < types.len() - 1 {
                assert(prefix[i] == types[i]);
            }
        }
    }
}

impl View for MlirType {
    type V = TypeView;

    open spec fn view(&self) -> TypeView {
        type_view(*self)
    }
}

/// The width of a type that holds bits: integers and fixed bytes carry theirs.
pub open spec fn spec_integer_bit_width(t: TypeView) -> Option<u32> {
    match t {
        TypeView::Unsigned(bits) => Some(bits),
        TypeView::Signed(bits) => Some(bits),
        TypeView::Signless(bits) => Some(bits),
        _ => None,
    }
}

/// Whether a type is a reference type: its values denote a location rather than bits.
pub open spec fn spec_is_reference(t: TypeView) -> bool {
    match t {
        TypeView::String(_) => true,
        TypeView::Array(_, _, _) => true,
        TypeView::Mapping(_, _) => true,
        TypeView::Struct(_, _) => true,
        _ => false,
    }
}

/// The byte width of a fixed-bytes type; a `!sol.byte` counts as one byte.
pub open spec fn spec_fixed_bytes_or_byte_width(t: TypeView) -> Option<u32> {
    match t {
        TypeView::FixedBytes(width) => Some(width),
        TypeView::Byte => Some(1),
        _ => None,
    }
}

impl MlirType {
    /// The `ui256` type.
    pub fn ui256() -> (t: MlirType)
        ensures
            t@ == TypeView::Unsigned(256),
    {
        MlirType::Unsigned(BIT_LENGTH_FIELD)
    }

    /// The `i1` boolean type.
    pub fn boolean() -> (t: MlirType)
        ensures
            t@ == TypeView::Signless(1),
    {
        MlirType::Signless(BIT_LENGTH_BOOLEAN)
    }

    /// Whether the type is an integer type (`ui<N>`, `si<N>`, `i<N>`).
    pub fn is_integer(&self) -> (result: bool)
        ensures
            result == (spec_integer_bit_width(self@) is Some),
    {
        match self {
            MlirType::Unsigned(_) | MlirType::Signed(_) | MlirType::Signless(_) => true,
            _ => false,
        }
    }

    /// The width of an integer type.
    pub fn integer_bit_width(&self) -> (result: Option<u32>)
        ensures
            result == spec_integer_bit_width(self@),
    {
        match self {
            MlirType::Unsigned(bits) => Some(*bits),
            MlirType::Signed(bits) => Some(*bits),
            MlirType::Signless(bits) => Some(*bits),
            _ => None,
        }
    }

    /// Whether the type is a reference type.
    pub fn is_reference(&self) -> (result: bool)
        ensures
            result == spec_is_reference(self@),
    {
        match self {
            MlirType::String(_) | MlirType::Array(_, _, _) | MlirType::Mapping(_, _)
            | MlirType::Struct(_, _) => true,
            _ => false,
        }
    }

    /// The byte width of a fixed-bytes type, or one for a `!sol.byte`.
    pub fn fixed_bytes_or_byte_width(&self) -> (result: Option<u32>)
        ensures
            result == spec_fixed_bytes_or_byte_width(self@),
    {
        match self {
            MlirType::FixedBytes(width) => Some(*width),
            MlirType::Byte => Some(1),
            _ => None,
        }
    }

    /// Whether two types are the same type.
    pub fn same_as(&self, other: &MlirType) -> (result: bool)
        ensures
            result == (self@ == other@),
        decreases self,
    {
        match (self, other) {
            (MlirType::Unsigned(a), MlirType::Unsigned(b)) => *a == *b,
            (MlirType::Signed(a), MlirType::Signed(b)) => *a == *b,
            (MlirType::Signless(a), MlirType::Signless(b)) => *a == *b,
            (MlirType::Address(a), MlirType::Address(b)) => *a == *b,
            (MlirType::FixedBytes(a), MlirType::FixedBytes(b)) => *a == *b,
            (MlirType::Byte, MlirType::Byte) => true,
            (MlirType::String(a), MlirType::String(b)) => *a == *b,
            (MlirType::Array(size_a, element_a, location_a), MlirType::Array(size_b, element_b, location_b)) => {
                if *size_a != *size_b || *location_a != *location_b {
                    return false;
                }
                element_a.same_as(element_b)
            },
            (MlirType::Mapping(key_a, value_a), MlirType::Mapping(key_b, value_b)) => {
                key_a.same_as(key_b) && value_a.same_as(value_b)
            },
            (MlirType::Struct(members_a, location_a), MlirType::Struct(members_b, location_b)) => {
                if *location_a != *location_b {
                    return false;
                }
                proof {
                    assert(decreases_to!(*self => *members_a));
                }
                Self::same_list(members_a, members_b)
            },
            (MlirType::Contract(name_a, payable_a), MlirType::Contract(name_b, payable_b)) => {
                *payable_a == *payable_b && *name_a == *name_b
            },
            (MlirType::Enum(a), MlirType::Enum(b)) => *a == *b,
            (MlirType::Pointer(element_a, location_a), MlirType::Pointer(element_b, location_b)) => {
                if *location_a != *location_b {
                    return false;
                }
                element_a.same_as(element_b)
            },
            (MlirType::FuncRef(parameters_a, results_a), MlirType::FuncRef(parameters_b, results_b)) => {
                proof {
                    assert(decreases_to!(*self => *parameters_a));
                    assert(decreases_to!(*self => *results_a));
                }
                Self::same_list(parameters_a, parameters_b) && Self::same_list(results_a, results_b)
            },
            (MlirType::ExtFuncRef(parameters_a, results_a), MlirType::ExtFuncRef(parameters_b, results_b)) => {
                proof {
                    assert(decreases_to!(*self => *parameters_a));
                    assert(decreases_to!(*self => *results_a));
                }
                Self::same_list(parameters_a, parameters_b) && Self::same_list(results_a, results_b)
            },
            _ => false,
        }
    }

    /// A copy of the type.
    pub fn duplicate(&self) -> (result: MlirType)
        ensures
            result@ == self@,
        decreases self,
    {
        match self {
            MlirType::Unsigned(bits) => MlirType::Unsigned(*bits),
            MlirType::Signed(bits) => MlirType::Signed(*bits),
            MlirType::Signless(bits) => MlirType::Signless(*bits),
            MlirType::Address(payable) => MlirType::Address(*payable),
            MlirType::FixedBytes(width) => MlirType::FixedBytes(*width),
            MlirType::Byte => MlirType::Byte,
            MlirType::String(location) => MlirType::String(*location),
            MlirType::Array(size, element, location) => MlirType::Array(
                *size,
                Box::new(element.duplicate()),
                *location,
            ),
            MlirType::Mapping(key, value) => MlirType::Mapping(
                Box::new(key.duplicate()),
                Box::new(value.duplicate()),
            ),
            MlirType::Struct(members, location) => {
                proof {
                    assert(decreases_to!(*self => *members));
                }
                MlirType::Struct(Self::duplicate_list(members), *location)
            },
            MlirType::Contract(name, payable) => MlirType::Contract(name.clone(), *payable),
            MlirType::Enum(max) => MlirType::Enum(*max),
            MlirType::Pointer(element, location) => MlirType::Pointer(
                Box::new(element.duplicate()),
                *location,
            ),
            MlirType::FuncRef(parameters, results) => {
                proof {
                    assert(decreases_to!(*self => *parameters));
                    assert(decreases_to!(*self => *results));
                }
                MlirType::FuncRef(Self::duplicate_list(parameters), Self::duplicate_list(results))
            },
            MlirType::ExtFuncRef(parameters, results) => {
                proof {
                    assert(decreases_to!(*self => *parameters));
                    assert(decreases_to!(*self => *results));
                }
                MlirType::ExtFuncRef(
                    Self::duplicate_list(parameters),
                    Self::duplicate_list(results),
                )
            },
        }
    }

    /// A copy of a type list.
    pub fn duplicate_list(types: &Vec<MlirType>) -> (result: Vec<MlirType>)
        ensures
            type_views(result@) == type_views(types@),
        decreases types,
    {
        proof {
            lemma_type_views(types@);
        }
        let mut result: Vec<MlirType> = Vec::new();
        let mut i: usize = 0;
        while i < types.len()
            invariant
                i <= types.len(),
                result@.len() == i,
                type_views(types@).len() == types@.len(),
                forall|j: int| 0 <= j < types@.len() ==> #[trigger] type_views(types@)[j] == type_view(types@[j]),
                forall|j: int| 0 <= j < i ==> type_view(#[trigger] result@[j]) == type_view(types@[j]),
            decreases types.len() - i,
        {
            proof {
                broadcast use vstd::std_specs::vec::axiom_vec_decreases_to_view;

                assert(decreases_to!(*types => types@));
                assert(decreases_to!(types@ => types@[i as int]));
            }
            result.push(types[i].duplicate());
            i += 1;
        }
        proof {
            lemma_type_views(result@);
        }
        assert(type_views(result@) =~= type_views(types@));
        result
    }

    /// Whether two type lists hold the same types in the same order.
    pub fn same_list(a: &Vec<MlirType>, b: &Vec<MlirType>) -> (result: bool)
        ensures
            result == (type_views(a@) == type_views(b@)),
        decreases a,
    {
        proof {
            lemma_type_views(a@);
            lemma_type_views(b@);
        }
        if a.len() != b.len() {
            return false;
        }
        let mut i: usize = 0;
        while i < a.len()
            invariant
                a.len() == b.len(),
                i <= a.len(),
                type_views(a@).len() == a@.len(),
                type_views(b@).len() == b@.len(),
                forall|j: int| 0 <= j < a@.len() ==> #[trigger] type_views(a@)[j] == type_view(a@[j]),
                forall|j: int| 0 <= j < b@.len() ==> #[trigger] type_views(b@)[j] == type_view(b@[j]),
                forall|j: int| 0 <= j < i ==> type_view(#[trigger] a@[j]) == type_view(b@[j]),
            decreases a.len() - i,
        {
            proof {
                broadcast use vstd::std_specs::vec::axiom_vec_decreases_to_view;

                assert(decreases_to!(*a => a@));
                assert(decreases_to!(a@ => a@[i as int]));
            }
            if !a[i].same_as(&b[i]) {
                assert(type_views(a@)[i as int] != type_views(b@)[i as int]);
                return false;
            }
            i += 1;
        }
        assert(type_views(a@) =~= type_views(b@));
        true
    }
}

} // verus!
