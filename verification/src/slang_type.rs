//! Solidity semantic types, as the binder reports them to the lowering.

use vstd::prelude::*;

use crate::location::SlangDataLocation;

verus! {

/// The kind of a literal's type.
#[derive(Debug)]
pub enum LiteralKind {
    /// An address literal.
    Address,
    /// A decimal integer literal with its mobile type: the smallest integer type that
    /// holds it, absent when the value does not fit in 256 bits.
    Integer(Option<Box<SlangType>>),
    /// A hexadecimal integer literal of the given byte count.
    HexInteger(u32),
    /// A string literal.
    String,
    /// A hexadecimal string literal of the given byte count.
    HexString(u32),
    /// A rational (non-integer) literal.
    Rational,
}

/// A Solidity semantic type.
#[derive(Debug)]
pub enum SlangType {
    /// `uint<N>` / `int<N>`.
    Integer { bits: u32, signed: bool },
    /// `bool`.
    Boolean,
    /// `address` / `address payable`.
    Address,
    /// The type of a literal.
    Literal(LiteralKind),
    /// `string` at a location.
    String(SlangDataLocation),
    /// Dynamic `bytes` at a location.
    Bytes(SlangDataLocation),
    /// `bytes<N>`.
    ByteArray(u32),
    /// `T[]` at a location.
    Array(Box<SlangType>, SlangDataLocation),
    /// `T[n]` at a location.
    FixedSizeArray(Box<SlangType>, u64, SlangDataLocation),
    /// `mapping(K => V)`.
    Mapping(Box<SlangType>, Box<SlangType>),
    /// A struct with its member types in declaration order, at a location.
    Struct(Vec<SlangType>, SlangDataLocation),
    /// A contract, by name, and whether it can receive ether.
    Contract(String, bool),
    /// An interface, by name.
    Interface(String),
    /// An enum with the given number of members.
    Enum(usize),
    /// A user-defined value type over its underlying type.
    UserDefinedValue(Box<SlangType>),
    /// A function type; the flag says whether it is externally visible.
    Function(bool),
    /// A tuple of types.
    Tuple(Vec<SlangType>),
    /// Any type the lowering does not distinguish.
    Other,
}

impl SlangType {
    /// Whether values of the type are references (Solidity's reference types).
    pub open spec fn spec_is_reference_type(self) -> bool {
        match self {
            SlangType::String(_) | SlangType::Bytes(_) | SlangType::Array(_, _)
            | SlangType::FixedSizeArray(_, _, _) | SlangType::Mapping(_, _)
            | SlangType::Struct(_, _) => true,
            _ => false,
        }
    }

    /// Whether values of the type are references (Solidity's reference types).
    pub fn is_reference_type(&self) -> (result: bool)
        ensures
            result == self.spec_is_reference_type(),
    {
        match self {
            SlangType::String(_) | SlangType::Bytes(_) | SlangType::Array(_, _)
            | SlangType::FixedSizeArray(_, _, _) | SlangType::Mapping(_, _)
            | SlangType::Struct(_, _) => true,
            _ => false,
        }
    }
}

} // verus!
