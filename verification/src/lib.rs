//! Verified decision layer of the Solidity expression lowering to the Sol MLIR dialect.
//!
//! The crate models the facts that the lowering reads from the Solidity AST and the
//! choices it makes from them (which operation to emit, with which operand and result
//! types), and proves those choices against specifications.

pub mod context;
pub mod location;
pub mod mlir_type;
pub mod slang_type;
pub mod type_conversion;
pub mod operator;
pub mod expression;
pub mod definition;
pub mod built_in;
pub mod selector;
pub mod type_introspection;
pub mod logical;
pub mod comparison;
pub mod call_kind;
pub mod getter;
pub mod new_expression;
pub mod call_options;
pub mod push;
pub mod require;
pub mod index_access;
pub mod library_call;
pub mod external_call;
pub mod conditional;
pub mod member_reference;
pub mod literal;
pub mod abi_decode;
pub mod lvalue;
pub mod storage;
pub mod struct_construction;
pub mod call_dispatch;
