//! Solidity built-ins: which Sol dialect operation each one lowers to.

use vstd::prelude::*;

use crate::context::{CallContext, CallEmitter, ExpressionContext};
use crate::location::DataLocation;
use crate::mlir_type::{MlirType, TypeView, BIT_LENGTH_BOOLEAN, BIT_LENGTH_FIELD};
use crate::push::{PushPlan, spec_array_push, spec_push_base};
use crate::selector::{signature_selector, spec_keccak256, spec_selector_word};
use crate::slang_type::SlangType;

verus! {

/// A Solidity built-in, as the binder resolves a name or a member to it.
#[derive(Debug, Clone, Copy, PartialEq, Eq, Structural)]
pub enum BuiltIn {
    Assert,
    Require,
    Gasleft,
    Keccak256,
    Sha256,
    Ripemd160,
    Ecrecover,
    Addmod,
    Mulmod,
    AbiDecode,
    AbiEncode,
    AbiEncodePacked,
    AbiEncodeWithSelector,
    AbiEncodeWithSignature,
    AbiEncodeCall,
    AddressBalance,
    AddressCodehash,
    AddressCode,
    AddressSend,
    AddressTransfer,
    AddressCall,
    AddressDelegatecall,
    AddressStaticcall,
    Length,
    ArrayPop,
    ArrayPush,
    StringConcat,
    BytesConcat,
    TxOrigin,
    TxGasPrice,
    MsgSender,
    MsgValue,
    MsgSig,
    MsgData,
    BlockTimestamp,
    BlockNumber,
    BlockCoinbase,
    BlockChainid,
    BlockBasefee,
    BlockGaslimit,
    BlockBlobbasefee,
    BlockDifficulty,
    BlockPrevrandao,
    Wrap,
    Unwrap,
    TypeMin,
    TypeMax,
    TypeEnumMin,
    TypeEnumMax,
    TypeInterfaceId,
    TypeCreationCode,
    TypeRuntimeCode,
    TypeName,
    FunctionSelector,
    FunctionAddress,
    CallOptionValue,
    CallOptionSalt,
    CallOptionGas,
    Other,
}

/// ABI encoding mode for `abi.encode` / `abi.encodePacked`.
#[derive(Debug, Clone, Copy, PartialEq, Eq, Structural)]
pub enum EncodeMode {
    /// Standard ABI encoding with per-element padding (`abi.encode`,
    /// `abi.encodeWithSelector`, `abi.encodeWithSignature`).
    Standard,
    /// Packed ABI encoding with no per-element padding (`abi.encodePacked`).
    Packed,
}

/// A built-in called by bare name, with the operation it lowers to.
#[derive(Debug, Clone, Copy, PartialEq, Eq, Structural)]
pub enum IdentifierBuiltInCall {
    /// `assert(c)`: `sol.assert`.
    Assert,
    /// `require(c)` / `require(c, message)`: `sol.require`.
    Require,
    /// `gasleft()`: `sol.gasleft`.
    GasLeft,
    /// `keccak256(data)`: `sol.keccak256`.
    Keccak256,
    /// `sha256(data)`: `sol.sha256`.
    Sha256,
    /// `ripemd160(data)`: `sol.ripemd160`.
    Ripemd160,
    /// `ecrecover(hash, v, r, s)`: `sol.ecrecover`.
    Ecrecover,
    /// `addmod(x, y, m)`: `sol.addmod`.
    AddMod,
    /// `mulmod(x, y, m)`: `sol.mulmod`.
    MulMod,
}

/// A value of the execution environment read by a built-in member.
#[derive(Debug, Clone, Copy, PartialEq, Eq, Structural)]
pub enum EnvironmentValue {
    /// `tx.origin`: `sol.origin`.
    Origin,
    /// `tx.gasprice`: `sol.gasprice`.
    GasPrice,
    /// `msg.sender`: `sol.caller`.
    Caller,
    /// `msg.value`: `sol.callvalue`.
    CallValue,
    /// `block.timestamp`: `sol.timestamp`.
    Timestamp,
    /// `block.number`: `sol.blocknumber`.
    BlockNumber,
    /// `block.coinbase`: `sol.coinbase`.
    Coinbase,
    /// `block.chainid`: `sol.chainid`.
    ChainId,
    /// `block.basefee`: `sol.basefee`.
    BaseFee,
    /// `block.gaslimit`: `sol.gaslimit`.
    GasLimit,
    /// `block.blobbasefee`: `sol.blobbasefee`.
    BlobBaseFee,
    /// `block.difficulty`: `sol.difficulty`.
    Difficulty,
    /// `block.prevrandao`: `sol.prevrandao`.
    PrevRandao,
    /// `msg.sig`: `sol.sig`.
    Sig,
    /// `msg.data`: `sol.get_call_data`.
    CallData,
}

/// Where the selector of an `abi.encode*` payload comes from.
#[derive(Debug, Clone, Copy, PartialEq, Eq, Structural)]
pub enum SelectorSource {
    /// No selector.
    Absent,
    /// The first argument, cast to `bytes4`.
    FirstArgument,
    /// The Keccak-256 hash of the first argument, a string literal signature.
    SignatureLiteral,
}

/// A built-in reached through member access, with the operation it lowers to.
#[derive(Debug, Clone, Copy, PartialEq, Eq, Structural)]
pub enum MemberIntrinsic {
    /// `a.balance`: `sol.balance`.
    Balance,
    /// `a.codehash`: `sol.code_hash`.
    CodeHash,
    /// `a.code`: `sol.code`.
    Code,
    /// `x.length`: `sol.length`.
    Length,
    /// `a.send(v)`: `sol.send`.
    Send,
    /// `a.transfer(v)`: `sol.transfer`.
    Transfer,
    /// `abi.encode*`: `sol.encode`.
    Encode(EncodeMode, SelectorSource),
    /// `string.concat` / `bytes.concat`: `sol.concat`.
    Concat,
    /// `x.pop()`: `sol.pop`.
    Pop,
    /// `x.push(...)`: `sol.push`.
    Push,
    /// A read of the execution environment.
    Environment(EnvironmentValue),
}

/// The arguments of a call, as far as the choice of a built-in reads them.
#[derive(Debug, Clone, Copy, PartialEq, Eq, Structural)]
pub struct CallArgumentFacts {
    /// The number of positional arguments.
    pub count: usize,
    /// Whether the first argument is a string literal.
    pub first_is_string_literal: bool,
}

/// The bare-name built-in call `built_in(arguments)` lowers to, if any: each built-in
/// takes a fixed number of arguments (`require` one or two), and a call with any other
/// count is not this built-in.
pub open spec fn spec_identifier_built_in(built_in: BuiltIn, argument_count: usize) -> Option<
    IdentifierBuiltInCall,
> {
    match built_in {
        BuiltIn::Assert => if argument_count == 1 {
            Some(IdentifierBuiltInCall::Assert)
        } else {
            None
        },
        BuiltIn::Require => if argument_count == 1 || argument_count == 2 {
            Some(IdentifierBuiltInCall::Require)
        } else {
            None
        },
        BuiltIn::Gasleft => if argument_count == 0 {
            Some(IdentifierBuiltInCall::GasLeft)
        } else {
            None
        },
        BuiltIn::Keccak256 => if argument_count == 1 {
            Some(IdentifierBuiltInCall::Keccak256)
        } else {
            None
        },
        BuiltIn::Sha256 => if argument_count == 1 {
            Some(IdentifierBuiltInCall::Sha256)
        } else {
            None
        },
        BuiltIn::Ripemd160 => if argument_count == 1 {
            Some(IdentifierBuiltInCall::Ripemd160)
        } else {
            None
        },
        BuiltIn::Ecrecover => if argument_count == 4 {
            Some(IdentifierBuiltInCall::Ecrecover)
        } else {
            None
        },
        BuiltIn::Addmod => if argument_count == 3 {
            Some(IdentifierBuiltInCall::AddMod)
        } else {
            None
        },
        BuiltIn::Mulmod => if argument_count == 3 {
            Some(IdentifierBuiltInCall::MulMod)
        } else {
            None
        },
        _ => None,
    }
}

/// The result type of a bare-name built-in call: none for `assert` / `require`, the
/// operand type for `addmod` / `mulmod` (given as `operand_type`).
pub open spec fn spec_identifier_result(call: IdentifierBuiltInCall, operand_type: Option<TypeView>) -> Option<TypeView> {
    match call {
        IdentifierBuiltInCall::Assert | IdentifierBuiltInCall::Require => None,
        IdentifierBuiltInCall::GasLeft => Some(TypeView::Unsigned(256)),
        IdentifierBuiltInCall::Keccak256 | IdentifierBuiltInCall::Sha256 => Some(
            TypeView::FixedBytes(32),
        ),
        IdentifierBuiltInCall::Ripemd160 => Some(TypeView::FixedBytes(20)),
        IdentifierBuiltInCall::Ecrecover => Some(TypeView::Address(false)),
        IdentifierBuiltInCall::AddMod | IdentifierBuiltInCall::MulMod => operand_type,
    }
}

/// Whether a member built-in needs the call's arguments.
pub open spec fn spec_needs_arguments(built_in: BuiltIn) -> bool {
    match built_in {
        BuiltIn::AddressSend | BuiltIn::AddressTransfer | BuiltIn::AbiEncode
        | BuiltIn::AbiEncodePacked | BuiltIn::AbiEncodeWithSelector
        | BuiltIn::AbiEncodeWithSignature | BuiltIn::StringConcat | BuiltIn::BytesConcat
        | BuiltIn::ArrayPush => true,
        _ => false,
    }
}

/// The member intrinsic a member built-in lowers to, if the lowering supports it.
pub open spec fn spec_member_intrinsic(built_in: BuiltIn) -> Option<MemberIntrinsic> {
    match built_in {
        BuiltIn::AddressBalance => Some(MemberIntrinsic::Balance),
        BuiltIn::AddressCodehash => Some(MemberIntrinsic::CodeHash),
        BuiltIn::AddressCode => Some(MemberIntrinsic::Code),
        BuiltIn::Length => Some(MemberIntrinsic::Length),
        BuiltIn::AddressSend => Some(MemberIntrinsic::Send),
        BuiltIn::AddressTransfer => Some(MemberIntrinsic::Transfer),
        BuiltIn::AbiEncode => Some(MemberIntrinsic::Encode(EncodeMode::Standard, SelectorSource::Absent)),
        BuiltIn::AbiEncodePacked => Some(MemberIntrinsic::Encode(EncodeMode::Packed, SelectorSource::Absent)),
        BuiltIn::AbiEncodeWithSelector => Some(
            MemberIntrinsic::Encode(EncodeMode::Standard, SelectorSource::FirstArgument),
        ),
        BuiltIn::AbiEncodeWithSignature => Some(
            MemberIntrinsic::Encode(EncodeMode::Standard, SelectorSource::SignatureLiteral),
        ),
        BuiltIn::StringConcat | BuiltIn::BytesConcat => Some(MemberIntrinsic::Concat),
        BuiltIn::ArrayPop => Some(MemberIntrinsic::Pop),
        BuiltIn::ArrayPush => Some(MemberIntrinsic::Push),
        BuiltIn::TxOrigin => Some(MemberIntrinsic::Environment(EnvironmentValue::Origin)),
        BuiltIn::TxGasPrice => Some(MemberIntrinsic::Environment(EnvironmentValue::GasPrice)),
        BuiltIn::MsgSender => Some(MemberIntrinsic::Environment(EnvironmentValue::Caller)),
        BuiltIn::MsgValue => Some(MemberIntrinsic::Environment(EnvironmentValue::CallValue)),
        BuiltIn::BlockTimestamp => Some(MemberIntrinsic::Environment(EnvironmentValue::Timestamp)),
        BuiltIn::BlockNumber => Some(MemberIntrinsic::Environment(EnvironmentValue::BlockNumber)),
        BuiltIn::BlockCoinbase => Some(MemberIntrinsic::Environment(EnvironmentValue::Coinbase)),
        BuiltIn::BlockChainid => Some(MemberIntrinsic::Environment(EnvironmentValue::ChainId)),
        BuiltIn::BlockBasefee => Some(MemberIntrinsic::Environment(EnvironmentValue::BaseFee)),
        BuiltIn::BlockGaslimit => Some(MemberIntrinsic::Environment(EnvironmentValue::GasLimit)),
        BuiltIn::BlockBlobbasefee => Some(
            MemberIntrinsic::Environment(EnvironmentValue::BlobBaseFee),
        ),
        BuiltIn::BlockDifficulty => Some(MemberIntrinsic::Environment(EnvironmentValue::Difficulty)),
        BuiltIn::BlockPrevrandao => Some(MemberIntrinsic::Environment(EnvironmentValue::PrevRandao)),
        BuiltIn::MsgSig => Some(MemberIntrinsic::Environment(EnvironmentValue::Sig)),
        BuiltIn::MsgData => Some(MemberIntrinsic::Environment(EnvironmentValue::CallData)),
        _ => None,
    }
}

/// The type of the value a member intrinsic yields; `push` is typed by its own plan.
pub open spec fn spec_member_result(intrinsic: MemberIntrinsic) -> Option<TypeView> {
    match intrinsic {
        MemberIntrinsic::Balance | MemberIntrinsic::CodeHash | MemberIntrinsic::Length => Some(
            TypeView::Unsigned(256),
        ),
        MemberIntrinsic::Code => Some(TypeView::String(DataLocation::Memory)),
        MemberIntrinsic::Send => Some(TypeView::Signless(1)),
        MemberIntrinsic::Transfer | MemberIntrinsic::Pop | MemberIntrinsic::Push => None,
        MemberIntrinsic::Encode(_, _) | MemberIntrinsic::Concat => Some(
            TypeView::String(DataLocation::Memory),
        ),
        MemberIntrinsic::Environment(value) => Some(
            match value {
                EnvironmentValue::Origin | EnvironmentValue::Caller | EnvironmentValue::Coinbase => TypeView::Address(false),
                EnvironmentValue::Sig => TypeView::FixedBytes(4),
                EnvironmentValue::CallData => TypeView::String(DataLocation::CallData),
                _ => TypeView::Unsigned(256),
            },
        ),
    }
}

/// Whether the lowering accepts a member built-in with these call arguments: it must be
/// supported, a built-in that is called must have arguments, and the signature of
/// `abi.encodeWithSignature` must be a string literal.
pub open spec fn spec_member_supported(built_in: BuiltIn, arguments: Option<CallArgumentFacts>) -> bool {
    &&& spec_member_intrinsic(built_in) is Some
    &&& spec_needs_arguments(built_in) ==> arguments is Some
    &&& built_in == BuiltIn::AbiEncodeWithSignature ==> (arguments matches Some(a) && a.count >= 1
        && a.first_is_string_literal)
}

/// The operand segment sizes of a `sol.encode`: the encoded values, then the selector.
pub open spec fn spec_encode_segments(value_count: usize, has_selector: bool) -> (i32, i32) {
    (value_count as i32, if has_selector { 1 } else { 0 })
}

/// A `sol.encode` operation: its operand segment sizes and whether it is packed.
#[derive(Debug, Clone, Copy, PartialEq, Eq, Structural)]
pub struct EncodeOperation {
    /// `operand_segment_sizes`: the number of encoded values.
    pub value_segment: i32,
    /// `operand_segment_sizes`: the number of selectors (0 or 1).
    pub selector_segment: i32,
    /// Whether the `packed` attribute is set.
    pub packed: bool,
}

/// The kind of a bare call on an address.
#[derive(Debug, Clone, Copy, PartialEq, Eq, Structural)]
pub enum BareCallKind {
    /// `a.call(data)`: `sol.bare_call`.
    Call,
    /// `a.delegatecall(data)`: `sol.bare_delegate_call`.
    Delegatecall,
    /// `a.staticcall(data)`: `sol.bare_static_call`.
    Staticcall,
}

/// Where an operand of a call comes from.
#[derive(Debug, Clone, Copy, PartialEq, Eq, Structural)]
pub enum OperandSource {
    /// The value given by a call option.
    Option,
    /// A zero `ui256` constant.
    Zero,
    /// `sol.gasleft`.
    GasLeft,
    /// Not passed: the operation has no such operand.
    Absent,
}

/// A value a bare call evaluates.
#[derive(Debug, Clone, Copy, PartialEq, Eq, Structural)]
pub enum BareCallOperand {
    /// The address `recv` of `recv.call(data)`.
    Receiver,
    /// The payload `data`.
    Payload,
}

/// How a bare call is emitted.
#[derive(Debug)]
pub struct BareCallPlan {
    /// The operation.
    pub kind: BareCallKind,
    /// The values evaluated, in order.
    pub evaluation: (BareCallOperand, BareCallOperand),
    /// The type the payload is cast to by `sol.data_loc_cast` before the call.
    pub payload_target: MlirType,
    /// The wei sent: only a plain `call` carries one, zero unless given.
    pub value: OperandSource,
    /// The gas forwarded: the given gas, else all remaining gas.
    pub gas: OperandSource,
}

/// The bare-call kind of a member access `recv.m`: the binder's built-in when it is one
/// of the three, no bare call for any other built-in, and, when the member resolves to
/// nothing at all (a library used as an address), the reserved member names `call`,
/// `delegatecall` and `staticcall`.
pub open spec fn spec_bare_call_kind(
    member_built_in: Option<BuiltIn>,
    member_has_definition: bool,
    member_name: Seq<u8>,
) -> Option<BareCallKind> {
    match member_built_in {
        Some(BuiltIn::AddressCall) => Some(BareCallKind::Call),
        Some(BuiltIn::AddressDelegatecall) => Some(BareCallKind::Delegatecall),
        Some(BuiltIn::AddressStaticcall) => Some(BareCallKind::Staticcall),
        Some(_) => None,
        None => if member_has_definition {
            None
        } else if member_name == name_call() {
            Some(BareCallKind::Call)
        } else if member_name == name_delegatecall() {
            Some(BareCallKind::Delegatecall)
        } else if member_name == name_staticcall() {
            Some(BareCallKind::Staticcall)
        } else {
            None
        },
    }
}

/// The bytes of `call`.
pub open spec fn name_call() -> Seq<u8> {
    seq![0x63u8, 0x61, 0x6c, 0x6c]
}

/// The bytes of `delegatecall`.
pub open spec fn name_delegatecall() -> Seq<u8> {
    seq![0x64u8, 0x65, 0x6c, 0x65, 0x67, 0x61, 0x74, 0x65, 0x63, 0x61, 0x6c, 0x6c]
}

/// The bytes of `staticcall`.
pub open spec fn name_staticcall() -> Seq<u8> {
    seq![0x73u8, 0x74, 0x61, 0x74, 0x69, 0x63, 0x63, 0x61, 0x6c, 0x6c]
}

/// Whether two byte strings are equal.
pub fn bytes_equal(a: &[u8], b: &[u8]) -> (result: bool)
    ensures
        result == (a@ == b@),
{
    if a.len() != b.len() {
        return false;
    }
    let mut i: usize = 0;
    while i < a.len()
        invariant
            a.len() == b.len(),
            i <= a.len(),
            forall|j: int| 0 <= j < i ==> a@[j] == b@[j],
        decreases a.len() - i,
    {
        if a[i] != b[i] {
            return false;
        }
        i += 1;
    }
    assert(a@ =~= b@);
    true
}

/// The role of an argument of a bare-name built-in call.
#[derive(Debug, Clone, Copy, PartialEq, Eq, Structural)]
pub enum OperandRole {
    /// The condition of `assert` / `require`.
    Condition,
    /// The message of `require`.
    Message,
    /// The data a hash is computed over.
    Data,
    /// The `hash` operand of `sol.ecrecover`.
    Hash,
    /// The `v` operand of `sol.ecrecover`.
    V,
    /// The `r` operand of `sol.ecrecover`.
    R,
    /// The `s` operand of `sol.ecrecover`.
    S,
    /// The first addend / factor of `addmod` / `mulmod`.
    X,
    /// The second addend / factor of `addmod` / `mulmod`.
    Y,
    /// The modulus of `addmod` / `mulmod`.
    Modulus,
}

/// How a bare-name built-in call lowers: the operation, the role of each argument (the
/// `i`-th argument takes role `operand_roles[i]`), and the order the arguments are
/// evaluated in.
#[derive(Debug)]
pub struct IdentifierBuiltInLowering {
    /// The operation.
    pub call: IdentifierBuiltInCall,
    /// The role of each argument, by position.
    pub operand_roles: Vec<OperandRole>,
    /// The argument positions, in evaluation order.
    pub evaluation_order: Vec<usize>,
}

/// The roles of the arguments of a bare-name built-in call with `count` arguments:
/// `assert(c)` and `require(c[, message])` test a condition; the hashes take their data;
/// `ecrecover(hash, v, r, s)` wires the four arguments to `hash`, `v`, `r` and `s`;
/// `addmod(x, y, m)` / `mulmod(x, y, m)` take the third argument as the modulus.
pub open spec fn spec_operand_roles(call: IdentifierBuiltInCall, count: usize) -> Seq<OperandRole> {
    match call {
        IdentifierBuiltInCall::Assert => seq![OperandRole::Condition],
        IdentifierBuiltInCall::Require => if count == 2 {
            seq![OperandRole::Condition, OperandRole::Message]
        } else {
            seq![OperandRole::Condition]
        },
        IdentifierBuiltInCall::GasLeft => Seq::empty(),
        IdentifierBuiltInCall::Keccak256 | IdentifierBuiltInCall::Sha256
        | IdentifierBuiltInCall::Ripemd160 => seq![OperandRole::Data],
        IdentifierBuiltInCall::Ecrecover => seq![
            OperandRole::Hash,
            OperandRole::V,
            OperandRole::R,
            OperandRole::S,
        ],
        IdentifierBuiltInCall::AddMod | IdentifierBuiltInCall::MulMod => seq![
            OperandRole::X,
            OperandRole::Y,
            OperandRole::Modulus,
        ],
    }
}

/// Left-to-right evaluation of `count` arguments.
pub open spec fn spec_left_to_right(count: usize) -> Seq<usize> {
    Seq::new(count as nat, |i: int| i as usize)
}

/// The positions `0 .. count`, in order.
fn left_to_right(count: usize) -> (result: Vec<usize>)
    ensures
        result@ == spec_left_to_right(count),
{
    let mut result: Vec<usize> = Vec::new();
    let mut i: usize = 0;
    while i < count
        invariant
            i <= count,
            result@ == spec_left_to_right(i),
        decreases count - i,
    {
        result.push(i);
        proof {
            assert(spec_left_to_right((i + 1) as usize) =~= spec_left_to_right(i).push(i));
        }
        i += 1;
    }
    result
}

impl CallContext {
    /// Tries `built_in(arguments)` as a built-in called by bare name: `None` when the
    /// callee is not a built-in or the argument count does not fit it, so the caller
    /// falls through to the other call kinds; otherwise the operation, the role each
    /// argument plays in it, and left-to-right evaluation of the arguments.
    pub fn try_emit_built_in_call(built_in: Option<BuiltIn>, argument_count: usize) -> (result: Option<IdentifierBuiltInLowering>)
        ensures
            match result {
                Some(lowering) => {
                    &&& Some(lowering.call) == match built_in {
                        Some(b) => spec_identifier_built_in(b, argument_count),
                        None => None,
                    }
                    &&& lowering.operand_roles@ == spec_operand_roles(lowering.call, argument_count)
                    &&& lowering.operand_roles@.len() == argument_count
                    &&& lowering.evaluation_order@ == spec_left_to_right(argument_count)
                },
                None => match built_in {
                    Some(b) => spec_identifier_built_in(b, argument_count) is None,
                    None => true,
                },
            },
    {
        let call = match Self::identifier_built_in(built_in, argument_count) {
            Some(call) => call,
            None => return None,
        };
        let operand_roles: Vec<OperandRole> = match call {
            IdentifierBuiltInCall::Assert => vec![OperandRole::Condition],
            IdentifierBuiltInCall::Require => {
                if argument_count == 2 {
                    vec![OperandRole::Condition, OperandRole::Message]
                } else {
                    vec![OperandRole::Condition]
                }
            },
            IdentifierBuiltInCall::GasLeft => Vec::new(),
            IdentifierBuiltInCall::Keccak256 | IdentifierBuiltInCall::Sha256
            | IdentifierBuiltInCall::Ripemd160 => vec![OperandRole::Data],
            IdentifierBuiltInCall::Ecrecover => vec![
                OperandRole::Hash,
                OperandRole::V,
                OperandRole::R,
                OperandRole::S,
            ],
            IdentifierBuiltInCall::AddMod | IdentifierBuiltInCall::MulMod => vec![
                OperandRole::X,
                OperandRole::Y,
                OperandRole::Modulus,
            ],
        };
        proof {
            assert(operand_roles@ =~= spec_operand_roles(call, argument_count));
        }
        Some(IdentifierBuiltInLowering {
            call,
            operand_roles,
            evaluation_order: left_to_right(argument_count),
        })
    }

    /// The bare-name built-in `built_in(arguments)` is, if any.
    fn identifier_built_in(built_in: Option<BuiltIn>, argument_count: usize) -> (result: Option<IdentifierBuiltInCall>)
        ensures
            result == match built_in {
                Some(b) => spec_identifier_built_in(b, argument_count),
                None => None,
            },
    {
        let built_in = match built_in {
            Some(b) => b,
            None => return None,
        };
        match built_in {
            BuiltIn::Assert if argument_count == 1 => Some(IdentifierBuiltInCall::Assert),
            BuiltIn::Require if argument_count == 1 || argument_count == 2 => Some(
                IdentifierBuiltInCall::Require,
            ),
            BuiltIn::Gasleft if argument_count == 0 => Some(IdentifierBuiltInCall::GasLeft),
            BuiltIn::Keccak256 if argument_count == 1 => Some(IdentifierBuiltInCall::Keccak256),
            BuiltIn::Sha256 if argument_count == 1 => Some(IdentifierBuiltInCall::Sha256),
            BuiltIn::Ripemd160 if argument_count == 1 => Some(IdentifierBuiltInCall::Ripemd160),
            BuiltIn::Ecrecover if argument_count == 4 => Some(IdentifierBuiltInCall::Ecrecover),
            BuiltIn::Addmod if argument_count == 3 => Some(IdentifierBuiltInCall::AddMod),
            BuiltIn::Mulmod if argument_count == 3 => Some(IdentifierBuiltInCall::MulMod),
            _ => None,
        }
    }
}

impl IdentifierBuiltInCall {
    /// The type of the value the call yields: `ui256` for `gasleft`, `bytes32` for the
    /// 32-byte hashes, `bytes20` for `ripemd160`, the address for `ecrecover`, the
    /// operand type for `addmod` / `mulmod`, and nothing for `assert` / `require`.
    pub fn result_type(&self, operand_type: Option<MlirType>) -> (result: Option<MlirType>)
        ensures
            match result {
                Some(t) => spec_identifier_result(*self, match operand_type {
                    Some(o) => Some(o@),
                    None => None,
                }) == Some(t@),
                None => spec_identifier_result(*self, match operand_type {
                    Some(o) => Some(o@),
                    None => None,
                }) is None,
            },
    {
        match self {
            IdentifierBuiltInCall::Assert | IdentifierBuiltInCall::Require => None,
            IdentifierBuiltInCall::GasLeft => Some(MlirType::Unsigned(BIT_LENGTH_FIELD)),
            IdentifierBuiltInCall::Keccak256 | IdentifierBuiltInCall::Sha256 => Some(
                MlirType::FixedBytes(32),
            ),
            IdentifierBuiltInCall::Ripemd160 => Some(MlirType::FixedBytes(20)),
            IdentifierBuiltInCall::Ecrecover => Some(MlirType::Address(false)),
            IdentifierBuiltInCall::AddMod | IdentifierBuiltInCall::MulMod => operand_type,
        }
    }
}

impl MemberIntrinsic {
    /// Whether the lowering accepts a member built-in with these call arguments.
    pub fn is_supported(built_in: BuiltIn, arguments: Option<CallArgumentFacts>) -> (result: bool)
        ensures
            result == spec_member_supported(built_in, arguments),
    {
        let supported = match built_in {
            BuiltIn::AddressBalance | BuiltIn::AddressCodehash | BuiltIn::AddressCode
            | BuiltIn::Length | BuiltIn::AddressSend | BuiltIn::AddressTransfer
            | BuiltIn::AbiEncode | BuiltIn::AbiEncodePacked | BuiltIn::AbiEncodeWithSelector
            | BuiltIn::AbiEncodeWithSignature | BuiltIn::StringConcat | BuiltIn::BytesConcat
            | BuiltIn::ArrayPop | BuiltIn::ArrayPush | BuiltIn::TxOrigin | BuiltIn::TxGasPrice
            | BuiltIn::MsgSender | BuiltIn::MsgValue | BuiltIn::BlockTimestamp
            | BuiltIn::BlockNumber | BuiltIn::BlockCoinbase | BuiltIn::BlockChainid
            | BuiltIn::BlockBasefee | BuiltIn::BlockGaslimit | BuiltIn::BlockBlobbasefee
            | BuiltIn::BlockDifficulty | BuiltIn::BlockPrevrandao | BuiltIn::MsgSig
            | BuiltIn::MsgData => true,
            _ => false,
        };
        let needs_arguments = match built_in {
            BuiltIn::AddressSend | BuiltIn::AddressTransfer | BuiltIn::AbiEncode
            | BuiltIn::AbiEncodePacked | BuiltIn::AbiEncodeWithSelector
            | BuiltIn::AbiEncodeWithSignature | BuiltIn::StringConcat | BuiltIn::BytesConcat
            | BuiltIn::ArrayPush => true,
            _ => false,
        };
        if !supported || (needs_arguments && arguments.is_none()) {
            return false;
        }
        match built_in {
            BuiltIn::AbiEncodeWithSignature => match arguments {
                Some(a) => a.count >= 1 && a.first_is_string_literal,
                None => false,
            },
            _ => true,
        }
    }

    /// The type of the value the intrinsic yields, if it yields one.
    pub fn result_type(&self) -> (result: Option<MlirType>)
        ensures
            match result {
                Some(t) => spec_member_result(*self) == Some(t@),
                None => spec_member_result(*self) is None,
            },
    {
        match self {
            MemberIntrinsic::Balance | MemberIntrinsic::CodeHash | MemberIntrinsic::Length => Some(
                MlirType::Unsigned(BIT_LENGTH_FIELD),
            ),
            MemberIntrinsic::Code => Some(MlirType::String(DataLocation::Memory)),
            MemberIntrinsic::Send => Some(MlirType::Signless(BIT_LENGTH_BOOLEAN)),
            MemberIntrinsic::Transfer | MemberIntrinsic::Pop | MemberIntrinsic::Push => None,
            MemberIntrinsic::Encode(_, _) | MemberIntrinsic::Concat => Some(
                MlirType::String(DataLocation::Memory),
            ),
            MemberIntrinsic::Environment(value) => Some(
                match value {
                    EnvironmentValue::Origin | EnvironmentValue::Caller
                    | EnvironmentValue::Coinbase => MlirType::Address(false),
                    EnvironmentValue::Sig => MlirType::FixedBytes(4),
                    EnvironmentValue::CallData => MlirType::String(DataLocation::CallData),
                    _ => MlirType::Unsigned(BIT_LENGTH_FIELD),
                },
            ),
        }
    }
}

/// A value the lowering of a member built-in uses.
#[derive(Debug, Clone, Copy, PartialEq, Eq, Structural)]
pub enum MemberOperand {
    /// The receiver `x` of `x.m`.
    Receiver,
    /// The call argument at this index.
    Argument(usize),
}

/// The selector operand of a `sol.encode`.
#[derive(Debug, Clone, Copy, PartialEq, Eq, Structural)]
pub enum SelectorOperand {
    /// No selector.
    Absent,
    /// The value of the first argument, cast to `bytes4`.
    FirstArgumentAsBytes4,
    /// A `ui32` constant of this value, cast to `bytes4` by `sol.bytes_cast`.
    Constant(u32),
}

/// How a member built-in lowers: its intrinsic, the values it evaluates in order, the
/// values the operation takes (for `sol.encode`, the encoded values in order), and the
/// selector of an encoding.
#[derive(Debug)]
pub struct MemberAccessLowering {
    /// The operation.
    pub intrinsic: MemberIntrinsic,
    /// The values evaluated, in order.
    pub evaluation: Vec<MemberOperand>,
    /// The operands of the operation, in order.
    pub operands: Vec<MemberOperand>,
    /// The selector of a `sol.encode`.
    pub selector: SelectorOperand,
}

/// The arguments from index `first` to `count`, in order.
pub open spec fn spec_arguments(first: usize, count: usize) -> Seq<MemberOperand> {
    Seq::new((count - first) as nat, |i: int| MemberOperand::Argument((first + i) as usize))
}

/// The values a member built-in evaluates, in order, with `count` call arguments: the
/// receiver of an address or array member first, then the arguments left to right; the
/// signature of `abi.encodeWithSignature` is not evaluated; environment reads evaluate
/// nothing.
pub open spec fn spec_member_evaluation(built_in: BuiltIn, count: usize) -> Seq<MemberOperand> {
    match built_in {
        BuiltIn::AddressBalance | BuiltIn::AddressCodehash | BuiltIn::AddressCode
        | BuiltIn::Length | BuiltIn::ArrayPop => seq![MemberOperand::Receiver],
        BuiltIn::AddressSend | BuiltIn::AddressTransfer | BuiltIn::ArrayPush => seq![
            MemberOperand::Receiver,
        ] + spec_arguments(0, count),
        BuiltIn::AbiEncode | BuiltIn::AbiEncodePacked | BuiltIn::AbiEncodeWithSelector
        | BuiltIn::StringConcat | BuiltIn::BytesConcat => spec_arguments(0, count),
        BuiltIn::AbiEncodeWithSignature => spec_arguments(1, count),
        _ => Seq::empty(),
    }
}

/// The operands of the operation a member built-in lowers to: the receiver (and, for
/// `send` / `transfer`, the first argument as the amount; for `push`, the pushed value);
/// for an encoding, the encoded values in source order, without the selector or the
/// signature; for `concat`, every argument.
pub open spec fn spec_member_operands(built_in: BuiltIn, count: usize) -> Seq<MemberOperand> {
    match built_in {
        BuiltIn::AddressBalance | BuiltIn::AddressCodehash | BuiltIn::AddressCode
        | BuiltIn::Length | BuiltIn::ArrayPop => seq![MemberOperand::Receiver],
        BuiltIn::AddressSend | BuiltIn::AddressTransfer => seq![
            MemberOperand::Receiver,
            MemberOperand::Argument(0),
        ],
        BuiltIn::ArrayPush => seq![MemberOperand::Receiver] + spec_arguments(0, count),
        BuiltIn::AbiEncode | BuiltIn::AbiEncodePacked | BuiltIn::StringConcat
        | BuiltIn::BytesConcat => spec_arguments(0, count),
        BuiltIn::AbiEncodeWithSelector | BuiltIn::AbiEncodeWithSignature => spec_arguments(1, count),
        _ => Seq::empty(),
    }
}

/// Whether a selector operand is the one a member built-in's encoding takes: the first
/// argument cast to `bytes4` for `abi.encodeWithSelector`, the first four bytes of the
/// Keccak-256 hash of the signature, big-endian, for `abi.encodeWithSignature`, and none
/// otherwise.
pub open spec fn spec_member_selector(built_in: BuiltIn, signature: Option<Seq<u8>>, selector: SelectorOperand) -> bool {
    match built_in {
        BuiltIn::AbiEncodeWithSelector => selector == SelectorOperand::FirstArgumentAsBytes4,
        BuiltIn::AbiEncodeWithSignature => selector matches SelectorOperand::Constant(word) && signature
            matches Some(text) && word as nat == spec_selector_word(spec_keccak256(text)),
        _ => selector == SelectorOperand::Absent,
    }
}

/// The number of arguments of a call, zero when there is no call.
pub open spec fn spec_argument_count(arguments: Option<CallArgumentFacts>) -> usize {
    match arguments {
        Some(a) => a.count,
        None => 0,
    }
}

/// The arguments a member built-in lowered from call position must come with: `send`,
/// `transfer` and `abi.encodeWithSelector` take at least one, and the signature of
/// `abi.encodeWithSignature` is given.
pub open spec fn spec_member_call_arguments(
    built_in: BuiltIn,
    arguments: Option<CallArgumentFacts>,
    signature: Option<Seq<u8>>,
) -> bool {
    &&& (built_in == BuiltIn::AddressSend || built_in == BuiltIn::AddressTransfer || built_in
        == BuiltIn::AbiEncodeWithSelector) ==> (arguments matches Some(a) && a.count >= 1)
    &&& built_in == BuiltIn::AbiEncodeWithSignature ==> signature is Some
}

/// Whether a lowering is the one of a member built-in.
pub open spec fn spec_is_member_lowering(
    lowering: MemberAccessLowering,
    built_in: BuiltIn,
    arguments: Option<CallArgumentFacts>,
    signature: Option<Seq<u8>>,
) -> bool {
    &&& Some(lowering.intrinsic) == spec_member_intrinsic(built_in)
    &&& lowering.evaluation@ == spec_member_evaluation(built_in, spec_argument_count(arguments))
    &&& lowering.operands@ == spec_member_operands(built_in, spec_argument_count(arguments))
    &&& spec_member_selector(built_in, signature, lowering.selector)
}

/// Appends the arguments from index `first` to `count`, in order.
fn push_arguments(out: &mut Vec<MemberOperand>, first: usize, count: usize)
    requires
        first <= count,
    ensures
        final(out)@ == old(out)@ + spec_arguments(first, count),
{
    let ghost start = old(out)@;
    let mut i: usize = first;
    while i < count
        invariant
            first <= i <= count,
            out@ == start + spec_arguments(first, i),
        decreases count - i,
    {
        out.push(MemberOperand::Argument(i));
        proof {
            assert(spec_arguments(first, (i + 1) as usize) =~= spec_arguments(first, i).push(
                MemberOperand::Argument(i),
            ));
        }
        i += 1;
    }
}

/// The arguments from index `first` to `count`, in order.
fn arguments_from(first: usize, count: usize) -> (result: Vec<MemberOperand>)
    ensures
        result@ == if first <= count {
            spec_arguments(first, count)
        } else {
            Seq::empty()
        },
{
    let mut result: Vec<MemberOperand> = Vec::new();
    if first <= count {
        push_arguments(&mut result, first, count);
        proof {
            assert(Seq::<MemberOperand>::empty() + spec_arguments(first, count) =~= spec_arguments(first, count));
        }
    }
    result
}

/// The receiver, then the arguments from index `first` to `count`.
fn receiver_then_arguments(first: usize, count: usize) -> (result: Vec<MemberOperand>)
    requires
        first <= count,
    ensures
        result@ == seq![MemberOperand::Receiver] + spec_arguments(first, count),
{
    let mut result: Vec<MemberOperand> = Vec::new();
    result.push(MemberOperand::Receiver);
    push_arguments(&mut result, first, count);
    result
}

impl CallContext {
    /// Lowers a member-access built-in (`address.balance`, `abi.encode(...)`,
    /// `msg.sender`, ...): its intrinsic, the values it evaluates (the receiver first,
    /// then the arguments left to right), the operands of the operation, and the selector
    /// of an encoding (the first argument cast to `bytes4`, or the first four bytes of the
    /// Keccak-256 hash of the literal signature, which is itself not evaluated). A
    /// built-in that is called needs the call's arguments, and the signature of
    /// `abi.encodeWithSignature` must be a string literal, given as `signature`.
    pub fn emit_built_in_member_access(
        built_in: BuiltIn,
        arguments: Option<CallArgumentFacts>,
        signature: Option<&[u8]>,
    ) -> (result: MemberAccessLowering)
        requires
            spec_member_supported(built_in, arguments),
            spec_member_call_arguments(
                built_in,
                arguments,
                match signature {
                    Some(text) => Some(text@),
                    None => None,
                },
            ),
        ensures
            spec_is_member_lowering(
                result,
                built_in,
                arguments,
                match signature {
                    Some(text) => Some(text@),
                    None => None,
                },
            ),
    {
        let count = match arguments {
            Some(a) => a.count,
            None => 0,
        };
        let intrinsic = Self::member_intrinsic(built_in);
        let none: Vec<MemberOperand> = Vec::new();
        let receiver: Vec<MemberOperand> = vec![MemberOperand::Receiver];
        proof {
            assert(none@ =~= Seq::<MemberOperand>::empty());
            assert(receiver@ =~= seq![MemberOperand::Receiver]);
        }
        match built_in {
            BuiltIn::AddressBalance | BuiltIn::AddressCodehash | BuiltIn::AddressCode
            | BuiltIn::Length | BuiltIn::ArrayPop => MemberAccessLowering {
                intrinsic,
                evaluation: receiver,
                operands: vec![MemberOperand::Receiver],
                selector: SelectorOperand::Absent,
            },
            BuiltIn::AddressSend | BuiltIn::AddressTransfer => {
                let operands = vec![MemberOperand::Receiver, MemberOperand::Argument(0)];
                proof {
                    assert(operands@ =~= seq![MemberOperand::Receiver, MemberOperand::Argument(0)]);
                }
                MemberAccessLowering {
                    intrinsic,
                    evaluation: receiver_then_arguments(0, count),
                    operands,
                    selector: SelectorOperand::Absent,
                }
            },
            BuiltIn::ArrayPush => MemberAccessLowering {
                intrinsic,
                evaluation: receiver_then_arguments(0, count),
                operands: receiver_then_arguments(0, count),
                selector: SelectorOperand::Absent,
            },
            BuiltIn::AbiEncode | BuiltIn::AbiEncodePacked | BuiltIn::StringConcat
            | BuiltIn::BytesConcat => MemberAccessLowering {
                intrinsic,
                evaluation: arguments_from(0, count),
                operands: arguments_from(0, count),
                selector: SelectorOperand::Absent,
            },
            BuiltIn::AbiEncodeWithSelector => MemberAccessLowering {
                intrinsic,
                evaluation: arguments_from(0, count),
                operands: arguments_from(1, count),
                selector: SelectorOperand::FirstArgumentAsBytes4,
            },
            BuiltIn::AbiEncodeWithSignature => {
                let text = match signature {
                    Some(text) => text,
                    None => {
                        assert(false);
                        return MemberAccessLowering {
                            intrinsic,
                            evaluation: none,
                            operands: Vec::new(),
                            selector: SelectorOperand::Absent,
                        };
                    },
                };
                let word = signature_selector(text);
                MemberAccessLowering {
                    intrinsic,
                    evaluation: arguments_from(1, count),
                    operands: arguments_from(1, count),
                    selector: SelectorOperand::Constant(word),
                }
            },
            _ => {
                let operands: Vec<MemberOperand> = Vec::new();
                proof {
                    assert(operands@ =~= Seq::<MemberOperand>::empty());
                }
                MemberAccessLowering {
                    intrinsic,
                    evaluation: none,
                    operands,
                    selector: SelectorOperand::Absent,
                }
            },
        }
    }

    /// The intrinsic a supported member built-in lowers to.
    fn member_intrinsic(built_in: BuiltIn) -> (result: MemberIntrinsic)
        requires
            spec_member_intrinsic(built_in) is Some,
        ensures
            Some(result) == spec_member_intrinsic(built_in),
    {
        match built_in {
            BuiltIn::AddressBalance => MemberIntrinsic::Balance,
            BuiltIn::AddressCodehash => MemberIntrinsic::CodeHash,
            BuiltIn::AddressCode => MemberIntrinsic::Code,
            BuiltIn::Length => MemberIntrinsic::Length,
            BuiltIn::AddressSend => MemberIntrinsic::Send,
            BuiltIn::AddressTransfer => MemberIntrinsic::Transfer,
            BuiltIn::AbiEncode => MemberIntrinsic::Encode(EncodeMode::Standard, SelectorSource::Absent),
            BuiltIn::AbiEncodePacked => MemberIntrinsic::Encode(EncodeMode::Packed, SelectorSource::Absent),
            BuiltIn::AbiEncodeWithSelector => MemberIntrinsic::Encode(
                EncodeMode::Standard,
                SelectorSource::FirstArgument,
            ),
            BuiltIn::AbiEncodeWithSignature => MemberIntrinsic::Encode(
                EncodeMode::Standard,
                SelectorSource::SignatureLiteral,
            ),
            BuiltIn::StringConcat | BuiltIn::BytesConcat => MemberIntrinsic::Concat,
            BuiltIn::ArrayPop => MemberIntrinsic::Pop,
            BuiltIn::ArrayPush => MemberIntrinsic::Push,
            BuiltIn::TxOrigin => MemberIntrinsic::Environment(EnvironmentValue::Origin),
            BuiltIn::TxGasPrice => MemberIntrinsic::Environment(EnvironmentValue::GasPrice),
            BuiltIn::MsgSender => MemberIntrinsic::Environment(EnvironmentValue::Caller),
            BuiltIn::MsgValue => MemberIntrinsic::Environment(EnvironmentValue::CallValue),
            BuiltIn::BlockTimestamp => MemberIntrinsic::Environment(EnvironmentValue::Timestamp),
            BuiltIn::BlockNumber => MemberIntrinsic::Environment(EnvironmentValue::BlockNumber),
            BuiltIn::BlockCoinbase => MemberIntrinsic::Environment(EnvironmentValue::Coinbase),
            BuiltIn::BlockChainid => MemberIntrinsic::Environment(EnvironmentValue::ChainId),
            BuiltIn::BlockBasefee => MemberIntrinsic::Environment(EnvironmentValue::BaseFee),
            BuiltIn::BlockGaslimit => MemberIntrinsic::Environment(EnvironmentValue::GasLimit),
            BuiltIn::BlockBlobbasefee => MemberIntrinsic::Environment(EnvironmentValue::BlobBaseFee),
            BuiltIn::BlockDifficulty => MemberIntrinsic::Environment(EnvironmentValue::Difficulty),
            BuiltIn::BlockPrevrandao => MemberIntrinsic::Environment(EnvironmentValue::PrevRandao),
            BuiltIn::MsgSig => MemberIntrinsic::Environment(EnvironmentValue::Sig),
            BuiltIn::MsgData => MemberIntrinsic::Environment(EnvironmentValue::CallData),
            _ => {
                assert(false);
                MemberIntrinsic::Pop
            },
        }
    }
}

impl ExpressionContext {
    /// Builds a `sol.encode` over `value_count` values, with a selector when one is
    /// given, packed or standard: its operand segment sizes record both counts.
    pub fn emit_sol_encode(value_count: usize, has_selector: bool, mode: EncodeMode) -> (result: EncodeOperation)
        requires
            value_count <= i32::MAX,
        ensures
            (result.value_segment, result.selector_segment) == spec_encode_segments(
                value_count,
                has_selector,
            ),
            result.packed == (mode == EncodeMode::Packed),
            result.value_segment + result.selector_segment == value_count + if has_selector {
                1int
            } else {
                0int
            },
    {
        let selector_segment: i32 = if has_selector {
            1
        } else {
            0
        };
        EncodeOperation {
            value_segment: value_count as i32,
            selector_segment,
            packed: match mode {
                EncodeMode::Packed => true,
                EncodeMode::Standard => false,
            },
        }
    }
}

/// The expression emitter has no lowering for a member access.
#[derive(Debug, Clone, Copy, PartialEq, Eq, Structural)]
pub struct UnsupportedMemberAccess;

/// The member intrinsic the expression emitter lowers a member built-in to: as
/// [`spec_member_intrinsic`], without `string.concat` / `bytes.concat`.
pub open spec fn spec_emitter_member_intrinsic(built_in: BuiltIn) -> Option<MemberIntrinsic> {
    match built_in {
        BuiltIn::StringConcat | BuiltIn::BytesConcat => None,
        _ => spec_member_intrinsic(built_in),
    }
}

/// The arguments that a member built-in the expression emitter lowers must come with: a
/// called built-in has arguments, `send`, `transfer` and `abi.encodeWithSelector` at least
/// one, and `abi.encodeWithSignature` a string-literal signature first.
pub open spec fn spec_emitter_member_arguments(built_in: BuiltIn, arguments: Option<CallArgumentFacts>) -> bool {
    spec_emitter_member_intrinsic(built_in) is Some ==> {
        &&& spec_needs_arguments(built_in) ==> arguments is Some
        &&& (built_in == BuiltIn::AddressSend || built_in == BuiltIn::AddressTransfer || built_in
            == BuiltIn::AbiEncodeWithSelector) ==> (arguments matches Some(a) && a.count >= 1)
        &&& built_in == BuiltIn::AbiEncodeWithSignature ==> (arguments matches Some(a) && a.count >= 1
            && a.first_is_string_literal)
    }
}

/// The expression emitter's lowering of a member built-in: the lowering shared with the
/// context, and, for `push`, how the new element's slot is produced and filled.
#[derive(Debug)]
pub struct EmitterMemberAccess {
    /// The intrinsic and its operands.
    pub lowering: MemberAccessLowering,
    /// The plan of a `push`.
    pub push: Option<PushPlan>,
}

impl CallEmitter {
    /// The expression emitter's lowering of a member-access built-in: as the context
    /// lowers it, with, for `push`, the plan that yields the new element's slot (a
    /// pointer to the element at the receiver's location) and stores a given value into
    /// it after converting it to the element type; an error for a member it does not
    /// lower (`concat`, and any member that is not one of the built-ins of
    /// [`spec_member_intrinsic`]). `push_base` is the receiver's type and `push_value` the
    /// pushed value's type; pushing a value onto `bytes` is not lowered here.
    pub fn emit_built_in_member_access(
        built_in: BuiltIn,
        arguments: Option<CallArgumentFacts>,
        signature: Option<&[u8]>,
        push_base: Option<&SlangType>,
        push_value: Option<&MlirType>,
    ) -> (result: Result<EmitterMemberAccess, UnsupportedMemberAccess>)
        requires
            spec_emitter_member_arguments(built_in, arguments),
            built_in == BuiltIn::AbiEncodeWithSignature ==> signature is Some,
            built_in == BuiltIn::ArrayPush ==> (push_base matches Some(base) && spec_push_base(*base)
                && !(*base is Bytes && push_value is Some)),
        ensures
            match result {
                Ok(access) => {
                    &&& spec_emitter_member_intrinsic(built_in) is Some
                    &&& spec_is_member_lowering(
                        access.lowering,
                        built_in,
                        arguments,
                        match signature {
                            Some(text) => Some(text@),
                            None => None,
                        },
                    )
                    &&& (access.push is Some) == (built_in == BuiltIn::ArrayPush)
                    &&& access.push matches Some(plan) ==> spec_array_push(
                        plan,
                        *push_base->0,
                        match push_value {
                            Some(v) => Some(v@),
                            None => None,
                        },
                    )
                },
                Err(_) => spec_emitter_member_intrinsic(built_in) is None,
            },
    {
        match built_in {
            BuiltIn::StringConcat | BuiltIn::BytesConcat => {
                return Err(UnsupportedMemberAccess);
            },
            _ => {},
        }
        if !MemberIntrinsic::is_supported(built_in, arguments) {
            return Err(UnsupportedMemberAccess);
        }
        let lowering = CallContext::emit_built_in_member_access(built_in, arguments, signature);
        let push = match built_in {
            BuiltIn::ArrayPush => match push_base {
                Some(base) => Some(CallContext::emit_array_push(base, push_value)),
                None => None,
            },
            _ => None,
        };
        Ok(EmitterMemberAccess { lowering, push })
    }
}

/// A member built-in in call position (`abi.encode(...)`, `arr.push(...)`,
/// `addr.send(...)`, `string.concat(...)`), with the family that lowers it.
#[derive(Debug, Clone, Copy, PartialEq, Eq, Structural)]
pub enum CallPositionBuiltIn {
    /// `addr.send(v)`.
    Send,
    /// `addr.transfer(v)`.
    Transfer,
    /// `abi.encode*`.
    Encode(EncodeMode, SelectorSource),
    /// `abi.encodeCall(f, (args))`.
    EncodeCall,
    /// `arr.pop()`.
    Pop,
    /// `arr.push(...)`.
    Push,
    /// `string.concat(...)` / `bytes.concat(...)`.
    Concat,
}

/// The call-position built-in a member built-in is, if the context lowers it there.
pub open spec fn spec_call_position_built_in(built_in: BuiltIn) -> Option<CallPositionBuiltIn> {
    match built_in {
        BuiltIn::AddressSend => Some(CallPositionBuiltIn::Send),
        BuiltIn::AddressTransfer => Some(CallPositionBuiltIn::Transfer),
        BuiltIn::AbiEncode => Some(CallPositionBuiltIn::Encode(EncodeMode::Standard, SelectorSource::Absent)),
        BuiltIn::AbiEncodePacked => Some(CallPositionBuiltIn::Encode(EncodeMode::Packed, SelectorSource::Absent)),
        BuiltIn::AbiEncodeWithSelector => Some(
            CallPositionBuiltIn::Encode(EncodeMode::Standard, SelectorSource::FirstArgument),
        ),
        BuiltIn::AbiEncodeWithSignature => Some(
            CallPositionBuiltIn::Encode(EncodeMode::Standard, SelectorSource::SignatureLiteral),
        ),
        BuiltIn::AbiEncodeCall => Some(CallPositionBuiltIn::EncodeCall),
        BuiltIn::ArrayPop => Some(CallPositionBuiltIn::Pop),
        BuiltIn::ArrayPush => Some(CallPositionBuiltIn::Push),
        BuiltIn::StringConcat | BuiltIn::BytesConcat => Some(CallPositionBuiltIn::Concat),
        _ => None,
    }
}

impl ExpressionContext {
    /// The family that lowers a call-position member built-in; every one but `pop` is
    /// called with arguments.
    pub fn emit_built_in_member_access(built_in: BuiltIn, has_arguments: bool) -> (result: CallPositionBuiltIn)
        requires
            spec_call_position_built_in(built_in) is Some,
            built_in != BuiltIn::ArrayPop ==> has_arguments,
        ensures
            Some(result) == spec_call_position_built_in(built_in),
    {
        match built_in {
            BuiltIn::AddressSend => CallPositionBuiltIn::Send,
            BuiltIn::AddressTransfer => CallPositionBuiltIn::Transfer,
            BuiltIn::AbiEncode => CallPositionBuiltIn::Encode(EncodeMode::Standard, SelectorSource::Absent),
            BuiltIn::AbiEncodePacked => CallPositionBuiltIn::Encode(EncodeMode::Packed, SelectorSource::Absent),
            BuiltIn::AbiEncodeWithSelector => CallPositionBuiltIn::Encode(
                EncodeMode::Standard,
                SelectorSource::FirstArgument,
            ),
            BuiltIn::AbiEncodeWithSignature => CallPositionBuiltIn::Encode(
                EncodeMode::Standard,
                SelectorSource::SignatureLiteral,
            ),
            BuiltIn::AbiEncodeCall => CallPositionBuiltIn::EncodeCall,
            BuiltIn::ArrayPop => CallPositionBuiltIn::Pop,
            BuiltIn::ArrayPush => CallPositionBuiltIn::Push,
            _ => CallPositionBuiltIn::Concat,
        }
    }
}

impl CallPositionBuiltIn {
    /// Whether the context lowers a member built-in in call position.
    pub fn is_call_position(built_in: BuiltIn) -> (result: bool)
        ensures
            result == (spec_call_position_built_in(built_in) is Some),
    {
        match built_in {
            BuiltIn::AddressSend | BuiltIn::AddressTransfer | BuiltIn::AbiEncode
            | BuiltIn::AbiEncodePacked | BuiltIn::AbiEncodeWithSelector
            | BuiltIn::AbiEncodeWithSignature | BuiltIn::AbiEncodeCall | BuiltIn::ArrayPop
            | BuiltIn::ArrayPush | BuiltIn::StringConcat | BuiltIn::BytesConcat => true,
            _ => false,
        }
    }
}

impl CallEmitter {
    /// Resolves the bare-call kind of a member access `recv.m`, or `None` when the member
    /// is not a low-level call.
    pub fn resolve_bare_call_kind(member_built_in: Option<BuiltIn>, member_has_definition: bool, member_name: &[u8]) -> (result: Option<BareCallKind>)
        ensures
            result == spec_bare_call_kind(member_built_in, member_has_definition, member_name@),
    {
        match member_built_in {
            Some(BuiltIn::AddressCall) => Some(BareCallKind::Call),
            Some(BuiltIn::AddressDelegatecall) => Some(BareCallKind::Delegatecall),
            Some(BuiltIn::AddressStaticcall) => Some(BareCallKind::Staticcall),
            Some(_) => None,
            None => {
                if member_has_definition {
                    return None;
                }
                let call: [u8; 4] = [0x63, 0x61, 0x6c, 0x6c];
                let delegatecall: [u8; 12] = [
                    0x64,
                    0x65,
                    0x6c,
                    0x65,
                    0x67,
                    0x61,
                    0x74,
                    0x65,
                    0x63,
                    0x61,
                    0x6c,
                    0x6c,
                ];
                let staticcall: [u8; 10] = [
                    0x73,
                    0x74,
                    0x61,
                    0x74,
                    0x69,
                    0x63,
                    0x63,
                    0x61,
                    0x6c,
                    0x6c,
                ];
                assert(call@ =~= name_call());
                assert(delegatecall@ =~= name_delegatecall());
                assert(staticcall@ =~= name_staticcall());
                if bytes_equal(member_name, call.as_slice()) {
                    Some(BareCallKind::Call)
                } else if bytes_equal(member_name, delegatecall.as_slice()) {
                    Some(BareCallKind::Delegatecall)
                } else if bytes_equal(member_name, staticcall.as_slice()) {
                    Some(BareCallKind::Staticcall)
                } else {
                    None
                }
            },
        }
    }
}

impl BareCallKind {
    /// How a bare call is emitted: a plain `call` sends the given wei or zero, the other
    /// two send none; all three forward the given gas or all remaining gas. The receiver
    /// is evaluated before the payload, the payload is cast to a memory string, and the
    /// call yields `(i1 status, bytes memory data)`.
    pub fn emit_bare_call(self, has_value_option: bool, has_gas_option: bool) -> (result: BareCallPlan)
        ensures
            result.kind == self,
            result.evaluation == (BareCallOperand::Receiver, BareCallOperand::Payload),
            result.payload_target@ == TypeView::String(DataLocation::Memory),
            result.value == match self {
                BareCallKind::Call => if has_value_option {
                    OperandSource::Option
                } else {
                    OperandSource::Zero
                },
                _ => OperandSource::Absent,
            },
            result.gas == if has_gas_option {
                OperandSource::Option
            } else {
                OperandSource::GasLeft
            },
    {
        let value = match self {
            BareCallKind::Call => {
                if has_value_option {
                    OperandSource::Option
                } else {
                    OperandSource::Zero
                }
            },
            _ => OperandSource::Absent,
        };
        let gas = if has_gas_option {
            OperandSource::Option
        } else {
            OperandSource::GasLeft
        };
        BareCallPlan {
            kind: self,
            evaluation: (BareCallOperand::Receiver, BareCallOperand::Payload),
            payload_target: MlirType::String(DataLocation::Memory),
            value,
            gas,
        }
    }

    /// The types of the two results of a bare call: the `i1` status and the memory
    /// bytes of the return data.
    pub fn result_types() -> (result: (MlirType, MlirType))
        ensures
            result.0@ == TypeView::Signless(1),
            result.1@ == TypeView::String(DataLocation::Memory),
    {
        (MlirType::Signless(BIT_LENGTH_BOOLEAN), MlirType::String(DataLocation::Memory))
    }
}

/// A value a wei transfer evaluates.
#[derive(Debug, Clone, Copy, PartialEq, Eq, Structural)]
pub enum TransferOperand {
    /// The recipient address.
    Recipient,
    /// The wei amount.
    Amount,
}

/// How `address.send(amount)` / `address.transfer(amount)` lowers: the recipient, then
/// the amount, evaluated in that order; the amount cast to `ui256`; `sol.send` yields an
/// `i1` status and does not revert, `sol.transfer` yields nothing and reverts on failure.
pub struct ValueTransferPlan {
    /// The values evaluated, in order.
    pub evaluation: (TransferOperand, TransferOperand),
    /// The type the amount is cast to.
    pub amount_type: MlirType,
    /// The type of the status the operation yields, if it yields one.
    pub status_type: Option<MlirType>,
    /// Whether a failed transfer reverts.
    pub reverts_on_failure: bool,
}

impl CallEmitter {
    /// Lowers `address.send(amount)`: `sol.send`, yielding the `bool` success status
    /// without reverting on failure.
    pub fn emit_address_send() -> (result: ValueTransferPlan)
        ensures
            result.evaluation == (TransferOperand::Recipient, TransferOperand::Amount),
            result.amount_type@ == TypeView::Unsigned(256),
            result.status_type matches Some(t) && t@ == TypeView::Signless(1),
            !result.reverts_on_failure,
    {
        ValueTransferPlan {
            evaluation: (TransferOperand::Recipient, TransferOperand::Amount),
            amount_type: MlirType::Unsigned(BIT_LENGTH_FIELD),
            status_type: Some(MlirType::Signless(BIT_LENGTH_BOOLEAN)),
            reverts_on_failure: false,
        }
    }

    /// Lowers `address.transfer(amount)`: `sol.transfer`, which yields nothing and
    /// reverts on failure.
    pub fn emit_address_transfer() -> (result: ValueTransferPlan)
        ensures
            result.evaluation == (TransferOperand::Recipient, TransferOperand::Amount),
            result.amount_type@ == TypeView::Unsigned(256),
            result.status_type is None,
            result.reverts_on_failure,
    {
        ValueTransferPlan {
            evaluation: (TransferOperand::Recipient, TransferOperand::Amount),
            amount_type: MlirType::Unsigned(BIT_LENGTH_FIELD),
            status_type: None,
            reverts_on_failure: true,
        }
    }
}

/// Each bare-name built-in takes its own number of arguments and yields a value of its
/// own type: `assert(c)` one and `require(c[, m])` one or two, yielding nothing;
/// `gasleft()` none, yielding `ui256`; `keccak256` and `sha256` one, yielding `bytes32`;
/// `ripemd160` one, yielding `bytes20`; `ecrecover` four, yielding an address;
/// `addmod` / `mulmod` three, yielding the operand type. Any other count is not the
/// built-in.
pub proof fn lemma_identifier_built_in_signatures(count: usize, operand: Option<TypeView>)
    ensures
        spec_identifier_built_in(BuiltIn::Assert, count) is Some <==> count == 1,
        spec_identifier_built_in(BuiltIn::Require, count) is Some <==> (count == 1 || count == 2),
        spec_identifier_built_in(BuiltIn::Gasleft, count) is Some <==> count == 0,
        spec_identifier_built_in(BuiltIn::Keccak256, count) is Some <==> count == 1,
        spec_identifier_built_in(BuiltIn::Sha256, count) is Some <==> count == 1,
        spec_identifier_built_in(BuiltIn::Ripemd160, count) is Some <==> count == 1,
        spec_identifier_built_in(BuiltIn::Ecrecover, count) is Some <==> count == 4,
        spec_identifier_built_in(BuiltIn::Addmod, count) is Some <==> count == 3,
        spec_identifier_built_in(BuiltIn::Mulmod, count) is Some <==> count == 3,
        spec_identifier_built_in(BuiltIn::Keccak256, 1) == Some(IdentifierBuiltInCall::Keccak256),
        spec_identifier_built_in(BuiltIn::Sha256, 1) == Some(IdentifierBuiltInCall::Sha256),
        spec_identifier_built_in(BuiltIn::Ripemd160, 1) == Some(IdentifierBuiltInCall::Ripemd160),
        spec_identifier_built_in(BuiltIn::Ecrecover, 4) == Some(IdentifierBuiltInCall::Ecrecover),
        spec_identifier_built_in(BuiltIn::Addmod, 3) == Some(IdentifierBuiltInCall::AddMod),
        spec_identifier_built_in(BuiltIn::Mulmod, 3) == Some(IdentifierBuiltInCall::MulMod),
        spec_identifier_built_in(BuiltIn::Gasleft, 0) == Some(IdentifierBuiltInCall::GasLeft),
        spec_identifier_result(IdentifierBuiltInCall::Assert, operand) is None,
        spec_identifier_result(IdentifierBuiltInCall::Require, operand) is None,
        spec_identifier_result(IdentifierBuiltInCall::GasLeft, operand) == Some(TypeView::Unsigned(256)),
        spec_identifier_result(IdentifierBuiltInCall::Keccak256, operand) == Some(TypeView::FixedBytes(32)),
        spec_identifier_result(IdentifierBuiltInCall::Sha256, operand) == Some(TypeView::FixedBytes(32)),
        spec_identifier_result(IdentifierBuiltInCall::Ripemd160, operand) == Some(TypeView::FixedBytes(20)),
        spec_identifier_result(IdentifierBuiltInCall::Ecrecover, operand) == Some(TypeView::Address(false)),
        spec_identifier_result(IdentifierBuiltInCall::AddMod, operand) == operand,
        spec_identifier_result(IdentifierBuiltInCall::MulMod, operand) == operand,
        spec_operand_roles(IdentifierBuiltInCall::Ecrecover, count) == seq![
            OperandRole::Hash,
            OperandRole::V,
            OperandRole::R,
            OperandRole::S,
        ],
        spec_operand_roles(IdentifierBuiltInCall::AddMod, count)[2] == OperandRole::Modulus,
        spec_operand_roles(IdentifierBuiltInCall::MulMod, count)[2] == OperandRole::Modulus,
{
}

/// Each member built-in lowers to the operation of its own name and yields a value of
/// its own type: `balance` and `codehash` and `length` a `ui256`, `code` memory bytes,
/// `send` an `i1` status, `transfer`, `pop` and `push` nothing; `abi.encode` is standard,
/// `abi.encodePacked` packed, `abi.encodeWithSelector` takes its selector from the first
/// argument and `abi.encodeWithSignature` from the signature, each yielding memory bytes;
/// `msg.sender`, `tx.origin` and `block.coinbase` are addresses, `msg.sig` a `bytes4`,
/// `msg.data` calldata bytes, and the other environment reads `ui256`.
pub proof fn lemma_member_built_in_names()
    ensures
        spec_member_intrinsic(BuiltIn::AddressBalance) == Some(MemberIntrinsic::Balance),
        spec_member_intrinsic(BuiltIn::AddressCodehash) == Some(MemberIntrinsic::CodeHash),
        spec_member_intrinsic(BuiltIn::AddressCode) == Some(MemberIntrinsic::Code),
        spec_member_intrinsic(BuiltIn::Length) == Some(MemberIntrinsic::Length),
        spec_member_intrinsic(BuiltIn::AddressSend) == Some(MemberIntrinsic::Send),
        spec_member_intrinsic(BuiltIn::AddressTransfer) == Some(MemberIntrinsic::Transfer),
        spec_member_intrinsic(BuiltIn::ArrayPop) == Some(MemberIntrinsic::Pop),
        spec_member_intrinsic(BuiltIn::ArrayPush) == Some(MemberIntrinsic::Push),
        spec_member_intrinsic(BuiltIn::AbiEncode) == Some(
            MemberIntrinsic::Encode(EncodeMode::Standard, SelectorSource::Absent),
        ),
        spec_member_intrinsic(BuiltIn::AbiEncodePacked) == Some(
            MemberIntrinsic::Encode(EncodeMode::Packed, SelectorSource::Absent),
        ),
        spec_member_intrinsic(BuiltIn::AbiEncodeWithSelector) == Some(
            MemberIntrinsic::Encode(EncodeMode::Standard, SelectorSource::FirstArgument),
        ),
        spec_member_intrinsic(BuiltIn::AbiEncodeWithSignature) == Some(
            MemberIntrinsic::Encode(EncodeMode::Standard, SelectorSource::SignatureLiteral),
        ),
        spec_member_intrinsic(BuiltIn::MsgSender) == Some(MemberIntrinsic::Environment(EnvironmentValue::Caller)),
        spec_member_intrinsic(BuiltIn::TxOrigin) == Some(MemberIntrinsic::Environment(EnvironmentValue::Origin)),
        spec_member_intrinsic(BuiltIn::MsgValue) == Some(MemberIntrinsic::Environment(EnvironmentValue::CallValue)),
        spec_member_intrinsic(BuiltIn::MsgSig) == Some(MemberIntrinsic::Environment(EnvironmentValue::Sig)),
        spec_member_intrinsic(BuiltIn::MsgData) == Some(MemberIntrinsic::Environment(EnvironmentValue::CallData)),
        spec_member_intrinsic(BuiltIn::BlockTimestamp) == Some(
            MemberIntrinsic::Environment(EnvironmentValue::Timestamp),
        ),
        spec_member_intrinsic(BuiltIn::BlockNumber) == Some(
            MemberIntrinsic::Environment(EnvironmentValue::BlockNumber),
        ),
        spec_member_intrinsic(BuiltIn::BlockCoinbase) == Some(
            MemberIntrinsic::Environment(EnvironmentValue::Coinbase),
        ),
        spec_member_intrinsic(BuiltIn::BlockChainid) == Some(MemberIntrinsic::Environment(EnvironmentValue::ChainId)),
        spec_member_result(MemberIntrinsic::Balance) == Some(TypeView::Unsigned(256)),
        spec_member_result(MemberIntrinsic::CodeHash) == Some(TypeView::Unsigned(256)),
        spec_member_result(MemberIntrinsic::Length) == Some(TypeView::Unsigned(256)),
        spec_member_result(MemberIntrinsic::Code) == Some(TypeView::String(DataLocation::Memory)),
        spec_member_result(MemberIntrinsic::Send) == Some(TypeView::Signless(1)),
        spec_member_result(MemberIntrinsic::Transfer) is None,
        spec_member_result(MemberIntrinsic::Pop) is None,
        spec_member_result(MemberIntrinsic::Environment(EnvironmentValue::Caller)) == Some(TypeView::Address(false)),
        spec_member_result(MemberIntrinsic::Environment(EnvironmentValue::Origin)) == Some(TypeView::Address(false)),
        spec_member_result(MemberIntrinsic::Environment(EnvironmentValue::Sig)) == Some(TypeView::FixedBytes(4)),
        spec_member_result(MemberIntrinsic::Environment(EnvironmentValue::CallData)) == Some(
            TypeView::String(DataLocation::CallData),
        ),
        spec_member_result(MemberIntrinsic::Environment(EnvironmentValue::CallValue)) == Some(
            TypeView::Unsigned(256),
        ),
        spec_member_result(MemberIntrinsic::Environment(EnvironmentValue::Timestamp)) == Some(
            TypeView::Unsigned(256),
        ),
{
}

/// The three low-level calls keep their kind: `call` is a plain call that sends the
/// given wei or zero, `delegatecall` and `staticcall` send none, and the member names
/// `call`, `delegatecall` and `staticcall` of an unresolved member select the same kinds.
pub proof fn lemma_bare_call_kinds(member_has_definition: bool, member_name: Seq<u8>)
    ensures
        spec_bare_call_kind(Some(BuiltIn::AddressCall), member_has_definition, member_name) == Some(
            BareCallKind::Call,
        ),
        spec_bare_call_kind(Some(BuiltIn::AddressDelegatecall), member_has_definition, member_name) == Some(
            BareCallKind::Delegatecall,
        ),
        spec_bare_call_kind(Some(BuiltIn::AddressStaticcall), member_has_definition, member_name) == Some(
            BareCallKind::Staticcall,
        ),
        spec_bare_call_kind(None, false, name_call()) == Some(BareCallKind::Call),
        spec_bare_call_kind(None, false, name_delegatecall()) == Some(BareCallKind::Delegatecall),
        spec_bare_call_kind(None, false, name_staticcall()) == Some(BareCallKind::Staticcall),
        spec_bare_call_kind(None, true, member_name) is None,
{
    assert(name_call() != name_delegatecall()) by {
        assert(name_call().len() != name_delegatecall().len());
    }
    assert(name_call() != name_staticcall()) by {
        assert(name_call().len() != name_staticcall().len());
    }
    assert(name_delegatecall() != name_staticcall()) by {
        assert(name_delegatecall().len() != name_staticcall().len());
    }
}

/// What an encoding built-in hands to `sol.encode`: `abi.encode` and `abi.encodePacked`
/// encode every argument in source order; `abi.encodeWithSelector` evaluates every
/// argument but encodes only those after the first, whose value, cast to `bytes4`, is the
/// selector; `abi.encodeWithSignature` neither evaluates nor encodes the signature, and
/// its selector is the first four bytes of the signature's Keccak-256 hash. `send` and
/// `transfer` evaluate the receiver first and pass the first argument as the amount.
pub proof fn lemma_member_lowering_operands(
    lowering: MemberAccessLowering,
    built_in: BuiltIn,
    count: usize,
    signature: Option<Seq<u8>>,
)
    requires
        spec_is_member_lowering(
            lowering,
            built_in,
            Some(CallArgumentFacts { count, first_is_string_literal: built_in == BuiltIn::AbiEncodeWithSignature }),
            signature,
        ),
        count >= 1,
    ensures
        (built_in == BuiltIn::AbiEncode || built_in == BuiltIn::AbiEncodePacked) ==> {
            &&& lowering.operands@.len() == count
            &&& forall|i: int| 0 <= i < count ==> #[trigger] lowering.operands@[i] == MemberOperand::Argument(i as usize)
            &&& lowering.selector == SelectorOperand::Absent
        },
        built_in == BuiltIn::AbiEncodeWithSelector ==> {
            &&& lowering.selector == SelectorOperand::FirstArgumentAsBytes4
            &&& lowering.evaluation@.len() == count
            &&& lowering.evaluation@[0] == MemberOperand::Argument(0)
            &&& lowering.operands@.len() == count - 1
            &&& forall|i: int| 0 <= i < count - 1 ==> #[trigger] lowering.operands@[i] == MemberOperand::Argument(
                (i + 1) as usize,
            )
            &&& !lowering.operands@.contains(MemberOperand::Argument(0))
        },
        built_in == BuiltIn::AbiEncodeWithSignature ==> {
            &&& signature matches Some(text) && lowering.selector matches SelectorOperand::Constant(word) && word as nat
                == spec_selector_word(spec_keccak256(text))
            &&& !lowering.evaluation@.contains(MemberOperand::Argument(0))
            &&& !lowering.operands@.contains(MemberOperand::Argument(0))
            &&& lowering.operands@.len() == count - 1
        },
        (built_in == BuiltIn::AddressSend || built_in == BuiltIn::AddressTransfer) ==> {
            &&& lowering.evaluation@[0] == MemberOperand::Receiver
            &&& lowering.operands@ == seq![MemberOperand::Receiver, MemberOperand::Argument(0)]
        },
{
    let operands = lowering.operands@;
    let evaluation = lowering.evaluation@;
    if built_in == BuiltIn::AbiEncodeWithSelector || built_in == BuiltIn::AbiEncodeWithSignature {
        assert forall|j: int| 0 <= j < operands.len() implies operands[j] != MemberOperand::Argument(0) by {}
    }
    if built_in == BuiltIn::AbiEncodeWithSignature {
        assert forall|j: int| 0 <= j < evaluation.len() implies evaluation[j] != MemberOperand::Argument(0) by {}
    }
    if built_in == BuiltIn::AbiEncodeWithSelector {
        assert(evaluation[0] == MemberOperand::Argument(0));
    }
    if built_in == BuiltIn::AddressSend || built_in == BuiltIn::AddressTransfer {
        assert(evaluation[0] == MemberOperand::Receiver);
    }
}

} // verus!
