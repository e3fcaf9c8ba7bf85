//! String literals coerced to `byte` / `bytesN`: a left-aligned compile-time constant.

use vstd::prelude::*;

use crate::mlir_type::{MlirType, TypeView, spec_fixed_bytes_or_byte_width};
use crate::selector::{Word, word_value, be_value, word_from_be_bytes, pow256, lemma_be_value_append, lemma_be_value_zeros};

verus! {

/// The `width` bytes of a literal left-aligned in a `bytes<width>` value: the literal's
/// bytes first, zero-padded on the right, cut at `width`.
pub open spec fn spec_left_aligned(bytes: Seq<u8>, width: nat) -> Seq<u8> {
    Seq::new(width, |i: int| if i < bytes.len() { bytes[i] } else { 0u8 })
}

/// How a string literal is emitted toward a target type.
#[derive(Debug)]
pub enum StringLiteralPlan {
    /// The target is not fixed bytes: the literal is a runtime `!sol.string`.
    Runtime,
    /// A `sol.constant` of `integer_type` with the left-aligned bytes' big-endian value,
    /// then `sol.bytes_cast` to the target.
    Constant { value: Word, integer_type: MlirType },
}

/// A string literal expression.
pub struct StringExpression;

impl StringExpression {
    /// The left-aligned buffer of a literal in `width` bytes.
    pub fn left_aligned(bytes: &[u8], width: usize) -> (result: Vec<u8>)
        ensures
            result@ == spec_left_aligned(bytes@, width as nat),
    {
        let mut buffer: Vec<u8> = Vec::new();
        let mut i: usize = 0;
        while i < width
            invariant
                i <= width,
                buffer@.len() == i,
                forall|j: int| 0 <= j < i ==> #[trigger] buffer@[j] == (if j < bytes@.len() {
                    bytes@[j]
                } else {
                    0u8
                }),
            decreases width - i,
        {
            let byte = if i < bytes.len() {
                bytes[i]
            } else {
                0u8
            };
            buffer.push(byte);
            i += 1;
        }
        assert(buffer@ =~= spec_left_aligned(bytes@, width as nat));
        buffer
    }

    /// A string literal toward `target`: a fixed-bytes (or `byte`) target of `width` bytes
    /// gets the constant `ui<8 * width>` of the literal left-aligned in `width` bytes;
    /// any other target the runtime string.
    pub fn emit_as(bytes: &[u8], target: &MlirType) -> (result: StringLiteralPlan)
        requires
            spec_fixed_bytes_or_byte_width(target@) matches Some(width) ==> width <= 32,
        ensures
            match spec_fixed_bytes_or_byte_width(target@) {
                None => result is Runtime,
                Some(width) => result matches StringLiteralPlan::Constant { value, integer_type } && {
                    &&& word_value(value) == be_value(spec_left_aligned(bytes@, width as nat))
                    &&& integer_type@ == TypeView::Unsigned((width * 8) as u32)
                },
            },
    {
        let width = match target.fixed_bytes_or_byte_width() {
            Some(width) => width,
            None => return StringLiteralPlan::Runtime,
        };
        let buffer = Self::left_aligned(bytes, width as usize);
        let value = word_from_be_bytes(buffer.as_slice());
        StringLiteralPlan::Constant { value, integer_type: MlirType::Unsigned(width * 8) }
    }
}

/// The literal's bytes occupy the high end of the value: a literal of `width` bytes or
/// more keeps its first `width` bytes, and a shorter one is padded with zero bytes on the
/// right.
pub proof fn lemma_left_aligned_prefix(bytes: Seq<u8>, width: nat)
    ensures
        spec_left_aligned(bytes, width).len() == width,
        forall|i: int| 0 <= i < width && i < bytes.len() ==> #[trigger] spec_left_aligned(bytes, width)[i] == bytes[i],
        forall|i: int| bytes.len() <= i < width ==> #[trigger] spec_left_aligned(bytes, width)[i] == 0,
{
}

/// A literal of at most `width` bytes fills the high bytes of the constant: its value
/// is the literal's own big-endian value shifted up by the padding bytes.
pub proof fn lemma_left_aligned_value(bytes: Seq<u8>, width: nat)
    requires
        bytes.len() <= width,
    ensures
        be_value(spec_left_aligned(bytes, width)) == be_value(bytes) * pow256((width - bytes.len()) as nat),
{
    let padding = (width - bytes.len()) as nat;
    let zeros = Seq::new(padding, |i: int| 0u8);
    assert(spec_left_aligned(bytes, width) =~= bytes + zeros);
    lemma_be_value_append(bytes, zeros);
    lemma_be_value_zeros(padding);
}

} // verus!
