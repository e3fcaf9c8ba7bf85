//! ABI selectors and event topics: Keccak-256 hashes read as big-endian integers.

use vstd::prelude::*;

use sha3::Digest;

verus! {

/// The Keccak-256 hash of a byte string (32 bytes).
pub uninterp spec fn spec_keccak256(data: Seq<u8>) -> Seq<u8>;

/// Keccak-256 through `sha3::Keccak256::digest`.
///
/// Trusted: the contract claims that the 32 bytes returned are the Keccak-256 hash of
/// `data`, named [`spec_keccak256`]; the hash itself is not specified here.
#[verifier::external_body]
fn keccak256(data: &[u8]) -> (hash: [u8; 32])
    ensures
        hash@ == spec_keccak256(data@),
{
    sha3::Keccak256::digest(data).into()
}

/// The value of a byte string read as a big-endian unsigned integer.
pub open spec fn be_value(bytes: Seq<u8>) -> nat
    decreases bytes.len(),
{
    if bytes.len() == 0 {
        0
    } else {
        be_value(bytes.drop_last()) * 256 + bytes.last() as nat
    }
}

/// The big-endian value of the first four bytes of a byte string.
pub open spec fn spec_selector_word(bytes: Seq<u8>) -> nat {
    be_value(bytes.subrange(0, 4))
}

/// A 256-bit unsigned integer as two 128-bit halves.
#[derive(Debug, Clone, Copy, PartialEq, Eq, Structural)]
pub struct Word {
    /// The upper 128 bits.
    pub high: u128,
    /// The lower 128 bits.
    pub low: u128,
}

/// `2^128`.
pub open spec fn two_128() -> nat {
    0x1_0000_0000_0000_0000_0000_0000_0000_0000nat
}

/// The value of a word.
pub open spec fn word_value(word: Word) -> nat {
    word.high as nat * two_128() + word.low as nat
}

/// `256^n`.
pub open spec fn pow256(n: nat) -> nat
    decreases n,
{
    if n == 0 {
        1
    } else {
        256 * pow256((n - 1) as nat)
    }
}

/// Appending bytes shifts the value of the prefix by a byte per appended byte.
pub proof fn lemma_be_value_append(a: Seq<u8>, b: Seq<u8>)
    ensures
        be_value(a + b) == be_value(a) * pow256(b.len()) + be_value(b),
    decreases b.len(),
{
    if b.len() == 0 {
        assert(a + b =~= a);
        assert(pow256(0) == 1);
        assert(be_value(b) == 0);
        assert(be_value(a) * 1 == be_value(a));
    } else {
        let b0 = b.drop_last();
        lemma_be_value_append(a, b0);
        assert((a + b).drop_last() =~= a + b0);
        assert((a + b).last() == b.last());
        let p = pow256(b0.len());
        let x = be_value(a);
        let y = be_value(b0);
        assert(be_value(a + b) == be_value(a + b0) * 256 + b.last() as nat);
        assert(be_value(b) == y * 256 + b.last() as nat);
        assert(pow256(b.len()) == 256 * p);
        assert((x * p + y) * 256 == x * (256 * p) + y * 256) by (nonlinear_arith);
        assert(be_value(a + b) == x * (256 * p) + y * 256 + b.last() as nat);
    }
}

/// The value of `n` bytes is below `256^n`.
pub proof fn lemma_be_value_bound(bytes: Seq<u8>)
    ensures
        be_value(bytes) < pow256(bytes.len()),
    decreases bytes.len(),
{
    if bytes.len() > 0 {
        lemma_be_value_bound(bytes.drop_last());
        let p = pow256((bytes.len() - 1) as nat);
        let v = be_value(bytes.drop_last());
        assert(v * 256 + (bytes.last() as nat) < 256 * p) by (nonlinear_arith)
            requires
                v < p,
                bytes.last() < 256,
        ;
    }
}

/// `256^n` grows with `n`.
pub proof fn lemma_pow256_monotonic(m: nat, n: nat)
    requires
        m <= n,
    ensures
        pow256(m) <= pow256(n),
    decreases n,
{
    if m < n {
        lemma_pow256_monotonic(m, (n - 1) as nat);
    }
}

/// Reads up to sixteen bytes as a big-endian 128-bit integer.
fn be_u128(bytes: &[u8], start: usize, end: usize) -> (result: u128)
    requires
        start <= end <= bytes@.len(),
        end - start <= 16,
    ensures
        result == be_value(bytes@.subrange(start as int, end as int)),
{
    let mut value: u128 = 0;
    let mut i: usize = start;
    while i < end
        invariant
            start <= i <= end <= bytes@.len(),
            end - start <= 16,
            value == be_value(bytes@.subrange(start as int, i as int)),
        decreases end - i,
    {
        proof {
            let prefix = bytes@.subrange(start as int, i as int);
            lemma_be_value_bound(prefix);
            lemma_pow256_monotonic((i - start + 1) as nat, 16);
            assert(pow256(16) == two_128()) by {
                reveal_with_fuel(pow256, 17);
            }
            let p = pow256((i - start) as nat);
            assert(pow256((i - start + 1) as nat) == 256 * p);
            assert(value * 256 + bytes@[i as int] < 256 * p) by (nonlinear_arith)
                requires
                    value < p,
                    bytes@[i as int] < 256,
            ;
            assert(bytes@.subrange(start as int, i + 1).drop_last() =~= prefix);
        }
        value = value * 256 + bytes[i] as u128;
        i += 1;
    }
    value
}

/// The selector word of a 32-byte hash: its first four bytes read as a big-endian
/// `u32`.
pub fn selector_from_hash(hash: &[u8; 32]) -> (selector: u32)
    ensures
        selector == spec_selector_word(hash@),
{
    let bytes = hash.as_slice();
    let word = be_u128(bytes, 0, 4);
    proof {
        lemma_be_value_bound(hash@.subrange(0, 4));
        assert(pow256(4) == 0x1_0000_0000) by {
            reveal_with_fuel(pow256, 5);
        }
    }
    word as u32
}

/// The 4-byte selector of a signature, as `abi.encodeWithSignature` builds it: the first
/// four bytes of the signature's Keccak-256 hash, big-endian.
pub fn signature_selector(signature: &[u8]) -> (selector: u32)
    ensures
        selector == spec_selector_word(spec_keccak256(signature@)),
{
    let hash = keccak256(signature);
    selector_from_hash(&hash)
}

/// Up to 32 bytes read as a big-endian 256-bit word.
pub fn word_from_be_bytes(bytes: &[u8]) -> (word: Word)
    requires
        bytes@.len() <= 32,
    ensures
        word_value(word) == be_value(bytes@),
{
    let n = bytes.len();
    if n <= 16 {
        let low = be_u128(bytes, 0, n);
        proof {
            assert(bytes@.subrange(0, n as int) =~= bytes@);
        }
        Word { high: 0, low }
    } else {
        let split = n - 16;
        let high = be_u128(bytes, 0, split);
        let low = be_u128(bytes, split, n);
        proof {
            assert(bytes@ =~= bytes@.subrange(0, split as int) + bytes@.subrange(split as int, n as int));
            lemma_be_value_append(bytes@.subrange(0, split as int), bytes@.subrange(split as int, n as int));
            assert(pow256(16) == two_128()) by {
                reveal_with_fuel(pow256, 17);
            }
        }
        Word { high, low }
    }
}

/// The 32-byte hash of a byte string read as a big-endian 256-bit word.
pub fn word_from_hash(hash: &[u8; 32]) -> (word: Word)
    ensures
        word_value(word) == be_value(hash@),
{
    word_from_be_bytes(hash.as_slice())
}

/// `MyEvent.selector`: the event's topic, the Keccak-256 hash of its canonical
/// signature read as a big-endian 256-bit constant (`bytes32`).
pub fn event_topic(canonical_signature: &[u8]) -> (topic: Word)
    ensures
        word_value(topic) == be_value(spec_keccak256(canonical_signature@)),
{
    let hash = keccak256(canonical_signature);
    word_from_hash(&hash)
}

/// Reading a byte string whose tail is all zeros: the zeros contribute nothing.
pub proof fn lemma_be_value_zeros(n: nat)
    ensures
        be_value(Seq::new(n, |i: int| 0u8)) == 0,
    decreases n,
{
    if n > 0 {
        let zeros = Seq::new(n, |i: int| 0u8);
        assert(zeros.drop_last() =~= Seq::new((n - 1) as nat, |i: int| 0u8));
        lemma_be_value_zeros((n - 1) as nat);
    }
}

/// The selector of a hash is its top four bytes: the big-endian value of the whole
/// 32-byte hash divided by `256^28`.
pub proof fn lemma_selector_is_high_bytes(hash: Seq<u8>)
    requires
        hash.len() == 32,
    ensures
        spec_selector_word(hash) == be_value(hash) / pow256(28),
{
    let head = hash.subrange(0, 4);
    let tail = hash.subrange(4, 32);
    assert(hash =~= head + tail);
    lemma_be_value_append(head, tail);
    lemma_be_value_bound(tail);
    let p = pow256(28);
    let h = be_value(head);
    let t = be_value(tail);
    assert(p > 0) by {
        lemma_pow256_monotonic(0, 28);
    }
    assert((h * p + t) / p == h) by (nonlinear_arith)
        requires
            p > 0,
            0 <= t < p,
            h >= 0,
    ;
}

} // verus!
