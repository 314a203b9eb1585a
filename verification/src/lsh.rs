//! Angular LSH parameters, the plane seed, and packing of sign bits into
//! table signatures. (Hyperplanes and dot products are floating point and
//! are computed by the caller.)

use vstd::prelude::*;
use vstd::utf8::encode_utf8;
use crate::facets::{blake3_digest, blake3_hash};
use crate::order::copy_bytes;
use crate::proto::{canonical_model_id, canonical_model_id_string, CANONICAL_EMBEDDING_DIM, PROTOCOL_VERSION};
use crate::wire::{le32, put_bytes, put_le32};

verus! {

/// Bits per table in the walking skeleton.
pub const DEFAULT_K: u32 = 8;

/// Number of tables in the walking skeleton.
pub const DEFAULT_L: u32 = 4;

/// LSH shape: `l` tables of `k`-bit signatures over `dim`-dimensional vectors.
#[derive(Debug, Clone, Copy)]
pub struct LshParams {
    pub k: u32,
    pub l: u32,
    pub dim: u32,
}

impl LshParams {
    /// Walking-skeleton defaults: 8 bits, 4 tables, canonical dimension.
    pub fn default_for_skeleton() -> (p: LshParams)
        ensures
            p.k == DEFAULT_K,
            p.l == DEFAULT_L,
            p.dim == CANONICAL_EMBEDDING_DIM,
    {
        LshParams { k: DEFAULT_K, l: DEFAULT_L, dim: CANONICAL_EMBEDDING_DIM }
    }

    /// Bytes per signature: `ceil(k / 8)`.
    pub fn bytes_per_signature(&self) -> (n: usize)
        ensures
            n as int == (self.k as int + 7) / 8,
    {
        (self.k / 8 + if self.k % 8 == 0 { 0 } else { 1 }) as usize
    }
}

/// Seed bytes of the canonical encoder's planes in the current epoch.
pub open spec fn default_seed_bytes() -> Seq<u8> {
    blake3_digest(encode_utf8(canonical_model_id()) + le32(PROTOCOL_VERSION))
}

/// Seed for the canonical encoder's LSH planes: blake3 of the model id
/// followed by the protocol version (little-endian).
pub fn default_seed() -> (seed: Vec<u8>)
    ensures
        seed@ == default_seed_bytes(),
{
    let model = canonical_model_id_string();
    let mut input: Vec<u8> = Vec::new();
    put_bytes(&mut input, model.as_str().as_bytes());
    put_le32(&mut input, PROTOCOL_VERSION);
    let digest = blake3_hash(input.as_slice());
    copy_bytes(&digest)
}

/// `2^b`.
pub open spec fn two_pow(b: nat) -> nat
    decreases b,
{
    if b == 0 {
        1
    } else {
        2 * two_pow((b - 1) as nat)
    }
}

/// Value of byte `j` of a signature from its lowest `b` bit positions: bit
/// `i` of the signature is `bits[i]`, at position `i % 8` of byte `i / 8`.
pub open spec fn byte_value(bits: Seq<bool>, j: int, b: nat) -> nat
    decreases b,
{
    if b == 0 {
        0
    } else {
        byte_value(bits, j, (b - 1) as nat) + if 8 * j + (b - 1) < bits.len() && bits[8 * j + (b - 1)] {
            two_pow((b - 1) as nat)
        } else {
            0
        }
    }
}

/// Signature bytes of a sequence of sign bits: `ceil(len / 8)` bytes, bit
/// `i` at position `i % 8` of byte `i / 8`, unused high bits zero.
pub open spec fn signature_bytes(bits: Seq<bool>) -> Seq<u8> {
    Seq::new(((bits.len() + 7) / 8) as nat, |j: int| byte_value(bits, j, 8) as u8)
}

proof fn lemma_two_pow_small(b: nat)
    requires
        b <= 7,
    ensures
        two_pow(b) <= 128,
        b <= 6 ==> two_pow(b) <= 64,
{
    reveal_with_fuel(two_pow, 8);
    assert(two_pow(6) == 64);
    assert(two_pow(0) == 1);
    assert(two_pow(7) == 128);
}

proof fn lemma_byte_value_bound(bits: Seq<bool>, j: int, b: nat)
    ensures
        byte_value(bits, j, b) < two_pow(b),
    decreases b,
{
    if b > 0 {
        lemma_byte_value_bound(bits, j, (b - 1) as nat);
    }
}

/// Pack sign bits into a table signature.
pub fn pack_signature(bits: &Vec<bool>) -> (sig: Vec<u8>)
    requires
        bits@.len() + 7 <= usize::MAX,
    ensures
        sig@ == signature_bytes(bits@),
{
    let n: usize = (bits.len() + 7) / 8;
    let mut sig: Vec<u8> = Vec::new();
    let mut j: usize = 0;
    while j < n
        invariant
            n == (bits@.len() + 7) / 8,
            bits@.len() + 7 <= usize::MAX,
            j <= n,
            sig@.len() == j,
            forall|x: int| 0 <= x < j ==> sig@[x] == byte_value(bits@, x, 8) as u8,
        decreases n - j,
    {
        assert(8 * j + 7 <= bits@.len() + 7) by (nonlinear_arith)
            requires
                j < n,
                n == (bits@.len() + 7) / 8,
        ;
        let mut acc: u8 = 0;
        let mut w: u8 = 1;
        let mut b: usize = 0;
        while b < 8
            invariant
                j < n,
                n == (bits@.len() + 7) / 8,
                b <= 8,
                acc as nat == byte_value(bits@, j as int, b as nat),
                b < 8 ==> w as nat == two_pow(b as nat),
                8 * j + 7 <= bits@.len() + 7,
                bits@.len() + 7 <= usize::MAX,
            decreases 8 - b,
        {
            proof {
                lemma_two_pow_small(b as nat);
                lemma_byte_value_bound(bits@, j as int, b as nat);
                lemma_byte_value_bound(bits@, j as int, (b + 1) as nat);
            }
            let idx: usize = 8 * j + b;
            if idx < bits.len() && bits[idx] {
                acc = acc + w;
            }
            if b < 7 {
                w = w * 2;
            }
            b = b + 1;
            proof {
                if b < 8 {
                    assert(two_pow(b as nat) == 2 * two_pow((b - 1) as nat));
                }
            }
        }
        sig.push(acc);
        j = j + 1;
    }
    assert(sig@ =~= signature_bytes(bits@));
    sig
}

} // verus!
