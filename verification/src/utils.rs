//! Hashing and random sampling.
//!
//! The Fiat-Shamir challenge is SHA-256 of the transcript, read as four
//! big-endian 64-bit limbs (most significant first) that form a 256-bit
//! little-endian-limb integer, reduced modulo the group order.  The exact
//! convention is normative: any deviation changes every challenge.

use vstd::prelude::*;

use crate::algebra::Fr;
use crate::algebra::G1;
use crate::algebra::SchemeRng;
use crate::algebra::fr_from_raw;
use crate::algebra::fr_from_wide;
use crate::algebra::g1_generator;
use crate::algebra::g1_mul;
use crate::algebra::rng_fill_64;
use crate::field::md;
use sha2::Digest;

verus! {

broadcast use crate::field::lemma_md_bound;

/// The SHA-256 digest of a byte string: 32 bytes, a function of the input
/// alone.
pub uninterp spec fn sha256_of(b: Seq<u8>) -> Seq<u8>;

/// The big-endian 64-bit limb at limb index `k` of a digest.
pub open spec fn be64_at(d: Seq<u8>, k: int) -> int {
    d[8 * k] * 0x100000000000000 + d[8 * k + 1] * 0x1000000000000 + d[8 * k + 2] * 0x10000000000
        + d[8 * k + 3] * 0x100000000 + d[8 * k + 4] * 0x1000000 + d[8 * k + 5] * 0x10000 + d[8 * k
        + 6] * 0x100 + d[8 * k + 7]
}

/// The 256-bit integer a 32-byte digest spells: four big-endian limbs, the
/// first limb least significant.
pub open spec fn digest_value(d: Seq<u8>) -> int {
    be64_at(d, 0) + be64_at(d, 1) * 18446744073709551616 + be64_at(d, 2)
        * 340282366920938463463374607431768211456 + be64_at(d, 3)
        * 6277101735386680763835789423207666416102355444464034512896
}

/// The scalar the scheme derives from a byte string: SHA-256, then the
/// limb convention above, reduced modulo the group order.
pub open spec fn hash_scalar(b: Seq<u8>) -> nat {
    md(digest_value(sha256_of(b)))
}

/// Relies on sha2::Sha256::digest: the SHA-256 digest of the input.
#[verifier::external_body]
pub(crate) fn sha256_digest(v: &[u8]) -> (r: Vec<u8>)
    ensures
        r@ == sha256_of(v@),
        r@.len() == 32,
{
    sha2::Sha256::digest(v).to_vec()
}

/// The big-endian 64-bit limb at limb index `k` of a 32-byte digest.
fn be64_limb(d: &Vec<u8>, k: usize) -> (r: u64)
    requires
        k < 4,
        d@.len() == 32,
    ensures
        r == be64_at(d@, k as int),
{
    let off: usize = 8 * k;
    (d[off] as u64) * 0x100000000000000 + (d[off + 1] as u64) * 0x1000000000000 + (d[off + 2]
        as u64) * 0x10000000000 + (d[off + 3] as u64) * 0x100000000 + (d[off + 4] as u64)
        * 0x1000000 + (d[off + 5] as u64) * 0x10000 + (d[off + 6] as u64) * 0x100 + (d[off + 7]
        as u64)
}

/// SHA-256 the input and read the digest as a scalar.
pub(crate) fn calc_sha256_scalar(v: &[u8]) -> (r: Fr)
    ensures
        r@ == hash_scalar(v@),
        r.wf(),
{
    let digest = sha256_digest(v);
    let limbs: [u64; 4] = [
        be64_limb(&digest, 0),
        be64_limb(&digest, 1),
        be64_limb(&digest, 2),
        be64_limb(&digest, 3),
    ];
    let r = fr_from_raw(&limbs);
    assert(limbs@[0] == be64_at(digest@, 0) && limbs@[1] == be64_at(digest@, 1) && limbs@[2]
        == be64_at(digest@, 2) && limbs@[3] == be64_at(digest@, 3));
    r
}

/// A uniformly random scalar.
pub fn gen_rand_scalar(rng: &mut SchemeRng) -> (r: Fr)
    ensures
        r.wf(),
{
    let buf = rng_fill_64(rng);
    fr_from_wide(&buf)
}

/// A uniformly random element of G1.
pub fn gen_rand_g1(rng: &mut SchemeRng) -> (r: G1)
    ensures
        r.wf(),
{
    let k = gen_rand_scalar(rng);
    let g = g1_generator();
    g1_mul(&g, &k)
}

} // verus!
