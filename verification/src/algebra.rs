//! The BLS12-381 primitives behind the scheme, together with their model.
//!
//! Scalars and group elements come from the `bls12_381_plus` crate and are
//! opaque to the verifier.  Each is therefore carried next to a ghost value:
//! a scalar is modelled by its integer value below `r_mod()`, and an element
//! of G1, G2 or Gt by its discrete logarithm with respect to the fixed
//! generator of its group (for Gt, with respect to the pairing of the two
//! generators).  Every group here is cyclic of prime order `r_mod()`, so the
//! model determines the element exactly.
//!
//! The functions in this module are the trusted boundary: their bodies call
//! the outside crate and the verifier believes their contracts.  Everything
//! above them is proved.

use vstd::prelude::*;

use crate::field::fadd;
use crate::field::fmul;
use crate::field::fsub;
use crate::field::md;
use crate::field::r_mod;
use bls12_381_plus::group::Curve;
use rand::RngCore;

verus! {

#[verifier::external_type_specification]
#[verifier::external_body]
pub struct ExScalar(bls12_381_plus::Scalar);

#[verifier::external_type_specification]
#[verifier::external_body]
pub struct ExG1Projective(bls12_381_plus::G1Projective);

#[verifier::external_type_specification]
#[verifier::external_body]
pub struct ExG2Projective(bls12_381_plus::G2Projective);

#[verifier::external_type_specification]
#[verifier::external_body]
pub struct ExGt(bls12_381_plus::Gt);

#[verifier::external_type_specification]
#[verifier::external_body]
pub struct ExThreadRng(rand::rngs::ThreadRng);

/// A scalar of Z_r, modelled by its value below `r_mod()`.
#[derive(Clone, Copy)]
pub struct Fr {
    pub s: bls12_381_plus::Scalar,
    pub val: Ghost<nat>,
}

/// An element of G1, modelled by its discrete logarithm to the G1 generator.
#[derive(Clone, Copy)]
pub struct G1 {
    pub p: bls12_381_plus::G1Projective,
    pub dlog: Ghost<nat>,
}

/// An element of G2, modelled by its discrete logarithm to the G2 generator.
#[derive(Clone, Copy)]
pub struct G2 {
    pub p: bls12_381_plus::G2Projective,
    pub dlog: Ghost<nat>,
}

/// An element of Gt, modelled by its discrete logarithm to e(g1, g2).
#[derive(Clone, Copy)]
pub struct GtElem {
    pub p: bls12_381_plus::Gt,
    pub dlog: Ghost<nat>,
}

/// The caller-supplied source of randomness.
pub struct SchemeRng {
    pub rng: rand::rngs::ThreadRng,
}

impl View for Fr {
    type V = nat;

    open spec fn view(&self) -> nat {
        self.val@
    }
}

impl Fr {
    pub open spec fn wf(&self) -> bool {
        self.val@ < r_mod()
    }
}

impl View for G1 {
    type V = nat;

    open spec fn view(&self) -> nat {
        self.dlog@
    }
}

impl G1 {
    pub open spec fn wf(&self) -> bool {
        self.dlog@ < r_mod()
    }
}

impl View for G2 {
    type V = nat;

    open spec fn view(&self) -> nat {
        self.dlog@
    }
}

impl G2 {
    pub open spec fn wf(&self) -> bool {
        self.dlog@ < r_mod()
    }
}

impl View for GtElem {
    type V = nat;

    open spec fn view(&self) -> nat {
        self.dlog@
    }
}

impl GtElem {
    pub open spec fn wf(&self) -> bool {
        self.dlog@ < r_mod()
    }
}

/// The canonical 32-byte little-endian encoding of a scalar value.
pub uninterp spec fn fr_bytes(n: nat) -> Seq<u8>;

/// The value a 32-byte string decodes to, if it is a canonical scalar encoding.
pub uninterp spec fn fr_parse(b: Seq<u8>) -> Option<nat>;

/// The canonical 48-byte compressed encoding of the G1 element with the given
/// discrete logarithm.
pub uninterp spec fn g1_bytes(n: nat) -> Seq<u8>;

/// The discrete logarithm a 48-byte string decodes to, if it is a canonical
/// encoding of a G1 subgroup element.
pub uninterp spec fn g1_parse(b: Seq<u8>) -> Option<nat>;

/// The canonical 96-byte compressed encoding of the G2 element with the given
/// discrete logarithm.
pub uninterp spec fn g2_bytes(n: nat) -> Seq<u8>;

/// The discrete logarithm a 96-byte string decodes to, if it is a canonical
/// encoding of a G2 subgroup element.
pub uninterp spec fn g2_parse(b: Seq<u8>) -> Option<nat>;

/// The canonical 576-byte encoding of the Gt element with the given discrete
/// logarithm.
pub uninterp spec fn gt_bytes(n: nat) -> Seq<u8>;

/// The little-endian integer a byte string spells.
pub open spec fn le_int(s: Seq<u8>) -> int
    decreases s.len(),
{
    if s.len() == 0 {
        0
    } else {
        s[0] + 256 * le_int(s.subrange(1, s.len() as int))
    }
}

/// Relies on bls12_381_plus::Scalar::add: addition modulo r.
#[verifier::external_body]
pub(crate) fn fr_add(a: &Fr, b: &Fr) -> (r: Fr)
    requires
        a.wf(),
        b.wf(),
    ensures
        r@ == fadd(a@, b@),
{
    Fr { s: a.s + b.s, val: Ghost(0) }
}

/// Relies on bls12_381_plus::Scalar::mul: multiplication modulo r.
#[verifier::external_body]
pub(crate) fn fr_mul(a: &Fr, b: &Fr) -> (r: Fr)
    requires
        a.wf(),
        b.wf(),
    ensures
        r@ == fmul(a@, b@),
{
    Fr { s: a.s * b.s, val: Ghost(0) }
}

/// Relies on bls12_381_plus::Scalar::invert: the multiplicative inverse
/// modulo r, defined exactly for the non-zero scalars.
#[verifier::external_body]
pub(crate) fn fr_invert(a: &Fr) -> (r: Option<Fr>)
    requires
        a.wf(),
    ensures
        r is Some <==> a@ != 0,
        r matches Some(i) ==> i.wf() && fmul(i@, a@) == md(1),
{
    let inv: Option<bls12_381_plus::Scalar> = a.s.invert().into();
    inv.map(|s| Fr { s, val: Ghost(0) })
}

/// Relies on bls12_381_plus::Scalar::ct_eq (through PartialEq): scalars are
/// equal exactly when their values are.
#[verifier::external_body]
pub(crate) fn fr_eq(a: &Fr, b: &Fr) -> (r: bool)
    requires
        a.wf(),
        b.wf(),
    ensures
        r == (a@ == b@),
{
    a.s == b.s
}

/// Relies on bls12_381_plus::Scalar::from_raw: the four little-endian 64-bit
/// limbs are read as a 256-bit integer and reduced modulo r.
#[verifier::external_body]
pub(crate) fn fr_from_raw(l: &[u64; 4]) -> (r: Fr)
    ensures
        r@ == md(
            l@[0] + l@[1] * 18446744073709551616 + l@[2]
                * 340282366920938463463374607431768211456 + l@[3]
                * 6277101735386680763835789423207666416102355444464034512896,
        ),
{
    let s: Option<bls12_381_plus::Scalar> = bls12_381_plus::Scalar::from_raw(*l).into();
    Fr { s: s.unwrap(), val: Ghost(0) }
}

/// Relies on bls12_381_plus::Scalar::from_bytes_wide: the 64 bytes are read
/// as a little-endian 512-bit integer and reduced modulo r.
#[verifier::external_body]
pub(crate) fn fr_from_wide(b: &[u8; 64]) -> (r: Fr)
    ensures
        r@ == md(le_int(b@)),
{
    Fr { s: bls12_381_plus::Scalar::from_bytes_wide(b), val: Ghost(0) }
}

/// Relies on bls12_381_plus::Scalar::to_le_bytes: the canonical 32-byte
/// little-endian encoding, which from_le_bytes inverts.
#[verifier::external_body]
pub(crate) fn fr_to_bytes(a: &Fr) -> (r: Vec<u8>)
    requires
        a.wf(),
    ensures
        r@ == fr_bytes(a@),
        r@.len() == 32,
        fr_parse(r@) == Some(a@),
{
    a.s.to_le_bytes().to_vec()
}

/// Relies on bls12_381_plus::Scalar::from_le_bytes: decodes the canonical
/// 32-byte little-endian encoding, rejecting values not below r.
#[verifier::external_body]
pub(crate) fn fr_from_bytes(b: &[u8]) -> (r: Option<Fr>)
    requires
        b@.len() == 32,
    ensures
        r is Some <==> fr_parse(b@) is Some,
        r matches Some(f) ==> f.wf() && fr_parse(b@) == Some(f@),
{
    let arr: [u8; 32] = match b.try_into() {
        Ok(a) => a,
        Err(_) => return None,
    };
    let s: Option<bls12_381_plus::Scalar> = bls12_381_plus::Scalar::from_le_bytes(&arr).into();
    s.map(|s| Fr { s, val: Ghost(0) })
}

/// Relies on bls12_381_plus::G1Projective::GENERATOR, the fixed generator.
#[verifier::external_body]
pub(crate) fn g1_generator() -> (r: G1)
    ensures
        r@ == 1nat,
{
    G1 { p: bls12_381_plus::G1Projective::GENERATOR, dlog: Ghost(0) }
}

/// Relies on bls12_381_plus::G1Projective::add: the group law of G1.
#[verifier::external_body]
pub(crate) fn g1_add(a: &G1, b: &G1) -> (r: G1)
    requires
        a.wf(),
        b.wf(),
    ensures
        r@ == fadd(a@, b@),
{
    G1 { p: a.p + b.p, dlog: Ghost(0) }
}

/// Relies on bls12_381_plus::G1Projective::sub: the group law of G1.
#[verifier::external_body]
pub(crate) fn g1_sub(a: &G1, b: &G1) -> (r: G1)
    requires
        a.wf(),
        b.wf(),
    ensures
        r@ == fsub(a@, b@),
{
    G1 { p: a.p - b.p, dlog: Ghost(0) }
}

/// Relies on bls12_381_plus::G1Projective::mul by a scalar.
#[verifier::external_body]
pub(crate) fn g1_mul(p: &G1, k: &Fr) -> (r: G1)
    requires
        p.wf(),
        k.wf(),
    ensures
        r@ == fmul(p@, k@),
{
    G1 { p: p.p * k.s, dlog: Ghost(0) }
}

/// Relies on bls12_381_plus::G1Projective::eq: constant-time point equality.
#[verifier::external_body]
pub(crate) fn g1_eq(a: &G1, b: &G1) -> (r: bool)
    requires
        a.wf(),
        b.wf(),
    ensures
        r == (a@ == b@),
{
    a.p == b.p
}

/// Relies on bls12_381_plus::G1Projective::to_compressed: the canonical
/// 48-byte compressed encoding, which from_compressed inverts.
#[verifier::external_body]
pub(crate) fn g1_to_bytes(p: &G1) -> (r: Vec<u8>)
    requires
        p.wf(),
    ensures
        r@ == g1_bytes(p@),
        r@.len() == 48,
        g1_parse(r@) == Some(p@),
{
    p.p.to_compressed().to_vec()
}

/// Relies on bls12_381_plus::G1Projective::from_compressed: decodes the
/// canonical compressed encoding, rejecting non-canonical strings and points
/// outside the prime-order subgroup.
#[verifier::external_body]
pub(crate) fn g1_from_bytes(b: &[u8]) -> (r: Option<G1>)
    requires
        b@.len() == 48,
    ensures
        r is Some <==> g1_parse(b@) is Some,
        r matches Some(p) ==> p.wf() && g1_parse(b@) == Some(p@),
{
    let arr: [u8; 48] = match b.try_into() {
        Ok(a) => a,
        Err(_) => return None,
    };
    let p: Option<bls12_381_plus::G1Projective> = bls12_381_plus::G1Projective::from_compressed(
        &arr,
    ).into();
    p.map(|p| G1 { p, dlog: Ghost(0) })
}

/// Relies on bls12_381_plus::G2Projective::GENERATOR, the fixed generator.
#[verifier::external_body]
pub(crate) fn g2_generator() -> (r: G2)
    ensures
        r@ == 1nat,
{
    G2 { p: bls12_381_plus::G2Projective::GENERATOR, dlog: Ghost(0) }
}

/// Relies on bls12_381_plus::G2Projective::mul by a scalar.
#[verifier::external_body]
pub(crate) fn g2_mul(p: &G2, k: &Fr) -> (r: G2)
    requires
        p.wf(),
        k.wf(),
    ensures
        r@ == fmul(p@, k@),
{
    G2 { p: p.p * k.s, dlog: Ghost(0) }
}

/// Relies on bls12_381_plus::G2Projective::to_compressed: the canonical
/// 96-byte compressed encoding, which from_compressed inverts.
#[verifier::external_body]
pub(crate) fn g2_to_bytes(p: &G2) -> (r: Vec<u8>)
    requires
        p.wf(),
    ensures
        r@ == g2_bytes(p@),
        r@.len() == 96,
        g2_parse(r@) == Some(p@),
{
    p.p.to_compressed().to_vec()
}

/// Relies on bls12_381_plus::G2Projective::from_compressed: decodes the
/// canonical compressed encoding, rejecting non-canonical strings and points
/// outside the prime-order subgroup.
#[verifier::external_body]
pub(crate) fn g2_from_bytes(b: &[u8]) -> (r: Option<G2>)
    requires
        b@.len() == 96,
    ensures
        r is Some <==> g2_parse(b@) is Some,
        r matches Some(p) ==> p.wf() && g2_parse(b@) == Some(p@),
{
    let arr: [u8; 96] = match b.try_into() {
        Ok(a) => a,
        Err(_) => return None,
    };
    let p: Option<bls12_381_plus::G2Projective> = bls12_381_plus::G2Projective::from_compressed(
        &arr,
    ).into();
    p.map(|p| G2 { p, dlog: Ghost(0) })
}

/// Relies on bls12_381_plus::pairing: the optimal ate pairing is bilinear and
/// non-degenerate, so e(a·g1, b·g2) = e(g1, g2)^(a·b).
#[verifier::external_body]
pub(crate) fn gt_pairing(p: &G1, q: &G2) -> (r: GtElem)
    requires
        p.wf(),
        q.wf(),
    ensures
        r@ == fmul(p@, q@),
{
    GtElem {
        p: bls12_381_plus::pairing(&p.p.to_affine(), &q.p.to_affine()),
        dlog: Ghost(0),
    }
}

/// Relies on bls12_381_plus::Gt::add: the group law of Gt.
#[verifier::external_body]
pub(crate) fn gt_add(a: &GtElem, b: &GtElem) -> (r: GtElem)
    requires
        a.wf(),
        b.wf(),
    ensures
        r@ == fadd(a@, b@),
{
    GtElem { p: a.p + b.p, dlog: Ghost(0) }
}

/// Relies on bls12_381_plus::Gt::sub: the group law of Gt.
#[verifier::external_body]
pub(crate) fn gt_sub(a: &GtElem, b: &GtElem) -> (r: GtElem)
    requires
        a.wf(),
        b.wf(),
    ensures
        r@ == fsub(a@, b@),
{
    GtElem { p: a.p - b.p, dlog: Ghost(0) }
}

/// Relies on bls12_381_plus::Gt::mul by a scalar.
#[verifier::external_body]
pub(crate) fn gt_mul(t: &GtElem, k: &Fr) -> (r: GtElem)
    requires
        t.wf(),
        k.wf(),
    ensures
        r@ == fmul(t@, k@),
{
    GtElem { p: t.p * k.s, dlog: Ghost(0) }
}

/// Relies on bls12_381_plus::Gt::to_bytes: the canonical 576-byte encoding
/// (the twelve base-field coefficients in order).
#[verifier::external_body]
pub(crate) fn gt_to_bytes(t: &GtElem) -> (r: Vec<u8>)
    requires
        t.wf(),
    ensures
        r@ == gt_bytes(t@),
        r@.len() == 576,
{
    t.p.to_bytes().to_vec()
}

impl SchemeRng {
    /// Relies on rand::thread_rng: a fresh handle to the thread-local
    /// cryptographically secure generator.
    #[verifier::external_body]
    pub fn new() -> (r: SchemeRng) {
        SchemeRng { rng: rand::thread_rng() }
    }
}

/// Relies on rand::rngs::ThreadRng::fill_bytes: 64 bytes of randomness, of
/// which nothing is promised.
#[verifier::external_body]
pub(crate) fn rng_fill_64(rng: &mut SchemeRng) -> (r: [u8; 64]) {
    let mut buf = [0u8; 64];
    rng.rng.fill_bytes(&mut buf);
    buf
}

} // verus!
