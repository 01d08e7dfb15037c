//! Arithmetic modulo the order of the BLS12-381 scalar field.
//!
//! Every scalar, and the discrete logarithm of every group element, is a
//! residue modulo `r_mod()`.  The protocol contracts are stated with the
//! helpers below; the lemmas push reductions through sums, differences and
//! products so that the Schnorr identities can be proved over plain integers.

use vstd::prelude::*;

verus! {

/// The prime order r of the BLS12-381 groups G1, G2 and Gt
/// (0x73eda753299d7d483339d80809a1d80553bda402fffe5bfeffffffff00000001).
pub open spec fn r_mod() -> nat {
    52435875175126190479447740508185965837690552500527637822603658699938581184513nat
}

/// The residue of `x` modulo the group order.
pub open spec fn md(x: int) -> nat {
    (x % (r_mod() as int)) as nat
}

/// Addition in Z_r.
pub open spec fn fadd(a: nat, b: nat) -> nat {
    md(a as int + b as int)
}

/// Subtraction in Z_r.
pub open spec fn fsub(a: nat, b: nat) -> nat {
    md(a as int - b as int)
}

/// Multiplication in Z_r.
pub open spec fn fmul(a: nat, b: nat) -> nat {
    md(a as int * b as int)
}

/// Every residue is reduced: `md` lands strictly below the group order.
pub broadcast proof fn lemma_md_bound(x: int)
    ensures
        #[trigger] md(x) < r_mod(),
{
    vstd::arithmetic::div_mod::lemma_mod_bound(x, r_mod() as int);
}

/// A value already below the group order is its own residue.
pub proof fn lemma_md_small(x: nat)
    requires
        x < r_mod(),
    ensures
        md(x as int) == x,
{
    vstd::arithmetic::div_mod::lemma_small_mod(x, r_mod());
}

/// Reducing twice is the same as reducing once.
pub proof fn lemma_md_idem(x: int)
    ensures
        md(md(x) as int) == md(x),
{
    vstd::arithmetic::div_mod::lemma_mod_bound(x, r_mod() as int);
    vstd::arithmetic::div_mod::lemma_small_mod(md(x), r_mod());
}

/// Reductions may be introduced or dropped inside sums, differences
/// and products without changing the residue of the whole expression.
pub proof fn lemma_md_morph(x: int, y: int)
    ensures
        md(md(x) as int + md(y)) == md(x + y),
        md(md(x) + y) == md(x + y),
        md(x + md(y)) == md(x + y),
        md(md(x) - md(y)) == md(x - y),
        md(md(x) - y) == md(x - y),
        md(x - md(y)) == md(x - y),
        md(md(x) as int * md(y)) == md(x * y),
        md(md(x) * y) == md(x * y),
        md(x * md(y)) == md(x * y),
{
    let r = r_mod() as int;
    lemma_md_idem(x);
    lemma_md_idem(y);
    vstd::arithmetic::div_mod::lemma_add_mod_noop(x, y, r);
    vstd::arithmetic::div_mod::lemma_add_mod_noop(md(x) as int, y, r);
    vstd::arithmetic::div_mod::lemma_add_mod_noop(x, md(y) as int, r);
    vstd::arithmetic::div_mod::lemma_sub_mod_noop(x, y, r);
    vstd::arithmetic::div_mod::lemma_sub_mod_noop(md(x) as int, y, r);
    vstd::arithmetic::div_mod::lemma_sub_mod_noop(x, md(y) as int, r);
    vstd::arithmetic::div_mod::lemma_mul_mod_noop_general(x, y, r);
    vstd::arithmetic::div_mod::lemma_mul_mod_noop_general(md(x) as int, y, r);
    vstd::arithmetic::div_mod::lemma_mul_mod_noop_general(x, md(y) as int, r);
}

/// Two integers with the same residue may be exchanged under `md`.
pub proof fn lemma_md_equal(x: int, y: int)
    requires
        md(x) == md(y),
    ensures
        forall|z: int| #[trigger] md(x + z) == md(y + z),
        forall|z: int| #[trigger] md(x - z) == md(y - z),
        forall|z: int| #[trigger] md(z - x) == md(z - y),
        forall|z: int| #[trigger] md(x * z) == md(y * z),
{
    assert forall|z: int| #[trigger] md(x + z) == md(y + z) by {
        lemma_md_morph(x, z);
        lemma_md_morph(y, z);
    }
    assert forall|z: int| #[trigger] md(x - z) == md(y - z) by {
        lemma_md_morph(x, z);
        lemma_md_morph(y, z);
    }
    assert forall|z: int| #[trigger] md(z - x) == md(z - y) by {
        lemma_md_morph(z, x);
        lemma_md_morph(z, y);
    }
    assert forall|z: int| #[trigger] md(x * z) == md(y * z) by {
        lemma_md_morph(x, z);
        lemma_md_morph(y, z);
    }
}

} // verus!
