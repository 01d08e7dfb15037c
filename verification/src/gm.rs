//! A group manager: one of the three parties holding a share of the
//! opening secret.

use vstd::prelude::*;

use crate::algebra::Fr;
use crate::algebra::G1;
use crate::algebra::SchemeRng;
use crate::algebra::fr_add;
use crate::algebra::fr_from_raw;
use crate::algebra::fr_invert;
use crate::algebra::g1_generator;
use crate::algebra::g1_mul;
use crate::algebra::g2_generator;
use crate::algebra::g2_mul;
use crate::field::fadd;
use crate::field::fmul;
use crate::field::lemma_md_morph;
use crate::field::lemma_md_small;
use crate::field::md;
use crate::keys::CombinedGPK;
use crate::keys::PartialGPK;
use crate::keys::PartialGSK;
use crate::keys::PartialUSK;
use crate::keys::cred_valid;
use crate::protocol::Signature;
use crate::utils::gen_rand_scalar;

verus! {

broadcast use crate::field::lemma_md_bound;

/// The manager's place in the rotation: it decides which share the manager
/// applies its trapdoor to, at setup and at opening.
#[derive(Clone, Copy)]
pub enum GMId {
    One,
    Two,
    Three,
}

/// A combined public base produced during setup.
pub type CombainedPubkey = G1;

/// One manager's contribution to opening a signature.
pub type OpenShare = G1;

/// A group manager: its place in the rotation, its published share and its
/// private share.
#[derive(Clone, Copy)]
pub struct GM {
    pub id: GMId,
    pub gpk: PartialGPK,
    pub gsk: PartialGSK,
}

impl GM {
    /// The published share is derived from the private one:
    /// h = xi·g1 and omega = gamma·g2.
    pub open spec fn wf(&self) -> bool {
        &&& self.gsk.wf()
        &&& self.gpk.wf()
        &&& self.gpk.h@ == self.gsk.xi@
        &&& self.gpk.omega@ == self.gsk.gamma@
    }

    pub fn new(id: GMId, xi: &Fr, gamma: &Fr) -> (r: GM)
        requires
            xi.wf(),
            gamma.wf(),
        ensures
            r.wf(),
            r.id == id,
            r.gsk.xi == *xi,
            r.gsk.gamma == *gamma,
    {
        let privkey = PartialGSK { xi: *xi, gamma: *gamma };
        let h = g1_mul(&g1_generator(), xi);
        let omega = g2_mul(&g2_generator(), gamma);

        proof {
            lemma_md_small(xi@);
            lemma_md_small(gamma@);
        }
        let pubkey = PartialGPK { h, omega };

        GM { id, gsk: privkey, gpk: pubkey }
    }

    pub fn random(id: GMId, rng: &mut SchemeRng) -> (r: GM)
        ensures
            r.wf(),
            r.id == id,
    {
        let xi = gen_rand_scalar(rng);
        let gamma = gen_rand_scalar(rng);

        Self::new(id, &xi, &gamma)
    }

    /// Apply this manager's opening trapdoor to a base published by
    /// another manager.
    pub fn gen_combined_pubkey(&self, h: &CombainedPubkey) -> (r: CombainedPubkey)
        requires
            self.wf(),
            h.wf(),
        ensures
            r.wf(),
            r@ == fmul(h@, self.gsk.xi@),
    {
        g1_mul(h, &self.gsk.xi)
    }

    /// This manager's opening share for a signature, routed by its place
    /// in the rotation.
    pub fn open_share(&self, signature: &Signature) -> (r: OpenShare)
        requires
            self.wf(),
            signature.wf(),
        ensures
            r.wf(),
            self.id is One ==> r@ == fmul(signature.t2@, self.gsk.xi@),
            self.id is Two ==> r@ == fmul(signature.t3@, self.gsk.xi@),
            self.id is Three ==> r@ == fmul(signature.t1@, self.gsk.xi@),
    {
        match self.id {
            GMId::One => g1_mul(&signature.t2, &self.gsk.xi),
            GMId::Two => g1_mul(&signature.t3, &self.gsk.xi),
            GMId::Three => g1_mul(&signature.t1, &self.gsk.xi),
        }
    }

    /// Issue one credential share: sample x and compute
    /// a = (gamma + x)^-1 · g1.  If gamma + x lands on zero, the inverse
    /// does not exist; the next scalar is taken instead, whose sum with
    /// gamma is one.  The failure never reaches the caller.
    pub fn issue_member(&self, rng: &mut SchemeRng) -> (r: PartialUSK)
        requires
            self.wf(),
        ensures
            r.wf(),
            cred_valid(r.a@, r.x@, self.gpk.omega@),
    {
        let g1 = g1_generator();

        let x0 = gen_rand_scalar(rng);
        let denom0 = fr_add(&self.gsk.gamma, &x0);
        let (x, inv) = match fr_invert(&denom0) {
            Some(inv0) => (x0, inv0),
            None => {
                let one = fr_from_raw(&[1, 0, 0, 0]);
                proof {
                    lemma_md_small(1);
                }
                let x1 = fr_add(&x0, &one);
                let denom1 = fr_add(&self.gsk.gamma, &x1);
                proof {
                    lemma_md_morph(self.gsk.gamma@ as int, x0@ as int + 1);
                    lemma_md_morph(self.gsk.gamma@ as int + x0@ as int, 1);
                    assert(denom1@ == md(md(self.gsk.gamma@ as int + x0@ as int) as int + 1));
                    assert(denom1@ == 1);
                }
                let inv1 = fr_invert(&denom1);
                (x1, inv1.unwrap())
            },
        };

        let a = g1_mul(&g1, &inv);
        proof {
            lemma_md_small(inv@);
            assert(a@ == inv@);
            assert(fadd(self.gpk.omega@, x@) == fadd(self.gsk.gamma@, x@));
        }

        PartialUSK { a, x }
    }
}

/// The distributed setup: each manager applies its trapdoor to a base
/// published by the next manager in the ring, producing the joint bases
/// u, v, w, and manager three then masks u once more into the opener base
/// h.  No manager learns another's trapdoor.
pub fn setup_combined_gpk(gm1: &GM, gm2: &GM, gm3: &GM) -> (r: CombinedGPK)
    requires
        gm1.wf(),
        gm2.wf(),
        gm3.wf(),
        gm1.id is One,
        gm2.id is Two,
        gm3.id is Three,
    ensures
        r.wf(),
        r.u@ == fmul(gm2.gpk.h@, gm1.gsk.xi@),
        r.v@ == fmul(gm3.gpk.h@, gm2.gsk.xi@),
        r.w@ == fmul(gm1.gpk.h@, gm3.gsk.xi@),
        r.h@ == fmul(r.u@, gm3.gsk.xi@),
        r.partical_gpks@.len() == 3,
        r.partical_gpks@[0] == gm1.gpk,
        r.partical_gpks@[1] == gm2.gpk,
        r.partical_gpks@[2] == gm3.gpk,
{
    let u = gm1.gen_combined_pubkey(&gm2.gpk.h);
    let v = gm2.gen_combined_pubkey(&gm3.gpk.h);
    let w = gm3.gen_combined_pubkey(&gm1.gpk.h);
    let h = gm3.gen_combined_pubkey(&u);

    let mut partical_gpks: Vec<PartialGPK> = Vec::new();
    partical_gpks.push(gm1.gpk);
    partical_gpks.push(gm2.gpk);
    partical_gpks.push(gm3.gpk);

    CombinedGPK { h, u, v, w, partical_gpks }
}

} // verus!
