//! Key material: partial manager keys, user credentials, and the combined
//! group public key.

use vstd::prelude::*;

use crate::algebra::Fr;
use crate::algebra::G1;
use crate::algebra::G2;
use crate::algebra::g1_generator;
use crate::algebra::g2_generator;
use crate::field::fadd;
use crate::field::fmul;
use crate::field::md;

verus! {

broadcast use crate::field::lemma_md_bound;

/// The fixed generators of G1 and G2.
pub struct PairingCurve {
    pub g1: G1,
    pub g2: G2,
}

impl PairingCurve {
    pub fn new() -> (r: PairingCurve)
        ensures
            r.g1@ == 1nat,
            r.g2@ == 1nat,
    {
        PairingCurve { g1: g1_generator(), g2: g2_generator() }
    }
}

/// One manager's private share: the issuance trapdoor gamma and the opening
/// trapdoor xi.
#[derive(Clone, Copy)]
pub struct PartialGSK {
    pub gamma: Fr,
    pub xi: Fr,
}

impl PartialGSK {
    pub open spec fn wf(&self) -> bool {
        self.gamma.wf() && self.xi.wf()
    }
}

/// One manager's published share: h = xi·g1 and omega = gamma·g2.
#[derive(Clone, Copy)]
pub struct PartialGPK {
    pub h: G1,
    pub omega: G2,
}

impl PartialGPK {
    pub open spec fn wf(&self) -> bool {
        self.h.wf() && self.omega.wf()
    }
}

/// One opener's published share, as the opening ceremony names it.
pub type OPK = PartialGPK;

/// One opener's private share, as the opening ceremony names it.
pub type OSK = PartialGSK;

/// A BBS credential (a, x) with a = (gamma + x)^-1 · g1.
#[derive(Clone, Copy)]
pub struct PartialUSK {
    pub a: G1,
    pub x: Fr,
}

impl PartialUSK {
    pub open spec fn wf(&self) -> bool {
        self.a.wf() && self.x.wf()
    }
}

/// A credential (a, x) is valid against the issuing manager's omega when
/// e(a·g1, omega·g2 + x·g2) = e(g1, g2), that is, a·(omega + x) = 1 in Z_r.
pub open spec fn cred_valid(a: nat, x: nat, omega: nat) -> bool {
    fmul(a, fadd(omega, x)) == md(1)
}

/// The three credential shares a user holds, indexed by issuing manager.
#[derive(Clone)]
pub struct CombinedUSK {
    pub partials: Vec<PartialUSK>,
}

impl CombinedUSK {
    pub open spec fn wf(&self) -> bool {
        &&& self.partials@.len() == 3
        &&& forall|i: int| 0 <= i < 3 ==> (#[trigger] self.partials@[i]).wf()
    }

    pub fn new(partials: &[PartialUSK]) -> (r: Self)
        requires
            partials@.len() == 3,
            forall|i: int| 0 <= i < 3 ==> (#[trigger] partials@[i]).wf(),
        ensures
            r.partials@ == partials@,
            r.wf(),
    {
        CombinedUSK { partials: vstd::slice::slice_to_vec(partials) }
    }
}

/// The joint group public key: the opener base h, the Pedersen bases
/// (u, v, w), and the three managers' published shares.
#[derive(Clone)]
pub struct CombinedGPK {
    pub h: G1,
    pub u: G1,
    pub v: G1,
    pub w: G1,
    pub partical_gpks: Vec<PartialGPK>,
}

impl CombinedGPK {
    pub open spec fn wf(&self) -> bool {
        &&& self.h.wf()
        &&& self.u.wf()
        &&& self.v.wf()
        &&& self.w.wf()
        &&& self.partical_gpks@.len() == 3
        &&& forall|i: int| 0 <= i < 3 ==> (#[trigger] self.partical_gpks@[i]).wf()
    }

    pub fn new(partical_gpks: &[PartialGPK], u: &G1, v: &G1, w: &G1, h: &G1) -> (r: Self)
        requires
            partical_gpks@.len() == 3,
            forall|i: int| 0 <= i < 3 ==> (#[trigger] partical_gpks@[i]).wf(),
            u.wf(),
            v.wf(),
            w.wf(),
            h.wf(),
        ensures
            r.partical_gpks@ == partical_gpks@,
            r.u == *u,
            r.v == *v,
            r.w == *w,
            r.h == *h,
            r.wf(),
    {
        CombinedGPK {
            partical_gpks: vstd::slice::slice_to_vec(partical_gpks),
            u: *u,
            v: *v,
            w: *w,
            h: *h,
        }
    }
}

} // verus!
