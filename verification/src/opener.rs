//! An opener: the same party as a group manager, under the name the
//! opening ceremony uses.

use vstd::prelude::*;

use crate::algebra::Fr;
use crate::algebra::G1;
use crate::algebra::SchemeRng;
use crate::field::fmul;
use crate::gm::GM;
use crate::gm::GMId;
use crate::keys::OPK;
use crate::keys::OSK;
use crate::keys::PartialUSK;
use crate::keys::cred_valid;
use crate::protocol::Signature;

verus! {

/// The opener's place in the rotation.
#[derive(Clone, Copy)]
pub enum OpenerId {
    One,
    Two,
    Three,
}

/// A combined public base produced during setup.
pub type CombainedPubkey = G1;

/// One opener's contribution to opening a signature.
pub type Share = G1;

/// An opener: its place in the rotation, its published share and its
/// private share.
#[derive(Clone, Copy)]
pub struct Opener {
    pub id: OpenerId,
    pub opk: OPK,
    pub osk: OSK,
}

impl Opener {
    pub open spec fn wf(&self) -> bool {
        &&& self.osk.wf()
        &&& self.opk.wf()
        &&& self.opk.h@ == self.osk.xi@
        &&& self.opk.omega@ == self.osk.gamma@
    }

    /// The same party seen as a group manager.
    pub open spec fn spec_as_gm(&self) -> GM {
        GM {
            id: match self.id {
                OpenerId::One => GMId::One,
                OpenerId::Two => GMId::Two,
                OpenerId::Three => GMId::Three,
            },
            gpk: self.opk,
            gsk: self.osk,
        }
    }

    /// The same party seen as a group manager.
    pub fn as_gm(&self) -> (r: GM)
        ensures
            r == self.spec_as_gm(),
    {
        GM {
            id: match self.id {
                OpenerId::One => GMId::One,
                OpenerId::Two => GMId::Two,
                OpenerId::Three => GMId::Three,
            },
            gpk: self.opk,
            gsk: self.osk,
        }
    }

    pub fn new(id: OpenerId, xi: &Fr, gamma: &Fr) -> (r: Opener)
        requires
            xi.wf(),
            gamma.wf(),
        ensures
            r.wf(),
            r.id == id,
            r.osk.xi == *xi,
            r.osk.gamma == *gamma,
    {
        let gm = GM::new(GMId::One, xi, gamma);
        Opener { id, opk: gm.gpk, osk: gm.gsk }
    }

    pub fn random(id: OpenerId, rng: &mut SchemeRng) -> (r: Opener)
        ensures
            r.wf(),
            r.id == id,
    {
        let xi = crate::utils::gen_rand_scalar(rng);
        let gamma = crate::utils::gen_rand_scalar(rng);

        Self::new(id, &xi, &gamma)
    }

    /// Apply this opener's trapdoor to a base published by another opener.
    pub fn gen_combined_pubkey(&self, h: &CombainedPubkey) -> (r: CombainedPubkey)
        requires
            self.wf(),
            h.wf(),
        ensures
            r.wf(),
            r@ == fmul(h@, self.osk.xi@),
    {
        self.as_gm().gen_combined_pubkey(h)
    }

    /// This opener's opening share for a signature, routed by its place in
    /// the rotation.
    pub fn open_share(&self, signature: &Signature) -> (r: Share)
        requires
            self.wf(),
            signature.wf(),
        ensures
            r.wf(),
            self.id is One ==> r@ == fmul(signature.t2@, self.osk.xi@),
            self.id is Two ==> r@ == fmul(signature.t3@, self.osk.xi@),
            self.id is Three ==> r@ == fmul(signature.t1@, self.osk.xi@),
    {
        self.as_gm().open_share(signature)
    }

    /// Issue one credential share for a joining user.
    pub fn issue_member(&self, rng: &mut SchemeRng) -> (r: PartialUSK)
        requires
            self.wf(),
        ensures
            r.wf(),
            cred_valid(r.a@, r.x@, self.opk.omega@),
    {
        self.as_gm().issue_member(rng)
    }
}

} // verus!
