//! The signing, verification and opening protocol.
//!
//! A signer holding a BBS credential proves knowledge of it without
//! revealing it: linkable commitments t1, t2, t3 under the Pedersen bases,
//! a masked credential commitment t4, and Schnorr responses against a
//! Fiat-Shamir challenge hashed over the transcript.  The verifier
//! re-derives every commitment from the responses and accepts exactly when
//! the re-derived transcript hashes to the challenge carried in the
//! signature.

use vstd::prelude::*;

use crate::algebra::Fr;
use crate::algebra::G1;
use crate::algebra::GtElem;
use crate::algebra::SchemeRng;
use crate::algebra::fr_add;
use crate::algebra::fr_eq;
use crate::algebra::fr_mul;
use crate::algebra::g1_add;
use crate::algebra::g1_bytes;
use crate::algebra::g1_eq;
use crate::algebra::g1_mul;
use crate::algebra::g1_sub;
use crate::algebra::g1_to_bytes;
use crate::algebra::gt_add;
use crate::algebra::gt_bytes;
use crate::algebra::gt_mul;
use crate::algebra::gt_pairing;
use crate::algebra::gt_sub;
use crate::algebra::gt_to_bytes;
use crate::field::fadd;
use crate::field::fmul;
use crate::field::fsub;
use crate::keys::CombinedGPK;
use crate::keys::CombinedUSK;
use crate::keys::PairingCurve;
use crate::keys::PartialGPK;
use crate::keys::PartialUSK;
use crate::keys::cred_valid;
use crate::laws::lemma_r4_recompute;
use crate::laws::lemma_schnorr_commit;
use crate::laws::lemma_schnorr_cross;
use crate::laws::lemma_sum_delta_responses;
use crate::laws::lemma_sum_responses;
use crate::utils::calc_sha256_scalar;
use crate::utils::gen_rand_scalar;
use crate::utils::hash_scalar;

verus! {

broadcast use crate::field::lemma_md_bound;

/// A group signature: three linkable commitments, one masked credential
/// commitment per issued credential share, the Fiat-Shamir challenge, and
/// the Schnorr responses.
#[derive(Clone)]
pub struct Signature {
    pub t1: G1,
    pub t2: G1,
    pub t3: G1,
    pub t4: Vec<G1>,
    pub hash: Fr,
    pub sa: Fr,
    pub sb: Fr,
    pub sc: Fr,
    pub sx: Fr,
    pub s_delta1: Fr,
    pub s_delta2: Fr,
    pub s_delta3: Fr,
}

impl Signature {
    pub open spec fn wf(&self) -> bool {
        &&& self.t1.wf()
        &&& self.t2.wf()
        &&& self.t3.wf()
        &&& self.t4@.len() == 3
        &&& forall|i: int| 0 <= i < 3 ==> (#[trigger] self.t4@[i]).wf()
        &&& self.hash.wf()
        &&& self.sa.wf()
        &&& self.sb.wf()
        &&& self.sc.wf()
        &&& self.sx.wf()
        &&& self.s_delta1.wf()
        &&& self.s_delta2.wf()
        &&& self.s_delta3.wf()
    }
}

/// The challenge pre-image: the message, the three commitments, and the
/// ten re-derivable values, each in its canonical encoding, in this fixed
/// order.
pub open spec fn transcript(
    msg: Seq<u8>,
    t1: nat,
    t2: nat,
    t3: nat,
    r1: nat,
    r2: nat,
    r3: nat,
    r5: nat,
    r6: nat,
    r7: nat,
    r4: nat,
) -> Seq<u8> {
    msg + g1_bytes(t1) + g1_bytes(t2) + g1_bytes(t3) + g1_bytes(r1) + g1_bytes(r2) + g1_bytes(r3)
        + g1_bytes(r5) + g1_bytes(r6) + g1_bytes(r7) + gt_bytes(r4)
}

/// The commitment the verifier re-derives for t1 (and likewise t2, t3):
/// base·s − t·c.
pub open spec fn verify_r1(sig: Signature, gpk: CombinedGPK) -> nat {
    fsub(fmul(gpk.u@, sig.sa@), fmul(sig.t1@, sig.hash@))
}

pub open spec fn verify_r2(sig: Signature, gpk: CombinedGPK) -> nat {
    fsub(fmul(gpk.v@, sig.sb@), fmul(sig.t2@, sig.hash@))
}

pub open spec fn verify_r3(sig: Signature, gpk: CombinedGPK) -> nat {
    fsub(fmul(gpk.w@, sig.sc@), fmul(sig.t3@, sig.hash@))
}

/// The cross-term commitment the verifier re-derives for t1 (and likewise
/// t2, t3): t·sx − base·s_delta.
pub open spec fn verify_r5(sig: Signature, gpk: CombinedGPK) -> nat {
    fsub(fmul(sig.t1@, sig.sx@), fmul(gpk.u@, sig.s_delta1@))
}

pub open spec fn verify_r6(sig: Signature, gpk: CombinedGPK) -> nat {
    fsub(fmul(sig.t2@, sig.sx@), fmul(gpk.v@, sig.s_delta2@))
}

pub open spec fn verify_r7(sig: Signature, gpk: CombinedGPK) -> nat {
    fsub(fmul(sig.t3@, sig.sx@), fmul(gpk.w@, sig.s_delta3@))
}

/// The pairing commitment the verifier re-derives, over the discrete
/// logarithms of the five pairings e(t4,g2), e(h,omega), e(h,g2),
/// e(t4,omega) and e(g1,g2).
pub open spec fn verify_r4(sig: Signature, gpk: CombinedGPK) -> nat {
    fadd(
        fsub(
            fsub(
                fmul(fmul(sig.t4@[0]@, 1), sig.sx@),
                fmul(
                    fmul(gpk.h@, gpk.partical_gpks@[0].omega@),
                    fadd(fadd(sig.sa@, sig.sb@), sig.sc@),
                ),
            ),
            fmul(fmul(gpk.h@, 1), fadd(fadd(sig.s_delta1@, sig.s_delta2@), sig.s_delta3@)),
        ),
        fmul(
            fsub(fmul(sig.t4@[0]@, gpk.partical_gpks@[0].omega@), fmul(1, 1)),
            sig.hash@,
        ),
    )
}

/// The verifier's acceptance condition: the challenge in the signature is
/// the hash of the re-derived transcript.
pub open spec fn verify_accepts(msg: Seq<u8>, sig: Signature, gpk: CombinedGPK) -> bool {
    sig.hash@ == hash_scalar(
        transcript(
            msg,
            sig.t1@,
            sig.t2@,
            sig.t3@,
            verify_r1(sig, gpk),
            verify_r2(sig, gpk),
            verify_r3(sig, gpk),
            verify_r5(sig, gpk),
            verify_r6(sig, gpk),
            verify_r7(sig, gpk),
            verify_r4(sig, gpk),
        ),
    )
}

/// An honestly committed signature: the linkable commitments carry the
/// ephemeral exponents ya, yb, yc under the Pedersen bases, and every
/// credential commitment masks its credential with h·(ya+yb+yc).
pub open spec fn commits_with(
    sig: Signature,
    gpk: CombinedGPK,
    usk: CombinedUSK,
    ya: nat,
    yb: nat,
    yc: nat,
) -> bool {
    &&& sig.t1@ == fmul(gpk.u@, ya)
    &&& sig.t2@ == fmul(gpk.v@, yb)
    &&& sig.t3@ == fmul(gpk.w@, yc)
    &&& forall|i: int|
        0 <= i < 3 ==> (#[trigger] sig.t4@[i])@ == fadd(
            usk.partials@[i].a@,
            fmul(gpk.h@, fadd(fadd(ya, yb), yc)),
        )
}

/// The per-base state of the first signing phase: the ephemeral exponent
/// y, its cross term delta = y·x, the two nonces, the commitment t and the
/// two commitment-to-randomness values.
#[derive(Clone, Copy)]
pub struct BaseCommitment {
    pub y: Fr,
    pub delta: Fr,
    pub r: Fr,
    pub r_delta: Fr,
    pub t: G1,
    pub r_first: G1,
    pub r_second: G1,
}

impl BaseCommitment {
    pub open spec fn wf(&self) -> bool {
        &&& self.y.wf()
        &&& self.delta.wf()
        &&& self.r.wf()
        &&& self.r_delta.wf()
        &&& self.t.wf()
        &&& self.r_first.wf()
        &&& self.r_second.wf()
    }

    /// The relations the first phase establishes for one base.
    pub open spec fn sound(&self, base: nat, x: nat, rx: nat) -> bool {
        &&& self.delta@ == fmul(self.y@, x)
        &&& self.t@ == fmul(base, self.y@)
        &&& self.r_first@ == fmul(base, self.r@)
        &&& self.r_second@ == fsub(fmul(self.t@, rx), fmul(base, self.r_delta@))
    }
}

/// The per-base responses of the second signing phase.
#[derive(Clone, Copy)]
pub struct BaseResponse {
    pub s: Fr,
    pub s_delta: Fr,
}

/// Commit to one base: sample y and the two nonces, and compute t = base·y,
/// R = base·r and R' = t·rx − base·r_delta.
fn commit_base(x: &Fr, rx: &Fr, base: &G1, rng: &mut SchemeRng) -> (c: BaseCommitment)
    requires
        x.wf(),
        rx.wf(),
        base.wf(),
    ensures
        c.wf(),
        c.sound(base@, x@, rx@),
{
    let y = gen_rand_scalar(rng);
    let r = gen_rand_scalar(rng);
    let r_delta = gen_rand_scalar(rng);
    let delta = fr_mul(&y, x);
    let t = g1_mul(base, &y);
    let r_first = g1_mul(base, &r);
    let r_second = g1_sub(&g1_mul(&t, rx), &g1_mul(base, &r_delta));
    BaseCommitment { y, delta, r, r_delta, t, r_first, r_second }
}

/// Answer the challenge for one base: s = r + c·y and
/// s_delta = r_delta + c·delta.
fn respond_base(cred: &BaseCommitment, hash: &Fr) -> (r: BaseResponse)
    requires
        cred.wf(),
        hash.wf(),
    ensures
        r.s.wf(),
        r.s_delta.wf(),
        r.s@ == fadd(cred.r@, fmul(hash@, cred.y@)),
        r.s_delta@ == fadd(cred.r_delta@, fmul(hash@, cred.delta@)),
{
    BaseResponse {
        s: fr_add(&cred.r, &fr_mul(hash, &cred.y)),
        s_delta: fr_add(&cred.r_delta, &fr_mul(hash, &cred.delta)),
    }
}

/// Everything the first signing phase commits to, before the challenge is
/// hashed.
pub struct SignCredBeforeHashing {
    pub t1: G1,
    pub t2: G1,
    pub t3: G1,
    pub t4: Vec<G1>,
    pub r4: GtElem,
    pub a: BaseCommitment,
    pub b: BaseCommitment,
    pub c: BaseCommitment,
    pub rx: Fr,
}

impl SignCredBeforeHashing {
    pub open spec fn wf(&self) -> bool {
        &&& self.t1.wf()
        &&& self.t2.wf()
        &&& self.t3.wf()
        &&& self.t4@.len() == 3
        &&& forall|i: int| 0 <= i < 3 ==> (#[trigger] self.t4@[i]).wf()
        &&& self.r4.wf()
        &&& self.a.wf()
        &&& self.b.wf()
        &&& self.c.wf()
        &&& self.rx.wf()
    }
}

/// The responses of the second signing phase.
pub struct SignCredAfterHashing {
    pub s_a: BaseResponse,
    pub s_b: BaseResponse,
    pub s_c: BaseResponse,
    pub sx: Fr,
}

/// The first signing phase: sample the randomizers, commit to the three
/// Pedersen bases, mask each credential share into t4, and compute the
/// pairing commitment R4 for the representative credential at index 0.
pub fn process_sign_before_hash(
    msg: &[u8],
    partial_usk: &PartialUSK,
    partial_gpk: &PartialGPK,
    combined_usk: &CombinedUSK,
    gpk: &CombinedGPK,
    rng: &mut SchemeRng,
) -> (r: SignCredBeforeHashing)
    requires
        combined_usk.wf(),
        gpk.wf(),
        *partial_usk == combined_usk.partials@[0],
        *partial_gpk == gpk.partical_gpks@[0],
    ensures
        r.wf(),
        r.a.sound(gpk.u@, partial_usk.x@, r.rx@),
        r.b.sound(gpk.v@, partial_usk.x@, r.rx@),
        r.c.sound(gpk.w@, partial_usk.x@, r.rx@),
        r.t1 == r.a.t,
        r.t2 == r.b.t,
        r.t3 == r.c.t,
        forall|i: int|
            0 <= i < 3 ==> (#[trigger] r.t4@[i])@ == fadd(
                combined_usk.partials@[i].a@,
                fmul(gpk.h@, fadd(fadd(r.a.y@, r.b.y@), r.c.y@)),
            ),
        r.r4@ == fsub(
            fsub(
                fmul(fmul(r.t4@[0]@, 1), r.rx@),
                fmul(
                    fmul(gpk.h@, gpk.partical_gpks@[0].omega@),
                    fadd(fadd(r.a.r@, r.b.r@), r.c.r@),
                ),
            ),
            fmul(fmul(gpk.h@, 1), fadd(fadd(r.a.r_delta@, r.b.r_delta@), r.c.r_delta@)),
        ),
{
    let pc = PairingCurve::new();

    let rx = gen_rand_scalar(rng);

    let a = commit_base(&partial_usk.x, &rx, &gpk.u, rng);
    let b = commit_base(&partial_usk.x, &rx, &gpk.v, rng);
    let c = commit_base(&partial_usk.x, &rx, &gpk.w, rng);

    let sum_y = fr_add(&fr_add(&a.y, &b.y), &c.y);
    let mask = g1_mul(&gpk.h, &sum_y);
    let mut t4: Vec<G1> = Vec::new();
    t4.push(g1_add(&combined_usk.partials[0].a, &mask));
    t4.push(g1_add(&combined_usk.partials[1].a, &mask));
    t4.push(g1_add(&combined_usk.partials[2].a, &mask));

    let a1 = gt_pairing(&t4[0], &pc.g2);
    let a2 = gt_pairing(&gpk.h, &partial_gpk.omega);
    let a3 = gt_pairing(&gpk.h, &pc.g2);

    let sum_r = fr_add(&fr_add(&a.r, &b.r), &c.r);
    let sum_rd = fr_add(&fr_add(&a.r_delta, &b.r_delta), &c.r_delta);
    let r4 = gt_sub(&gt_sub(&gt_mul(&a1, &rx), &gt_mul(&a2, &sum_r)), &gt_mul(&a3, &sum_rd));

    SignCredBeforeHashing { t1: a.t, t2: b.t, t3: c.t, t4, r4, a, b, c, rx }
}

/// The second signing phase: the Schnorr responses for the three bases and
/// for the credential exponent, sx = rx + c·x.
pub fn process_sign_after_hash(
    x: &Fr,
    rx: &Fr,
    cred: &SignCredBeforeHashing,
    hash: &Fr,
) -> (r: SignCredAfterHashing)
    requires
        x.wf(),
        rx.wf(),
        cred.wf(),
        hash.wf(),
    ensures
        r.s_a.s@ == fadd(cred.a.r@, fmul(hash@, cred.a.y@)),
        r.s_a.s_delta@ == fadd(cred.a.r_delta@, fmul(hash@, cred.a.delta@)),
        r.s_b.s@ == fadd(cred.b.r@, fmul(hash@, cred.b.y@)),
        r.s_b.s_delta@ == fadd(cred.b.r_delta@, fmul(hash@, cred.b.delta@)),
        r.s_c.s@ == fadd(cred.c.r@, fmul(hash@, cred.c.y@)),
        r.s_c.s_delta@ == fadd(cred.c.r_delta@, fmul(hash@, cred.c.delta@)),
        r.sx@ == fadd(rx@, fmul(hash@, x@)),
        r.s_a.s.wf() && r.s_a.s_delta.wf() && r.s_b.s.wf() && r.s_b.s_delta.wf() && r.s_c.s.wf()
            && r.s_c.s_delta.wf() && r.sx.wf(),
{
    let s_a = respond_base(&cred.a, hash);
    let s_b = respond_base(&cred.b, hash);
    let s_c = respond_base(&cred.c, hash);
    let sx = fr_add(rx, &fr_mul(hash, x));

    SignCredAfterHashing { s_a, s_b, s_c, sx }
}

/// Serialize the challenge pre-image in the normative order.
fn build_transcript(
    msg: &[u8],
    t1: &G1,
    t2: &G1,
    t3: &G1,
    r1: &G1,
    r2: &G1,
    r3: &G1,
    r5: &G1,
    r6: &G1,
    r7: &G1,
    r4: &GtElem,
) -> (out: Vec<u8>)
    requires
        t1.wf(),
        t2.wf(),
        t3.wf(),
        r1.wf(),
        r2.wf(),
        r3.wf(),
        r5.wf(),
        r6.wf(),
        r7.wf(),
        r4.wf(),
    ensures
        out@ == transcript(msg@, t1@, t2@, t3@, r1@, r2@, r3@, r5@, r6@, r7@, r4@),
{
    let mut out = vstd::slice::slice_to_vec(msg);
    let mut p1 = g1_to_bytes(t1);
    out.append(&mut p1);
    let mut p2 = g1_to_bytes(t2);
    out.append(&mut p2);
    let mut p3 = g1_to_bytes(t3);
    out.append(&mut p3);
    let mut p4 = g1_to_bytes(r1);
    out.append(&mut p4);
    let mut p5 = g1_to_bytes(r2);
    out.append(&mut p5);
    let mut p6 = g1_to_bytes(r3);
    out.append(&mut p6);
    let mut p7 = g1_to_bytes(r5);
    out.append(&mut p7);
    let mut p8 = g1_to_bytes(r6);
    out.append(&mut p8);
    let mut p9 = g1_to_bytes(r7);
    out.append(&mut p9);
    let mut p10 = gt_to_bytes(r4);
    out.append(&mut p10);
    out
}

/// Sign a message with the representative credential at index 0.  The
/// returned signature verifies under the same group public key, and its
/// commitments are honestly formed, so the three managers can open it.
pub fn sign(msg: &[u8], usk: &CombinedUSK, gpk: &CombinedGPK, rng: &mut SchemeRng) -> (sig:
    Signature)
    requires
        usk.wf(),
        gpk.wf(),
        cred_valid(
            usk.partials@[0].a@,
            usk.partials@[0].x@,
            gpk.partical_gpks@[0].omega@,
        ),
    ensures
        sig.wf(),
        verify_accepts(msg@, sig, *gpk),
        exists|ya: nat, yb: nat, yc: nat| #[trigger] commits_with(sig, *gpk, *usk, ya, yb, yc),
{
    let cred = process_sign_before_hash(
        msg,
        &usk.partials[0],
        &gpk.partical_gpks[0],
        usk,
        gpk,
        rng,
    );

    let tr = build_transcript(
        msg,
        &cred.t1,
        &cred.t2,
        &cred.t3,
        &cred.a.r_first,
        &cred.b.r_first,
        &cred.c.r_first,
        &cred.a.r_second,
        &cred.b.r_second,
        &cred.c.r_second,
        &cred.r4,
    );
    let hash = calc_sha256_scalar(tr.as_slice());

    let after = process_sign_after_hash(&usk.partials[0].x, &cred.rx, &cred, &hash);

    let sig = Signature {
        t1: cred.t1,
        t2: cred.t2,
        t3: cred.t3,
        t4: cred.t4,
        hash,
        sa: after.s_a.s,
        sb: after.s_b.s,
        sc: after.s_c.s,
        sx: after.sx,
        s_delta1: after.s_a.s_delta,
        s_delta2: after.s_b.s_delta,
        s_delta3: after.s_c.s_delta,
    };

    proof {
        let ya = cred.a.y@;
        let yb = cred.b.y@;
        let yc = cred.c.y@;
        let ra = cred.a.r@;
        let rb = cred.b.r@;
        let rc = cred.c.r@;
        let rd1 = cred.a.r_delta@;
        let rd2 = cred.b.r_delta@;
        let rd3 = cred.c.r_delta@;
        let rx = cred.rx@;
        let c = sig.hash@;
        let x = usk.partials@[0].x@;
        let aa = usk.partials@[0].a@;
        let om = gpk.partical_gpks@[0].omega@;

        lemma_schnorr_commit(gpk.u@, ya, ra, c);
        lemma_schnorr_commit(gpk.v@, yb, rb, c);
        lemma_schnorr_commit(gpk.w@, yc, rc, c);
        assert(verify_r1(sig, *gpk) == cred.a.r_first@);
        assert(verify_r2(sig, *gpk) == cred.b.r_first@);
        assert(verify_r3(sig, *gpk) == cred.c.r_first@);

        lemma_schnorr_cross(gpk.u@, ya, x, rx, rd1, c);
        lemma_schnorr_cross(gpk.v@, yb, x, rx, rd2, c);
        lemma_schnorr_cross(gpk.w@, yc, x, rx, rd3, c);
        assert(verify_r5(sig, *gpk) == cred.a.r_second@);
        assert(verify_r6(sig, *gpk) == cred.b.r_second@);
        assert(verify_r7(sig, *gpk) == cred.c.r_second@);

        lemma_sum_responses(ra, rb, rc, ya, yb, yc, c);
        lemma_sum_delta_responses(rd1, rd2, rd3, ya, yb, yc, x, c);
        lemma_r4_recompute(
            aa,
            gpk.h@,
            om,
            x,
            fadd(fadd(ya, yb), yc),
            rx,
            fadd(fadd(ra, rb), rc),
            fadd(fadd(rd1, rd2), rd3),
            c,
        );
        assert(verify_r4(sig, *gpk) == cred.r4@);

        assert(verify_accepts(msg@, sig, *gpk));
        assert(commits_with(sig, *gpk, *usk, ya, yb, yc));
    }

    sig
}

/// Verify a signature: re-derive the ten commitments from the responses,
/// hash the re-derived transcript, and accept exactly when it matches the
/// challenge carried in the signature.
pub fn verify(msg: &[u8], signature: &Signature, gpk: &CombinedGPK) -> (r: Result<(), ()>)
    requires
        signature.wf(),
        gpk.wf(),
    ensures
        r is Ok <==> verify_accepts(msg@, *signature, *gpk),
{
    let pc = PairingCurve::new();

    let r1_v = g1_sub(&g1_mul(&gpk.u, &signature.sa), &g1_mul(&signature.t1, &signature.hash));
    let r2_v = g1_sub(&g1_mul(&gpk.v, &signature.sb), &g1_mul(&signature.t2, &signature.hash));
    let r3_v = g1_sub(&g1_mul(&gpk.w, &signature.sc), &g1_mul(&signature.t3, &signature.hash));

    let a1_v = gt_pairing(&signature.t4[0], &pc.g2);
    let a2_v = gt_pairing(&gpk.h, &gpk.partical_gpks[0].omega);
    let a3_v = gt_pairing(&gpk.h, &pc.g2);
    let a4_v = gt_pairing(&signature.t4[0], &gpk.partical_gpks[0].omega);
    let a5_v = gt_pairing(&pc.g1, &pc.g2);

    let sum_s = fr_add(&fr_add(&signature.sa, &signature.sb), &signature.sc);
    let sum_sd = fr_add(&fr_add(&signature.s_delta1, &signature.s_delta2), &signature.s_delta3);
    let r4_v = gt_add(
        &gt_sub(&gt_sub(&gt_mul(&a1_v, &signature.sx), &gt_mul(&a2_v, &sum_s)), &gt_mul(&a3_v, &sum_sd)),
        &gt_mul(&gt_sub(&a4_v, &a5_v), &signature.hash),
    );

    let r5_v = g1_sub(&g1_mul(&signature.t1, &signature.sx), &g1_mul(&gpk.u, &signature.s_delta1));
    let r6_v = g1_sub(&g1_mul(&signature.t2, &signature.sx), &g1_mul(&gpk.v, &signature.s_delta2));
    let r7_v = g1_sub(&g1_mul(&signature.t3, &signature.sx), &g1_mul(&gpk.w, &signature.s_delta3));

    let tr = build_transcript(
        msg,
        &signature.t1,
        &signature.t2,
        &signature.t3,
        &r1_v,
        &r2_v,
        &r3_v,
        &r5_v,
        &r6_v,
        &r7_v,
        &r4_v,
    );
    let hash_v = calc_sha256_scalar(tr.as_slice());

    if fr_eq(&hash_v, &signature.hash) {
        Ok(())
    } else {
        Err(())
    }
}

/// Test whether a signature opens to the given credential: compare the
/// candidate's commitment against t4 minus the sum of the three opening
/// shares.  The comparison is in constant time.
pub fn open_combain(
    usk: &PartialUSK,
    signature: &Signature,
    index: usize,
    share1: &G1,
    share2: &G1,
    share3: &G1,
) -> (r: bool)
    requires
        usk.wf(),
        signature.wf(),
        index < 3,
        share1.wf(),
        share2.wf(),
        share3.wf(),
    ensures
        r == (usk.a@ == fsub(
            signature.t4@[index as int]@,
            fadd(fadd(share1@, share2@), share3@),
        )),
{
    let sum = g1_add(&g1_add(share1, share2), share3);
    let a_v = g1_sub(&signature.t4[index], &sum);
    g1_eq(&usk.a, &a_v)
}

} // verus!
