//! The algebraic laws of the scheme, as machine-checked proofs.
//!
//! These lemmas carry the correctness argument: a signer who follows the
//! protocol produces exactly the values the verifier re-derives (so honest
//! signatures verify), the three opening shares of an honest signature sum
//! to the mask of the credential commitment (so opening recovers the
//! credential), and an issued credential satisfies the pairing inversion
//! law.

use vstd::prelude::*;

use crate::field::fadd;
use crate::field::fmul;
use crate::field::fsub;
use crate::field::lemma_md_equal;
use crate::field::lemma_md_idem;
use crate::field::lemma_md_morph;
use crate::field::lemma_md_small;
use crate::field::md;
use crate::field::r_mod;
use crate::gm::GM;
use crate::keys::CombinedGPK;
use crate::keys::CombinedUSK;
use crate::keys::cred_valid;
use crate::protocol::Signature;
use crate::protocol::commits_with;

verus! {

broadcast use crate::field::lemma_md_bound;

/// A Schnorr response opens its commitment: for any base, the verifier's
/// `base·s − t·c` with `s = nonce + c·y` and `t = base·y` re-derives the
/// prover's `base·nonce`.
pub proof fn lemma_schnorr_commit(base: nat, y: nat, nonce: nat, c: nat)
    ensures
        fsub(fmul(base, fadd(nonce, fmul(c, y))), fmul(fmul(base, y), c)) == fmul(base, nonce),
{
    let b = base as int;
    let yy = y as int;
    let n = nonce as int;
    let cc = c as int;
    lemma_md_morph(n, cc * yy);
    assert(fadd(nonce, fmul(c, y)) == md(n + cc * yy));
    lemma_md_morph(b, n + cc * yy);
    assert(fmul(base, fadd(nonce, fmul(c, y))) == md(b * (n + cc * yy)));
    lemma_md_morph(b * yy, cc);
    assert(fmul(fmul(base, y), c) == md(b * yy * cc));
    lemma_md_morph(b * (n + cc * yy), b * yy * cc);
    assert(fsub(fmul(base, fadd(nonce, fmul(c, y))), fmul(fmul(base, y), c)) == md(
        b * (n + cc * yy) - b * yy * cc,
    ));
    assert(b * (n + cc * yy) - b * yy * cc == b * n) by (nonlinear_arith);
}

/// The cross-term response opens its commitment: the verifier's
/// `t·sx − base·s_delta` with `sx = rx + c·x`, `s_delta = rd + c·y·x` and
/// `t = base·y` re-derives the prover's `t·rx − base·rd`.
pub proof fn lemma_schnorr_cross(base: nat, y: nat, x: nat, rx: nat, rd: nat, c: nat)
    ensures
        fsub(
            fmul(fmul(base, y), fadd(rx, fmul(c, x))),
            fmul(base, fadd(rd, fmul(c, fmul(y, x)))),
        ) == fsub(fmul(fmul(base, y), rx), fmul(base, rd)),
{
    let b = base as int;
    let yy = y as int;
    let xx = x as int;
    let rxx = rx as int;
    let rdd = rd as int;
    let cc = c as int;
    lemma_md_morph(rxx, cc * xx);
    assert(fadd(rx, fmul(c, x)) == md(rxx + cc * xx));
    lemma_md_morph(b * yy, rxx + cc * xx);
    assert(fmul(fmul(base, y), fadd(rx, fmul(c, x)))
        == md(md(b * yy) as int * md(rxx + cc * xx)));
    assert(md(md(b * yy) as int * md(rxx + cc * xx)) == md((b * yy) * (rxx + cc * xx)));
    lemma_md_morph(cc, yy * xx);
    assert(fmul(c, fmul(y, x)) == md(cc * (yy * xx)));
    lemma_md_morph(rdd, cc * (yy * xx));
    assert(fadd(rd, fmul(c, fmul(y, x))) == md(rdd + cc * (yy * xx)));
    lemma_md_morph(b, rdd + cc * (yy * xx));
    assert(fmul(base, fadd(rd, fmul(c, fmul(y, x)))) == md(b * (rdd + cc * (yy * xx))));
    lemma_md_morph((b * yy) * (rxx + cc * xx), b * (rdd + cc * (yy * xx)));
    assert(fsub(
        fmul(fmul(base, y), fadd(rx, fmul(c, x))),
        fmul(base, fadd(rd, fmul(c, fmul(y, x)))),
    ) == md((b * yy) * (rxx + cc * xx) - b * (rdd + cc * (yy * xx))));
    assert((b * yy) * (rxx + cc * xx) - b * (rdd + cc * (yy * xx)) == (b * yy) * rxx - b * rdd)
        by (nonlinear_arith);
    lemma_md_morph(b * yy, rxx);
    assert(fmul(fmul(base, y), rx) == md((b * yy) * rxx));
    lemma_md_morph(b, rdd);
    assert(fmul(base, rd) == md(b * rdd));
    lemma_md_morph((b * yy) * rxx, b * rdd);
    assert(fsub(fmul(fmul(base, y), rx), fmul(base, rd)) == md((b * yy) * rxx - b * rdd));
}

/// Summing the three Schnorr responses gives the summed nonce plus the
/// challenge times the summed secret.
pub proof fn lemma_sum_responses(ra: nat, rb: nat, rc: nat, ya: nat, yb: nat, yc: nat, c: nat)
    ensures
        fadd(fadd(fadd(ra, fmul(c, ya)), fadd(rb, fmul(c, yb))), fadd(rc, fmul(c, yc))) == fadd(
            fadd(fadd(ra, rb), rc),
            fmul(c, fadd(fadd(ya, yb), yc)),
        ),
{
    let raa = ra as int;
    let rbb = rb as int;
    let rcc = rc as int;
    let yaa = ya as int;
    let ybb = yb as int;
    let ycc = yc as int;
    let cc = c as int;
    lemma_md_morph(raa, cc * yaa);
    lemma_md_morph(rbb, cc * ybb);
    lemma_md_morph(rcc, cc * ycc);
    lemma_md_morph(raa + cc * yaa, rbb + cc * ybb);
    assert(fadd(fadd(ra, fmul(c, ya)), fadd(rb, fmul(c, yb))) == md(
        (raa + cc * yaa) + (rbb + cc * ybb),
    ));
    lemma_md_morph((raa + cc * yaa) + (rbb + cc * ybb), rcc + cc * ycc);
    assert(fadd(fadd(fadd(ra, fmul(c, ya)), fadd(rb, fmul(c, yb))), fadd(rc, fmul(c, yc))) == md(
        (raa + cc * yaa) + (rbb + cc * ybb) + (rcc + cc * ycc),
    ));
    lemma_md_morph(raa, rbb);
    lemma_md_morph(raa + rbb, rcc);
    assert(fadd(fadd(ra, rb), rc) == md(raa + rbb + rcc));
    lemma_md_morph(yaa, ybb);
    lemma_md_morph(yaa + ybb, ycc);
    assert(fadd(fadd(ya, yb), yc) == md(yaa + ybb + ycc));
    lemma_md_morph(cc, yaa + ybb + ycc);
    assert(fmul(c, fadd(fadd(ya, yb), yc)) == md(cc * (yaa + ybb + ycc)));
    lemma_md_morph(raa + rbb + rcc, cc * (yaa + ybb + ycc));
    assert(fadd(fadd(fadd(ra, rb), rc), fmul(c, fadd(fadd(ya, yb), yc))) == md(
        (raa + rbb + rcc) + cc * (yaa + ybb + ycc),
    ));
    assert((raa + cc * yaa) + (rbb + cc * ybb) + (rcc + cc * ycc) == (raa + rbb + rcc) + cc * (yaa
        + ybb + ycc)) by (nonlinear_arith);
}

/// Summing the three cross-term responses gives the summed nonce plus the
/// challenge times the summed secret times the credential exponent.
pub proof fn lemma_sum_delta_responses(
    rd1: nat,
    rd2: nat,
    rd3: nat,
    ya: nat,
    yb: nat,
    yc: nat,
    x: nat,
    c: nat,
)
    ensures
        fadd(
            fadd(fadd(rd1, fmul(c, fmul(ya, x))), fadd(rd2, fmul(c, fmul(yb, x)))),
            fadd(rd3, fmul(c, fmul(yc, x))),
        ) == fadd(fadd(fadd(rd1, rd2), rd3), fmul(c, fmul(fadd(fadd(ya, yb), yc), x))),
{
    let r1 = rd1 as int;
    let r2 = rd2 as int;
    let r3 = rd3 as int;
    let yaa = ya as int;
    let ybb = yb as int;
    let ycc = yc as int;
    let xx = x as int;
    let cc = c as int;
    lemma_md_morph(cc, yaa * xx);
    lemma_md_morph(cc, ybb * xx);
    lemma_md_morph(cc, ycc * xx);
    assert(fmul(c, fmul(ya, x)) == md(cc * (yaa * xx)));
    assert(fmul(c, fmul(yb, x)) == md(cc * (ybb * xx)));
    assert(fmul(c, fmul(yc, x)) == md(cc * (ycc * xx)));
    lemma_md_morph(r1, cc * (yaa * xx));
    lemma_md_morph(r2, cc * (ybb * xx));
    lemma_md_morph(r3, cc * (ycc * xx));
    lemma_md_morph(r1 + cc * (yaa * xx), r2 + cc * (ybb * xx));
    lemma_md_morph((r1 + cc * (yaa * xx)) + (r2 + cc * (ybb * xx)), r3 + cc * (ycc * xx));
    assert(fadd(
        fadd(fadd(rd1, fmul(c, fmul(ya, x))), fadd(rd2, fmul(c, fmul(yb, x)))),
        fadd(rd3, fmul(c, fmul(yc, x))),
    ) == md((r1 + cc * (yaa * xx)) + (r2 + cc * (ybb * xx)) + (r3 + cc * (ycc * xx))));
    lemma_md_morph(r1, r2);
    lemma_md_morph(r1 + r2, r3);
    assert(fadd(fadd(rd1, rd2), rd3) == md(r1 + r2 + r3));
    lemma_md_morph(yaa, ybb);
    lemma_md_morph(yaa + ybb, ycc);
    assert(fadd(fadd(ya, yb), yc) == md(yaa + ybb + ycc));
    lemma_md_morph(yaa + ybb + ycc, xx);
    assert(fmul(fadd(fadd(ya, yb), yc), x) == md((yaa + ybb + ycc) * xx));
    lemma_md_morph(cc, (yaa + ybb + ycc) * xx);
    assert(fmul(c, fmul(fadd(fadd(ya, yb), yc), x)) == md(cc * ((yaa + ybb + ycc) * xx)));
    lemma_md_morph(r1 + r2 + r3, cc * ((yaa + ybb + ycc) * xx));
    assert(fadd(fadd(fadd(rd1, rd2), rd3), fmul(c, fmul(fadd(fadd(ya, yb), yc), x))) == md((r1 + r2
        + r3) + cc * ((yaa + ybb + ycc) * xx)));
    assert((r1 + cc * (yaa * xx)) + (r2 + cc * (ybb * xx)) + (r3 + cc * (ycc * xx)) == (r1 + r2
        + r3) + cc * ((yaa + ybb + ycc) * xx)) by (nonlinear_arith);
}

/// The pairing commitment re-derives: with a valid credential `aa` bound to
/// `omega`, the verifier's combination of responses and challenge equals the
/// prover's commitment, for the commitment `t4 = aa + h·sy` and any summed
/// nonces `sr`, `srd` and summed secret `sy`.
#[verifier::rlimit(60)]
pub proof fn lemma_r4_recompute(
    aa: nat,
    h: nat,
    om: nat,
    x: nat,
    sy: nat,
    rx: nat,
    sr: nat,
    srd: nat,
    c: nat,
)
    requires
        cred_valid(aa, x, om),
    ensures
        fadd(
            fsub(
                fsub(
                    fmul(fmul(fadd(aa, fmul(h, sy)), 1), fadd(rx, fmul(c, x))),
                    fmul(fmul(h, om), fadd(sr, fmul(c, sy))),
                ),
                fmul(fmul(h, 1), fadd(srd, fmul(c, fmul(sy, x)))),
            ),
            fmul(fsub(fmul(fadd(aa, fmul(h, sy)), om), fmul(1, 1)), c),
        ) == fsub(
            fsub(fmul(fmul(fadd(aa, fmul(h, sy)), 1), rx), fmul(fmul(h, om), sr)),
            fmul(fmul(h, 1), srd),
        ),
{
    let a = aa as int;
    let hh = h as int;
    let o = om as int;
    let xx = x as int;
    let syy = sy as int;
    let rxx = rx as int;
    let srr = sr as int;
    let srdd = srd as int;
    let cc = c as int;
    let t4 = a + hh * syy;

    // The commitment t4 and the five pairing values, as single residues.
    lemma_md_morph(hh, syy);
    lemma_md_morph(a, hh * syy);
    assert(fadd(aa, fmul(h, sy)) == md(t4));
    lemma_md_morph(t4, 1);
    assert(fmul(fadd(aa, fmul(h, sy)), 1) == md(t4 * 1));
    lemma_md_morph(t4, o);
    assert(fmul(fadd(aa, fmul(h, sy)), om) == md(t4 * o));

    // The verifier's side, pushed into one residue.
    lemma_md_morph(rxx, cc * xx);
    assert(fadd(rx, fmul(c, x)) == md(rxx + cc * xx));
    lemma_md_morph(t4 * 1, rxx + cc * xx);
    assert(fmul(fmul(fadd(aa, fmul(h, sy)), 1), fadd(rx, fmul(c, x))) == md(
        (t4 * 1) * (rxx + cc * xx),
    ));
    lemma_md_morph(srr, cc * syy);
    assert(fadd(sr, fmul(c, sy)) == md(srr + cc * syy));
    lemma_md_morph(hh * o, srr + cc * syy);
    assert(fmul(fmul(h, om), fadd(sr, fmul(c, sy))) == md((hh * o) * (srr + cc * syy)));
    lemma_md_morph(syy, xx);
    lemma_md_morph(cc, syy * xx);
    assert(fmul(c, fmul(sy, x)) == md(cc * (syy * xx)));
    lemma_md_morph(srdd, cc * (syy * xx));
    assert(fadd(srd, fmul(c, fmul(sy, x))) == md(srdd + cc * (syy * xx)));
    lemma_md_morph(hh * 1, srdd + cc * (syy * xx));
    assert(fmul(fmul(h, 1), fadd(srd, fmul(c, fmul(sy, x)))) == md(
        (hh * 1) * (srdd + cc * (syy * xx)),
    ));
    lemma_md_morph((t4 * 1) * (rxx + cc * xx), (hh * o) * (srr + cc * syy));
    lemma_md_morph(
        (t4 * 1) * (rxx + cc * xx) - (hh * o) * (srr + cc * syy),
        (hh * 1) * (srdd + cc * (syy * xx)),
    );
    let ver_main = (t4 * 1) * (rxx + cc * xx) - (hh * o) * (srr + cc * syy) - (hh * 1) * (srdd + cc
        * (syy * xx));
    assert(fsub(
        fsub(
            fmul(fmul(fadd(aa, fmul(h, sy)), 1), fadd(rx, fmul(c, x))),
            fmul(fmul(h, om), fadd(sr, fmul(c, sy))),
        ),
        fmul(fmul(h, 1), fadd(srd, fmul(c, fmul(sy, x)))),
    ) == md(ver_main));
    lemma_md_morph(t4 * o, 1int * 1);
    assert(fsub(fmul(fadd(aa, fmul(h, sy)), om), fmul(1, 1)) == md(t4 * o - 1 * 1));
    lemma_md_morph(t4 * o - 1 * 1, cc);
    assert(fmul(fsub(fmul(fadd(aa, fmul(h, sy)), om), fmul(1, 1)), c) == md((t4 * o - 1 * 1) * cc));
    lemma_md_morph(ver_main, (t4 * o - 1 * 1) * cc);
    let ver = ver_main + (t4 * o - 1 * 1) * cc;
    assert(fadd(
        fsub(
            fsub(
                fmul(fmul(fadd(aa, fmul(h, sy)), 1), fadd(rx, fmul(c, x))),
                fmul(fmul(h, om), fadd(sr, fmul(c, sy))),
            ),
            fmul(fmul(h, 1), fadd(srd, fmul(c, fmul(sy, x)))),
        ),
        fmul(fsub(fmul(fadd(aa, fmul(h, sy)), om), fmul(1, 1)), c),
    ) == md(ver));

    // The prover's side, pushed into one residue.
    lemma_md_morph(t4 * 1, rxx);
    assert(fmul(fmul(fadd(aa, fmul(h, sy)), 1), rx) == md((t4 * 1) * rxx));
    lemma_md_morph(hh * o, srr);
    assert(fmul(fmul(h, om), sr) == md((hh * o) * srr));
    lemma_md_morph(hh * 1, srdd);
    assert(fmul(fmul(h, 1), srd) == md((hh * 1) * srdd));
    lemma_md_morph((t4 * 1) * rxx, (hh * o) * srr);
    lemma_md_morph((t4 * 1) * rxx - (hh * o) * srr, (hh * 1) * srdd);
    let pro = (t4 * 1) * rxx - (hh * o) * srr - (hh * 1) * srdd;
    assert(fsub(
        fsub(fmul(fmul(fadd(aa, fmul(h, sy)), 1), rx), fmul(fmul(h, om), sr)),
        fmul(fmul(h, 1), srd),
    ) == md(pro));

    // The difference is the challenge times the credential equation,
    // term by term.
    assert((a + hh * syy) * 1 * (rxx + cc * xx) - (a + hh * syy) * 1 * rxx == a * (cc * xx) + hh
        * syy * (cc * xx)) by (nonlinear_arith);
    assert((hh * o) * (srr + cc * syy) - (hh * o) * srr == hh * o * (cc * syy))
        by (nonlinear_arith);
    assert((hh * 1) * (srdd + cc * (syy * xx)) - (hh * 1) * srdd == hh * syy * (cc * xx))
        by (nonlinear_arith);
    assert(((a + hh * syy) * o - 1 * 1) * cc == a * o * cc + hh * o * (cc * syy) - cc)
        by (nonlinear_arith);
    assert(a * (cc * xx) + a * o * cc - cc == cc * (a * (xx + o) - 1)) by (nonlinear_arith);
    assert(ver - pro == cc * (a * (xx + o) - 1));

    // cred_valid: aa·(om + x) has residue 1, so the difference vanishes.
    lemma_md_morph(o, xx);
    assert(fadd(om, x) == md(o + xx));
    lemma_md_morph(a, o + xx);
    assert(fmul(aa, fadd(om, x)) == md(a * (o + xx)));
    assert(md(a * (o + xx)) == md(1));
    assert(a * (o + xx) == a * (xx + o)) by (nonlinear_arith);
    lemma_md_equal(a * (xx + o), 1);
    assert(md((a * (xx + o) - 1) * cc) == md((1 - 1) * cc)) by {
        lemma_md_equal(a * (xx + o) - 1, 0);
        assert(md(a * (xx + o) - 1) == md(1 - 1)) by {
            lemma_md_morph(a * (xx + o), 1);
            lemma_md_morph(1, 1);
        }
        lemma_md_equal(a * (xx + o) - 1, 1 - 1);
    }
    assert(md(cc * (a * (xx + o) - 1)) == 0) by {
        assert((a * (xx + o) - 1) * cc == cc * (a * (xx + o) - 1)) by (nonlinear_arith);
        assert((1 - 1) * cc == 0) by (nonlinear_arith);
    }
    // ver = pro + (ver - pro), and the second summand's residue is zero.
    assert(md(ver) == md(pro)) by {
        lemma_md_morph(pro, cc * (a * (xx + o) - 1));
        assert(md(md(pro) as int + md(cc * (a * (xx + o) - 1))) == md(
            pro + cc * (a * (xx + o) - 1),
        ));
        lemma_md_idem(pro);
        assert(ver == pro + cc * (a * (xx + o) - 1));
    }
}

/// Opening recovers the signer's credential commitment: when the joint
/// bases come from the managers' rotation, the three opening shares of an
/// honestly committed signature sum to the mask `h·(ya+yb+yc)`, so
/// subtracting them from `t4` leaves the credential.
#[verifier::rlimit(100)]
pub proof fn lemma_open_recovers(
    x1: nat,
    x2: nat,
    x3: nat,
    h1: nat,
    h2: nat,
    h3: nat,
    u: nat,
    v: nat,
    w: nat,
    h: nat,
    ya: nat,
    yb: nat,
    yc: nat,
    t1: nat,
    t2: nat,
    t3: nat,
    ai: nat,
    t4i: nat,
    s1: nat,
    s2: nat,
    s3: nat,
)
    requires
        ai < r_mod(),
        h1 == md(x1 as int),
        h2 == md(x2 as int),
        h3 == md(x3 as int),
        u == fmul(h2, x1),
        v == fmul(h3, x2),
        w == fmul(h1, x3),
        h == fmul(u, x3),
        t1 == fmul(u, ya),
        t2 == fmul(v, yb),
        t3 == fmul(w, yc),
        t4i == fadd(ai, fmul(h, fadd(fadd(ya, yb), yc))),
        s1 == fmul(t2, x1),
        s2 == fmul(t3, x2),
        s3 == fmul(t1, x3),
    ensures
        fsub(t4i, fadd(fadd(s1, s2), s3)) == ai,
{
    let a = ai as int;
    let k1 = x1 as int;
    let k2 = x2 as int;
    let k3 = x3 as int;
    let yaa = ya as int;
    let ybb = yb as int;
    let ycc = yc as int;
    let prod = k1 * k2 * k3;

    // Each share is one residue of a product of three trapdoors and one
    // commitment exponent; they differ only in which exponent appears.
    assert(s1 == md(prod * ybb)) by {
        lemma_md_morph(k3, k2);
        assert(v == md(k3 * k2));
        lemma_md_morph(k3 * k2, ybb);
        assert(t2 == md(k3 * k2 * ybb));
        lemma_md_morph(k3 * k2 * ybb, k1);
        assert(s1 == md(k3 * k2 * ybb * k1));
        assert(k3 * k2 * ybb * k1 == k1 * k2 * k3 * ybb) by (nonlinear_arith);
    }
    assert(s2 == md(prod * ycc)) by {
        lemma_md_morph(k1, k3);
        assert(w == md(k1 * k3));
        lemma_md_morph(k1 * k3, ycc);
        assert(t3 == md(k1 * k3 * ycc));
        lemma_md_morph(k1 * k3 * ycc, k2);
        assert(s2 == md(k1 * k3 * ycc * k2));
        assert(k1 * k3 * ycc * k2 == k1 * k2 * k3 * ycc) by (nonlinear_arith);
    }
    assert(s3 == md(prod * yaa)) by {
        lemma_md_morph(k2, k1);
        assert(u == md(k2 * k1));
        lemma_md_morph(k2 * k1, yaa);
        assert(t1 == md(k2 * k1 * yaa));
        lemma_md_morph(k2 * k1 * yaa, k3);
        assert(s3 == md(k2 * k1 * yaa * k3));
        assert(k2 * k1 * yaa * k3 == k1 * k2 * k3 * yaa) by (nonlinear_arith);
    }

    // The commitment t4 is one residue as well.
    assert(t4i == md(a + prod * (yaa + ybb + ycc))) by {
        lemma_md_morph(k2, k1);
        assert(u == md(k2 * k1));
        lemma_md_morph(k2 * k1, k3);
        assert(h == md(k2 * k1 * k3));
        assert(k2 * k1 * k3 == k1 * k2 * k3) by (nonlinear_arith);
        lemma_md_morph(yaa, ybb);
        lemma_md_morph(yaa + ybb, ycc);
        assert(fadd(fadd(ya, yb), yc) == md(yaa + ybb + ycc));
        lemma_md_morph(prod, yaa + ybb + ycc);
        assert(fmul(h, fadd(fadd(ya, yb), yc)) == md(prod * (yaa + ybb + ycc)));
        lemma_md_morph(a, prod * (yaa + ybb + ycc));
    }

    // Subtracting the summed shares from t4 leaves the credential.
    let shares = prod * ybb + prod * ycc + prod * yaa;
    assert(fadd(fadd(s1, s2), s3) == md(shares)) by {
        lemma_md_morph(prod * ybb, prod * ycc);
        lemma_md_morph(prod * ybb + prod * ycc, prod * yaa);
    }
    assert(fsub(t4i, fadd(fadd(s1, s2), s3)) == md(a + prod * (yaa + ybb + ycc) - shares)) by {
        lemma_md_morph(a + prod * (yaa + ybb + ycc), shares);
    }
    assert(a + k1 * k2 * k3 * (yaa + ybb + ycc) - (k1 * k2 * k3 * ybb + k1 * k2 * k3 * ycc + k1
        * k2 * k3 * yaa) == a) by (nonlinear_arith);
    assert(a + prod * (yaa + ybb + ycc) - shares == a);
    lemma_md_small(ai);
}

/// Opening, composed from the contracts of the surrounding functions: for
/// a signature honestly committed under a group key that the three
/// managers' rotation produced, and the three opening shares the managers
/// derive from it, subtracting the summed shares from any credential
/// commitment t4[i] leaves exactly the user's credential share at index i.
/// `open_combain` therefore answers true for the signer's own credential
/// and false for any credential with a different commitment.
pub proof fn lemma_honest_open(
    gm1: GM,
    gm2: GM,
    gm3: GM,
    gpk: CombinedGPK,
    usk: CombinedUSK,
    sig: Signature,
    ya: nat,
    yb: nat,
    yc: nat,
    s1: nat,
    s2: nat,
    s3: nat,
    i: int,
)
    requires
        gm1.wf(),
        gm2.wf(),
        gm3.wf(),
        usk.wf(),
        0 <= i < 3,
        gpk.u@ == fmul(gm2.gpk.h@, gm1.gsk.xi@),
        gpk.v@ == fmul(gm3.gpk.h@, gm2.gsk.xi@),
        gpk.w@ == fmul(gm1.gpk.h@, gm3.gsk.xi@),
        gpk.h@ == fmul(gpk.u@, gm3.gsk.xi@),
        commits_with(sig, gpk, usk, ya, yb, yc),
        s1 == fmul(sig.t2@, gm1.gsk.xi@),
        s2 == fmul(sig.t3@, gm2.gsk.xi@),
        s3 == fmul(sig.t1@, gm3.gsk.xi@),
    ensures
        fsub(sig.t4@[i]@, fadd(fadd(s1, s2), s3)) == usk.partials@[i].a@,
{
    lemma_md_small(gm1.gsk.xi@);
    lemma_md_small(gm2.gsk.xi@);
    lemma_md_small(gm3.gsk.xi@);
    lemma_open_recovers(
        gm1.gsk.xi@,
        gm2.gsk.xi@,
        gm3.gsk.xi@,
        gm1.gpk.h@,
        gm2.gpk.h@,
        gm3.gpk.h@,
        gpk.u@,
        gpk.v@,
        gpk.w@,
        gpk.h@,
        ya,
        yb,
        yc,
        sig.t1@,
        sig.t2@,
        sig.t3@,
        usk.partials@[i].a@,
        sig.t4@[i]@,
        s1,
        s2,
        s3,
    );
}

/// The inversion law of issued credentials: a valid credential (a, x)
/// satisfies e(a·g1, omega·g2 + x·g2) = e(g1, g2), stated over the discrete
/// logarithms that the pairing produces.
pub proof fn lemma_credential_pairing(a: nat, x: nat, omega: nat)
    requires
        x < r_mod(),
        cred_valid(a, x, omega),
    ensures
        fmul(a, fadd(omega, fmul(1, x))) == fmul(1, 1),
{
    lemma_md_small(x);
    assert(fmul(1, x) == x) by { lemma_md_morph(1, x as int); }
    assert(fmul(a, fadd(omega, x)) == md(1));
    assert(fmul(1, 1) == md(1));
}

} // verus!
