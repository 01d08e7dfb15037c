//! Canonical binary encodings for keys, credentials and signatures.
//!
//! Every structure is a fixed-width concatenation of canonical element
//! encodings: scalars as 32 bytes, G1 elements as 48 bytes compressed, G2
//! elements as 96 bytes compressed.  Each `encode` states, and Verus
//! checks, that its output parses back to the encoded value; each `decode`
//! accepts exactly the strings whose every element parses.  Together the
//! two contracts pin the round trip: decoding an encoding yields the
//! original.

use vstd::prelude::*;

use crate::algebra::Fr;
use crate::algebra::G1;
use crate::algebra::G2;
use crate::algebra::fr_bytes;
use crate::algebra::fr_from_bytes;
use crate::algebra::fr_parse;
use crate::algebra::fr_to_bytes;
use crate::algebra::g1_bytes;
use crate::algebra::g1_from_bytes;
use crate::algebra::g1_parse;
use crate::algebra::g1_to_bytes;
use crate::algebra::g2_bytes;
use crate::algebra::g2_from_bytes;
use crate::algebra::g2_parse;
use crate::algebra::g2_to_bytes;
use crate::keys::CombinedGPK;
use crate::keys::CombinedUSK;
use crate::keys::PartialGPK;
use crate::keys::PartialGSK;
use crate::keys::PartialUSK;
use crate::protocol::Signature;

verus! {

broadcast use crate::field::lemma_md_bound;

/// Appending preserves every window of the prefix, and the appended piece
/// occupies the window after it.
proof fn lemma_append_subranges(prefix: Seq<u8>, piece: Seq<u8>)
    ensures
        (prefix + piece).subrange(prefix.len() as int, (prefix.len() + piece.len()) as int)
            == piece,
        forall|i: int, j: int|
            0 <= i <= j <= prefix.len() ==> #[trigger] (prefix + piece).subrange(i, j) == prefix
                .subrange(i, j),
{
    assert((prefix + piece).subrange(prefix.len() as int, (prefix.len() + piece.len()) as int)
        =~= piece);
    assert forall|i: int, j: int| 0 <= i <= j <= prefix.len() implies (prefix + piece).subrange(
        i,
        j,
    ) == prefix.subrange(i, j) by {
        assert((prefix + piece).subrange(i, j) =~= prefix.subrange(i, j));
    }
}

/// A sequence is its own window.
proof fn lemma_subrange_whole(s: Seq<u8>)
    ensures
        s.subrange(0, s.len() as int) == s,
{
    assert(s.subrange(0, s.len() as int) =~= s);
}

/// Append the canonical encoding of a G1 element.
fn put_g1(out: &mut Vec<u8>, p: &G1)
    requires
        p.wf(),
    ensures
        final(out)@ == old(out)@ + g1_bytes(p@),
        g1_parse(g1_bytes(p@)) == Some(p@),
        g1_bytes(p@).len() == 48,
{
    let mut piece = g1_to_bytes(p);
    out.append(&mut piece);
}

/// Append the canonical encoding of a G2 element.
fn put_g2(out: &mut Vec<u8>, p: &G2)
    requires
        p.wf(),
    ensures
        final(out)@ == old(out)@ + g2_bytes(p@),
        g2_parse(g2_bytes(p@)) == Some(p@),
        g2_bytes(p@).len() == 96,
{
    let mut piece = g2_to_bytes(p);
    out.append(&mut piece);
}

/// Append the canonical encoding of a scalar.
fn put_fr(out: &mut Vec<u8>, a: &Fr)
    requires
        a.wf(),
    ensures
        final(out)@ == old(out)@ + fr_bytes(a@),
        fr_parse(fr_bytes(a@)) == Some(a@),
        fr_bytes(a@).len() == 32,
{
    let mut piece = fr_to_bytes(a);
    out.append(&mut piece);
}

/// Decode the G1 element encoded at `off`.
fn read_g1(b: &[u8], off: usize) -> (r: Option<G1>)
    requires
        off + 48 <= b@.len(),
    ensures
        r is Some <==> g1_parse(b@.subrange(off as int, off as int + 48)) is Some,
        r matches Some(p) ==> p.wf() && g1_parse(b@.subrange(off as int, off as int + 48))
            == Some(p@),
{
    // Reading the length teaches the verifier that off + 48 fits in usize.
    let n: usize = b.len();
    let piece = vstd::slice::slice_subrange(b, off, off + 48);
    g1_from_bytes(piece)
}

/// Decode the G2 element encoded at `off`.
fn read_g2(b: &[u8], off: usize) -> (r: Option<G2>)
    requires
        off + 96 <= b@.len(),
    ensures
        r is Some <==> g2_parse(b@.subrange(off as int, off as int + 96)) is Some,
        r matches Some(p) ==> p.wf() && g2_parse(b@.subrange(off as int, off as int + 96))
            == Some(p@),
{
    // Reading the length teaches the verifier that off + 96 fits in usize.
    let n: usize = b.len();
    let piece = vstd::slice::slice_subrange(b, off, off + 96);
    g2_from_bytes(piece)
}

/// Decode the scalar encoded at `off`.
fn read_fr(b: &[u8], off: usize) -> (r: Option<Fr>)
    requires
        off + 32 <= b@.len(),
    ensures
        r is Some <==> fr_parse(b@.subrange(off as int, off as int + 32)) is Some,
        r matches Some(a) ==> a.wf() && fr_parse(b@.subrange(off as int, off as int + 32))
            == Some(a@),
{
    // Reading the length teaches the verifier that off + 32 fits in usize.
    let n: usize = b.len();
    let piece = vstd::slice::slice_subrange(b, off, off + 32);
    fr_from_bytes(piece)
}

/// The encoding of a scalar.
pub open spec fn enc_fr(a: Fr) -> Seq<u8> {
    fr_bytes(a@)
}

impl Fr {
    /// Encode as 32 canonical bytes; decoding them yields this scalar.
    pub fn encode(&self) -> (r: Vec<u8>)
        requires
            self.wf(),
        ensures
            r@ == enc_fr(*self),
            r@.len() == 32,
            fr_parse(r@) == Some(self@),
    {
        fr_to_bytes(self)
    }

    /// Decode 32 canonical bytes; exactly the values below the group
    /// order are accepted.
    pub fn decode(b: &[u8]) -> (r: Option<Fr>)
        ensures
            r is Some <==> (b@.len() == 32 && fr_parse(b@) is Some),
            r matches Some(a) ==> a.wf() && fr_parse(b@) == Some(a@),
    {
        if b.len() != 32 {
            return None;
        }
        proof {
            lemma_subrange_whole(b@);
        }
        read_fr(b, 0)
    }
}

/// The encoding of a manager's published share: h, then omega.
pub open spec fn enc_partial_gpk(k: PartialGPK) -> Seq<u8> {
    g1_bytes(k.h@) + g2_bytes(k.omega@)
}

/// The strings that decode to a published share.
pub open spec fn partial_gpk_parseable(b: Seq<u8>) -> bool {
    &&& b.len() == 144
    &&& g1_parse(b.subrange(0, 48)) is Some
    &&& g2_parse(b.subrange(48, 144)) is Some
}

/// `b` decodes to exactly the share `k`.
pub open spec fn partial_gpk_parses_to(b: Seq<u8>, k: PartialGPK) -> bool {
    &&& partial_gpk_parseable(b)
    &&& g1_parse(b.subrange(0, 48)) == Some(k.h@)
    &&& g2_parse(b.subrange(48, 144)) == Some(k.omega@)
}

impl PartialGPK {
    /// Encode canonically; decoding the result yields this share back.
    pub fn encode(&self) -> (r: Vec<u8>)
        requires
            self.wf(),
        ensures
            r@ == enc_partial_gpk(*self),
            partial_gpk_parses_to(r@, *self),
    {
        let mut out: Vec<u8> = Vec::new();
        put_g1(&mut out, &self.h);
        put_g2(&mut out, &self.omega);
        proof {
            assert(Seq::<u8>::empty() + g1_bytes(self.h@) =~= g1_bytes(self.h@));
            lemma_append_subranges(g1_bytes(self.h@), g2_bytes(self.omega@));
            lemma_subrange_whole(g1_bytes(self.h@));
        }
        out
    }

    /// Decode; exactly the canonical encodings of shares are accepted.
    pub fn decode(b: &[u8]) -> (r: Option<PartialGPK>)
        ensures
            r is Some <==> partial_gpk_parseable(b@),
            r matches Some(k) ==> k.wf() && partial_gpk_parses_to(b@, k),
    {
        if b.len() != 144 {
            return None;
        }
        let h = match read_g1(b, 0) {
            Some(p) => p,
            None => {
                return None;
            },
        };
        let omega = match read_g2(b, 48) {
            Some(p) => p,
            None => {
                return None;
            },
        };
        Some(PartialGPK { h, omega })
    }
}

/// The encoding of a manager's private share: gamma, then xi.
pub open spec fn enc_partial_gsk(k: PartialGSK) -> Seq<u8> {
    fr_bytes(k.gamma@) + fr_bytes(k.xi@)
}

/// The strings that decode to a private share.
pub open spec fn partial_gsk_parseable(b: Seq<u8>) -> bool {
    &&& b.len() == 64
    &&& fr_parse(b.subrange(0, 32)) is Some
    &&& fr_parse(b.subrange(32, 64)) is Some
}

/// `b` decodes to exactly the share `k`.
pub open spec fn partial_gsk_parses_to(b: Seq<u8>, k: PartialGSK) -> bool {
    &&& partial_gsk_parseable(b)
    &&& fr_parse(b.subrange(0, 32)) == Some(k.gamma@)
    &&& fr_parse(b.subrange(32, 64)) == Some(k.xi@)
}

impl PartialGSK {
    /// Encode canonically; decoding the result yields this share back.
    pub fn encode(&self) -> (r: Vec<u8>)
        requires
            self.wf(),
        ensures
            r@ == enc_partial_gsk(*self),
            partial_gsk_parses_to(r@, *self),
    {
        let mut out: Vec<u8> = Vec::new();
        put_fr(&mut out, &self.gamma);
        put_fr(&mut out, &self.xi);
        proof {
            assert(Seq::<u8>::empty() + fr_bytes(self.gamma@) =~= fr_bytes(self.gamma@));
            lemma_append_subranges(fr_bytes(self.gamma@), fr_bytes(self.xi@));
            lemma_subrange_whole(fr_bytes(self.gamma@));
        }
        out
    }

    /// Decode; exactly the canonical encodings of shares are accepted.
    pub fn decode(b: &[u8]) -> (r: Option<PartialGSK>)
        ensures
            r is Some <==> partial_gsk_parseable(b@),
            r matches Some(k) ==> k.wf() && partial_gsk_parses_to(b@, k),
    {
        if b.len() != 64 {
            return None;
        }
        let gamma = match read_fr(b, 0) {
            Some(a) => a,
            None => {
                return None;
            },
        };
        let xi = match read_fr(b, 32) {
            Some(a) => a,
            None => {
                return None;
            },
        };
        Some(PartialGSK { gamma, xi })
    }
}

/// The encoding of a credential share: a, then x.
pub open spec fn enc_partial_usk(k: PartialUSK) -> Seq<u8> {
    g1_bytes(k.a@) + fr_bytes(k.x@)
}

/// The strings that decode to a credential share.
pub open spec fn partial_usk_parseable(b: Seq<u8>) -> bool {
    &&& b.len() == 80
    &&& g1_parse(b.subrange(0, 48)) is Some
    &&& fr_parse(b.subrange(48, 80)) is Some
}

/// `b` decodes to exactly the credential share `k`.
pub open spec fn partial_usk_parses_to(b: Seq<u8>, k: PartialUSK) -> bool {
    &&& partial_usk_parseable(b)
    &&& g1_parse(b.subrange(0, 48)) == Some(k.a@)
    &&& fr_parse(b.subrange(48, 80)) == Some(k.x@)
}

impl PartialUSK {
    /// Encode canonically; decoding the result yields this share back.
    pub fn encode(&self) -> (r: Vec<u8>)
        requires
            self.wf(),
        ensures
            r@ == enc_partial_usk(*self),
            partial_usk_parses_to(r@, *self),
    {
        let mut out: Vec<u8> = Vec::new();
        put_g1(&mut out, &self.a);
        put_fr(&mut out, &self.x);
        proof {
            assert(Seq::<u8>::empty() + g1_bytes(self.a@) =~= g1_bytes(self.a@));
            lemma_append_subranges(g1_bytes(self.a@), fr_bytes(self.x@));
            lemma_subrange_whole(g1_bytes(self.a@));
        }
        out
    }

    /// Decode; exactly the canonical encodings of credential shares are
    /// accepted.
    pub fn decode(b: &[u8]) -> (r: Option<PartialUSK>)
        ensures
            r is Some <==> partial_usk_parseable(b@),
            r matches Some(k) ==> k.wf() && partial_usk_parses_to(b@, k),
    {
        if b.len() != 80 {
            return None;
        }
        let a = match read_g1(b, 0) {
            Some(p) => p,
            None => {
                return None;
            },
        };
        let x = match read_fr(b, 48) {
            Some(v) => v,
            None => {
                return None;
            },
        };
        Some(PartialUSK { a, x })
    }
}

/// The encoding of a user's combined credential: the three shares in
/// issuing order, each as a, then x.
pub open spec fn enc_combined_usk(s: CombinedUSK) -> Seq<u8> {
    g1_bytes(s.partials@[0].a@) + fr_bytes(s.partials@[0].x@) + g1_bytes(s.partials@[1].a@)
        + fr_bytes(s.partials@[1].x@) + g1_bytes(s.partials@[2].a@) + fr_bytes(s.partials@[2].x@)
}

/// The strings that decode to a combined credential.
pub open spec fn combined_usk_parseable(b: Seq<u8>) -> bool {
    &&& b.len() == 240
    &&& g1_parse(b.subrange(0, 48)) is Some
    &&& fr_parse(b.subrange(48, 80)) is Some
    &&& g1_parse(b.subrange(80, 128)) is Some
    &&& fr_parse(b.subrange(128, 160)) is Some
    &&& g1_parse(b.subrange(160, 208)) is Some
    &&& fr_parse(b.subrange(208, 240)) is Some
}

/// `b` decodes to exactly the combined credential `s`.
pub open spec fn combined_usk_parses_to(b: Seq<u8>, s: CombinedUSK) -> bool {
    &&& combined_usk_parseable(b)
    &&& s.partials@.len() == 3
    &&& g1_parse(b.subrange(0, 48)) == Some(s.partials@[0].a@)
    &&& fr_parse(b.subrange(48, 80)) == Some(s.partials@[0].x@)
    &&& g1_parse(b.subrange(80, 128)) == Some(s.partials@[1].a@)
    &&& fr_parse(b.subrange(128, 160)) == Some(s.partials@[1].x@)
    &&& g1_parse(b.subrange(160, 208)) == Some(s.partials@[2].a@)
    &&& fr_parse(b.subrange(208, 240)) == Some(s.partials@[2].x@)
}

impl CombinedUSK {
    /// Encode canonically; decoding the result yields this credential
    /// back.
    pub fn encode(&self) -> (r: Vec<u8>)
        requires
            self.wf(),
        ensures
            r@ == enc_combined_usk(*self),
            combined_usk_parses_to(r@, *self),
    {
        let mut out: Vec<u8> = Vec::new();
        put_g1(&mut out, &self.partials[0].a);
        put_fr(&mut out, &self.partials[0].x);
        put_g1(&mut out, &self.partials[1].a);
        put_fr(&mut out, &self.partials[1].x);
        put_g1(&mut out, &self.partials[2].a);
        put_fr(&mut out, &self.partials[2].x);
        proof {
            let q1 = g1_bytes(self.partials@[0].a@);
            let q2 = fr_bytes(self.partials@[0].x@);
            let q3 = g1_bytes(self.partials@[1].a@);
            let q4 = fr_bytes(self.partials@[1].x@);
            let q5 = g1_bytes(self.partials@[2].a@);
            let q6 = fr_bytes(self.partials@[2].x@);
            assert(Seq::<u8>::empty() + q1 =~= q1);
            lemma_subrange_whole(q1);
            lemma_append_subranges(q1, q2);
            lemma_append_subranges(q1 + q2, q3);
            lemma_append_subranges(q1 + q2 + q3, q4);
            lemma_append_subranges(q1 + q2 + q3 + q4, q5);
            lemma_append_subranges(q1 + q2 + q3 + q4 + q5, q6);
        }
        out
    }

    /// Decode; exactly the canonical encodings of combined credentials
    /// are accepted.
    pub fn decode(b: &[u8]) -> (r: Option<CombinedUSK>)
        ensures
            r is Some <==> combined_usk_parseable(b@),
            r matches Some(s) ==> s.wf() && combined_usk_parses_to(b@, s),
    {
        if b.len() != 240 {
            return None;
        }
        let a0 = match read_g1(b, 0) {
            Some(p) => p,
            None => {
                return None;
            },
        };
        let x0 = match read_fr(b, 48) {
            Some(v) => v,
            None => {
                return None;
            },
        };
        let a1 = match read_g1(b, 80) {
            Some(p) => p,
            None => {
                return None;
            },
        };
        let x1 = match read_fr(b, 128) {
            Some(v) => v,
            None => {
                return None;
            },
        };
        let a2 = match read_g1(b, 160) {
            Some(p) => p,
            None => {
                return None;
            },
        };
        let x2 = match read_fr(b, 208) {
            Some(v) => v,
            None => {
                return None;
            },
        };
        let mut partials: Vec<PartialUSK> = Vec::new();
        partials.push(PartialUSK { a: a0, x: x0 });
        partials.push(PartialUSK { a: a1, x: x1 });
        partials.push(PartialUSK { a: a2, x: x2 });
        Some(CombinedUSK { partials })
    }
}

/// The encoding of the group public key: h, u, v, w, then the three
/// published manager shares.
pub open spec fn enc_combined_gpk(g: CombinedGPK) -> Seq<u8> {
    g1_bytes(g.h@) + g1_bytes(g.u@) + g1_bytes(g.v@) + g1_bytes(g.w@) + g1_bytes(
        g.partical_gpks@[0].h@,
    ) + g2_bytes(g.partical_gpks@[0].omega@) + g1_bytes(g.partical_gpks@[1].h@) + g2_bytes(
        g.partical_gpks@[1].omega@,
    ) + g1_bytes(g.partical_gpks@[2].h@) + g2_bytes(g.partical_gpks@[2].omega@)
}

/// The strings that decode to a group public key.
pub open spec fn combined_gpk_parseable(b: Seq<u8>) -> bool {
    &&& b.len() == 624
    &&& g1_parse(b.subrange(0, 48)) is Some
    &&& g1_parse(b.subrange(48, 96)) is Some
    &&& g1_parse(b.subrange(96, 144)) is Some
    &&& g1_parse(b.subrange(144, 192)) is Some
    &&& g1_parse(b.subrange(192, 240)) is Some
    &&& g2_parse(b.subrange(240, 336)) is Some
    &&& g1_parse(b.subrange(336, 384)) is Some
    &&& g2_parse(b.subrange(384, 480)) is Some
    &&& g1_parse(b.subrange(480, 528)) is Some
    &&& g2_parse(b.subrange(528, 624)) is Some
}

/// `b` decodes to exactly the group public key `g`.
pub open spec fn combined_gpk_parses_to(b: Seq<u8>, g: CombinedGPK) -> bool {
    &&& combined_gpk_parseable(b)
    &&& g.partical_gpks@.len() == 3
    &&& g1_parse(b.subrange(0, 48)) == Some(g.h@)
    &&& g1_parse(b.subrange(48, 96)) == Some(g.u@)
    &&& g1_parse(b.subrange(96, 144)) == Some(g.v@)
    &&& g1_parse(b.subrange(144, 192)) == Some(g.w@)
    &&& g1_parse(b.subrange(192, 240)) == Some(g.partical_gpks@[0].h@)
    &&& g2_parse(b.subrange(240, 336)) == Some(g.partical_gpks@[0].omega@)
    &&& g1_parse(b.subrange(336, 384)) == Some(g.partical_gpks@[1].h@)
    &&& g2_parse(b.subrange(384, 480)) == Some(g.partical_gpks@[1].omega@)
    &&& g1_parse(b.subrange(480, 528)) == Some(g.partical_gpks@[2].h@)
    &&& g2_parse(b.subrange(528, 624)) == Some(g.partical_gpks@[2].omega@)
}

impl CombinedGPK {
    /// Encode canonically; decoding the result yields this key back.
    pub fn encode(&self) -> (r: Vec<u8>)
        requires
            self.wf(),
        ensures
            r@ == enc_combined_gpk(*self),
            combined_gpk_parses_to(r@, *self),
    {
        let mut out: Vec<u8> = Vec::new();
        put_g1(&mut out, &self.h);
        put_g1(&mut out, &self.u);
        put_g1(&mut out, &self.v);
        put_g1(&mut out, &self.w);
        put_g1(&mut out, &self.partical_gpks[0].h);
        put_g2(&mut out, &self.partical_gpks[0].omega);
        put_g1(&mut out, &self.partical_gpks[1].h);
        put_g2(&mut out, &self.partical_gpks[1].omega);
        put_g1(&mut out, &self.partical_gpks[2].h);
        put_g2(&mut out, &self.partical_gpks[2].omega);
        proof {
            let q1 = g1_bytes(self.h@);
            let q2 = g1_bytes(self.u@);
            let q3 = g1_bytes(self.v@);
            let q4 = g1_bytes(self.w@);
            let q5 = g1_bytes(self.partical_gpks@[0].h@);
            let q6 = g2_bytes(self.partical_gpks@[0].omega@);
            let q7 = g1_bytes(self.partical_gpks@[1].h@);
            let q8 = g2_bytes(self.partical_gpks@[1].omega@);
            let q9 = g1_bytes(self.partical_gpks@[2].h@);
            let q10 = g2_bytes(self.partical_gpks@[2].omega@);
            assert(Seq::<u8>::empty() + q1 =~= q1);
            lemma_subrange_whole(q1);
            lemma_append_subranges(q1, q2);
            lemma_append_subranges(q1 + q2, q3);
            lemma_append_subranges(q1 + q2 + q3, q4);
            lemma_append_subranges(q1 + q2 + q3 + q4, q5);
            lemma_append_subranges(q1 + q2 + q3 + q4 + q5, q6);
            lemma_append_subranges(q1 + q2 + q3 + q4 + q5 + q6, q7);
            lemma_append_subranges(q1 + q2 + q3 + q4 + q5 + q6 + q7, q8);
            lemma_append_subranges(q1 + q2 + q3 + q4 + q5 + q6 + q7 + q8, q9);
            lemma_append_subranges(q1 + q2 + q3 + q4 + q5 + q6 + q7 + q8 + q9, q10);
        }
        out
    }

    /// Decode; exactly the canonical encodings of group public keys are
    /// accepted.
    pub fn decode(b: &[u8]) -> (r: Option<CombinedGPK>)
        ensures
            r is Some <==> combined_gpk_parseable(b@),
            r matches Some(g) ==> g.wf() && combined_gpk_parses_to(b@, g),
    {
        if b.len() != 624 {
            return None;
        }
        let h = match read_g1(b, 0) {
            Some(p) => p,
            None => {
                return None;
            },
        };
        let u = match read_g1(b, 48) {
            Some(p) => p,
            None => {
                return None;
            },
        };
        let v = match read_g1(b, 96) {
            Some(p) => p,
            None => {
                return None;
            },
        };
        let w = match read_g1(b, 144) {
            Some(p) => p,
            None => {
                return None;
            },
        };
        let h0 = match read_g1(b, 192) {
            Some(p) => p,
            None => {
                return None;
            },
        };
        let o0 = match read_g2(b, 240) {
            Some(p) => p,
            None => {
                return None;
            },
        };
        let h1 = match read_g1(b, 336) {
            Some(p) => p,
            None => {
                return None;
            },
        };
        let o1 = match read_g2(b, 384) {
            Some(p) => p,
            None => {
                return None;
            },
        };
        let h2 = match read_g1(b, 480) {
            Some(p) => p,
            None => {
                return None;
            },
        };
        let o2 = match read_g2(b, 528) {
            Some(p) => p,
            None => {
                return None;
            },
        };
        let mut partical_gpks: Vec<PartialGPK> = Vec::new();
        partical_gpks.push(PartialGPK { h: h0, omega: o0 });
        partical_gpks.push(PartialGPK { h: h1, omega: o1 });
        partical_gpks.push(PartialGPK { h: h2, omega: o2 });
        Some(CombinedGPK { h, u, v, w, partical_gpks })
    }
}

/// The encoding of a signature: the three linkable commitments, the three
/// credential commitments, then the challenge and the seven responses.
pub open spec fn enc_signature(s: Signature) -> Seq<u8> {
    g1_bytes(s.t1@) + g1_bytes(s.t2@) + g1_bytes(s.t3@) + g1_bytes(s.t4@[0]@) + g1_bytes(
        s.t4@[1]@,
    ) + g1_bytes(s.t4@[2]@) + fr_bytes(s.hash@) + fr_bytes(s.sa@) + fr_bytes(s.sb@) + fr_bytes(
        s.sc@,
    ) + fr_bytes(s.sx@) + fr_bytes(s.s_delta1@) + fr_bytes(s.s_delta2@) + fr_bytes(s.s_delta3@)
}

/// The strings that decode to a signature.
pub open spec fn signature_parseable(b: Seq<u8>) -> bool {
    &&& b.len() == 544
    &&& g1_parse(b.subrange(0, 48)) is Some
    &&& g1_parse(b.subrange(48, 96)) is Some
    &&& g1_parse(b.subrange(96, 144)) is Some
    &&& g1_parse(b.subrange(144, 192)) is Some
    &&& g1_parse(b.subrange(192, 240)) is Some
    &&& g1_parse(b.subrange(240, 288)) is Some
    &&& fr_parse(b.subrange(288, 320)) is Some
    &&& fr_parse(b.subrange(320, 352)) is Some
    &&& fr_parse(b.subrange(352, 384)) is Some
    &&& fr_parse(b.subrange(384, 416)) is Some
    &&& fr_parse(b.subrange(416, 448)) is Some
    &&& fr_parse(b.subrange(448, 480)) is Some
    &&& fr_parse(b.subrange(480, 512)) is Some
    &&& fr_parse(b.subrange(512, 544)) is Some
}

/// `b` decodes to exactly the signature `s`.
pub open spec fn signature_parses_to(b: Seq<u8>, s: Signature) -> bool {
    &&& signature_parseable(b)
    &&& s.t4@.len() == 3
    &&& g1_parse(b.subrange(0, 48)) == Some(s.t1@)
    &&& g1_parse(b.subrange(48, 96)) == Some(s.t2@)
    &&& g1_parse(b.subrange(96, 144)) == Some(s.t3@)
    &&& g1_parse(b.subrange(144, 192)) == Some(s.t4@[0]@)
    &&& g1_parse(b.subrange(192, 240)) == Some(s.t4@[1]@)
    &&& g1_parse(b.subrange(240, 288)) == Some(s.t4@[2]@)
    &&& fr_parse(b.subrange(288, 320)) == Some(s.hash@)
    &&& fr_parse(b.subrange(320, 352)) == Some(s.sa@)
    &&& fr_parse(b.subrange(352, 384)) == Some(s.sb@)
    &&& fr_parse(b.subrange(384, 416)) == Some(s.sc@)
    &&& fr_parse(b.subrange(416, 448)) == Some(s.sx@)
    &&& fr_parse(b.subrange(448, 480)) == Some(s.s_delta1@)
    &&& fr_parse(b.subrange(480, 512)) == Some(s.s_delta2@)
    &&& fr_parse(b.subrange(512, 544)) == Some(s.s_delta3@)
}

impl Signature {
    /// Encode canonically; decoding the result yields this signature
    /// back.
    pub fn encode(&self) -> (r: Vec<u8>)
        requires
            self.wf(),
        ensures
            r@ == enc_signature(*self),
            signature_parses_to(r@, *self),
    {
        let mut out: Vec<u8> = Vec::new();
        put_g1(&mut out, &self.t1);
        put_g1(&mut out, &self.t2);
        put_g1(&mut out, &self.t3);
        put_g1(&mut out, &self.t4[0]);
        put_g1(&mut out, &self.t4[1]);
        put_g1(&mut out, &self.t4[2]);
        put_fr(&mut out, &self.hash);
        put_fr(&mut out, &self.sa);
        put_fr(&mut out, &self.sb);
        put_fr(&mut out, &self.sc);
        put_fr(&mut out, &self.sx);
        put_fr(&mut out, &self.s_delta1);
        put_fr(&mut out, &self.s_delta2);
        put_fr(&mut out, &self.s_delta3);
        proof {
            let q1 = g1_bytes(self.t1@);
            let q2 = g1_bytes(self.t2@);
            let q3 = g1_bytes(self.t3@);
            let q4 = g1_bytes(self.t4@[0]@);
            let q5 = g1_bytes(self.t4@[1]@);
            let q6 = g1_bytes(self.t4@[2]@);
            let q7 = fr_bytes(self.hash@);
            let q8 = fr_bytes(self.sa@);
            let q9 = fr_bytes(self.sb@);
            let q10 = fr_bytes(self.sc@);
            let q11 = fr_bytes(self.sx@);
            let q12 = fr_bytes(self.s_delta1@);
            let q13 = fr_bytes(self.s_delta2@);
            let q14 = fr_bytes(self.s_delta3@);
            assert(Seq::<u8>::empty() + q1 =~= q1);
            lemma_subrange_whole(q1);
            lemma_append_subranges(q1, q2);
            lemma_append_subranges(q1 + q2, q3);
            lemma_append_subranges(q1 + q2 + q3, q4);
            lemma_append_subranges(q1 + q2 + q3 + q4, q5);
            lemma_append_subranges(q1 + q2 + q3 + q4 + q5, q6);
            lemma_append_subranges(q1 + q2 + q3 + q4 + q5 + q6, q7);
            lemma_append_subranges(q1 + q2 + q3 + q4 + q5 + q6 + q7, q8);
            lemma_append_subranges(q1 + q2 + q3 + q4 + q5 + q6 + q7 + q8, q9);
            lemma_append_subranges(q1 + q2 + q3 + q4 + q5 + q6 + q7 + q8 + q9, q10);
            lemma_append_subranges(q1 + q2 + q3 + q4 + q5 + q6 + q7 + q8 + q9 + q10, q11);
            lemma_append_subranges(q1 + q2 + q3 + q4 + q5 + q6 + q7 + q8 + q9 + q10 + q11, q12);
            lemma_append_subranges(
                q1 + q2 + q3 + q4 + q5 + q6 + q7 + q8 + q9 + q10 + q11 + q12,
                q13,
            );
            lemma_append_subranges(
                q1 + q2 + q3 + q4 + q5 + q6 + q7 + q8 + q9 + q10 + q11 + q12 + q13,
                q14,
            );
        }
        out
    }

    /// Decode; exactly the canonical encodings of signatures are
    /// accepted.
    pub fn decode(b: &[u8]) -> (r: Option<Signature>)
        ensures
            r is Some <==> signature_parseable(b@),
            r matches Some(s) ==> s.wf() && signature_parses_to(b@, s),
    {
        if b.len() != 544 {
            return None;
        }
        let t1 = match read_g1(b, 0) {
            Some(p) => p,
            None => {
                return None;
            },
        };
        let t2 = match read_g1(b, 48) {
            Some(p) => p,
            None => {
                return None;
            },
        };
        let t3 = match read_g1(b, 96) {
            Some(p) => p,
            None => {
                return None;
            },
        };
        let t40 = match read_g1(b, 144) {
            Some(p) => p,
            None => {
                return None;
            },
        };
        let t41 = match read_g1(b, 192) {
            Some(p) => p,
            None => {
                return None;
            },
        };
        let t42 = match read_g1(b, 240) {
            Some(p) => p,
            None => {
                return None;
            },
        };
        let hash = match read_fr(b, 288) {
            Some(v) => v,
            None => {
                return None;
            },
        };
        let sa = match read_fr(b, 320) {
            Some(v) => v,
            None => {
                return None;
            },
        };
        let sb = match read_fr(b, 352) {
            Some(v) => v,
            None => {
                return None;
            },
        };
        let sc = match read_fr(b, 384) {
            Some(v) => v,
            None => {
                return None;
            },
        };
        let sx = match read_fr(b, 416) {
            Some(v) => v,
            None => {
                return None;
            },
        };
        let s_delta1 = match read_fr(b, 448) {
            Some(v) => v,
            None => {
                return None;
            },
        };
        let s_delta2 = match read_fr(b, 480) {
            Some(v) => v,
            None => {
                return None;
            },
        };
        let s_delta3 = match read_fr(b, 512) {
            Some(v) => v,
            None => {
                return None;
            },
        };
        let mut t4: Vec<G1> = Vec::new();
        t4.push(t40);
        t4.push(t41);
        t4.push(t42);
        Some(Signature { t1, t2, t3, t4, hash, sa, sb, sc, sx, s_delta1, s_delta2, s_delta3 })
    }
}

} // verus!
