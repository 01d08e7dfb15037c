use bls12_381_plus::G1Affine;
use bls12_381_plus::G1Projective;
use bls12_381_plus::G2Affine;
use bls12_381_plus::G2Projective;
use bls12_381_plus::Scalar;
use bls12_381_plus::group::Curve;
use threshold_bbs::CombinedGPK;
use threshold_bbs::CombinedUSK;
use threshold_bbs::PartialGPK;
use threshold_bbs::PartialGSK;
use threshold_bbs::PartialUSK;
use threshold_bbs::Signature;
use threshold_bbs::algebra::Fr;
use threshold_bbs::algebra::SchemeRng;
use threshold_bbs::opener::Opener;
use threshold_bbs::opener::OpenerId;
use threshold_bbs::sign;
use threshold_bbs::verify;

fn sample_group(rng: &mut SchemeRng) -> (Opener, Opener, Opener, CombinedUSK, CombinedGPK) {
    let opener1 = Opener::random(OpenerId::One, rng);
    let opener2 = Opener::random(OpenerId::Two, rng);
    let opener3 = Opener::random(OpenerId::Three, rng);

    let u = opener1.gen_combined_pubkey(&opener2.opk.h);
    let v = opener2.gen_combined_pubkey(&opener3.opk.h);
    let w = opener3.gen_combined_pubkey(&opener1.opk.h);
    let h = opener3.gen_combined_pubkey(&u);

    let partials = vec![
        opener1.issue_member(rng),
        opener2.issue_member(rng),
        opener3.issue_member(rng),
    ];

    let opks = vec![opener1.opk, opener2.opk, opener3.opk];

    (
        opener1,
        opener2,
        opener3,
        CombinedUSK::new(&partials),
        CombinedGPK::new(&opks, &u, &v, &w, &h),
    )
}

/// S5: adding g1 to the t4 commitment invalidates the signature.
#[test]
fn s5_tampered_t4_rejected() {
    let msg: Vec<u8> = vec![1, 3, 4, 5];

    let mut rng = SchemeRng::new();
    let (_o1, _o2, _o3, usk, gpk) = sample_group(&mut rng);

    let sig = sign(&msg, &usk, &gpk, &mut rng);
    assert!(verify(&msg, &sig, &gpk).is_ok());

    // t4[0] occupies bytes 144..192 of the canonical encoding.
    let mut enc = sig.encode();
    let window: [u8; 48] = enc[144..192].try_into().unwrap();
    let point = G1Affine::from_compressed(&window).unwrap();
    let moved = (G1Projective::from(point) + G1Projective::GENERATOR).to_affine();
    enc[144..192].copy_from_slice(&moved.to_compressed());

    let tampered = Signature::decode(&enc).unwrap();
    assert!(verify(&msg, &tampered, &gpk).is_err());
}

/// P3: flipping one byte in each component makes the signature either
/// undecodable or invalid.
#[test]
fn p3_byte_flips_rejected() {
    let msg: Vec<u8> = vec![1, 3, 4, 5];

    let mut rng = SchemeRng::new();
    let (_o1, _o2, _o3, usk, gpk) = sample_group(&mut rng);

    let sig = sign(&msg, &usk, &gpk, &mut rng);
    let enc = sig.encode();

    // One offset inside every component of the encoding.
    let offsets = [
        0usize, 48, 96, 144, 192, 240, 288, 320, 352, 384, 416, 448, 480, 512,
    ];
    for off in offsets {
        let mut bad = enc.clone();
        bad[off + 1] ^= 0x01;
        match Signature::decode(&bad) {
            // A decodable corruption must still be rejected by verify.
            Some(s) => assert!(verify(&msg, &s, &gpk).is_err()),
            // An undecodable one is rejected at the boundary.
            None => {}
        }
    }
}

/// P6: every issued credential (a, x) satisfies
/// e(a, omega + x·g2) = e(g1, g2), checked against the pairing crate.
#[test]
fn p6_inversion_law() {
    let mut rng = SchemeRng::new();
    let opener = Opener::random(OpenerId::One, &mut rng);
    let cred = opener.issue_member(&mut rng);

    let cred_enc = cred.encode();
    let a_bytes: [u8; 48] = cred_enc[0..48].try_into().unwrap();
    let x_bytes: [u8; 32] = cred_enc[48..80].try_into().unwrap();
    let opk_enc = opener.opk.encode();
    let omega_bytes: [u8; 96] = opk_enc[48..144].try_into().unwrap();

    let a = G1Affine::from_compressed(&a_bytes).unwrap();
    let x = Scalar::from_le_bytes(&x_bytes).unwrap();
    let omega = G2Affine::from_compressed(&omega_bytes).unwrap();

    let lhs = bls12_381_plus::pairing(
        &a,
        &(G2Projective::from(omega) + G2Projective::GENERATOR * x).to_affine(),
    );
    let rhs = bls12_381_plus::pairing(&G1Affine::generator(), &G2Affine::generator());
    assert_eq!(lhs, rhs);
}

/// The published share is exactly (xi·g1, gamma·g2), checked against the
/// pairing crate on known scalars.
#[test]
fn known_share_from_fixed_trapdoors() {
    let xi_s = Scalar::from(5u64);
    let gamma_s = Scalar::from(7u64);
    let xi = Fr::decode(&xi_s.to_le_bytes()).unwrap();
    let gamma = Fr::decode(&gamma_s.to_le_bytes()).unwrap();

    let opener = Opener::new(OpenerId::Two, &xi, &gamma);
    let enc = opener.opk.encode();

    let h = (G1Projective::GENERATOR * xi_s).to_affine().to_compressed();
    let omega = (G2Projective::GENERATOR * gamma_s).to_affine().to_compressed();
    assert_eq!(enc[0..48], h);
    assert_eq!(enc[48..144], omega);

    let osk_enc = opener.osk.encode();
    assert_eq!(osk_enc[0..32], gamma_s.to_le_bytes());
    assert_eq!(osk_enc[32..64], xi_s.to_le_bytes());
}

/// P7: decode(encode(k)) == k for every key, credential and signature.
#[test]
fn p7_round_trips() {
    let msg: Vec<u8> = vec![9, 9, 9];

    let mut rng = SchemeRng::new();
    let (o1, _o2, _o3, usk, gpk) = sample_group(&mut rng);
    let sig = sign(&msg, &usk, &gpk, &mut rng);

    let e = sig.encode();
    assert_eq!(e.len(), 544);
    assert_eq!(Signature::decode(&e).unwrap().encode(), e);

    let e = gpk.encode();
    assert_eq!(e.len(), 624);
    assert_eq!(CombinedGPK::decode(&e).unwrap().encode(), e);

    let e = usk.encode();
    assert_eq!(e.len(), 240);
    assert_eq!(CombinedUSK::decode(&e).unwrap().encode(), e);

    let e = usk.partials[0].encode();
    assert_eq!(e.len(), 80);
    assert_eq!(PartialUSK::decode(&e).unwrap().encode(), e);

    let e = o1.opk.encode();
    assert_eq!(e.len(), 144);
    assert_eq!(PartialGPK::decode(&e).unwrap().encode(), e);

    let e = o1.osk.encode();
    assert_eq!(e.len(), 64);
    assert_eq!(PartialGSK::decode(&e).unwrap().encode(), e);

    // A decoded signature still verifies and a decoded key still works.
    let sig2 = Signature::decode(&sig.encode()).unwrap();
    let gpk2 = CombinedGPK::decode(&gpk.encode()).unwrap();
    assert!(verify(&msg, &sig2, &gpk2).is_ok());
}

/// Malformed inputs are rejected at the decoding boundary.
#[test]
fn decode_rejects_malformed() {
    // Wrong lengths.
    assert!(Signature::decode(&[0u8; 10]).is_none());
    assert!(CombinedGPK::decode(&[0u8; 623]).is_none());
    assert!(CombinedUSK::decode(&[0u8; 241]).is_none());
    assert!(PartialUSK::decode(&[]).is_none());
    assert!(PartialGPK::decode(&[0u8; 145]).is_none());
    assert!(PartialGSK::decode(&[0u8; 63]).is_none());
    assert!(Fr::decode(&[0u8; 31]).is_none());

    // A scalar at or above the group order is not canonical.
    let modulus_le: [u8; 32] = [
        0x01, 0x00, 0x00, 0x00, 0xff, 0xff, 0xff, 0xff, 0xfe, 0x5b, 0xfe, 0xff, 0x02, 0xa4, 0xbd,
        0x53, 0x05, 0xd8, 0xa1, 0x09, 0x08, 0xd8, 0x39, 0x33, 0x48, 0x7d, 0x9d, 0x29, 0x53, 0xa7,
        0xed, 0x73,
    ];
    assert!(Fr::decode(&modulus_le).is_none());
    let below = {
        let mut b = modulus_le;
        b[0] = 0x00;
        b
    };
    assert!(Fr::decode(&below).is_some());

    // A 48-byte string that is not a canonical G1 encoding.
    let mut bad_usk = [0u8; 80];
    bad_usk[0] = 0xff;
    assert!(PartialUSK::decode(&bad_usk).is_none());
}
