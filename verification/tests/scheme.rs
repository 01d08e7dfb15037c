use threshold_bbs::CombinedGPK;
use threshold_bbs::CombinedUSK;
use threshold_bbs::algebra::SchemeRng;
use threshold_bbs::open_combain;
use threshold_bbs::opener::Opener;
use threshold_bbs::opener::OpenerId;
use threshold_bbs::sign;
use threshold_bbs::verify;

fn sample_group(rng: &mut SchemeRng) -> (Opener, Opener, Opener, CombinedUSK, CombinedGPK) {
    let opener1 = Opener::random(OpenerId::One, rng);
    let opener2 = Opener::random(OpenerId::Two, rng);
    let opener3 = Opener::random(OpenerId::Three, rng);

    let u = opener1.gen_combined_pubkey(&opener2.opk.h);
    let v = opener2.gen_combined_pubkey(&opener3.opk.h);
    let w = opener3.gen_combined_pubkey(&opener1.opk.h);
    let h = opener3.gen_combined_pubkey(&u);

    let partials = vec![
        opener1.issue_member(rng),
        opener2.issue_member(rng),
        opener3.issue_member(rng),
    ];

    let opks = vec![opener1.opk, opener2.opk, opener3.opk];

    let usk = CombinedUSK::new(&partials);
    let gpk = CombinedGPK::new(&opks, &u, &v, &w, &h);

    (opener1, opener2, opener3, usk, gpk)
}

#[test]
fn test_all() {
    let msg: Vec<u8> = vec![1, 3, 4, 5];
    let msg2: Vec<u8> = vec![1, 3, 4, 5, 5];

    let mut rng = SchemeRng::new();

    let opener1 = Opener::random(OpenerId::One, &mut rng);
    let opener2 = Opener::random(OpenerId::Two, &mut rng);
    let opener3 = Opener::random(OpenerId::Three, &mut rng);

    let u = opener1.gen_combined_pubkey(&opener2.opk.h);
    let v = opener2.gen_combined_pubkey(&opener3.opk.h);
    let w = opener3.gen_combined_pubkey(&opener1.opk.h);

    let h = opener3.gen_combined_pubkey(&u);

    let particals = vec![
        opener1.issue_member(&mut rng),
        opener2.issue_member(&mut rng),
        opener3.issue_member(&mut rng),
    ];

    let opks = vec![opener1.opk, opener2.opk, opener3.opk];

    let usk = CombinedUSK::new(&particals);
    let gpk = CombinedGPK::new(&opks, &u, &v, &w, &h);

    let sig = sign(&msg, &usk, &gpk, &mut rng);
    verify(&msg, &sig, &gpk).unwrap();

    match verify(&msg2, &sig, &gpk) {
        Ok(_) => {}
        Err(_) => {
            assert!(true);
        }
    };

    let s1 = opener1.open_share(&sig);
    let s2 = opener2.open_share(&sig);
    let s3 = opener3.open_share(&sig);

    assert!(open_combain(&usk.partials[0], &sig, 0, &s1, &s2, &s3));
    assert!(open_combain(&usk.partials[1], &sig, 1, &s1, &s2, &s3));
    assert!(open_combain(&usk.partials[2], &sig, 2, &s1, &s2, &s3));
}

#[test]
fn s2_wrong_message_rejected() {
    let msg: Vec<u8> = vec![1, 3, 4, 5];
    let msg2: Vec<u8> = vec![1, 3, 4, 5, 5];

    let mut rng = SchemeRng::new();
    let (_o1, _o2, _o3, usk, gpk) = sample_group(&mut rng);

    let sig = sign(&msg, &usk, &gpk, &mut rng);
    assert!(verify(&msg, &sig, &gpk).is_ok());
    assert!(verify(&msg2, &sig, &gpk).is_err());
}

#[test]
fn s3_open_recovers_every_share() {
    let msg: Vec<u8> = vec![1, 3, 4, 5];

    let mut rng = SchemeRng::new();
    let (o1, o2, o3, usk, gpk) = sample_group(&mut rng);

    let sig = sign(&msg, &usk, &gpk, &mut rng);
    let s1 = o1.open_share(&sig);
    let s2 = o2.open_share(&sig);
    let s3 = o3.open_share(&sig);

    for i in 0..3 {
        assert!(open_combain(&usk.partials[i], &sig, i, &s1, &s2, &s3));
    }
}

#[test]
fn s4_foreign_credential_does_not_open() {
    let msg: Vec<u8> = vec![1, 3, 4, 5];

    let mut rng = SchemeRng::new();
    let (o1, o2, o3, usk, gpk) = sample_group(&mut rng);

    // A second user joined by the same three managers.
    let partials2 = vec![
        o1.issue_member(&mut rng),
        o2.issue_member(&mut rng),
        o3.issue_member(&mut rng),
    ];
    let usk2 = CombinedUSK::new(&partials2);

    let sig = sign(&msg, &usk, &gpk, &mut rng);
    let s1 = o1.open_share(&sig);
    let s2 = o2.open_share(&sig);
    let s3 = o3.open_share(&sig);

    assert!(open_combain(&usk.partials[0], &sig, 0, &s1, &s2, &s3));
    assert!(!open_combain(&usk2.partials[0], &sig, 0, &s1, &s2, &s3));
}

#[test]
fn s6_cross_group_rejected() {
    let msg: Vec<u8> = vec![1, 3, 4, 5];

    let mut rng = SchemeRng::new();
    let (_a1, _a2, _a3, usk_a, gpk_a) = sample_group(&mut rng);
    let (_b1, _b2, _b3, _usk_b, gpk_b) = sample_group(&mut rng);

    let sig = sign(&msg, &usk_a, &gpk_a, &mut rng);
    assert!(verify(&msg, &sig, &gpk_a).is_ok());
    assert!(verify(&msg, &sig, &gpk_b).is_err());
}

#[test]
fn p4_signatures_are_randomized() {
    let msg: Vec<u8> = vec![1, 3, 4, 5];

    let mut rng = SchemeRng::new();
    let (_o1, _o2, _o3, usk, gpk) = sample_group(&mut rng);

    let sig_a = sign(&msg, &usk, &gpk, &mut rng);
    let sig_b = sign(&msg, &usk, &gpk, &mut rng);

    let enc_a = sig_a.encode();
    let enc_b = sig_b.encode();

    // The commitments differ: t1 occupies the first 48 bytes.
    assert_ne!(enc_a[0..48], enc_b[0..48]);
    assert_ne!(enc_a[48..96], enc_b[48..96]);
    assert_ne!(enc_a[96..144], enc_b[96..144]);
    assert_ne!(enc_a[144..192], enc_b[144..192]);

    assert!(verify(&msg, &sig_a, &gpk).is_ok());
    assert!(verify(&msg, &sig_b, &gpk).is_ok());
}
