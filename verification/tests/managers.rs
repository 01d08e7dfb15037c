use threshold_bbs::CombinedGPK;
use threshold_bbs::CombinedUSK;
use threshold_bbs::algebra::SchemeRng;
use threshold_bbs::gm::GM;
use threshold_bbs::gm::GMId;
use threshold_bbs::gm::setup_combined_gpk;
use threshold_bbs::open_combain;
use threshold_bbs::sign;
use threshold_bbs::verify;

/// S1 and S3 through the manager interface and the setup rotation.
#[test]
fn gm_setup_sign_open() {
    let msg: Vec<u8> = vec![1, 3, 4, 5];

    let mut rng = SchemeRng::new();
    let gm1 = GM::random(GMId::One, &mut rng);
    let gm2 = GM::random(GMId::Two, &mut rng);
    let gm3 = GM::random(GMId::Three, &mut rng);

    let gpk = setup_combined_gpk(&gm1, &gm2, &gm3);

    let partials = vec![
        gm1.issue_member(&mut rng),
        gm2.issue_member(&mut rng),
        gm3.issue_member(&mut rng),
    ];
    let usk = CombinedUSK::new(&partials);

    let sig = sign(&msg, &usk, &gpk, &mut rng);
    assert!(verify(&msg, &sig, &gpk).is_ok());

    let s1 = gm1.open_share(&sig);
    let s2 = gm2.open_share(&sig);
    let s3 = gm3.open_share(&sig);

    for i in 0..3 {
        assert!(open_combain(&usk.partials[i], &sig, i, &s1, &s2, &s3));
    }
}

/// The setup rotation matches the inline combination the openers perform.
#[test]
fn setup_matches_manual_rotation() {
    let mut rng = SchemeRng::new();
    let gm1 = GM::random(GMId::One, &mut rng);
    let gm2 = GM::random(GMId::Two, &mut rng);
    let gm3 = GM::random(GMId::Three, &mut rng);

    let gpk = setup_combined_gpk(&gm1, &gm2, &gm3);

    let u = gm1.gen_combined_pubkey(&gm2.gpk.h);
    let v = gm2.gen_combined_pubkey(&gm3.gpk.h);
    let w = gm3.gen_combined_pubkey(&gm1.gpk.h);
    let h = gm3.gen_combined_pubkey(&u);

    let enc = gpk.encode();
    let manual = threshold_bbs::CombinedGPK::new(
        &[gm1.gpk, gm2.gpk, gm3.gpk],
        &u,
        &v,
        &w,
        &h,
    );
    assert_eq!(enc, manual.encode());
}

/// Two draws from the scalar sampler differ.
#[test]
fn random_scalars_differ() {
    let mut rng = SchemeRng::new();
    let a = threshold_bbs::utils::gen_rand_scalar(&mut rng);
    let b = threshold_bbs::utils::gen_rand_scalar(&mut rng);
    assert_ne!(a.encode(), b.encode());
}

/// Two draws from the G1 sampler differ, observed through key encoding.
#[test]
fn random_g1_points_differ() {
    let mut rng = SchemeRng::new();
    let gm = GM::random(GMId::One, &mut rng);
    let p = threshold_bbs::utils::gen_rand_g1(&mut rng);
    let q = threshold_bbs::utils::gen_rand_g1(&mut rng);
    let gpk = CombinedGPK::new(&[gm.gpk, gm.gpk, gm.gpk], &p, &q, &p, &q);
    let enc = gpk.encode();
    // u sits at bytes 48..96 and v at 96..144.
    assert_ne!(enc[48..96], enc[96..144]);
}
