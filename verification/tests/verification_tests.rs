use niwatori::errors::ServiceError;
use niwatori::models::Role;
use niwatori::verification::{
    calculate_fingerprint_hashes, captcha_required, perform_verification,
    verify_fingerprint_hashes, verify_proxycheck, AttemptStore, CaptchaResponse, FingerprintData,
    IpReputation, LegacyFlag, ProxyCheckDetections, RejectionType, VerificationInput,
    VerificationType,
};

fn fingerprint(webgl: &str, canvas: &str, audio: &str) -> FingerprintData {
    FingerprintData {
        raw: format!("{{\"webgl\":\"{}\",\"canvas\":\"{}\",\"audio\":\"{}\"}}", webgl, canvas, audio),
        webgl: String::from(webgl),
        canvas: String::from(canvas),
        audio: String::from(audio),
    }
}

fn empty_store() -> AttemptStore {
    AttemptStore { attempts: Vec::new(), next_id: 1 }
}

fn post_input(fp: Option<FingerprintData>) -> VerificationInput {
    VerificationInput {
        verification_type: VerificationType::CreatePost,
        user_id: Some(7),
        role: Some(Role::User),
        ip_address: String::from("203.0.113.9"),
        raw_ip_address: Some(String::from("203.0.113.9")),
        captcha_token: None,
        fingerprint_data: fp,
    }
}

fn registration_input(fp: Option<FingerprintData>, token: Option<&str>) -> VerificationInput {
    VerificationInput {
        verification_type: VerificationType::Registration,
        user_id: None,
        role: None,
        ip_address: String::from("203.0.113.9"),
        raw_ip_address: Some(String::from("203.0.113.9")),
        captcha_token: token.map(String::from),
        fingerprint_data: fp,
    }
}

fn detections(vpn: bool) -> ProxyCheckDetections {
    ProxyCheckDetections {
        proxy: false,
        vpn,
        tor: false,
        hosting: false,
        compromised: false,
        scraper: false,
        anonymous: false,
        risk: 0,
    }
}

#[test]
fn captcha_is_required_only_for_identity_actions() {
    assert!(captcha_required(VerificationType::LevelUp));
    assert!(captcha_required(VerificationType::Registration));
    assert!(!captcha_required(VerificationType::CreateBoard));
    assert!(!captcha_required(VerificationType::CreatePost));
    assert!(!captcha_required(VerificationType::CreateComment));
}

#[test]
fn fingerprint_hashes_match_reference_digests() {
    let fp = fingerprint("w", "c", "a");
    let h = calculate_fingerprint_hashes(&fp);
    let digest =
        |s: &str| hex::encode(<sha2::Sha256 as sha2::Digest>::digest(s.as_bytes()));
    assert_eq!(h.h3, digest("wca"));
    assert_eq!(h.h_wc, digest("wc"));
    assert_eq!(h.h_wa, digest("wa"));
    assert_eq!(h.h_ca, digest("ca"));
}

#[test]
fn identical_fingerprint_rejected_within_23_hours() {
    let mut store = empty_store();
    let fp = fingerprint("w1", "c1", "a1");
    let r1 = perform_verification(&mut store, &post_input(Some(fingerprint("w1", "c1", "a1"))),
        None, false, None, false, false, 1_000).unwrap();
    assert!(r1.0.is_success);
    assert_eq!(r1.1, 1);
    assert_eq!(store.attempts.len(), 1);
    assert!(store.attempts[0].is_success);

    // The second attempt with the identical fingerprint, 22 hours later.
    let later = 1_000 + 22 * 3600;
    let r2 = perform_verification(&mut store, &post_input(Some(fp)), None, false, None, false,
        false, later).unwrap();
    assert!(!r2.0.is_success);
    assert_eq!(r2.0.rejection_reason.as_deref(), Some("Fingerprint (3-hash) has been used recently."));
    assert_eq!(r2.0.rejection_type, Some(RejectionType::RateLimit));
    assert_eq!(store.attempts.len(), 2);
    assert!(!store.attempts[1].is_success);

    // After the 23-hour window the same fingerprint passes again.
    let mut fresh = empty_store();
    perform_verification(&mut fresh, &post_input(Some(fingerprint("w1", "c1", "a1"))), None,
        false, None, false, false, 1_000).unwrap();
    let after = 1_000 + 23 * 3600 + 1;
    let r3 = perform_verification(&mut fresh, &post_input(Some(fingerprint("w1", "c1", "a1"))),
        None, false, None, false, false, after).unwrap();
    assert!(r3.0.is_success);
}

#[test]
fn pairwise_fingerprint_match_rejected_within_one_hour() {
    let mut store = empty_store();
    perform_verification(&mut store, &post_input(Some(fingerprint("w1", "c1", "a1"))), None,
        false, None, false, false, 1_000).unwrap();

    // Same webgl+canvas, different audio, 30 minutes later.
    let r2 = perform_verification(&mut store, &post_input(Some(fingerprint("w1", "c1", "a2"))),
        None, false, None, false, false, 1_000 + 1_800).unwrap();
    assert!(!r2.0.is_success);
    assert_eq!(r2.0.rejection_reason.as_deref(), Some("Fingerprint (2-hash) has been used recently."));
    assert_eq!(r2.0.rejection_type, Some(RejectionType::RateLimit));

    // The same pair passes once the hour is over.
    let mut fresh = empty_store();
    perform_verification(&mut fresh, &post_input(Some(fingerprint("w1", "c1", "a1"))), None,
        false, None, false, false, 1_000).unwrap();
    let r3 = perform_verification(&mut fresh, &post_input(Some(fingerprint("w1", "c1", "a2"))),
        None, false, None, false, false, 1_000 + 3_601).unwrap();
    assert!(r3.0.is_success);
}

#[test]
fn dev_bypass_disables_fingerprint_dedup() {
    let mut store = empty_store();
    perform_verification(&mut store, &post_input(Some(fingerprint("w", "c", "a"))), None, false,
        None, false, true, 1_000).unwrap();
    let r = perform_verification(&mut store, &post_input(Some(fingerprint("w", "c", "a"))), None,
        false, None, false, true, 1_001).unwrap();
    assert!(r.0.is_success);
}

#[test]
fn admins_bypass_fingerprint_dedup() {
    let mut store = empty_store();
    let mut input = post_input(Some(fingerprint("w", "c", "a")));
    input.role = Some(Role::Admin);
    perform_verification(&mut store, &input, None, false, None, false, false, 1_000).unwrap();
    let mut again = post_input(Some(fingerprint("w", "c", "a")));
    again.role = Some(Role::Admin);
    let r = perform_verification(&mut store, &again, None, false, None, false, false, 1_001)
        .unwrap();
    assert!(r.0.is_success);
}

#[test]
fn verify_fingerprint_hashes_checks_both_windows() {
    let mut store = empty_store();
    perform_verification(&mut store, &post_input(Some(fingerprint("w", "c", "a"))), None, false,
        None, false, false, 1_000).unwrap();
    let hashes = calculate_fingerprint_hashes(&fingerprint("w", "c", "a"));
    assert!(verify_fingerprint_hashes(&store.attempts, &hashes, false, 2_000).is_some());
    assert!(verify_fingerprint_hashes(&store.attempts, &hashes, true, 2_000).is_none());
    assert!(verify_fingerprint_hashes(&store.attempts, &hashes, false, 1_000 + 23 * 3600 + 1)
        .is_none());
}

#[test]
fn missing_captcha_token_is_refused_without_a_record() {
    let mut store = empty_store();
    let r = perform_verification(&mut store, &registration_input(None, None), None, false, None,
        false, false, 1_000);
    assert!(matches!(r, Err(ServiceError::BadRequest(_))));
    assert!(store.attempts.is_empty());
}

#[test]
fn unreachable_captcha_provider_is_an_internal_error() {
    let mut store = empty_store();
    let r = perform_verification(&mut store, &registration_input(None, Some("tok")), None, false,
        None, false, false, 1_000);
    assert!(matches!(r, Err(ServiceError::InternalServerError(_))));
    assert!(store.attempts.is_empty());
}

#[test]
fn failed_captcha_is_a_recorded_rejection_with_joined_codes() {
    let mut store = empty_store();
    let captcha = CaptchaResponse {
        success: false,
        error_codes: vec![String::from("invalid-input"), String::from("timeout")],
    };
    let r = perform_verification(&mut store, &registration_input(None, Some("tok")),
        Some(&captcha), false, None, false, false, 1_000).unwrap();
    assert!(!r.0.is_success);
    assert_eq!(
        r.0.rejection_reason.as_deref(),
        Some("Captcha verification failed. Error codes: invalid-input, timeout")
    );
    assert_eq!(r.0.rejection_type, Some(RejectionType::Generic));
    assert_eq!(store.attempts.len(), 1);
    assert!(!store.attempts[0].is_success);
    assert_eq!(store.attempts[0].rejection_reason, r.0.rejection_reason);
}

#[test]
fn flagged_ip_reputation_is_a_rate_limit_rejection() {
    let mut store = empty_store();
    let rep = IpReputation {
        raw: String::from("{\"status\":\"ok\"}"),
        detections: Some(detections(true)),
        legacy_flags: Vec::new(),
    };
    let r = perform_verification(&mut store, &post_input(None), None, false, Some(&rep), true,
        false, 1_000).unwrap();
    assert!(!r.0.is_success);
    assert_eq!(r.0.rejection_type, Some(RejectionType::RateLimit));
    assert_eq!(store.attempts[0].proxycheck_json.as_deref(), Some("{\"status\":\"ok\"}"));
}

#[test]
fn legacy_yes_flag_is_a_rejection() {
    let rep = IpReputation {
        raw: String::new(),
        detections: None,
        legacy_flags: vec![LegacyFlag { key: String::from("proxy"), value: String::from("YES") }],
    };
    assert!(verify_proxycheck(&rep).is_some());

    let clean = IpReputation {
        raw: String::new(),
        detections: Some(detections(false)),
        legacy_flags: vec![
            LegacyFlag { key: String::from("proxy"), value: String::from("no") },
            LegacyFlag { key: String::from("country"), value: String::from("yes") },
        ],
    };
    assert!(verify_proxycheck(&clean).is_none());
}

#[test]
fn missing_reputation_answer_when_owed_is_an_internal_error() {
    let mut store = empty_store();
    let r = perform_verification(&mut store, &post_input(None), None, false, None, true, false,
        1_000);
    assert!(matches!(r, Err(ServiceError::InternalServerError(_))));
    assert!(store.attempts.is_empty());
}

#[test]
fn local_rejection_skips_the_reputation_answer() {
    // A fingerprint reuse already rejects, so the pipeline never asks for
    // the reputation answer even though the check is enabled.
    let mut store = empty_store();
    perform_verification(&mut store, &post_input(Some(fingerprint("w", "c", "a"))), None, false,
        None, false, false, 1_000).unwrap();
    let r = perform_verification(&mut store, &post_input(Some(fingerprint("w", "c", "a"))), None,
        false, None, true, false, 1_100).unwrap();
    assert!(!r.0.is_success);
    assert_eq!(store.attempts[1].proxycheck_json, None);
}

#[test]
fn every_attempt_row_carries_the_audit_fields() {
    let mut store = empty_store();
    let r = perform_verification(&mut store, &post_input(Some(fingerprint("w", "c", "a"))), None,
        false, None, false, false, 1_234).unwrap();
    let rec = &store.attempts[0];
    assert_eq!(rec.id, r.1);
    assert_eq!(rec.user_id, Some(7));
    assert!(matches!(rec.attempt_type, VerificationType::CreatePost));
    assert_eq!(rec.ip_address, "203.0.113.9");
    assert_eq!(rec.created_at, 1_234);
    assert!(rec.fingerprint_json.is_some());
    let h = calculate_fingerprint_hashes(&fingerprint("w", "c", "a"));
    assert_eq!(rec.hash_webgl_canvas_audio.as_deref(), Some(h.h3.as_str()));
    assert_eq!(rec.hash_webgl_canvas.as_deref(), Some(h.h_wc.as_str()));
    assert_eq!(rec.hash_webgl_audio.as_deref(), Some(h.h_wa.as_str()));
    assert_eq!(rec.hash_canvas_audio.as_deref(), Some(h.h_ca.as_str()));
    assert_eq!(store.next_id, 2);
}

#[test]
fn level_ban_rejects_only_level_ups() {
    let mut store = empty_store();
    let captcha = CaptchaResponse { success: true, error_codes: Vec::new() };
    let mut input = registration_input(None, Some("tok"));
    input.verification_type = VerificationType::LevelUp;
    input.user_id = Some(7);
    input.role = Some(Role::User);
    let r = perform_verification(&mut store, &input, Some(&captcha), true, None, false, false,
        1_000).unwrap();
    assert!(!r.0.is_success);
    assert_eq!(r.0.rejection_reason.as_deref(), Some("This account is banned from leveling up."));

    let r2 = perform_verification(&mut store, &post_input(None), None, true, None, false, false,
        1_001).unwrap();
    assert!(r2.0.is_success);
}
