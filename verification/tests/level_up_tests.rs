use std::time::{SystemTime, UNIX_EPOCH};

use niwatori::auth::{linking_token_cooldown_remaining, preflight_check};
use niwatori::bans::{Ban, BanType};
use niwatori::errors::ServiceError;
use niwatori::identity::{generate_identity_hashes_today, IdentityConfig};
use niwatori::level_up::{
    calculate_level_up_status, format_duration, level_up_finalize, level_up_preflight,
    mint_attestation_token, validate_attestation_token, LevelUpClaims,
};
use niwatori::models::{Role, User};
use niwatori::verification::{
    AttemptStore, CaptchaResponse, FingerprintData, VerificationInput, VerificationType,
};

fn real_now() -> i64 {
    SystemTime::now().duration_since(UNIX_EPOCH).unwrap().as_secs() as i64
}

fn user(role: Role) -> User {
    User {
        id: 7,
        email: String::from("account-id-7"),
        role,
        created_at: 0,
        level: 1,
        last_level_up_at: None,
        last_level_up_ip: None,
        level_up_failure_count: 0,
        last_level_up_attempt_at: None,
        banned_from_level_up: false,
        is_rate_limit_exempt: false,
        last_linking_token_generated_at: None,
    }
}

fn fingerprint(tag: &str) -> FingerprintData {
    FingerprintData {
        raw: format!("{{\"tag\":\"{}\"}}", tag),
        webgl: format!("w-{}", tag),
        canvas: format!("c-{}", tag),
        audio: format!("a-{}", tag),
    }
}

fn level_up_input(fp: FingerprintData) -> VerificationInput {
    VerificationInput {
        verification_type: VerificationType::LevelUp,
        user_id: Some(7),
        role: Some(Role::User),
        ip_address: String::from("203.0.113.9"),
        raw_ip_address: Some(String::from("203.0.113.9")),
        captcha_token: Some(String::from("turnstile-token")),
        fingerprint_data: Some(fp),
    }
}

#[test]
fn format_duration_pads_hours_minutes_seconds() {
    assert_eq!(format_duration(0), "00:00:00");
    assert_eq!(format_duration(59), "00:00:59");
    assert_eq!(format_duration(3_661), "01:01:01");
    assert_eq!(format_duration(82_800), "23:00:00");
    assert_eq!(format_duration(366_100), "101:41:40");
}

#[test]
fn admin_can_always_attempt() {
    let mut u = user(Role::Admin);
    u.last_level_up_at = Some(1_000);
    u.level_up_failure_count = 99;
    u.last_level_up_attempt_at = Some(1_000);
    let s = calculate_level_up_status(&u, 1_001);
    assert!(s.can_attempt);
    assert!(!s.is_locked);
    assert_eq!(s.lock_expires_in_seconds, None);
}

#[test]
fn success_lock_lasts_23_hours() {
    let mut u = user(Role::User);
    u.last_level_up_at = Some(10_000);
    let locked = calculate_level_up_status(&u, 10_000 + 82_799);
    assert!(!locked.can_attempt);
    assert!(locked.is_locked);
    assert_eq!(locked.lock_expires_in_seconds, Some(1));
    assert_eq!(locked.message, format!("Next level-up available in: {}", format_duration(1)));

    let free = calculate_level_up_status(&u, 10_000 + 82_800);
    assert!(free.can_attempt);
    assert_eq!(free.message, "Level-up is available.");
}

#[test]
fn failure_lock_needs_three_failures_and_lasts_five_minutes() {
    let mut u = user(Role::User);
    u.level_up_failure_count = 3;
    u.last_level_up_attempt_at = Some(50_000);
    let locked = calculate_level_up_status(&u, 50_000 + 299);
    assert!(!locked.can_attempt);
    assert_eq!(locked.lock_expires_in_seconds, Some(1));

    let free = calculate_level_up_status(&u, 50_000 + 300);
    assert!(free.can_attempt);

    u.level_up_failure_count = 2;
    let below = calculate_level_up_status(&u, 50_000 + 10);
    assert!(below.can_attempt);
}

#[test]
fn linking_token_cooldown_counts_down_sixty_seconds() {
    assert_eq!(linking_token_cooldown_remaining(None, 1_000), None);
    assert_eq!(linking_token_cooldown_remaining(Some(1_000), 1_010), Some(50));
    assert_eq!(linking_token_cooldown_remaining(Some(1_000), 1_060), None);
}

#[test]
fn registration_preflight_end_to_end() {
    // P7: a fresh fingerprint and a valid CAPTCHA answer yield a token and
    // exactly one successful attempt row.
    let now = real_now();
    let mut store = AttemptStore { attempts: Vec::new(), next_id: 1 };
    let input = VerificationInput {
        verification_type: VerificationType::Registration,
        user_id: None,
        role: None,
        ip_address: String::from("203.0.113.9"),
        raw_ip_address: None,
        captcha_token: Some(String::from("hcaptcha-token")),
        fingerprint_data: Some(fingerprint("fresh")),
    };
    let captcha = CaptchaResponse { success: true, error_codes: Vec::new() };
    let token = preflight_check(&mut store, "jwt-secret", &input, Some(&captcha), None, false,
        false, now).unwrap();
    assert!(!token.is_empty());
    assert_eq!(store.attempts.len(), 1);
    assert!(store.attempts[0].is_success);
    assert_eq!(store.attempts[0].id, 1);
}

#[test]
fn level_up_preflight_failure_charges_the_counter() {
    let now = real_now();
    let mut store = AttemptStore { attempts: Vec::new(), next_id: 1 };
    let mut u = user(Role::User);
    let captcha = CaptchaResponse { success: true, error_codes: Vec::new() };

    // First preflight passes and leaves the account untouched.
    let t1 = level_up_preflight(&mut store, &mut u, "jwt-secret", &level_up_input(fingerprint("x")),
        Some(&captcha), None, false, false, now).unwrap();
    assert!(!t1.is_empty());
    assert_eq!(u.level_up_failure_count, 0);

    // The second one reuses the fingerprint, is rejected, and charges one
    // failure with the attempt time.
    let r2 = level_up_preflight(&mut store, &mut u, "jwt-secret", &level_up_input(fingerprint("x")),
        Some(&captcha), None, false, false, now + 10);
    assert!(matches!(r2, Err(ServiceError::BadRequest(_))));
    assert_eq!(u.level_up_failure_count, 1);
    assert_eq!(u.last_level_up_attempt_at, Some(now + 10));
    assert_eq!(store.attempts.len(), 2);
    assert!(!store.attempts[1].is_success);
}

#[test]
fn level_up_finalize_end_to_end_and_replay() {
    let now = real_now();
    let mut store = AttemptStore { attempts: Vec::new(), next_id: 1 };
    let mut u = user(Role::User);
    let captcha = CaptchaResponse { success: true, error_codes: Vec::new() };
    let cfg = IdentityConfig {
        permanent_pepper: String::from("pepper"),
        daily_salt: String::from("salt"),
    };

    let token = level_up_preflight(&mut store, &mut u, "jwt-secret",
        &level_up_input(fingerprint("y")), Some(&captcha), None, false, false, now).unwrap();

    let bans: Vec<Ban> = Vec::new();
    let r = level_up_finalize(&mut u, &bans, &store.attempts, &cfg, "jwt-secret", &token, 10, now);
    assert!(r.is_ok());
    assert_eq!(u.level, 2);
    assert_eq!(u.last_level_up_at, Some(now));
    assert_eq!(u.level_up_failure_count, 0);

    // Replaying the still-unexpired token is stopped by the fresh cooldown
    // computed from the committed state.
    let replay = level_up_finalize(&mut u, &bans, &store.attempts, &cfg, "jwt-secret", &token, 10,
        now + 1);
    assert!(matches!(replay, Err(ServiceError::TooManyRequests(_))));
    assert_eq!(u.level, 2);
}

#[test]
fn finalize_reruns_the_ban_matcher_on_the_preflight_identity() {
    let now = real_now();
    let mut store = AttemptStore { attempts: Vec::new(), next_id: 1 };
    let mut u = user(Role::User);
    let captcha = CaptchaResponse { success: true, error_codes: Vec::new() };
    let cfg = IdentityConfig {
        permanent_pepper: String::from("pepper"),
        daily_salt: String::from("salt"),
    };

    let token = level_up_preflight(&mut store, &mut u, "jwt-secret",
        &level_up_input(fingerprint("z")), Some(&captcha), None, false, false, now).unwrap();

    // A ban lands on the account's permanent user hash between preflight
    // and finalize: the token must no longer commit the transition. The
    // hash is recomputed from the identity the preflight attempt stored.
    let device_info = store.attempts[0].fingerprint_json.clone().unwrap_or_default();
    let banned_identity =
        generate_identity_hashes_today(&cfg, "account-id-7", "203.0.113.9", &device_info);
    let bans = vec![Ban {
        id: 1,
        ban_type: BanType::User,
        hash_value: banned_identity.permanent_user_hash.clone(),
        board_id: None,
        post_id: None,
        reason: None,
        created_by: 1,
        created_at: now,
        expires_at: None,
        source_post_id: None,
        source_comment_id: None,
        encrypted_source_email: None,
        encrypted_source_ip: None,
        encrypted_source_device_info: None,
    }];

    let r = level_up_finalize(&mut u, &bans, &store.attempts, &cfg, "jwt-secret", &token,
        10, now);
    match r {
        Err(ServiceError::Forbidden(m)) => assert_eq!(m, ""),
        other => panic!("expected an empty Forbidden, got {:?}", other.is_ok()),
    }
    assert_eq!(u.level, 1);
}

#[test]
fn garbage_token_is_refused() {
    let now = real_now();
    let mut u = user(Role::User);
    let bans: Vec<Ban> = Vec::new();
    let attempts: Vec<niwatori::verification::AttemptRecord> = Vec::new();
    let cfg = IdentityConfig {
        permanent_pepper: String::from("pepper"),
        daily_salt: String::from("salt"),
    };
    let r = level_up_finalize(&mut u, &bans, &attempts, &cfg, "jwt-secret", "not-a-token", 10, now);
    assert!(matches!(r, Err(ServiceError::BadRequest(_))));
}

#[test]
fn finalize_respects_the_maximum_level() {
    let now = real_now();
    let mut u = user(Role::User);
    u.level = 10;
    let bans: Vec<Ban> = Vec::new();
    let attempts: Vec<niwatori::verification::AttemptRecord> = Vec::new();
    let cfg = IdentityConfig {
        permanent_pepper: String::from("pepper"),
        daily_salt: String::from("salt"),
    };
    let token = mint_attestation_token("jwt-secret", "level-up-preflight-passed", 1, now).unwrap();
    let r = level_up_finalize(&mut u, &bans, &attempts, &cfg, "jwt-secret", &token, 10, now);
    assert!(matches!(r, Err(ServiceError::Forbidden(_))));
    assert_eq!(u.level, 10);
}

#[test]
fn missing_attempt_row_is_refused() {
    let now = real_now();
    let mut u = user(Role::User);
    let bans: Vec<Ban> = Vec::new();
    let attempts: Vec<niwatori::verification::AttemptRecord> = Vec::new();
    let cfg = IdentityConfig {
        permanent_pepper: String::from("pepper"),
        daily_salt: String::from("salt"),
    };
    let token = mint_attestation_token("jwt-secret", "level-up-preflight-passed", 42, now).unwrap();
    let r = level_up_finalize(&mut u, &bans, &attempts, &cfg, "jwt-secret", &token, 10, now);
    assert!(matches!(r, Err(ServiceError::BadRequest(_))));
}

#[test]
fn minted_tokens_validate_and_garbage_does_not() {
    let now = real_now();
    let token = mint_attestation_token("jwt-secret", "preflight-passed", 9, now).unwrap();
    let claims = validate_attestation_token("jwt-secret", &token).unwrap();
    assert_eq!(claims.attempt_id, 9);
    assert_eq!(claims.sub, "preflight-passed");
    assert_eq!(claims.exp, now + 300);
    assert!(validate_attestation_token("other-secret", &token).is_err());
    assert!(validate_attestation_token("jwt-secret", "garbage").is_err());
}

#[test]
fn claims_struct_holds_the_payload() {
    let c = LevelUpClaims { exp: 99, sub: String::from("level-up-preflight-passed"), attempt_id: 5 };
    assert_eq!(c.exp, 99);
    assert_eq!(c.attempt_id, 5);
}
