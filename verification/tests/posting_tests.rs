use niwatori::bans::{Ban, BanType};
use niwatori::errors::ServiceError;
use niwatori::identity::{generate_identity_hashes_today, IdentityConfig};
use niwatori::models::Role;
use niwatori::posting::guard_write_action;
use niwatori::rate_limiter::{
    RateLimitActionType, RateLimitRule, RateLimitTarget, RateLimiterState,
};
use niwatori::verification::{
    AttemptStore, FingerprintData, IpReputation, VerificationType,
};

use std::time::{SystemTime, UNIX_EPOCH};

fn config() -> IdentityConfig {
    IdentityConfig {
        permanent_pepper: String::from("pepper"),
        daily_salt: String::from("salt"),
    }
}

fn now_unix() -> i64 {
    SystemTime::now().duration_since(UNIX_EPOCH).unwrap().as_secs() as i64
}

fn fingerprint(tag: &str) -> FingerprintData {
    FingerprintData {
        raw: format!("{{\"tag\":\"{}\"}}", tag),
        webgl: format!("w-{}", tag),
        canvas: format!("c-{}", tag),
        audio: format!("a-{}", tag),
    }
}

struct Tables {
    attempts: AttemptStore,
    bans: Vec<Ban>,
    limiter: RateLimiterState,
}

fn tables() -> Tables {
    Tables {
        attempts: AttemptStore { attempts: Vec::new(), next_id: 1 },
        bans: Vec::new(),
        limiter: RateLimiterState {
            rules: Vec::new(),
            tracker: Vec::new(),
            locks: Vec::new(),
            next_rule_id: 1,
        },
    }
}

fn guard(
    t: &mut Tables,
    role: Role,
    fp: Option<FingerprintData>,
    now: i64,
) -> Result<niwatori::posting::WriteClearance, ServiceError> {
    let reputation: Option<&IpReputation> = None;
    guard_write_action(
        &mut t.attempts,
        &t.bans,
        &mut t.limiter,
        &config(),
        7,
        role,
        false,
        "account-7",
        "203.0.113.9",
        "agent",
        fp,
        VerificationType::CreatePost,
        RateLimitActionType::CreatePost,
        Some(1),
        None,
        reputation,
        false,
        false,
        now,
    )
}

#[test]
fn three_posts_against_a_threshold_three_rule() {
    let mut t = tables();
    t.limiter.rules.push(RateLimitRule {
        id: 1,
        name: String::from("posts per ip"),
        target: RateLimitTarget::IpAddress,
        action_type: RateLimitActionType::CreatePost,
        threshold: 3,
        time_frame_seconds: 600,
        lockout_seconds: 900,
        is_enabled: true,
        created_at: 0,
        updated_at: 0,
        created_by: 1,
    });
    let now = now_unix();

    let first = guard(&mut t, Role::User, None, now).unwrap();
    assert_eq!(first.attempt_id, Some(1));
    assert!(guard(&mut t, Role::User, None, now + 60).is_ok());
    assert_eq!(t.limiter.tracker.len(), 2);

    let third = guard(&mut t, Role::User, None, now + 120);
    assert!(matches!(third, Err(ServiceError::TooManyRequests(_))));
    assert_eq!(t.limiter.locks.len(), 1);
    assert!(t.limiter.locks[0].expires_at > now + 120);
    // The rejected action still persisted its verification attempt.
    assert_eq!(t.attempts.attempts.len(), 3);
}

#[test]
fn a_banned_identity_cannot_post_and_learns_nothing() {
    let mut t = tables();
    let identity = generate_identity_hashes_today(&config(), "account-7", "203.0.113.9", "agent");
    t.bans.push(Ban {
        id: 1,
        ban_type: BanType::Ip,
        hash_value: identity.permanent_ip_hash.clone(),
        board_id: None,
        post_id: None,
        reason: None,
        created_by: 1,
        created_at: 0,
        expires_at: None,
        source_post_id: None,
        source_comment_id: None,
        encrypted_source_email: None,
        encrypted_source_ip: None,
        encrypted_source_device_info: None,
    });
    match guard(&mut t, Role::User, None, now_unix()) {
        Err(ServiceError::Forbidden(m)) => assert_eq!(m, ""),
        _ => panic!("expected the empty Forbidden"),
    }
    // The ban stopped the write after the attempt was recorded, before any
    // rate-limit tracking.
    assert_eq!(t.attempts.attempts.len(), 1);
    assert!(t.limiter.tracker.is_empty());
}

#[test]
fn fingerprint_reuse_blocks_the_second_write() {
    let mut t = tables();
    let now = now_unix();
    assert!(guard(&mut t, Role::User, Some(fingerprint("a")), now).is_ok());
    match guard(&mut t, Role::User, Some(fingerprint("a")), now + 10) {
        Err(ServiceError::Forbidden(m)) => {
            assert_eq!(m, "Fingerprint (3-hash) has been used recently.")
        },
        _ => panic!("expected the fingerprint rejection"),
    }
    assert_eq!(t.attempts.attempts.len(), 2);
    assert!(!t.attempts.attempts[1].is_success);
}

#[test]
fn admins_skip_the_pipeline_entirely() {
    let mut t = tables();
    let c = guard(&mut t, Role::Admin, Some(fingerprint("x")), now_unix()).unwrap();
    assert_eq!(c.attempt_id, None);
    assert!(t.attempts.attempts.is_empty());
    assert!(!c.identity.permanent_user_hash.is_empty());
}
