use niwatori::errors::ServiceError;
use niwatori::models::Role;
use niwatori::rate_limiter::{
    check_and_track_rate_limits, cleanup_rate_limiter_tables, create_rate_limit_rule,
    delete_rate_limit_lock, delete_rate_limit_rule, get_active_rate_limit_locks,
    get_all_target_keys, get_target_key_for_rule, toggle_rate_limit_rule,
    update_rate_limit_rule, CreateRateLimitRuleRequest, RateLimitActionType, RateLimitRule,
    RateLimitTarget, RateLimiterState,
};

fn empty_state() -> RateLimiterState {
    RateLimiterState { rules: Vec::new(), tracker: Vec::new(), locks: Vec::new(), next_rule_id: 1 }
}

fn rule(
    id: i32,
    target: RateLimitTarget,
    action: RateLimitActionType,
    threshold: i32,
    window: i32,
    lockout: i32,
) -> RateLimitRule {
    RateLimitRule {
        id,
        name: String::from("rule"),
        target,
        action_type: action,
        threshold,
        time_frame_seconds: window,
        lockout_seconds: lockout,
        is_enabled: true,
        created_at: 0,
        updated_at: 0,
        created_by: 1,
    }
}

fn act(state: &mut RateLimiterState, now: i64) -> Result<(), ServiceError> {
    check_and_track_rate_limits(
        state,
        7,
        "iphash",
        "devhash",
        RateLimitActionType::CreatePost,
        Role::User,
        false,
        now,
    )
}

#[test]
fn target_keys_are_dimension_tagged() {
    assert_eq!(get_target_key_for_rule(&RateLimitTarget::UserId, 7, "ih", "dh"), "user:7");
    assert_eq!(get_target_key_for_rule(&RateLimitTarget::IpAddress, 7, "ih", "dh"), "ip:ih");
    assert_eq!(get_target_key_for_rule(&RateLimitTarget::DeviceId, 7, "ih", "dh"), "device:dh");
    assert_eq!(get_target_key_for_rule(&RateLimitTarget::UserAndIp, 7, "ih", "dh"), "user_ip:7:ih");
    assert_eq!(
        get_target_key_for_rule(&RateLimitTarget::UserAndDevice, 7, "ih", "dh"),
        "user_device:7:dh"
    );
    assert_eq!(
        get_target_key_for_rule(&RateLimitTarget::IpAndDevice, 7, "ih", "dh"),
        "ip_device:ih:dh"
    );
    assert_eq!(get_target_key_for_rule(&RateLimitTarget::All, 7, "ih", "dh"), "all:7:ih:dh");
    assert_eq!(get_target_key_for_rule(&RateLimitTarget::UserId, -5, "ih", "dh"), "user:-5");
    assert_eq!(get_all_target_keys(7, "ih", "dh").len(), 7);
}

#[test]
fn threshold_three_rejects_the_third_action_and_locks() {
    let mut state = empty_state();
    state.rules.push(rule(1, RateLimitTarget::IpAddress, RateLimitActionType::CreatePost, 3, 60, 300));

    assert!(act(&mut state, 1_000).is_ok());
    assert!(act(&mut state, 1_010).is_ok());
    assert_eq!(state.tracker.len(), 2);
    assert!(state.locks.is_empty());

    let third = act(&mut state, 1_020);
    assert!(matches!(third, Err(ServiceError::TooManyRequests(_))));
    assert_eq!(state.tracker.len(), 2);
    assert_eq!(state.locks.len(), 1);
    assert_eq!(state.locks[0].target_key, "ip:iphash");
    assert_eq!(state.locks[0].expires_at, 1_320);

    // Even after the tracker window has lapsed, the lock fast-path rejects.
    let fourth = act(&mut state, 1_200);
    assert!(matches!(fourth, Err(ServiceError::TooManyRequests(_))));
    assert_eq!(state.tracker.len(), 2);
}

#[test]
fn lock_under_one_dimension_blocks_other_dimensions() {
    let mut state = empty_state();
    state.rules.push(rule(1, RateLimitTarget::UserId, RateLimitActionType::CreatePost, 2, 60, 600));
    // One action through; the next would be the second and trips the rule.
    assert!(act(&mut state, 10).is_ok());
    assert!(act(&mut state, 20).is_err());
    assert_eq!(state.locks[0].target_key, "user:7");
    // A different rule dimension would now also be stopped by the fast-path.
    state.rules.clear();
    state.rules.push(rule(2, RateLimitTarget::IpAddress, RateLimitActionType::CreatePost, 9, 60, 600));
    assert!(act(&mut state, 30).is_err());
}

#[test]
fn expired_lock_no_longer_blocks() {
    let mut state = empty_state();
    state.rules.push(rule(1, RateLimitTarget::IpAddress, RateLimitActionType::CreatePost, 3, 60, 100));
    act(&mut state, 0).unwrap();
    act(&mut state, 1).unwrap();
    assert!(act(&mut state, 2).is_err());
    // Lock expires at 102; the old tracker events are outside the window too.
    assert!(act(&mut state, 200).is_ok());
}

#[test]
fn rules_of_other_action_types_do_not_count() {
    let mut state = empty_state();
    state.rules.push(rule(1, RateLimitTarget::IpAddress, RateLimitActionType::CreateComment, 1, 60, 600));
    assert!(act(&mut state, 0).is_ok());
    assert!(act(&mut state, 1).is_ok());
    assert!(state.tracker.is_empty());
}

#[test]
fn disabled_rules_do_not_count() {
    let mut state = empty_state();
    let mut r = rule(1, RateLimitTarget::IpAddress, RateLimitActionType::CreatePost, 1, 60, 600);
    r.is_enabled = false;
    state.rules.push(r);
    assert!(act(&mut state, 0).is_ok());
    assert!(act(&mut state, 1).is_ok());
    assert!(state.tracker.is_empty());
}

#[test]
fn exempt_admin_bypasses_even_an_active_lock() {
    let mut state = empty_state();
    state.rules.push(rule(1, RateLimitTarget::UserId, RateLimitActionType::CreatePost, 2, 60, 600));
    act(&mut state, 0).unwrap();
    assert!(act(&mut state, 1).is_err());
    let r = check_and_track_rate_limits(
        &mut state,
        7,
        "iphash",
        "devhash",
        RateLimitActionType::CreatePost,
        Role::Admin,
        true,
        2,
    );
    assert!(r.is_ok());
}

#[test]
fn each_applicable_rule_records_one_event() {
    let mut state = empty_state();
    state.rules.push(rule(1, RateLimitTarget::UserId, RateLimitActionType::CreatePost, 9, 60, 600));
    state.rules.push(rule(2, RateLimitTarget::IpAddress, RateLimitActionType::CreatePost, 9, 60, 600));
    act(&mut state, 5).unwrap();
    assert_eq!(state.tracker.len(), 2);
    assert_eq!(state.tracker[0].rule_id, 1);
    assert_eq!(state.tracker[0].target_key, "user:7");
    assert_eq!(state.tracker[1].rule_id, 2);
    assert_eq!(state.tracker[1].target_key, "ip:iphash");
    assert_eq!(state.tracker[1].created_at, 5);
}

#[test]
fn repeated_trigger_refreshes_the_lock_expiry() {
    let mut state = empty_state();
    state.rules.push(rule(1, RateLimitTarget::IpAddress, RateLimitActionType::CreatePost, 2, 1_000, 50));
    act(&mut state, 0).unwrap();
    assert!(act(&mut state, 10).is_err());
    assert_eq!(state.locks[0].expires_at, 60);
    // After the lock lapses the window still holds the event, so the rule
    // triggers again and the same lock row gets the fresh expiry.
    assert!(act(&mut state, 70).is_err());
    assert_eq!(state.locks.len(), 1);
    assert_eq!(state.locks[0].expires_at, 120);
}

#[test]
fn rule_crud_is_admin_only_and_validated() {
    let mut state = empty_state();
    let req = CreateRateLimitRuleRequest {
        name: String::from("posts per ip"),
        target: RateLimitTarget::IpAddress,
        action_type: RateLimitActionType::CreatePost,
        threshold: 3,
        time_frame_seconds: 600,
        lockout_seconds: 900,
        is_enabled: true,
    };
    assert!(matches!(
        create_rate_limit_rule(&mut state, Role::User, 4, &req, 100),
        Err(ServiceError::Unauthorized)
    ));
    let id = create_rate_limit_rule(&mut state, Role::Admin, 4, &req, 100).unwrap();
    assert_eq!(id, 1);
    assert_eq!(state.rules.len(), 1);
    assert_eq!(state.rules[0].name, "posts per ip");

    let mut bad = CreateRateLimitRuleRequest { threshold: 0, ..req };
    bad.name = String::from("x");
    assert!(matches!(
        create_rate_limit_rule(&mut state, Role::Admin, 4, &bad, 100),
        Err(ServiceError::ValidationFailed(_))
    ));

    toggle_rate_limit_rule(&mut state, Role::Admin, 1, 200).unwrap();
    assert!(!state.rules[0].is_enabled);
    assert_eq!(state.rules[0].updated_at, 200);

    let update = CreateRateLimitRuleRequest {
        name: String::from("renamed"),
        target: RateLimitTarget::UserId,
        action_type: RateLimitActionType::CreateComment,
        threshold: 5,
        time_frame_seconds: 60,
        lockout_seconds: 60,
        is_enabled: true,
    };
    update_rate_limit_rule(&mut state, Role::Admin, 1, &update, 300).unwrap();
    assert_eq!(state.rules[0].name, "renamed");
    assert_eq!(state.rules[0].threshold, 5);
    assert!(matches!(
        update_rate_limit_rule(&mut state, Role::Admin, 42, &update, 300),
        Err(ServiceError::NotFound(_))
    ));
}

#[test]
fn deleting_a_rule_drops_its_locks() {
    let mut state = empty_state();
    state.rules.push(rule(1, RateLimitTarget::IpAddress, RateLimitActionType::CreatePost, 2, 60, 600));
    act(&mut state, 0).unwrap();
    assert!(act(&mut state, 1).is_err());
    assert_eq!(state.locks.len(), 1);
    delete_rate_limit_rule(&mut state, Role::Admin, 1).unwrap();
    assert!(state.rules.is_empty());
    assert!(state.locks.is_empty());
}

#[test]
fn lock_listing_and_manual_release() {
    let mut state = empty_state();
    state.rules.push(rule(1, RateLimitTarget::IpAddress, RateLimitActionType::CreatePost, 2, 60, 600));
    act(&mut state, 0).unwrap();
    assert!(act(&mut state, 1).is_err());

    let active = get_active_rate_limit_locks(&state, Role::Admin, 2).unwrap();
    assert_eq!(active.len(), 1);
    assert_eq!(active[0].target_key, "ip:iphash");
    let later = get_active_rate_limit_locks(&state, Role::Admin, 10_000).unwrap();
    assert!(later.is_empty());

    assert!(matches!(
        delete_rate_limit_lock(&mut state, Role::Admin, "no-such-key"),
        Err(ServiceError::NotFound(_))
    ));
    delete_rate_limit_lock(&mut state, Role::Admin, "ip:iphash").unwrap();
    assert!(state.locks.is_empty());
    // With the lock lifted (and the window lapsed) the actor may act again.
    assert!(act(&mut state, 5_000).is_ok());
}

#[test]
fn three_posts_within_ten_minutes_trip_a_threshold_three_rule() {
    let mut state = empty_state();
    state.rules.push(rule(1, RateLimitTarget::IpAddress, RateLimitActionType::CreatePost, 3, 600, 900));
    assert!(act(&mut state, 0).is_ok());
    assert!(act(&mut state, 60).is_ok());
    let third = act(&mut state, 120);
    match third {
        Err(ServiceError::TooManyRequests(m)) => assert!(!m.is_empty()),
        _ => panic!("expected the third post to be rate limited"),
    }
    assert_eq!(state.locks.len(), 1);
    assert!(state.locks[0].expires_at > 120);
    assert_eq!(state.locks[0].expires_at, 1_020);
}

#[test]
fn cleanup_uses_twice_the_widest_window() {
    let mut state = empty_state();
    state.rules.push(rule(1, RateLimitTarget::IpAddress, RateLimitActionType::CreatePost, 9, 100, 50));
    act(&mut state, 0).unwrap();
    act(&mut state, 950).unwrap();
    state.locks.push(niwatori::rate_limiter::RateLimitLock {
        rule_id: 1,
        target_key: String::from("ip:old"),
        expires_at: 500,
    });
    cleanup_rate_limiter_tables(&mut state, 1_000);
    // Retention horizon is 1000 - 2*100 = 800: the event at 0 goes, 950 stays.
    assert_eq!(state.tracker.len(), 1);
    assert_eq!(state.tracker[0].created_at, 950);
    // The lock expired at 500 and is swept.
    assert!(state.locks.is_empty());
}
