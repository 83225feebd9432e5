//! Rule-driven sliding-window rate limiter with lockouts: dimension-tagged
//! target keys, a tracker of past actions, a lock table for fast rejection,
//! and the admin operations on the rule set.

use vstd::prelude::*;

use crate::crypto::{i64_str_of, i64_to_string, push_char};
use crate::errors::{ServiceError, ValidationIssue};
use crate::models::Role;
use crate::text::str_eq;
use vstd::string::{StrSliceExecFns, StringExecFns};

verus! {

/// The write action a rule throttles.
#[derive(Clone, Copy, PartialEq, Eq, Structural, Debug)]
pub enum RateLimitActionType {
    CreateBoard,
    CreatePost,
    CreateComment,
    SearchHistory,
}

/// The dimension (or combination) of the actor a rule counts by.
#[derive(Clone, Copy, PartialEq, Eq, Structural, Debug)]
pub enum RateLimitTarget {
    UserId,
    IpAddress,
    DeviceId,
    UserAndIp,
    UserAndDevice,
    IpAndDevice,
    All,
}

/// One admin-configured rule: reject the action that would be the
/// `threshold`-th within `time_frame_seconds`, and lock the target out for
/// `lockout_seconds`.
pub struct RateLimitRule {
    pub id: i32,
    pub name: String,
    pub target: RateLimitTarget,
    pub action_type: RateLimitActionType,
    pub threshold: i32,
    pub time_frame_seconds: i32,
    pub lockout_seconds: i32,
    pub is_enabled: bool,
    pub created_at: i64,
    pub updated_at: i64,
    pub created_by: i32,
}

/// What an admin submits to create or update a rule.
pub struct CreateRateLimitRuleRequest {
    pub name: String,
    pub target: RateLimitTarget,
    pub action_type: RateLimitActionType,
    pub threshold: i32,
    pub time_frame_seconds: i32,
    pub lockout_seconds: i32,
    pub is_enabled: bool,
}

/// One counted action: which rule counted it, under which target key, when.
#[verifier::ext_equal]
pub struct TrackerEvent {
    pub rule_id: i32,
    pub target_key: String,
    pub created_at: i64,
}

/// One lockout: the key it holds, the rule that created it, and when it
/// lapses. At most one lock exists per target key.
#[verifier::ext_equal]
pub struct RateLimitLock {
    pub rule_id: i32,
    pub target_key: String,
    pub expires_at: i64,
}

/// The limiter's persisted state: rules, tracker events and locks, with the
/// id the next rule takes.
pub struct RateLimiterState {
    pub rules: Vec<RateLimitRule>,
    pub tracker: Vec<TrackerEvent>,
    pub locks: Vec<RateLimitLock>,
    pub next_rule_id: i32,
}

/// Timestamps the limiter accepts: far past any realistic clock, small
/// enough that adding an `i32` number of seconds cannot overflow an `i64`.
pub const MAX_TIMESTAMP: i64 = 0x4000_0000_0000_0000;

/// The stable, dimension-tagged key a rule tracks an actor under. Each
/// dimension prefixes its own tag, so keys of different dimensions cannot
/// collide.
pub open spec fn spec_target_key(
    target: RateLimitTarget,
    user_id: i32,
    ip_hash: Seq<char>,
    device_hash: Seq<char>,
) -> Seq<char> {
    match target {
        RateLimitTarget::UserId => "user:"@ + i64_str_of(user_id as int),
        RateLimitTarget::IpAddress => "ip:"@ + ip_hash,
        RateLimitTarget::DeviceId => "device:"@ + device_hash,
        RateLimitTarget::UserAndIp => "user_ip:"@ + i64_str_of(user_id as int) + seq![':']
            + ip_hash,
        RateLimitTarget::UserAndDevice => "user_device:"@ + i64_str_of(user_id as int) + seq![':']
            + device_hash,
        RateLimitTarget::IpAndDevice => "ip_device:"@ + ip_hash + seq![':'] + device_hash,
        RateLimitTarget::All => "all:"@ + i64_str_of(user_id as int) + seq![':'] + ip_hash
            + seq![':'] + device_hash,
    }
}

/// Law: target keys are collision-free across dimensions. Whatever the
/// actor, keys built for two different dimensions always differ, because
/// each key opens with its own dimension tag.
pub proof fn lemma_target_keys_collision_free(
    t1: RateLimitTarget,
    t2: RateLimitTarget,
    user_id: i32,
    ip_hash: Seq<char>,
    device_hash: Seq<char>,
)
    requires
        t1 != t2,
    ensures
        spec_target_key(t1, user_id, ip_hash, device_hash) != spec_target_key(
            t2,
            user_id,
            ip_hash,
            device_hash,
        ),
{
    reveal_strlit("user:");
    reveal_strlit("ip:");
    reveal_strlit("device:");
    reveal_strlit("user_ip:");
    reveal_strlit("user_device:");
    reveal_strlit("ip_device:");
    reveal_strlit("all:");
    let ku = spec_target_key(RateLimitTarget::UserId, user_id, ip_hash, device_hash);
    let ki = spec_target_key(RateLimitTarget::IpAddress, user_id, ip_hash, device_hash);
    let kd = spec_target_key(RateLimitTarget::DeviceId, user_id, ip_hash, device_hash);
    let kui = spec_target_key(RateLimitTarget::UserAndIp, user_id, ip_hash, device_hash);
    let kud = spec_target_key(RateLimitTarget::UserAndDevice, user_id, ip_hash, device_hash);
    let kid = spec_target_key(RateLimitTarget::IpAndDevice, user_id, ip_hash, device_hash);
    let ka = spec_target_key(RateLimitTarget::All, user_id, ip_hash, device_hash);
    assert(ku[0] == 'u' && ku[4] == ':');
    assert(ki[0] == 'i' && ki[2] == ':');
    assert(kd[0] == 'd');
    assert(kui[0] == 'u' && kui[4] == '_' && kui[5] == 'i');
    assert(kud[0] == 'u' && kud[4] == '_' && kud[5] == 'd');
    assert(kid[0] == 'i' && kid[2] == '_');
    assert(ka[0] == 'a');
}

/// The keys of all seven dimensions for one actor, in declaration order.
pub open spec fn spec_all_target_keys(
    user_id: i32,
    ip_hash: Seq<char>,
    device_hash: Seq<char>,
) -> Seq<Seq<char>> {
    seq![
        spec_target_key(RateLimitTarget::UserId, user_id, ip_hash, device_hash),
        spec_target_key(RateLimitTarget::IpAddress, user_id, ip_hash, device_hash),
        spec_target_key(RateLimitTarget::DeviceId, user_id, ip_hash, device_hash),
        spec_target_key(RateLimitTarget::UserAndIp, user_id, ip_hash, device_hash),
        spec_target_key(RateLimitTarget::UserAndDevice, user_id, ip_hash, device_hash),
        spec_target_key(RateLimitTarget::IpAndDevice, user_id, ip_hash, device_hash),
        spec_target_key(RateLimitTarget::All, user_id, ip_hash, device_hash),
    ]
}

/// Builds the key a rule's dimension tracks this actor under.
pub fn get_target_key_for_rule(
    target: &RateLimitTarget,
    user_id: i32,
    ip_hash: &str,
    device_hash: &str,
) -> (r: String)
    ensures
        r@ == spec_target_key(*target, user_id, ip_hash@, device_hash@),
{
    match target {
        RateLimitTarget::UserId => {
            let mut s = String::from_str("user:");
            let id = i64_to_string(user_id as i64);
            s.append(id.as_str());
            s
        },
        RateLimitTarget::IpAddress => {
            let mut s = String::from_str("ip:");
            s.append(ip_hash);
            s
        },
        RateLimitTarget::DeviceId => {
            let mut s = String::from_str("device:");
            s.append(device_hash);
            s
        },
        RateLimitTarget::UserAndIp => {
            let mut s = String::from_str("user_ip:");
            let id = i64_to_string(user_id as i64);
            s.append(id.as_str());
            push_char(&mut s, ':');
            s.append(ip_hash);
            proof {
                assert(s@ =~= spec_target_key(*target, user_id, ip_hash@, device_hash@));
            }
            s
        },
        RateLimitTarget::UserAndDevice => {
            let mut s = String::from_str("user_device:");
            let id = i64_to_string(user_id as i64);
            s.append(id.as_str());
            push_char(&mut s, ':');
            s.append(device_hash);
            proof {
                assert(s@ =~= spec_target_key(*target, user_id, ip_hash@, device_hash@));
            }
            s
        },
        RateLimitTarget::IpAndDevice => {
            let mut s = String::from_str("ip_device:");
            s.append(ip_hash);
            push_char(&mut s, ':');
            s.append(device_hash);
            proof {
                assert(s@ =~= spec_target_key(*target, user_id, ip_hash@, device_hash@));
            }
            s
        },
        RateLimitTarget::All => {
            let mut s = String::from_str("all:");
            let id = i64_to_string(user_id as i64);
            s.append(id.as_str());
            push_char(&mut s, ':');
            s.append(ip_hash);
            push_char(&mut s, ':');
            s.append(device_hash);
            proof {
                assert(s@ =~= spec_target_key(*target, user_id, ip_hash@, device_hash@));
            }
            s
        },
    }
}

/// All seven keys one actor can be locked under, in declaration order. The
/// lock fast-path checks every one, so a lock created under one dimension
/// also stops actions judged under another.
pub fn get_all_target_keys(user_id: i32, ip_hash: &str, device_hash: &str) -> (r: Vec<String>)
    ensures
        r@.len() == 7,
        forall|i: int|
            0 <= i < 7 ==> r@[i]@ == spec_all_target_keys(user_id, ip_hash@, device_hash@)[i],
{
    let mut keys: Vec<String> = Vec::new();
    keys.push(get_target_key_for_rule(&RateLimitTarget::UserId, user_id, ip_hash, device_hash));
    keys.push(get_target_key_for_rule(&RateLimitTarget::IpAddress, user_id, ip_hash, device_hash));
    keys.push(get_target_key_for_rule(&RateLimitTarget::DeviceId, user_id, ip_hash, device_hash));
    keys.push(get_target_key_for_rule(&RateLimitTarget::UserAndIp, user_id, ip_hash, device_hash));
    keys.push(
        get_target_key_for_rule(&RateLimitTarget::UserAndDevice, user_id, ip_hash, device_hash),
    );
    keys.push(
        get_target_key_for_rule(&RateLimitTarget::IpAndDevice, user_id, ip_hash, device_hash),
    );
    keys.push(get_target_key_for_rule(&RateLimitTarget::All, user_id, ip_hash, device_hash));
    keys
}

/// The bounds a rule request must meet: a name of 1 to 255 characters and
/// positive threshold, window and lockout.
pub open spec fn spec_rule_request_valid(data: CreateRateLimitRuleRequest) -> bool {
    &&& 1 <= data.name@.len() <= 255
    &&& data.threshold >= 1
    &&& data.time_frame_seconds >= 1
    &&& data.lockout_seconds >= 1
}

/// Validates a rule request's bounds.
pub fn validate_rule_request(data: &CreateRateLimitRuleRequest) -> (r: Result<(), ServiceError>)
    ensures
        r is Ok <==> spec_rule_request_valid(*data),
        r matches Err(e) ==> e is ValidationFailed,
{
    let mut issues: Vec<ValidationIssue> = Vec::new();
    let name_len = data.name.as_str().unicode_len();
    if name_len < 1 || name_len > 255 {
        issues.push(
            ValidationIssue {
                field: String::from_str("name"),
                message: String::from_str("A rule name must be 1 to 255 characters."),
            },
        );
    }
    if data.threshold < 1 {
        issues.push(
            ValidationIssue {
                field: String::from_str("threshold"),
                message: String::from_str("The threshold must be at least 1."),
            },
        );
    }
    if data.time_frame_seconds < 1 {
        issues.push(
            ValidationIssue {
                field: String::from_str("time_frame_seconds"),
                message: String::from_str("The time frame must be at least 1 second."),
            },
        );
    }
    if data.lockout_seconds < 1 {
        issues.push(
            ValidationIssue {
                field: String::from_str("lockout_seconds"),
                message: String::from_str("The lockout must be at least 1 second."),
            },
        );
    }
    if issues.len() == 0 {
        Ok(())
    } else {
        Err(ServiceError::ValidationFailed(issues))
    }
}

/// The fields a stored rule takes from a request.
pub open spec fn spec_rule_from_request(
    rule: RateLimitRule,
    id: i32,
    data: CreateRateLimitRuleRequest,
    created_at: i64,
    updated_at: i64,
    created_by: i32,
) -> bool {
    &&& rule.id == id
    &&& rule.name@ == data.name@
    &&& rule.target == data.target
    &&& rule.action_type == data.action_type
    &&& rule.threshold == data.threshold
    &&& rule.time_frame_seconds == data.time_frame_seconds
    &&& rule.lockout_seconds == data.lockout_seconds
    &&& rule.is_enabled == data.is_enabled
    &&& rule.created_at == created_at
    &&& rule.updated_at == updated_at
    &&& rule.created_by == created_by
}

/// Creates a rule. Admin-only; the request must meet the bounds; on refusal
/// the state is untouched. Returns the new rule's id.
pub fn create_rate_limit_rule(
    state: &mut RateLimiterState,
    role: Role,
    user_id: i32,
    data: &CreateRateLimitRuleRequest,
    now: i64,
) -> (r: Result<i32, ServiceError>)
    requires
        old(state).next_rule_id < i32::MAX,
    ensures
        final(state).tracker@ == old(state).tracker@,
        final(state).locks@ == old(state).locks@,
        r is Err ==> final(state).rules@ == old(state).rules@ && final(state).next_rule_id == old(
            state,
        ).next_rule_id,
        !(role is Admin) ==> (r matches Err(e) && e is Unauthorized),
        role is Admin && !spec_rule_request_valid(*data) ==> (r matches Err(e)
            && e is ValidationFailed),
        role is Admin && spec_rule_request_valid(*data) ==> {
            &&& r == Result::<i32, ServiceError>::Ok(old(state).next_rule_id)
            &&& final(state).next_rule_id == old(state).next_rule_id + 1
            &&& final(state).rules@.len() == old(state).rules@.len() + 1
            &&& final(state).rules@.drop_last() == old(state).rules@
            &&& spec_rule_from_request(
                final(state).rules@.last(),
                old(state).next_rule_id,
                *data,
                now,
                now,
                user_id,
            )
        },
{
    if !matches!(role, Role::Admin) {
        return Err(ServiceError::Unauthorized);
    }
    if let Err(e) = validate_rule_request(data) {
        return Err(e);
    }
    let id = state.next_rule_id;
    let rule = RateLimitRule {
        id,
        name: data.name.clone(),
        target: data.target,
        action_type: data.action_type,
        threshold: data.threshold,
        time_frame_seconds: data.time_frame_seconds,
        lockout_seconds: data.lockout_seconds,
        is_enabled: data.is_enabled,
        created_at: now,
        updated_at: now,
        created_by: user_id,
    };
    state.rules.push(rule);
    state.next_rule_id = state.next_rule_id + 1;
    proof {
        assert(final(state).rules@.drop_last() =~= old(state).rules@);
    }
    Ok(id)
}

/// Updates the rule with the given id from a request. Admin-only; `NotFound`
/// where no rule has the id; on refusal the state is untouched.
#[verifier::loop_isolation(false)]
pub fn update_rate_limit_rule(
    state: &mut RateLimiterState,
    role: Role,
    rule_id: i32,
    data: &CreateRateLimitRuleRequest,
    now: i64,
) -> (r: Result<(), ServiceError>)
    ensures
        final(state).tracker@ == old(state).tracker@,
        final(state).locks@ == old(state).locks@,
        final(state).next_rule_id == old(state).next_rule_id,
        r is Err ==> final(state).rules@ == old(state).rules@,
        !(role is Admin) ==> (r matches Err(e) && e is Unauthorized),
        role is Admin && !spec_rule_request_valid(*data) ==> (r matches Err(e)
            && e is ValidationFailed),
        role is Admin && spec_rule_request_valid(*data) && !(exists|i: int|
            0 <= i < old(state).rules@.len() && old(state).rules@[i].id == rule_id) ==> (
        r matches Err(e) && e is NotFound),
        role is Admin && spec_rule_request_valid(*data) && (exists|i: int|
            0 <= i < old(state).rules@.len() && old(state).rules@[i].id == rule_id) ==> r is Ok,
        r is Ok ==> exists|i: int|
            {
                &&& 0 <= i < old(state).rules@.len()
                &&& old(state).rules@[i].id == rule_id
                &&& final(state).rules@ == old(state).rules@.update(i, final(state).rules@[i])
                &&& spec_rule_from_request(
                    final(state).rules@[i],
                    rule_id,
                    *data,
                    old(state).rules@[i].created_at,
                    now,
                    old(state).rules@[i].created_by,
                )
            },
{
    if !matches!(role, Role::Admin) {
        return Err(ServiceError::Unauthorized);
    }
    if let Err(e) = validate_rule_request(data) {
        return Err(e);
    }
    let n = state.rules.len();
    let mut i: usize = 0;
    while i < n
        invariant
            n == state.rules@.len(),
            i <= n,
            *state == *old(state),
            forall|j: int| 0 <= j < i ==> old(state).rules@[j].id != rule_id,
        decreases n - i,
    {
        if state.rules[i].id == rule_id {
            let created_at = state.rules[i].created_at;
            let created_by = state.rules[i].created_by;
            let rule = RateLimitRule {
                id: rule_id,
                name: data.name.clone(),
                target: data.target,
                action_type: data.action_type,
                threshold: data.threshold,
                time_frame_seconds: data.time_frame_seconds,
                lockout_seconds: data.lockout_seconds,
                is_enabled: data.is_enabled,
                created_at,
                updated_at: now,
                created_by,
            };
            state.rules.set(i, rule);
            return Ok(());
        }
        i = i + 1;
    }
    Err(ServiceError::NotFound(String::from_str("Rule not found")))
}

/// Flips a rule's enabled flag. Admin-only; `NotFound` where no rule has the
/// id.
#[verifier::loop_isolation(false)]
pub fn toggle_rate_limit_rule(
    state: &mut RateLimiterState,
    role: Role,
    rule_id: i32,
    now: i64,
) -> (r: Result<(), ServiceError>)
    ensures
        final(state).tracker@ == old(state).tracker@,
        final(state).locks@ == old(state).locks@,
        final(state).next_rule_id == old(state).next_rule_id,
        r is Err ==> final(state).rules@ == old(state).rules@,
        !(role is Admin) ==> (r matches Err(e) && e is Unauthorized),
        role is Admin && !(exists|i: int|
            0 <= i < old(state).rules@.len() && old(state).rules@[i].id == rule_id) ==> (
        r matches Err(e) && e is NotFound),
        role is Admin && (exists|i: int|
            0 <= i < old(state).rules@.len() && old(state).rules@[i].id == rule_id) ==> r is Ok,
        r is Ok ==> exists|i: int| spec_rule_toggled(old(state).rules@, final(state).rules@, i, rule_id, now),
{
    if !matches!(role, Role::Admin) {
        return Err(ServiceError::Unauthorized);
    }
    let n = state.rules.len();
    let mut i: usize = 0;
    while i < n
        invariant
            n == state.rules@.len(),
            i <= n,
            *state == *old(state),
            forall|j: int| 0 <= j < i ==> old(state).rules@[j].id != rule_id,
        decreases n - i,
    {
        if state.rules[i].id == rule_id {
            let was_enabled = state.rules[i].is_enabled;
            let created_at = state.rules[i].created_at;
            let created_by = state.rules[i].created_by;
            let name = state.rules[i].name.clone();
            let target = state.rules[i].target;
            let action_type = state.rules[i].action_type;
            let threshold = state.rules[i].threshold;
            let time_frame_seconds = state.rules[i].time_frame_seconds;
            let lockout_seconds = state.rules[i].lockout_seconds;
            let rule = RateLimitRule {
                id: rule_id,
                name,
                target,
                action_type,
                threshold,
                time_frame_seconds,
                lockout_seconds,
                is_enabled: !was_enabled,
                created_at,
                updated_at: now,
                created_by,
            };
            state.rules.set(i, rule);
            proof {
                assert(spec_rule_toggled(
                    old(state).rules@,
                    state.rules@,
                    i as int,
                    rule_id,
                    now,
                ));
            }
            return Ok(());
        }
        i = i + 1;
    }
    Err(ServiceError::NotFound(String::from_str("Rule not found")))
}

/// One freshly recorded tracker event: the rule that counted the action,
/// the actor's key under that rule's dimension, and the moment of action.
pub open spec fn spec_counted_event(
    e: TrackerEvent,
    rule: RateLimitRule,
    user_id: i32,
    ip_hash: Seq<char>,
    device_hash: Seq<char>,
    now: i64,
) -> bool {
    &&& e.rule_id == rule.id
    &&& e.target_key@ == spec_target_key(rule.target, user_id, ip_hash, device_hash)
    &&& e.created_at == now
}

/// Whether a lock still holds at `now`.
pub open spec fn spec_lock_active(l: RateLimitLock, now: int) -> bool {
    l.expires_at > now
}

/// Whether any unexpired lock holds any of the given keys.
pub open spec fn spec_locked(
    locks: Seq<RateLimitLock>,
    keys: Seq<Seq<char>>,
    now: int,
) -> bool {
    exists|i: int, j: int|
        0 <= i < locks.len() && 0 <= j < keys.len() && locks[i].target_key@ == keys[j]
            && spec_lock_active(locks[i], now)
}

/// Whether a rule takes part in judging this action.
pub open spec fn spec_rule_applies(rule: RateLimitRule, action_type: RateLimitActionType) -> bool {
    rule.is_enabled && rule.action_type == action_type
}

/// How many counted events a rule has for a key strictly inside the window.
pub open spec fn spec_window_count(
    tracker: Seq<TrackerEvent>,
    rule_id: i32,
    key: Seq<char>,
    window_start: int,
) -> int
    decreases tracker.len(),
{
    if tracker.len() == 0 {
        0
    } else {
        spec_window_count(tracker.drop_last(), rule_id, key, window_start) + if tracker.last().rule_id
            == rule_id && tracker.last().target_key@ == key && tracker.last().created_at
            > window_start {
            1int
        } else {
            0int
        }
    }
}

/// Whether this action would be the `threshold`-th inside the rule's
/// window: counting it on top of the recorded events reaches the
/// threshold, so it is rejected, and only the `threshold - 1` prior
/// actions went through.
pub open spec fn spec_rule_triggers(
    tracker: Seq<TrackerEvent>,
    rule: RateLimitRule,
    user_id: i32,
    ip_hash: Seq<char>,
    device_hash: Seq<char>,
    now: int,
) -> bool {
    spec_window_count(
        tracker,
        rule.id,
        spec_target_key(rule.target, user_id, ip_hash, device_hash),
        now - rule.time_frame_seconds,
    ) + 1 >= rule.threshold
}

/// The first applicable rule, at or after index `i`, whose window is full.
pub open spec fn spec_first_triggered(
    tracker: Seq<TrackerEvent>,
    rules: Seq<RateLimitRule>,
    action_type: RateLimitActionType,
    user_id: i32,
    ip_hash: Seq<char>,
    device_hash: Seq<char>,
    now: int,
    i: int,
) -> Option<int>
    decreases rules.len() - i,
{
    if i < 0 || i >= rules.len() {
        None
    } else if spec_rule_applies(rules[i], action_type) && spec_rule_triggers(
        tracker,
        rules[i],
        user_id,
        ip_hash,
        device_hash,
        now,
    ) {
        Some(i)
    } else {
        spec_first_triggered(
            tracker,
            rules,
            action_type,
            user_id,
            ip_hash,
            device_hash,
            now,
            i + 1,
        )
    }
}

/// What an insert-or-refresh of a lock leaves behind: where some lock
/// already holds the key, only its expiry moves; otherwise a fresh lock for
/// the triggering rule is appended.
pub open spec fn spec_lock_upserted(
    old_locks: Seq<RateLimitLock>,
    new_locks: Seq<RateLimitLock>,
    rule_id: i32,
    key: Seq<char>,
    expires_at: i64,
) -> bool {
    if exists|j: int| 0 <= j < old_locks.len() && old_locks[j].target_key@ == key {
        exists|j: int|
            {
                &&& 0 <= j < old_locks.len()
                &&& old_locks[j].target_key@ == key
                &&& (forall|j2: int| 0 <= j2 < j ==> old_locks[j2].target_key@ != key)
                &&& new_locks == old_locks.update(j, new_locks[j])
                &&& new_locks[j].rule_id == old_locks[j].rule_id
                &&& new_locks[j].target_key@ == old_locks[j].target_key@
                &&& new_locks[j].expires_at == expires_at
            }
    } else {
        &&& new_locks.len() == old_locks.len() + 1
        &&& new_locks.drop_last() == old_locks
        &&& new_locks.last().rule_id == rule_id
        &&& new_locks.last().target_key@ == key
        &&& new_locks.last().expires_at == expires_at
    }
}

/// Whether any of the actor's keys carries an unexpired lock.
fn find_active_lock(locks: &Vec<RateLimitLock>, keys: &Vec<String>, now: i64) -> (r: bool)
    ensures
        r == spec_locked(locks@, keys@.map_values(|s: String| s@), now as int),
{
    let ghost key_views = keys@.map_values(|s: String| s@);
    let n = locks.len();
    let m = keys.len();
    let mut i: usize = 0;
    while i < n
        invariant
            n == locks@.len(),
            m == keys@.len(),
            i <= n,
            key_views == keys@.map_values(|s: String| s@),
            forall|a: int, b: int|
                0 <= a < i && 0 <= b < m ==> !(locks@[a].target_key@ == key_views[b]
                    && spec_lock_active(locks@[a], now as int)),
        decreases n - i,
    {
        if locks[i].expires_at > now {
            let mut j: usize = 0;
            while j < m
                invariant
                    n == locks@.len(),
                    m == keys@.len(),
                    i < n,
                    j <= m,
                    key_views == keys@.map_values(|s: String| s@),
                    spec_lock_active(locks@[i as int], now as int),
                    forall|b: int| 0 <= b < j ==> locks@[i as int].target_key@ != key_views[b],
                decreases m - j,
            {
                if str_eq(locks[i].target_key.as_str(), keys[j].as_str()) {
                    proof {
                        assert(locks@[i as int].target_key@ == key_views[j as int]);
                        assert(spec_locked(locks@, key_views, now as int));
                    }
                    return true;
                }
                j = j + 1;
            }
        }
        i = i + 1;
    }
    false
}

/// How many counted events a rule has for a key strictly inside the window
/// (executable form).
fn count_window_events(
    tracker: &Vec<TrackerEvent>,
    rule_id: i32,
    key: &str,
    window_start: i64,
) -> (c: usize)
    ensures
        c == spec_window_count(tracker@, rule_id, key@, window_start as int),
{
    let n = tracker.len();
    let mut c: usize = 0;
    let mut i: usize = 0;
    proof {
        assert(tracker@.take(0) =~= Seq::<TrackerEvent>::empty());
    }
    while i < n
        invariant
            n == tracker@.len(),
            i <= n,
            c <= i,
            c == spec_window_count(tracker@.take(i as int), rule_id, key@, window_start as int),
        decreases n - i,
    {
        proof {
            assert(tracker@.take(i as int + 1).drop_last() =~= tracker@.take(i as int));
            assert(tracker@.take(i as int + 1).last() == tracker@[i as int]);
        }
        let e = &tracker[i];
        if e.rule_id == rule_id && e.created_at > window_start && str_eq(
            e.target_key.as_str(),
            key,
        ) {
            c = c + 1;
        }
        i = i + 1;
    }
    proof {
        assert(tracker@.take(n as int) =~= tracker@);
    }
    c
}

/// Inserts a lock for the key, or refreshes the expiry of the one already
/// holding it.
fn upsert_lock(locks: &mut Vec<RateLimitLock>, rule_id: i32, key: String, expires_at: i64)
    ensures
        spec_lock_upserted(old(locks)@, final(locks)@, rule_id, key@, expires_at),
{
    let n = locks.len();
    let mut i: usize = 0;
    while i < n
        invariant
            n == locks@.len(),
            i <= n,
            *locks == *old(locks),
            forall|j: int| 0 <= j < i ==> old(locks)@[j].target_key@ != key@,
        decreases n - i,
    {
        if str_eq(locks[i].target_key.as_str(), key.as_str()) {
            let existing_rule_id = locks[i].rule_id;
            let existing_key = locks[i].target_key.clone();
            locks.set(
                i,
                RateLimitLock { rule_id: existing_rule_id, target_key: existing_key, expires_at },
            );
            return ;
        }
        i = i + 1;
    }
    locks.push(RateLimitLock { rule_id, target_key: key, expires_at });
    proof {
        assert(final(locks)@.drop_last() =~= old(locks)@);
    }
}

/// The sliding-window check-and-track pass run inside the caller's
/// transaction before a write action commits.
///
/// Rate-limit-exempt admins pass untouched. Otherwise an unexpired lock on
/// any of the actor's seven keys rejects at once, before any rule is read.
/// Otherwise the first enabled rule for this action under which this
/// action would be the `threshold`-th inside the window rejects it and
/// inserts or refreshes a lock lasting `lockout_seconds`. Where no rule triggers, one tracker event
/// is recorded per applicable rule and the action passes.
#[verifier::loop_isolation(false)]
pub fn check_and_track_rate_limits(
    state: &mut RateLimiterState,
    user_id: i32,
    ip_hash: &str,
    device_hash: &str,
    action_type: RateLimitActionType,
    role: Role,
    is_rate_limit_exempt: bool,
    now: i64,
) -> (r: Result<(), ServiceError>)
    requires
        0 <= now <= MAX_TIMESTAMP,
    ensures
        final(state).rules@ == old(state).rules@,
        final(state).next_rule_id == old(state).next_rule_id,
        r matches Err(e) ==> e is TooManyRequests,
        ({
            let exempt = role is Admin && is_rate_limit_exempt;
            let keys = spec_all_target_keys(user_id, ip_hash@, device_hash@);
            if exempt {
                &&& r is Ok
                &&& final(state).tracker@ == old(state).tracker@
                &&& final(state).locks@ == old(state).locks@
            } else if spec_locked(old(state).locks@, keys, now as int) {
                &&& r is Err
                &&& final(state).tracker@ == old(state).tracker@
                &&& final(state).locks@ == old(state).locks@
            } else {
                match spec_first_triggered(
                    old(state).tracker@,
                    old(state).rules@,
                    action_type,
                    user_id,
                    ip_hash@,
                    device_hash@,
                    now as int,
                    0,
                ) {
                    Some(t) => {
                        let rule = old(state).rules@[t];
                        &&& r is Err
                        &&& final(state).tracker@ == old(state).tracker@
                        &&& spec_lock_upserted(
                            old(state).locks@,
                            final(state).locks@,
                            rule.id,
                            spec_target_key(rule.target, user_id, ip_hash@, device_hash@),
                            (now + rule.lockout_seconds) as i64,
                        )
                    },
                    None => {
                        let counted = old(state).rules@.filter(
                            |ru: RateLimitRule| spec_rule_applies(ru, action_type),
                        );
                        &&& r is Ok
                        &&& final(state).locks@ == old(state).locks@
                        &&& final(state).tracker@.len() == old(state).tracker@.len()
                            + counted.len()
                        &&& (forall|q: int|
                            0 <= q < old(state).tracker@.len() ==> final(state).tracker@[q] == old(
                                state,
                            ).tracker@[q])
                        &&& (forall|k: int|
                            0 <= k < counted.len() ==> #[trigger] spec_counted_event(
                                final(state).tracker@[old(state).tracker@.len() + k],
                                counted[k],
                                user_id,
                                ip_hash@,
                                device_hash@,
                                now,
                            ))
                    },
                }
            }
        }),
{
    if matches!(role, Role::Admin) && is_rate_limit_exempt {
        return Ok(());
    }

    let keys = get_all_target_keys(user_id, ip_hash, device_hash);
    proof {
        assert(keys@.map_values(|s: String| s@) =~= spec_all_target_keys(
            user_id,
            ip_hash@,
            device_hash@,
        ));
    }
    if find_active_lock(&state.locks, &keys, now) {
        return Err(
            ServiceError::TooManyRequests(
                String::from_str("Rate limited: you cannot perform this action right now."),
            ),
        );
    }

    let n = state.rules.len();
    let mut i: usize = 0;
    while i < n
        invariant
            i <= n,
            *state == *old(state),
            spec_first_triggered(
                old(state).tracker@,
                old(state).rules@,
                action_type,
                user_id,
                ip_hash@,
                device_hash@,
                now as int,
                0,
            ) == spec_first_triggered(
                old(state).tracker@,
                old(state).rules@,
                action_type,
                user_id,
                ip_hash@,
                device_hash@,
                now as int,
                i as int,
            ),
        decreases n - i,
    {
        let applies = state.rules[i].is_enabled && state.rules[i].action_type == action_type;
        if applies {
            let rule_id = state.rules[i].id;
            let target = state.rules[i].target;
            let threshold = state.rules[i].threshold;
            let time_frame = state.rules[i].time_frame_seconds;
            let lockout = state.rules[i].lockout_seconds;
            let key = get_target_key_for_rule(&target, user_id, ip_hash, device_hash);
            let window_start = now - (time_frame as i64);
            let count = count_window_events(&state.tracker, rule_id, key.as_str(), window_start);
            let triggered = threshold <= 1 || count >= ((threshold - 1) as usize);
            proof {
                assert(triggered == spec_rule_triggers(
                    old(state).tracker@,
                    old(state).rules@[i as int],
                    user_id,
                    ip_hash@,
                    device_hash@,
                    now as int,
                ));
            }
            if triggered {
                proof {
                    assert(spec_first_triggered(
                        old(state).tracker@,
                        old(state).rules@,
                        action_type,
                        user_id,
                        ip_hash@,
                        device_hash@,
                        now as int,
                        i as int,
                    ) == Some(i as int));
                }
                let expires_at = now + (lockout as i64);
                upsert_lock(&mut state.locks, rule_id, key, expires_at);
                return Err(
                    ServiceError::TooManyRequests(
                        String::from_str(
                            "Rate limited: you cannot perform this action right now.",
                        ),
                    ),
                );
            }
        }
        proof {
            assert(spec_first_triggered(
                old(state).tracker@,
                old(state).rules@,
                action_type,
                user_id,
                ip_hash@,
                device_hash@,
                now as int,
                i as int,
            ) == spec_first_triggered(
                old(state).tracker@,
                old(state).rules@,
                action_type,
                user_id,
                ip_hash@,
                device_hash@,
                now as int,
                i as int + 1,
            ));
        }
        i = i + 1;
    }

    let ghost pred = |ru: RateLimitRule| spec_rule_applies(ru, action_type);
    let ghost base = state.tracker@.len() as int;
    let mut i: usize = 0;
    proof {
        assert(old(state).rules@.take(0).filter(pred) =~= Seq::<RateLimitRule>::empty());
    }
    while i < n
        invariant
            i <= n,
            state.rules@ == old(state).rules@,
            state.locks@ == old(state).locks@,
            state.next_rule_id == old(state).next_rule_id,
            ({
                let counted = old(state).rules@.take(i as int).filter(pred);
                &&& state.tracker@.len() == old(state).tracker@.len() + counted.len()
                &&& (forall|q: int|
                    0 <= q < old(state).tracker@.len() ==> state.tracker@[q] == old(
                        state,
                    ).tracker@[q])
                &&& (forall|k: int|
                    0 <= k < counted.len() ==> #[trigger] spec_counted_event(
                        state.tracker@[old(state).tracker@.len() + k],
                        counted[k],
                        user_id,
                        ip_hash@,
                        device_hash@,
                        now,
                    ))
            }),
        decreases n - i,
    {
        proof {
            broadcast use vstd::prelude::Seq::lemma_filter_push;

            assert(old(state).rules@.take(i as int + 1) =~= old(state).rules@.take(i as int).push(
                old(state).rules@[i as int],
            ));
        }
        let applies = state.rules[i].is_enabled && state.rules[i].action_type == action_type;
        if applies {
            let rule_id = state.rules[i].id;
            let target = state.rules[i].target;
            let key = get_target_key_for_rule(&target, user_id, ip_hash, device_hash);
            state.tracker.push(TrackerEvent { rule_id, target_key: key, created_at: now });
        }
        i = i + 1;
    }
    proof {
        assert(old(state).rules@.take(n as int) =~= old(state).rules@);
    }
    Ok(())
}

/// Deletes the rule with the given id together with the locks it created,
/// as one atomic step. Admin-only; `NotFound` where no rule has the id; on
/// refusal the state is untouched.
#[verifier::loop_isolation(false)]
pub fn delete_rate_limit_rule(
    state: &mut RateLimiterState,
    role: Role,
    rule_id: i32,
) -> (r: Result<(), ServiceError>)
    ensures
        final(state).tracker@ == old(state).tracker@,
        final(state).next_rule_id == old(state).next_rule_id,
        r is Err ==> final(state).rules@ == old(state).rules@ && final(state).locks@ == old(
            state,
        ).locks@,
        !(role is Admin) ==> (r matches Err(e) && e is Unauthorized),
        role is Admin && !(exists|i: int|
            0 <= i < old(state).rules@.len() && old(state).rules@[i].id == rule_id) ==> (
        r matches Err(e) && e is NotFound),
        role is Admin && (exists|i: int|
            0 <= i < old(state).rules@.len() && old(state).rules@[i].id == rule_id) ==> r is Ok,
        r is Ok ==> exists|i: int|
            {
                &&& 0 <= i < old(state).rules@.len()
                &&& old(state).rules@[i].id == rule_id
                &&& final(state).rules@ == old(state).rules@.remove(i)
            },
        r is Ok ==> final(state).locks@ == old(state).locks@.filter(
            |l: RateLimitLock| l.rule_id != rule_id,
        ),
{
    if !matches!(role, Role::Admin) {
        return Err(ServiceError::Unauthorized);
    }
    let n = state.rules.len();
    let mut i: usize = 0;
    while i < n
        invariant
            i <= n,
            *state == *old(state),
            forall|j: int| 0 <= j < i ==> old(state).rules@[j].id != rule_id,
        decreases n - i,
    {
        if state.rules[i].id == rule_id {
            state.rules.remove(i);
            remove_locks_of_rule(&mut state.locks, rule_id);
            return Ok(());
        }
        i = i + 1;
    }
    Err(ServiceError::NotFound(String::from_str("Rule not found")))
}

/// Drops every lock a rule created.
#[verifier::loop_isolation(false)]
fn remove_locks_of_rule(locks: &mut Vec<RateLimitLock>, rule_id: i32)
    ensures
        final(locks)@ == old(locks)@.filter(|l: RateLimitLock| l.rule_id != rule_id),
{
    let ghost pred = |l: RateLimitLock| l.rule_id != rule_id;
    let mut kept: Vec<RateLimitLock> = Vec::new();
    let n = locks.len();
    let mut i: usize = 0;
    proof {
        assert(locks@.take(0).filter(pred) =~= Seq::<RateLimitLock>::empty());
    }
    while i < n
        invariant
            n == locks@.len(),
            i <= n,
            kept@ == locks@.take(i as int).filter(pred),
        decreases n - i,
    {
        proof {
            broadcast use vstd::prelude::Seq::lemma_filter_push;

            assert(locks@.take(i as int + 1) =~= locks@.take(i as int).push(locks@[i as int]));
        }
        if locks[i].rule_id != rule_id {
            let key = locks[i].target_key.clone();
            let lock = RateLimitLock {
                rule_id: locks[i].rule_id,
                target_key: key,
                expires_at: locks[i].expires_at,
            };
            proof {
                assert(lock =~= locks@[i as int]);
            }
            kept.push(lock);
        }
        i = i + 1;
    }
    proof {
        assert(locks@.take(n as int) =~= locks@);
    }
    *locks = kept;
}

/// Lifts the lock on one target key before its natural expiry. Admin-only;
/// `NotFound` where no lock holds the key.
#[verifier::loop_isolation(false)]
pub fn delete_rate_limit_lock(
    state: &mut RateLimiterState,
    role: Role,
    target_key: &str,
) -> (r: Result<(), ServiceError>)
    ensures
        final(state).rules@ == old(state).rules@,
        final(state).tracker@ == old(state).tracker@,
        final(state).next_rule_id == old(state).next_rule_id,
        r is Err ==> final(state).locks@ == old(state).locks@,
        !(role is Admin) ==> (r matches Err(e) && e is Unauthorized),
        role is Admin && !(exists|i: int|
            0 <= i < old(state).locks@.len() && old(state).locks@[i].target_key@ == target_key@)
            ==> (r matches Err(e) && e is NotFound),
        role is Admin && (exists|i: int|
            0 <= i < old(state).locks@.len() && old(state).locks@[i].target_key@ == target_key@)
            ==> r is Ok,
        r is Ok ==> exists|i: int|
            {
                &&& 0 <= i < old(state).locks@.len()
                &&& old(state).locks@[i].target_key@ == target_key@
                &&& final(state).locks@ == old(state).locks@.remove(i)
            },
{
    if !matches!(role, Role::Admin) {
        return Err(ServiceError::Unauthorized);
    }
    let n = state.locks.len();
    let mut i: usize = 0;
    while i < n
        invariant
            i <= n,
            *state == *old(state),
            forall|j: int| 0 <= j < i ==> old(state).locks@[j].target_key@ != target_key@,
        decreases n - i,
    {
        if str_eq(state.locks[i].target_key.as_str(), target_key) {
            state.locks.remove(i);
            return Ok(());
        }
        i = i + 1;
    }
    Err(ServiceError::NotFound(String::from_str("The specified lock was not found.")))
}

/// The locks still in force at `now`, in stored order. Admin-only.
#[verifier::loop_isolation(false)]
pub fn get_active_rate_limit_locks(
    state: &RateLimiterState,
    role: Role,
    now: i64,
) -> (r: Result<Vec<RateLimitLock>, ServiceError>)
    ensures
        !(role is Admin) ==> (r matches Err(e) && e is Unauthorized),
        role is Admin ==> (r matches Ok(v) && v@ == state.locks@.filter(
            |l: RateLimitLock| l.expires_at > now,
        )),
{
    if !matches!(role, Role::Admin) {
        return Err(ServiceError::Unauthorized);
    }
    let ghost pred = |l: RateLimitLock| l.expires_at > now;
    let mut active: Vec<RateLimitLock> = Vec::new();
    let n = state.locks.len();
    let mut i: usize = 0;
    proof {
        assert(state.locks@.take(0).filter(pred) =~= Seq::<RateLimitLock>::empty());
    }
    while i < n
        invariant
            n == state.locks@.len(),
            i <= n,
            active@ == state.locks@.take(i as int).filter(pred),
        decreases n - i,
    {
        proof {
            broadcast use vstd::prelude::Seq::lemma_filter_push;

            assert(state.locks@.take(i as int + 1) =~= state.locks@.take(i as int).push(
                state.locks@[i as int],
            ));
        }
        if state.locks[i].expires_at > now {
            let key = state.locks[i].target_key.clone();
            let lock = RateLimitLock {
                rule_id: state.locks[i].rule_id,
                target_key: key,
                expires_at: state.locks[i].expires_at,
            };
            proof {
                assert(lock =~= state.locks@[i as int]);
            }
            active.push(lock);
        }
        i = i + 1;
    }
    proof {
        assert(state.locks@.take(n as int) =~= state.locks@);
    }
    Ok(active)
}

/// The widest window any rule watches, or an hour where no rules exist: the
/// cleanup job keeps tracker events for twice this long.
pub open spec fn spec_max_time_frame(rules: Seq<RateLimitRule>) -> int
    decreases rules.len(),
{
    if rules.len() == 0 {
        3600
    } else if rules.len() == 1 {
        rules[0].time_frame_seconds as int
    } else {
        let rest = spec_max_time_frame(rules.drop_last());
        if rules.last().time_frame_seconds >= rest {
            rules.last().time_frame_seconds as int
        } else {
            rest
        }
    }
}

/// The periodic sweep: drops tracker events older than twice the widest rule
/// window and locks that have lapsed. Timestamp-bounded deletes only — live
/// rows always survive.
#[verifier::loop_isolation(false)]
pub fn cleanup_rate_limiter_tables(state: &mut RateLimiterState, now: i64)
    requires
        0 <= now <= MAX_TIMESTAMP,
    ensures
        final(state).rules@ == old(state).rules@,
        final(state).next_rule_id == old(state).next_rule_id,
        final(state).tracker@ == old(state).tracker@.filter(
            |e: TrackerEvent| !(e.created_at < now - 2 * spec_max_time_frame(old(state).rules@)),
        ),
        final(state).locks@ == old(state).locks@.filter(
            |l: RateLimitLock| !(l.expires_at < now),
        ),
{
    let n = state.rules.len();
    let mut max_frame: i64 = 3600;
    if n > 0 {
        max_frame = state.rules[0].time_frame_seconds as i64;
        let mut i: usize = 1;
        while i < n
            invariant
                1 <= i <= n,
                max_frame == spec_max_time_frame(old(state).rules@.take(i as int)),
                -0x8000_0000 <= max_frame <= 0x8000_0000,
                *state == *old(state),
            decreases n - i,
        {
            proof {
                assert(state.rules@.take(i as int + 1).drop_last() =~= state.rules@.take(i as int));
                assert(state.rules@.take(i as int + 1).last() == state.rules@[i as int]);
            }
            let frame = state.rules[i].time_frame_seconds as i64;
            if frame >= max_frame {
                max_frame = frame;
            }
            i = i + 1;
        }
        proof {
            assert(state.rules@.take(n as int) =~= state.rules@);
        }
    }
    let cutoff = now - 2 * max_frame;

    let ghost keep_event = |e: TrackerEvent| !(e.created_at < now - 2 * spec_max_time_frame(
        old(state).rules@,
    ));
    let mut kept_events: Vec<TrackerEvent> = Vec::new();
    let m = state.tracker.len();
    let mut i: usize = 0;
    proof {
        assert(state.tracker@.take(0).filter(keep_event) =~= Seq::<TrackerEvent>::empty());
    }
    while i < m
        invariant
            m == state.tracker@.len(),
            i <= m,
            cutoff == now - 2 * spec_max_time_frame(old(state).rules@),
            kept_events@ == state.tracker@.take(i as int).filter(keep_event),
            *state == *old(state),
        decreases m - i,
    {
        proof {
            broadcast use vstd::prelude::Seq::lemma_filter_push;

            assert(state.tracker@.take(i as int + 1) =~= state.tracker@.take(i as int).push(
                state.tracker@[i as int],
            ));
        }
        if !(state.tracker[i].created_at < cutoff) {
            let key = state.tracker[i].target_key.clone();
            let event = TrackerEvent {
                rule_id: state.tracker[i].rule_id,
                target_key: key,
                created_at: state.tracker[i].created_at,
            };
            proof {
                assert(event =~= state.tracker@[i as int]);
            }
            kept_events.push(event);
        }
        i = i + 1;
    }
    proof {
        assert(state.tracker@.take(m as int) =~= state.tracker@);
    }

    let ghost keep_lock = |l: RateLimitLock| !(l.expires_at < now);
    let mut kept_locks: Vec<RateLimitLock> = Vec::new();
    let k = state.locks.len();
    let mut i: usize = 0;
    proof {
        assert(state.locks@.take(0).filter(keep_lock) =~= Seq::<RateLimitLock>::empty());
    }
    while i < k
        invariant
            k == state.locks@.len(),
            i <= k,
            kept_locks@ == state.locks@.take(i as int).filter(keep_lock),
            *state == *old(state),
        decreases k - i,
    {
        proof {
            broadcast use vstd::prelude::Seq::lemma_filter_push;

            assert(state.locks@.take(i as int + 1) =~= state.locks@.take(i as int).push(
                state.locks@[i as int],
            ));
        }
        if !(state.locks[i].expires_at < now) {
            let key = state.locks[i].target_key.clone();
            let lock = RateLimitLock {
                rule_id: state.locks[i].rule_id,
                target_key: key,
                expires_at: state.locks[i].expires_at,
            };
            proof {
                assert(lock =~= state.locks@[i as int]);
            }
            kept_locks.push(lock);
        }
        i = i + 1;
    }
    proof {
        assert(state.locks@.take(k as int) =~= state.locks@);
    }

    state.tracker = kept_events;
    state.locks = kept_locks;
}

/// What toggling leaves behind: the rule at one index has its enabled flag
/// flipped and its update time set, everything else stands.
pub open spec fn spec_rule_toggled(
    old_rules: Seq<RateLimitRule>,
    new_rules: Seq<RateLimitRule>,
    i: int,
    rule_id: i32,
    now: i64,
) -> bool {
    &&& 0 <= i < old_rules.len()
    &&& old_rules[i].id == rule_id
    &&& new_rules == old_rules.update(i, new_rules[i])
    &&& new_rules[i].id == old_rules[i].id
    &&& new_rules[i].name@ == old_rules[i].name@
    &&& new_rules[i].target == old_rules[i].target
    &&& new_rules[i].action_type == old_rules[i].action_type
    &&& new_rules[i].threshold == old_rules[i].threshold
    &&& new_rules[i].time_frame_seconds == old_rules[i].time_frame_seconds
    &&& new_rules[i].lockout_seconds == old_rules[i].lockout_seconds
    &&& new_rules[i].is_enabled == !old_rules[i].is_enabled
    &&& new_rules[i].created_at == old_rules[i].created_at
    &&& new_rules[i].updated_at == now
    &&& new_rules[i].created_by == old_rules[i].created_by
}

} // verus!
