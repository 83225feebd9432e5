//! The account level-up protocol: the cooldown state machine, the
//! short-lived attestation token minted after a successful preflight, and
//! the finalize step that re-checks cooldowns and bans before committing the
//! level transition.

use vstd::prelude::*;

use crate::bans::{check_if_banned, spec_is_banned, Ban};
use crate::crypto::{dec_str_of, i64_to_string};
use crate::errors::ServiceError;
use crate::identity::{generate_identity_hashes_today, spec_permanent_hash, IdentityConfig};
use crate::models::{Role, User};
use crate::rate_limiter::MAX_TIMESTAMP;
use crate::verification::{
    opt_captcha_view, opt_reputation_view, perform_verification, spec_overall_rejection,
    spec_pre_reputation_rejection, AttemptRecord, AttemptStore, CaptchaResponse, IpReputation,
    VerificationInput,
};
use vstd::string::{StrSliceExecFns, StringExecFns};

verus! {

/// A successful level-up locks the account out for this long.
pub const LEVEL_UP_SUCCESS_LOCK_HOURS: i64 = 23;

/// This many failures in a row arm the short failure lockout.
pub const MAX_FAILURE_ATTEMPTS: i32 = 3;

/// The short lockout after too many failures.
pub const FAILURE_LOCKOUT_MINUTES: i64 = 5;

/// An attestation token lapses this long after preflight.
pub const ATTESTATION_TOKEN_TTL_SECONDS: i64 = 300;

/// The subject tag a level-up attestation token carries.
pub const LEVEL_UP_TOKEN_SUBJECT: &'static str = "level-up-preflight-passed";

/// The subject tag a registration attestation token carries.
pub const REGISTRATION_TOKEN_SUBJECT: &'static str = "preflight-passed";

/// The payload of an attestation token: the subject tag, the attempt it
/// vouches for, and its expiry. Nothing else — the attempt id is the durable
/// link to the IP, fingerprint and outcome recorded at preflight.
pub struct LevelUpClaims {
    pub exp: i64,
    pub sub: String,
    pub attempt_id: i32,
}

/// What a caller submits to finalize a level-up: the token preflight
/// minted.
pub struct LevelUpFinalizeRequest {
    pub level_up_token: String,
}

/// What a status query answers: whether an attempt may start now, and the
/// lock's remaining time where one holds.
pub struct LevelUpStatus {
    pub can_attempt: bool,
    pub is_locked: bool,
    pub lock_expires_in_seconds: Option<i64>,
    pub message: String,
}

/// The signed token jsonwebtoken's HS256 encoding produces for these claims
/// and this secret. Deterministic: a function of the arguments alone.
pub uninterp spec fn jwt_hs256_of(
    secret: Seq<char>,
    sub: Seq<char>,
    exp: int,
    attempt_id: int,
) -> Seq<char>;

/// Relies on jsonwebtoken's `encode` with the default (HS256) header: a
/// deterministic signed token over the claims. Its only failure paths are
/// an algorithm-family mismatch (the key here is a secret, the family
/// HMAC) and claims serialization (a string-keyed JSON object cannot
/// fail), so with the crate's single crypto backend the call succeeds.
#[verifier::external_body]
fn encode_attestation_token(secret: &str, sub: &str, exp: i64, attempt_id: i32) -> (r: Result<
    String,
    (),
>)
    ensures
        r is Ok,
        r matches Ok(t) ==> t@ == jwt_hs256_of(secret@, sub@, exp as int, attempt_id as int),
{
    let mut claims = serde_json::Map::new();
    claims.insert("sub".to_string(), serde_json::Value::from(sub));
    claims.insert("exp".to_string(), serde_json::Value::from(exp));
    claims.insert("attempt_id".to_string(), serde_json::Value::from(attempt_id));
    jsonwebtoken::encode(
        &jsonwebtoken::Header::default(),
        &serde_json::Value::Object(claims),
        &jsonwebtoken::EncodingKey::from_secret(secret.as_bytes()),
    ).map_err(|_| ())
}

/// Relies on jsonwebtoken's `decode` with HS256 validation: verifies the
/// signature and the expiry against the system clock, so nothing is promised
/// of the outcome.
#[verifier::external_body]
fn decode_attestation_token(secret: &str, token: &str) -> (r: Result<LevelUpClaims, ()>) {
    let data = jsonwebtoken::decode::<serde_json::Value>(
        token,
        &jsonwebtoken::DecodingKey::from_secret(secret.as_bytes()),
        &jsonwebtoken::Validation::new(jsonwebtoken::Algorithm::HS256),
    ).map_err(|_| ())?;
    let sub = data.claims.get("sub").and_then(|v| v.as_str()).map(|s| s.to_string());
    let exp = data.claims.get("exp").and_then(|v| v.as_i64());
    let id = data.claims.get("attempt_id").and_then(|v| v.as_i64()).and_then(|v| i32::try_from(v).ok());
    match (sub, exp, id) {
        (Some(sub), Some(exp), Some(attempt_id)) => Ok(LevelUpClaims { exp, sub, attempt_id }),
        _ => Err(()),
    }
}

/// Checks an attestation token's signature and expiry and hands back its
/// claims; an unacceptable token is refused with the retry guidance. What
/// the claims then permit is decided by the finalize steps.
pub fn validate_attestation_token(secret: &str, token: &str) -> (r: Result<
    LevelUpClaims,
    ServiceError,
>)
    ensures
        r matches Err(e) ==> e is BadRequest,
{
    match decode_attestation_token(secret, token) {
        Ok(claims) => Ok(claims),
        Err(_) => Err(
            ServiceError::BadRequest(
                String::from_str("The attestation token is invalid. Please start over."),
            ),
        ),
    }
}

/// Mints an attestation token for a passed verification attempt: subject
/// tag, attempt id, and a five-minute expiry. Minting always succeeds.
pub fn mint_attestation_token(secret: &str, sub: &str, attempt_id: i32, now: i64) -> (r: Result<
    String,
    ServiceError,
>)
    requires
        0 <= now <= MAX_TIMESTAMP,
    ensures
        r matches Ok(t) && t@ == jwt_hs256_of(
            secret@,
            sub@,
            now + ATTESTATION_TOKEN_TTL_SECONDS,
            attempt_id as int,
        ),
{
    let exp = now + ATTESTATION_TOKEN_TTL_SECONDS;
    match encode_attestation_token(secret, sub, exp, attempt_id) {
        Ok(t) => Ok(t),
        Err(_) => Err(
            ServiceError::InternalServerError(
                String::from_str("Failed to create the attestation token."),
            ),
        ),
    }
}

/// A duration under two hours padded as `HH:MM:SS`; longer ones widen the
/// hour field.
pub open spec fn spec_pad2(n: int) -> Seq<char> {
    if 0 <= n < 10 {
        seq!['0'] + dec_str_of(n as nat)
    } else if n >= 0 {
        dec_str_of(n as nat)
    } else {
        Seq::empty()
    }
}

/// `HH:MM:SS` rendering of a nonnegative number of seconds.
pub open spec fn spec_format_duration(d: int) -> Seq<char> {
    spec_pad2(d / 3600) + seq![':'] + spec_pad2((d / 60) % 60) + seq![':'] + spec_pad2(d % 60)
}

/// Renders a nonnegative duration as zero-padded hours, minutes, seconds.
pub fn format_duration(d: i64) -> (r: String)
    requires
        0 <= d,
    ensures
        r@ == spec_format_duration(d as int),
{
    let hours = d / 3600;
    let minutes = (d / 60) % 60;
    let seconds = d % 60;
    let mut r = pad2(hours);
    push_colon(&mut r);
    let m = pad2(minutes);
    r.append(m.as_str());
    push_colon(&mut r);
    let sec = pad2(seconds);
    r.append(sec.as_str());
    proof {
        assert(r@ =~= spec_format_duration(d as int));
    }
    r
}

/// Zero-pads a nonnegative number to at least two decimal digits.
fn pad2(n: i64) -> (r: String)
    requires
        0 <= n,
    ensures
        r@ == spec_pad2(n as int),
{
    if n < 10 {
        let mut r = String::from_str("0");
        let d = i64_to_string(n);
        r.append(d.as_str());
        proof {
            reveal_strlit("0");
            assert(r@ =~= spec_pad2(n as int));
        }
        r
    } else {
        i64_to_string(n)
    }
}

/// Appends the `:` separator.
fn push_colon(s: &mut String)
    ensures
        final(s)@ == old(s)@ + seq![':'],
{
    crate::crypto::push_char(s, ':');
}

/// Whether the account's timestamps sit inside the range the engine
/// computes with.
pub open spec fn spec_user_times_wf(u: User) -> bool {
    &&& (u.last_level_up_at matches Some(t) ==> 0 <= t <= MAX_TIMESTAMP)
    &&& (u.last_level_up_attempt_at matches Some(t) ==> 0 <= t <= MAX_TIMESTAMP)
}

/// Whether the success lock holds: a level-up happened less than 23 hours
/// ago.
pub open spec fn spec_success_locked(u: User, now: int) -> bool {
    u.last_level_up_at matches Some(t) && now < t + LEVEL_UP_SUCCESS_LOCK_HOURS * 3600
}

/// Whether the failure lock holds: at least three failures, the last less
/// than five minutes ago.
pub open spec fn spec_failure_locked(u: User, now: int) -> bool {
    u.level_up_failure_count >= MAX_FAILURE_ATTEMPTS && (u.last_level_up_attempt_at matches Some(t)
        && now < t + FAILURE_LOCKOUT_MINUTES * 60)
}

/// Whether the account may attempt a level-up at `now`: admins always, and
/// anyone outside both locks. The success lock outranks the failure lock.
pub open spec fn spec_can_attempt_level_up(u: User, now: int) -> bool {
    u.role is Admin || (!spec_success_locked(u, now) && !spec_failure_locked(u, now))
}

/// What the status computation answers for this account at `now`.
pub open spec fn spec_level_up_status(r: LevelUpStatus, u: User, now: int) -> bool {
    if u.role is Admin {
        &&& r.can_attempt
        &&& !r.is_locked
        &&& r.lock_expires_in_seconds is None
        &&& r.message@ == "Admin accounts can level up at any time."@
    } else if spec_success_locked(u, now) {
        let remaining = u.last_level_up_at->Some_0 + LEVEL_UP_SUCCESS_LOCK_HOURS * 3600 - now;
        &&& !r.can_attempt
        &&& r.is_locked
        &&& r.lock_expires_in_seconds == Some(remaining as i64)
        &&& r.message@ == "Next level-up available in: "@ + spec_format_duration(remaining)
    } else if spec_failure_locked(u, now) {
        let remaining = u.last_level_up_attempt_at->Some_0 + FAILURE_LOCKOUT_MINUTES * 60 - now;
        &&& !r.can_attempt
        &&& r.is_locked
        &&& r.lock_expires_in_seconds == Some(remaining as i64)
        &&& r.message@ == "Too many failed attempts. Try again in "@ + spec_format_duration(
            remaining,
        ) + seq!['.']
    } else {
        &&& r.can_attempt
        &&& !r.is_locked
        &&& r.lock_expires_in_seconds is None
        &&& r.message@ == "Level-up is available."@
    }
}

/// The cooldown state machine, computed fresh from the account row: admins
/// are always free; a success lock of 23 hours outranks a failure lock of 5
/// minutes armed by three failures.
pub fn calculate_level_up_status(user: &User, now: i64) -> (r: LevelUpStatus)
    requires
        0 <= now <= MAX_TIMESTAMP,
        spec_user_times_wf(*user),
    ensures
        spec_level_up_status(r, *user, now as int),
        r.can_attempt == spec_can_attempt_level_up(*user, now as int),
{
    if matches!(user.role, Role::Admin) {
        return LevelUpStatus {
            can_attempt: true,
            is_locked: false,
            lock_expires_in_seconds: None,
            message: String::from_str("Admin accounts can level up at any time."),
        };
    }
    if let Some(t) = user.last_level_up_at {
        let lock_until = t + LEVEL_UP_SUCCESS_LOCK_HOURS * 3600;
        if now < lock_until {
            let remaining = lock_until - now;
            let mut message = String::from_str("Next level-up available in: ");
            let fmt = format_duration(remaining);
            message.append(fmt.as_str());
            return LevelUpStatus {
                can_attempt: false,
                is_locked: true,
                lock_expires_in_seconds: Some(remaining),
                message,
            };
        }
    }
    if user.level_up_failure_count >= MAX_FAILURE_ATTEMPTS {
        if let Some(t) = user.last_level_up_attempt_at {
            let lock_until = t + FAILURE_LOCKOUT_MINUTES * 60;
            if now < lock_until {
                let remaining = lock_until - now;
                let mut message = String::from_str("Too many failed attempts. Try again in ");
                let fmt = format_duration(remaining);
                message.append(fmt.as_str());
                crate::crypto::push_char(&mut message, '.');
                return LevelUpStatus {
                    can_attempt: false,
                    is_locked: true,
                    lock_expires_in_seconds: Some(remaining),
                    message,
                };
            }
        }
    }
    LevelUpStatus {
        can_attempt: true,
        is_locked: false,
        lock_expires_in_seconds: None,
        message: String::from_str("Level-up is available."),
    }
}

/// The index of the first persisted attempt with the given id.
pub open spec fn spec_find_attempt(attempts: Seq<AttemptRecord>, id: i32, i: int) -> Option<int>
    decreases attempts.len() - i,
{
    if i < 0 || i >= attempts.len() {
        None
    } else if attempts[i].id == id {
        Some(i)
    } else {
        spec_find_attempt(attempts, id, i + 1)
    }
}

/// The device-info text a stored attempt yields: the raw fingerprint
/// payload, or empty where none was recorded.
pub open spec fn spec_attempt_device_info(rec: AttemptRecord) -> Seq<char> {
    match rec.fingerprint_json {
        Some(f) => f@,
        None => Seq::empty(),
    }
}

/// Step one of the attestation protocol: runs the verification pipeline for
/// a level-up and, on success, mints the five-minute token whose payload
/// names the persisted attempt. A rejected run charges the account's
/// failure counter in the same unit of work and surfaces the reason; a
/// provider failure changes nothing.
pub fn level_up_preflight(
    store: &mut AttemptStore,
    user: &mut User,
    secret: &str,
    input: &VerificationInput,
    captcha: Option<&CaptchaResponse>,
    reputation: Option<&IpReputation>,
    proxycheck_enabled: bool,
    dev_bypass_fingerprint: bool,
    now: i64,
) -> (r: Result<String, ServiceError>)
    requires
        0 <= now <= MAX_TIMESTAMP,
        old(store).next_id < i32::MAX,
        old(user).level_up_failure_count < i32::MAX,
        input.verification_type is LevelUp,
        input.user_id == Some(old(user).id),
    ensures
        ({
            let pre = spec_pre_reputation_rejection(
                *input,
                opt_captcha_view(captcha),
                old(user).banned_from_level_up,
                old(store).attempts@,
                dev_bypass_fingerprint,
                now as int,
            );
            let rejection = spec_overall_rejection(
                *input,
                opt_captcha_view(captcha),
                old(user).banned_from_level_up,
                old(store).attempts@,
                dev_bypass_fingerprint,
                opt_reputation_view(reputation),
                proxycheck_enabled,
                now as int,
            );
            let incomplete = input.captcha_token is None || captcha is None || (pre is None
                && proxycheck_enabled && reputation is None);
            &&& (incomplete ==> r is Err && final(store).attempts@ == old(store).attempts@
                && final(store).next_id == old(store).next_id && *final(user) == *old(user))
            &&& (input.captcha_token is None ==> (r matches Err(e) && e is BadRequest))
            &&& (!incomplete ==> {
                &&& final(store).next_id == old(store).next_id + 1
                &&& final(store).attempts@.len() == old(store).attempts@.len() + 1
                &&& final(store).attempts@.drop_last() == old(store).attempts@
                &&& final(store).attempts@.last().id == old(store).next_id
                &&& final(store).attempts@.last().user_id == Some(old(user).id)
                &&& final(store).attempts@.last().attempt_type is LevelUp
                &&& final(store).attempts@.last().is_success == (rejection is None)
            })
            &&& (!incomplete && rejection is Some ==> {
                let x = rejection->Some_0;
                &&& r matches Err(e) && e matches ServiceError::BadRequest(m) && m@ == x.0
                &&& *final(user) == (User {
                    level_up_failure_count: (old(user).level_up_failure_count + 1) as i32,
                    last_level_up_attempt_at: Some(now),
                    ..*old(user)
                })
            })
            &&& (!incomplete && rejection is None ==> {
                &&& *final(user) == *old(user)
                &&& r matches Ok(t) && t@ == jwt_hs256_of(
                    secret@,
                    "level-up-preflight-passed"@,
                    now + ATTESTATION_TOKEN_TTL_SECONDS,
                    old(store).next_id as int,
                )
            })
        }),
{
    let banned = user.banned_from_level_up;
    match perform_verification(
        store,
        input,
        captcha,
        banned,
        reputation,
        proxycheck_enabled,
        dev_bypass_fingerprint,
        now,
    ) {
        Err(e) => Err(e),
        Ok((result, attempt_id)) => {
            if !result.is_success {
                apply_level_up_failure(user, now);
                let reason = match result.rejection_reason {
                    Some(m) => m,
                    None => String::from_str("Verification failed."),
                };
                Err(ServiceError::BadRequest(reason))
            } else {
                mint_attestation_token(secret, LEVEL_UP_TOKEN_SUBJECT, attempt_id, now)
            }
        },
    }
}

/// Step two of the attestation protocol, after the token's signature and
/// expiry have been checked: re-checks the maximum level and the cooldown
/// state under the caller's row lock, recovers the IP and fingerprint from
/// the attempt the token names, re-derives the permanent hashes from them,
/// and re-runs the ban matcher before committing the level transition.
/// This is what stops a token minted before a ban from finishing after it.
pub fn level_up_finalize_with_claims(
    user: &mut User,
    bans: &Vec<Ban>,
    attempts: &Vec<AttemptRecord>,
    config: &IdentityConfig,
    max_level: i32,
    claims: &LevelUpClaims,
    now: i64,
) -> (r: Result<(), ServiceError>)
    requires
        0 <= now <= MAX_TIMESTAMP,
        spec_user_times_wf(*old(user)),
    ensures
        r is Err ==> *final(user) == *old(user),
        old(user).level >= max_level ==> (r matches Err(e) && e is Forbidden),
        old(user).level < max_level && !spec_can_attempt_level_up(*old(user), now as int) ==> (
        r matches Err(e) && e is TooManyRequests),
        ({
            let found = spec_find_attempt(attempts@, claims.attempt_id, 0);
            let pepper = config.permanent_pepper@;
            &&& (old(user).level < max_level && spec_can_attempt_level_up(*old(user), now as int)
                && found is None ==> (r matches Err(e) && e is BadRequest))
            &&& (old(user).level < max_level && spec_can_attempt_level_up(*old(user), now as int)
                && found is Some ==> {
                let i = found->Some_0;
                let banned = spec_is_banned(
                    bans@,
                    None,
                    None,
                    Some(spec_permanent_hash(pepper, old(user).email@)),
                    Some(spec_permanent_hash(pepper, attempts@[i].ip_address@)),
                    Some(spec_permanent_hash(pepper, spec_attempt_device_info(attempts@[i]))),
                );
                &&& (banned ==> (r matches Err(e) && e matches ServiceError::Forbidden(m) && m@
                    == Seq::<char>::empty()))
                &&& (!banned ==> r is Ok)
            })
        }),
        r is Ok ==> *final(user) == (User {
            level: (old(user).level + 1) as i32,
            last_level_up_at: Some(now),
            level_up_failure_count: 0,
            ..*old(user)
        }),
{
    if user.level >= max_level {
        return Err(ServiceError::Forbidden(String::from_str("Already at the maximum level.")));
    }
    let status = calculate_level_up_status(user, now);
    if !status.can_attempt {
        return Err(ServiceError::TooManyRequests(status.message));
    }
    let found = find_attempt_index(attempts, claims.attempt_id);
    let rec = match found {
        Some(i) => &attempts[i],
        None => {
            return Err(
                ServiceError::BadRequest(String::from_str("Verification record not found.")),
            );
        },
    };
    let device_info = match &rec.fingerprint_json {
        Some(f) => f.clone(),
        None => String::new(),
    };
    let identity = generate_identity_hashes_today(
        config,
        user.email.as_str(),
        rec.ip_address.as_str(),
        device_info.as_str(),
    );
    if let Err(e) = check_if_banned(
        bans,
        None,
        None,
        Some(identity.permanent_user_hash.as_str()),
        Some(identity.permanent_ip_hash.as_str()),
        Some(identity.permanent_device_hash.as_str()),
    ) {
        return Err(e);
    }
    user.level = user.level + 1;
    user.last_level_up_at = Some(now);
    user.level_up_failure_count = 0;
    Ok(())
}

/// Finds the first persisted attempt with the given id.
fn find_attempt_index(attempts: &Vec<AttemptRecord>, id: i32) -> (r: Option<usize>)
    ensures
        match r {
            Some(i) => 0 <= i < attempts@.len() && spec_find_attempt(attempts@, id, 0) == Some(
                i as int,
            ),
            None => spec_find_attempt(attempts@, id, 0) is None,
        },
{
    let n = attempts.len();
    let mut idx: usize = 0;
    while idx < n
        invariant
            n == attempts@.len(),
            idx <= n,
            spec_find_attempt(attempts@, id, 0) == spec_find_attempt(attempts@, id, idx as int),
        decreases n - idx,
    {
        if attempts[idx].id == id {
            return Some(idx);
        }
        idx = idx + 1;
    }
    None
}

/// Step two of the attestation protocol from the wire: validates the
/// token's signature and expiry, then runs the locked finalize decision on
/// its claims.
pub fn level_up_finalize(
    user: &mut User,
    bans: &Vec<Ban>,
    attempts: &Vec<AttemptRecord>,
    config: &IdentityConfig,
    secret: &str,
    token: &str,
    max_level: i32,
    now: i64,
) -> (r: Result<(), ServiceError>)
    requires
        0 <= now <= MAX_TIMESTAMP,
        spec_user_times_wf(*old(user)),
    ensures
        r is Err ==> *final(user) == *old(user),
        r is Ok ==> old(user).level < max_level && spec_can_attempt_level_up(
            *old(user),
            now as int,
        ) && *final(user) == (User {
            level: (old(user).level + 1) as i32,
            last_level_up_at: Some(now),
            level_up_failure_count: 0,
            ..*old(user)
        }),
{
    match validate_attestation_token(secret, token) {
        Err(e) => Err(e),
        Ok(claims) => level_up_finalize_with_claims(
            user,
            bans,
            attempts,
            config,
            max_level,
            &claims,
            now,
        ),
    }
}

/// Charges one level-up failure to the account: the counter rises by one and
/// the last-attempt time moves to `now`, in the same unit of work as the
/// failed attempt's record.
pub fn apply_level_up_failure(user: &mut User, now: i64)
    requires
        old(user).level_up_failure_count < i32::MAX,
    ensures
        *final(user) == (User {
            level_up_failure_count: (old(user).level_up_failure_count + 1) as i32,
            last_level_up_attempt_at: Some(now),
            ..*old(user)
        }),
{
    user.level_up_failure_count = user.level_up_failure_count + 1;
    user.last_level_up_attempt_at = Some(now);
}

} // verus!
