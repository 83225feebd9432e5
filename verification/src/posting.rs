//! The guard every write action passes before it commits: derive the
//! visitor's identity, run the verification pipeline, match bans against
//! the permanent hashes, then check and track the rate limits — in that
//! order, inside the caller's unit of work.

use vstd::prelude::*;

use crate::bans::{check_if_banned, spec_is_banned, Ban};
use crate::crypto::{hex_of, sha256_of};
use crate::errors::ServiceError;
use crate::identity::{
    generate_identity_hashes_today, is_derivation, spec_permanent_hash, IdentityConfig,
    IdentityHashes,
};
use crate::models::Role;
use crate::rate_limiter::{
    check_and_track_rate_limits, spec_all_target_keys, spec_counted_event, spec_first_triggered,
    spec_locked, spec_rule_applies, RateLimitActionType, RateLimitRule, RateLimiterState,
    MAX_TIMESTAMP,
};
use crate::verification::{
    opt_captcha_view, opt_reputation_view, perform_verification, spec_fingerprint_rejection,
    spec_overall_rejection, spec_pre_reputation_rejection, spec_reputation_flagged,
    spec_reputation_rejection_message, AttemptRecord, AttemptStore, FingerprintData, IpReputation,
    VerificationInput, VerificationType,
};
use vstd::string::StringExecFns;

verus! {

/// What a passed guard hands back: the derived identity (the write is
/// stored under its display identifier and permanent hashes) and the
/// persisted attempt's id, where the pipeline ran.
pub struct WriteClearance {
    pub identity: IdentityHashes,
    pub attempt_id: Option<i32>,
}

/// The rejection a write action's pipeline run can produce. A posting
/// action carries no CAPTCHA and no level-up ban, so only two steps can
/// reject: the fingerprint deduplicator first, then the IP-reputation
/// ruling where that check is enabled and an answer was fetched.
pub open spec fn spec_guard_pipeline_rejection(
    attempts: Seq<AttemptRecord>,
    fingerprint: Option<FingerprintData>,
    dev_bypass: bool,
    reputation: Option<IpReputation>,
    proxycheck_enabled: bool,
    now: int,
) -> Option<Seq<char>> {
    let fp = match fingerprint {
        Some(d) => spec_fingerprint_rejection(
            attempts,
            hex_of(sha256_of(d.webgl@ + d.canvas@ + d.audio@)),
            hex_of(sha256_of(d.webgl@ + d.canvas@)),
            hex_of(sha256_of(d.webgl@ + d.audio@)),
            hex_of(sha256_of(d.canvas@ + d.audio@)),
            dev_bypass,
            now,
        ),
        None => None,
    };
    match fp {
        Some(m) => Some(m),
        None => if proxycheck_enabled {
            match reputation {
                Some(rep) => if spec_reputation_flagged(rep) {
                    Some(spec_reputation_rejection_message())
                } else {
                    None
                },
                None => None,
            }
        } else {
            None
        },
    }
}

/// Guards one write action.
///
/// Admins skip the verification pipeline entirely, as the handlers do; for
/// everyone else a completed pipeline run persists its attempt whatever the
/// outcome, and a rejection stops the write with the rejection's reason.
/// The ban matcher then probes all three permanent hashes against the
/// target board and thread; last, the rate limiter judges and tracks the
/// action under the permanent IP and device hashes. The write goes ahead
/// exactly when every gate passes, and then the limiter has counted one
/// event per applicable rule.
#[verifier::loop_isolation(false)]
pub fn guard_write_action(
    attempts: &mut AttemptStore,
    bans: &Vec<Ban>,
    limiter: &mut RateLimiterState,
    config: &IdentityConfig,
    user_id: i32,
    role: Role,
    is_rate_limit_exempt: bool,
    user_identifier: &str,
    ip_address: &str,
    device_info: &str,
    fingerprint: Option<FingerprintData>,
    verification_type: VerificationType,
    action_type: RateLimitActionType,
    board_id: Option<i32>,
    post_id: Option<i32>,
    reputation: Option<&IpReputation>,
    proxycheck_enabled: bool,
    dev_bypass_fingerprint: bool,
    now: i64,
) -> (r: Result<WriteClearance, ServiceError>)
    requires
        0 <= now <= MAX_TIMESTAMP,
        old(attempts).next_id < i32::MAX,
        !(verification_type is LevelUp),
        !(verification_type is Registration),
    ensures
        final(limiter).rules@ == old(limiter).rules@,
        final(limiter).next_rule_id == old(limiter).next_rule_id,
        r is Err ==> final(limiter).tracker@ == old(limiter).tracker@,
        ({
            let pepper = config.permanent_pepper@;
            let pu = spec_permanent_hash(pepper, user_identifier@);
            let pi = spec_permanent_hash(pepper, ip_address@);
            let pd = spec_permanent_hash(pepper, device_info@);
            let rejection = spec_guard_pipeline_rejection(
                old(attempts).attempts@,
                fingerprint,
                dev_bypass_fingerprint,
                opt_reputation_view(reputation),
                proxycheck_enabled,
                now as int,
            );
            let incomplete = rejection is None && proxycheck_enabled && reputation is None;
            let banned = spec_is_banned(bans@, board_id, post_id, Some(pu), Some(pi), Some(pd));
            let exempt = role is Admin && is_rate_limit_exempt;
            let was_locked = spec_locked(
                old(limiter).locks@,
                spec_all_target_keys(user_id, pi, pd),
                now as int,
            );
            let triggered = spec_first_triggered(
                old(limiter).tracker@,
                old(limiter).rules@,
                action_type,
                user_id,
                pi,
                pd,
                now as int,
                0,
            );
            &&& (role is Admin ==> {
                &&& final(attempts).attempts@ == old(attempts).attempts@
                &&& final(attempts).next_id == old(attempts).next_id
                &&& (r is Ok <==> !banned && (exempt || (!was_locked && triggered is None)))
            })
            &&& (!(role is Admin) && incomplete ==> r is Err && final(attempts).attempts@
                == old(attempts).attempts@ && final(attempts).next_id == old(attempts).next_id)
            &&& (!(role is Admin) && !incomplete ==> {
                &&& final(attempts).next_id == old(attempts).next_id + 1
                &&& final(attempts).attempts@.len() == old(attempts).attempts@.len() + 1
                &&& final(attempts).attempts@.drop_last() == old(attempts).attempts@
                &&& final(attempts).attempts@.last().id == old(attempts).next_id
                &&& final(attempts).attempts@.last().user_id == Some(user_id)
                &&& final(attempts).attempts@.last().attempt_type == verification_type
                &&& final(attempts).attempts@.last().is_success == (rejection is None)
                &&& (rejection is Some ==> (r matches Err(e) && e matches ServiceError::Forbidden(
                    m,
                ) && m@ == rejection->Some_0))
                &&& (r is Ok <==> rejection is None && !banned && !was_locked && triggered is None)
            })
            &&& (r matches Ok(c) ==> {
                &&& (exists|day: Seq<char>|
                    is_derivation(
                        c.identity,
                        pepper,
                        config.daily_salt@,
                        user_identifier@,
                        ip_address@,
                        device_info@,
                        day,
                    ))
                &&& c.identity.permanent_user_hash@ == pu
                &&& c.identity.permanent_ip_hash@ == pi
                &&& c.identity.permanent_device_hash@ == pd
                &&& (role is Admin ==> c.attempt_id is None)
                &&& (!(role is Admin) ==> c.attempt_id == Some(old(attempts).next_id))
            })
            &&& (r is Ok && exempt ==> final(limiter).tracker@ == old(limiter).tracker@
                && final(limiter).locks@ == old(limiter).locks@)
            &&& (r is Ok && !exempt ==> {
                let counted = old(limiter).rules@.filter(
                    |ru: RateLimitRule| spec_rule_applies(ru, action_type),
                );
                &&& final(limiter).locks@ == old(limiter).locks@
                &&& final(limiter).tracker@.len() == old(limiter).tracker@.len() + counted.len()
                &&& (forall|q: int|
                    0 <= q < old(limiter).tracker@.len() ==> final(limiter).tracker@[q]
                        == old(limiter).tracker@[q])
                &&& (forall|k: int|
                    0 <= k < counted.len() ==> #[trigger] spec_counted_event(
                        final(limiter).tracker@[old(limiter).tracker@.len() + k],
                        counted[k],
                        user_id,
                        pi,
                        pd,
                        now,
                    ))
            })
        }),
{
    let identity = generate_identity_hashes_today(
        config,
        user_identifier,
        ip_address,
        device_info,
    );

    let mut attempt_id: Option<i32> = None;
    if !matches!(role, Role::Admin) {
        let input = VerificationInput {
            verification_type,
            user_id: Some(user_id),
            role: Some(role),
            ip_address: String::from_str(ip_address),
            raw_ip_address: None,
            captcha_token: None,
            fingerprint_data: fingerprint,
        };
        let ghost ginput = input;
        proof {
            assert(spec_pre_reputation_rejection(
                ginput,
                opt_captcha_view(None),
                false,
                old(attempts).attempts@,
                dev_bypass_fingerprint,
                now as int,
            ) == (match spec_guard_pipeline_rejection(
                old(attempts).attempts@,
                ginput.fingerprint_data,
                dev_bypass_fingerprint,
                None,
                false,
                now as int,
            ) {
                Some(m) => Some((m, crate::verification::RejectionType::RateLimit)),
                None => None,
            }));
            assert(spec_overall_rejection(
                ginput,
                opt_captcha_view(None),
                false,
                old(attempts).attempts@,
                dev_bypass_fingerprint,
                opt_reputation_view(reputation),
                proxycheck_enabled,
                now as int,
            ) == (match spec_guard_pipeline_rejection(
                old(attempts).attempts@,
                ginput.fingerprint_data,
                dev_bypass_fingerprint,
                opt_reputation_view(reputation),
                proxycheck_enabled,
                now as int,
            ) {
                Some(m) => Some((m, crate::verification::RejectionType::RateLimit)),
                None => None,
            }));
        }
        match perform_verification(
            attempts,
            &input,
            None,
            false,
            reputation,
            proxycheck_enabled,
            dev_bypass_fingerprint,
            now,
        ) {
            Err(e) => {
                return Err(e);
            },
            Ok((result, id)) => {
                if !result.is_success {
                    let reason = match result.rejection_reason {
                        Some(m) => m,
                        None => String::from_str("The request was blocked."),
                    };
                    return Err(ServiceError::Forbidden(reason));
                }
                attempt_id = Some(id);
            },
        }
    }

    if let Err(e) = check_if_banned(
        bans,
        board_id,
        post_id,
        Some(identity.permanent_user_hash.as_str()),
        Some(identity.permanent_ip_hash.as_str()),
        Some(identity.permanent_device_hash.as_str()),
    ) {
        return Err(e);
    }

    if let Err(e) = check_and_track_rate_limits(
        limiter,
        user_id,
        identity.permanent_ip_hash.as_str(),
        identity.permanent_device_hash.as_str(),
        action_type,
        role,
        is_rate_limit_exempt,
        now,
    ) {
        return Err(e);
    }

    Ok(WriteClearance { identity, attempt_id })
}

} // verus!
