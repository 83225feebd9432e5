//! Account registration and session edges of the attestation protocol: the
//! registration preflight that mints a sign-up token, and the cooldown on
//! reissuing device-linking tokens.

use vstd::prelude::*;

use crate::errors::ServiceError;
use crate::level_up::{
    jwt_hs256_of, mint_attestation_token, ATTESTATION_TOKEN_TTL_SECONDS,
    REGISTRATION_TOKEN_SUBJECT,
};
use crate::rate_limiter::MAX_TIMESTAMP;
use crate::verification::{
    opt_captcha_view, opt_reputation_view, perform_verification, spec_overall_rejection,
    spec_pre_reputation_rejection, AttemptStore, CaptchaResponse, IpReputation, VerificationInput,
};
use vstd::string::StringExecFns;

verus! {

/// What a caller submits to mint a fresh account from a passed preflight.
pub struct CreateAccountPayload {
    pub preflight_token: String,
}

/// What a caller submits to sign in with an existing account id.
pub struct LoginWithAccountIdPayload {
    pub account_id: String,
    pub preflight_token: String,
}

/// A device-linking token may be reissued at most this often.
pub const LINKING_TOKEN_COOLDOWN_SECONDS: i64 = 60;

/// How long a reissue must still wait, or nothing when one may happen now.
pub fn linking_token_cooldown_remaining(last_generated_at: Option<i64>, now: i64) -> (r: Option<
    i64,
>)
    requires
        0 <= now <= MAX_TIMESTAMP,
        last_generated_at matches Some(t) ==> 0 <= t <= MAX_TIMESTAMP,
    ensures
        r == (match last_generated_at {
            Some(t) => if now - t < LINKING_TOKEN_COOLDOWN_SECONDS {
                Some((LINKING_TOKEN_COOLDOWN_SECONDS - (now - t)) as i64)
            } else {
                None::<i64>
            },
            None => None::<i64>,
        }),
{
    match last_generated_at {
        Some(t) => {
            let elapsed = now - t;
            if elapsed < LINKING_TOKEN_COOLDOWN_SECONDS {
                Some(LINKING_TOKEN_COOLDOWN_SECONDS - elapsed)
            } else {
                None
            }
        },
        None => None,
    }
}

/// The text before the first comma.
pub open spec fn spec_before_comma(s: Seq<char>) -> Seq<char>
    decreases s.len(),
{
    if s.len() == 0 {
        s
    } else if s.first() == ',' {
        Seq::empty()
    } else {
        seq![s.first()] + spec_before_comma(s.drop_first())
    }
}

proof fn lemma_before_comma(s: Seq<char>, k: int)
    requires
        0 <= k <= s.len(),
        forall|j: int| 0 <= j < k ==> s[j] != ',',
        k < s.len() ==> s[k] == ',',
    ensures
        spec_before_comma(s) == s.take(k),
    decreases s.len(),
{
    if s.len() == 0 {
        assert(s.take(k) =~= s);
    } else if k == 0 {
        assert(s.take(0) =~= Seq::<char>::empty());
    } else {
        lemma_before_comma(s.drop_first(), k - 1);
        assert(seq![s.first()] + s.drop_first().take(k - 1) =~= s.take(k));
    }
}

/// The client address a request carries, in the order the proxies set it:
/// `X-Real-IP` outranks everything; else the leftmost `X-Forwarded-For`
/// entry, trimmed; else the connection's own address; else the null
/// address.
#[verifier::loop_isolation(false)]
pub fn choose_client_ip(
    x_real_ip: Option<&str>,
    x_forwarded_for: Option<&str>,
    remote_addr: Option<&str>,
) -> (r: String)
    ensures
        r@ == (match x_real_ip {
            Some(ip) => ip@,
            None => match x_forwarded_for {
                Some(h) => crate::text::spec_trim(spec_before_comma(h@)),
                None => match remote_addr {
                    Some(a) => a@,
                    None => "0.0.0.0"@,
                },
            },
        }),
{
    if let Some(ip) = x_real_ip {
        return String::from_str(ip);
    }
    if let Some(h) = x_forwarded_for {
        let n = h.unicode_len();
        let mut k: usize = 0;
        while k < n && h.get_char(k) != ','
            invariant
                k <= n,
                forall|j: int| 0 <= j < k ==> h@[j] != ',',
            decreases n - k,
        {
            k = k + 1;
        }
        proof {
            lemma_before_comma(h@, k as int);
        }
        return crate::text::trim_str(h.substring_char(0, k));
    }
    match remote_addr {
        Some(a) => String::from_str(a),
        None => String::from_str("0.0.0.0"),
    }
}

/// Who a write is attributed to. A body-borne linking token outranks the
/// session: a valid one signs the caller in on this device (a fresh session
/// is owed) and an empty remainder body becomes the confirmation text; an
/// invalid one is refused outright. Without a token the session decides,
/// and without either the caller is anonymous and refused.
/// `token_user_id` is the storage layer's lookup of the extracted token,
/// where one was present.
pub fn resolve_poster_auth(
    token_present: bool,
    token_user_id: Option<i32>,
    session_user_id: Option<i32>,
    cleaned_body: String,
    original_body: String,
) -> (r: Result<(i32, bool, String), ServiceError>)
    ensures
        token_present && token_user_id is Some ==> (r matches Ok(out) && out.0 == token_user_id->Some_0
            && out.1 && out.2@ == (if cleaned_body@.len() == 0 {
            "Authentication successful."@
        } else {
            cleaned_body@
        })),
        token_present && token_user_id is None ==> (r matches Err(e) && e is BadRequest),
        !token_present && session_user_id is Some ==> (r matches Ok(out) && out.0
            == session_user_id->Some_0 && !out.1 && out.2@ == original_body@),
        !token_present && session_user_id is None ==> (r matches Err(e) && e is Unauthorized),
{
    if token_present {
        match token_user_id {
            Some(u) => {
                let final_body = if cleaned_body.as_str().unicode_len() == 0 {
                    String::from_str("Authentication successful.")
                } else {
                    cleaned_body
                };
                Ok((u, true, final_body))
            },
            None => Err(ServiceError::BadRequest(String::from_str("Invalid linking token."))),
        }
    } else {
        match session_user_id {
            Some(u) => Ok((u, false, original_body)),
            None => Err(ServiceError::Unauthorized),
        }
    }
}

/// The registration preflight: runs the verification pipeline for a
/// sign-up (no account exists yet, so no level-ban applies) and, on
/// success, mints the five-minute token that the create-account and login
/// steps accept. A rejected run surfaces the reason; a provider failure
/// changes nothing.
pub fn preflight_check(
    store: &mut AttemptStore,
    secret: &str,
    input: &VerificationInput,
    captcha: Option<&CaptchaResponse>,
    reputation: Option<&IpReputation>,
    proxycheck_enabled: bool,
    dev_bypass_fingerprint: bool,
    now: i64,
) -> (r: Result<String, ServiceError>)
    requires
        0 <= now <= MAX_TIMESTAMP,
        old(store).next_id < i32::MAX,
        input.verification_type is Registration,
        input.user_id is None,
        input.role is None,
    ensures
        ({
            let pre = spec_pre_reputation_rejection(
                *input,
                opt_captcha_view(captcha),
                false,
                old(store).attempts@,
                dev_bypass_fingerprint,
                now as int,
            );
            let rejection = spec_overall_rejection(
                *input,
                opt_captcha_view(captcha),
                false,
                old(store).attempts@,
                dev_bypass_fingerprint,
                opt_reputation_view(reputation),
                proxycheck_enabled,
                now as int,
            );
            let incomplete = input.captcha_token is None || captcha is None || (pre is None
                && proxycheck_enabled && reputation is None);
            &&& (incomplete ==> r is Err && final(store).attempts@ == old(store).attempts@
                && final(store).next_id == old(store).next_id)
            &&& (input.captcha_token is None ==> (r matches Err(e) && e is BadRequest))
            &&& (!incomplete ==> {
                &&& final(store).next_id == old(store).next_id + 1
                &&& final(store).attempts@.len() == old(store).attempts@.len() + 1
                &&& final(store).attempts@.drop_last() == old(store).attempts@
                &&& final(store).attempts@.last().id == old(store).next_id
                &&& final(store).attempts@.last().attempt_type is Registration
                &&& final(store).attempts@.last().is_success == (rejection is None)
            })
            &&& (!incomplete && rejection is Some ==> {
                let x = rejection->Some_0;
                r matches Err(e) && e matches ServiceError::BadRequest(m) && m@ == x.0
            })
            &&& (!incomplete && rejection is None ==> (r matches Ok(t) && t@ == jwt_hs256_of(
                secret@,
                "preflight-passed"@,
                now + ATTESTATION_TOKEN_TTL_SECONDS,
                old(store).next_id as int,
            )))
        }),
{
    match perform_verification(
        store,
        input,
        captcha,
        false,
        reputation,
        proxycheck_enabled,
        dev_bypass_fingerprint,
        now,
    ) {
        Err(e) => Err(e),
        Ok((result, attempt_id)) => {
            if !result.is_success {
                let reason = match result.rejection_reason {
                    Some(m) => m,
                    None => String::from_str("Verification failed."),
                };
                Err(ServiceError::BadRequest(reason))
            } else {
                mint_attestation_token(secret, REGISTRATION_TOKEN_SUBJECT, attempt_id, now)
            }
        },
    }
}

} // verus!
