//! The verification pipeline run before every write action: CAPTCHA outcome,
//! level-up ban check, fingerprint deduplication, IP-reputation ruling, and
//! the persisted attempt record that audits each pass.
//!
//! The network calls themselves (CAPTCHA and IP-reputation providers) happen
//! outside; their outcomes come in as plain values, and this module decides
//! everything from them. The order is fixed: fingerprint deduplication runs
//! before the IP-reputation ruling so that cheap local rejections never
//! spend external API quota.

use vstd::prelude::*;

use crate::crypto::{hex_of, sha256_hex, sha256_of};
use crate::errors::ServiceError;
use crate::models::Role;
use crate::rate_limiter::MAX_TIMESTAMP;
use crate::text::{opt_string_view, spec_join, str_eq, str_views, join_with};
use vstd::string::{StrSliceExecFns, StringExecFns};

verus! {

/// How a rejection is presented: generic failures carry a readable reason,
/// rate-limit-type failures get retry-oriented handling downstream.
#[derive(Clone, Copy, PartialEq, Eq, Structural, Debug)]
pub enum RejectionType {
    Generic,
    RateLimit,
}

/// The write action being verified.
#[derive(Clone, Copy, PartialEq, Eq, Structural, Debug)]
pub enum VerificationType {
    LevelUp,
    Registration,
    CreateBoard,
    CreatePost,
    CreateComment,
}

/// A client fingerprint as a loosely-typed document: the raw payload text
/// kept for audit, and the three components the deduplicator reads, each
/// defaulting to empty where the client omitted it.
pub struct FingerprintData {
    pub raw: String,
    pub webgl: String,
    pub canvas: String,
    pub audio: String,
}

/// The four comparison hashes of one fingerprint: the 3-way concatenation
/// and the three pairwise ones.
pub struct FingerprintHashes {
    pub h3: String,
    pub h_wc: String,
    pub h_wa: String,
    pub h_ca: String,
}

/// What the CAPTCHA provider answered: its success flag and error codes.
pub struct CaptchaResponse {
    pub success: bool,
    pub error_codes: Vec<String>,
}

/// The detection block of an IP-reputation answer.
#[derive(Clone, Copy, PartialEq, Eq, Structural, Debug)]
pub struct ProxyCheckDetections {
    pub proxy: bool,
    pub vpn: bool,
    pub tor: bool,
    pub hosting: bool,
    pub compromised: bool,
    pub scraper: bool,
    pub anonymous: bool,
    pub risk: i64,
}

/// One legacy flat field of an IP-reputation answer, such as
/// `"proxy": "yes"`.
pub struct LegacyFlag {
    pub key: String,
    pub value: String,
}

/// An IP-reputation answer as the pipeline reads it: the raw response text
/// kept for audit, and the per-IP details — the structured detection block
/// where present, and the legacy flat fields either way.
pub struct IpReputation {
    pub raw: String,
    pub detections: Option<ProxyCheckDetections>,
    pub legacy_flags: Vec<LegacyFlag>,
}

/// One verification attempt, persisted once per pipeline run, success or
/// failure, and never changed after.
pub struct AttemptRecord {
    pub id: i32,
    pub user_id: Option<i32>,
    pub attempt_type: VerificationType,
    pub is_success: bool,
    pub ip_address: String,
    pub fingerprint_json: Option<String>,
    pub proxycheck_json: Option<String>,
    pub hash_webgl_canvas_audio: Option<String>,
    pub hash_webgl_canvas: Option<String>,
    pub hash_webgl_audio: Option<String>,
    pub hash_canvas_audio: Option<String>,
    pub rejection_reason: Option<String>,
    pub created_at: i64,
}

/// The persisted attempt table, with the id the next insertion takes.
pub struct AttemptStore {
    pub attempts: Vec<AttemptRecord>,
    pub next_id: i32,
}

/// What one pipeline run decided.
pub struct VerificationResult {
    pub is_success: bool,
    pub rejection_reason: Option<String>,
    pub rejection_type: Option<RejectionType>,
    pub hashes: Option<FingerprintHashes>,
}

/// Everything one pipeline run starts from.
pub struct VerificationInput {
    pub verification_type: VerificationType,
    pub user_id: Option<i32>,
    pub role: Option<Role>,
    pub ip_address: String,
    pub raw_ip_address: Option<String>,
    pub captcha_token: Option<String>,
    pub fingerprint_data: Option<FingerprintData>,
}

/// A 3-way fingerprint match locks the hash out for this long.
pub const FINGERPRINT_3_HASH_LOCK_DURATION_HOURS: i64 = 23;

/// A 2-way fingerprint match locks the hashes out for this long.
pub const FINGERPRINT_2_HASH_LOCK_DURATION_HOURS: i64 = 1;

/// Whether this action type runs a CAPTCHA check at all.
pub open spec fn spec_captcha_required(t: VerificationType) -> bool {
    t is LevelUp || t is Registration
}

/// Whether this action type runs a CAPTCHA check (executable form). The
/// posting actions skip it.
pub fn captcha_required(t: VerificationType) -> (r: bool)
    ensures
        r == spec_captcha_required(t),
{
    matches!(t, VerificationType::LevelUp | VerificationType::Registration)
}

/// The four comparison hashes a fingerprint document yields.
pub open spec fn spec_fingerprint_hashes_of(h: FingerprintHashes, d: FingerprintData) -> bool {
    &&& h.h3@ == hex_of(sha256_of(d.webgl@ + d.canvas@ + d.audio@))
    &&& h.h_wc@ == hex_of(sha256_of(d.webgl@ + d.canvas@))
    &&& h.h_wa@ == hex_of(sha256_of(d.webgl@ + d.audio@))
    &&& h.h_ca@ == hex_of(sha256_of(d.canvas@ + d.audio@))
}

/// Computes the 3-way and pairwise comparison hashes of a fingerprint.
/// A pure function: the same components always give the same hashes.
pub fn calculate_fingerprint_hashes(data: &FingerprintData) -> (r: FingerprintHashes)
    ensures
        spec_fingerprint_hashes_of(r, *data),
{
    let mut wca = data.webgl.clone();
    wca.append(data.canvas.as_str());
    wca.append(data.audio.as_str());
    let mut wc = data.webgl.clone();
    wc.append(data.canvas.as_str());
    let mut wa = data.webgl.clone();
    wa.append(data.audio.as_str());
    let mut ca = data.canvas.clone();
    ca.append(data.audio.as_str());
    FingerprintHashes {
        h3: sha256_hex(wca.as_str()),
        h_wc: sha256_hex(wc.as_str()),
        h_wa: sha256_hex(wa.as_str()),
        h_ca: sha256_hex(ca.as_str()),
    }
}

/// Whether some attempt in the last 23 hours used the same 3-way hash.
pub open spec fn spec_h3_reuse(
    attempts: Seq<AttemptRecord>,
    h3: Seq<char>,
    now: int,
) -> bool {
    exists|i: int|
        0 <= i < attempts.len() && opt_string_view(attempts[i].hash_webgl_canvas_audio) == Some(h3)
            && attempts[i].created_at > now - FINGERPRINT_3_HASH_LOCK_DURATION_HOURS * 3600
}

/// Whether some attempt in the last hour shares any pairwise hash, each
/// stored column compared against its own probe.
pub open spec fn spec_h2_reuse(
    attempts: Seq<AttemptRecord>,
    h_wc: Seq<char>,
    h_wa: Seq<char>,
    h_ca: Seq<char>,
    now: int,
) -> bool {
    exists|i: int|
        0 <= i < attempts.len() && (opt_string_view(attempts[i].hash_webgl_canvas) == Some(h_wc)
            || opt_string_view(attempts[i].hash_webgl_audio) == Some(h_wa) || opt_string_view(
            attempts[i].hash_canvas_audio,
        ) == Some(h_ca)) && attempts[i].created_at > now - FINGERPRINT_2_HASH_LOCK_DURATION_HOURS
            * 3600
}

/// The deduplicator's ruling on one fingerprint: the rejection it reports,
/// or nothing. A 3-way match within 23 hours outranks a 2-way match within
/// one hour; the development bypass disables the check entirely.
pub open spec fn spec_fingerprint_rejection(
    attempts: Seq<AttemptRecord>,
    h3: Seq<char>,
    h_wc: Seq<char>,
    h_wa: Seq<char>,
    h_ca: Seq<char>,
    dev_bypass: bool,
    now: int,
) -> Option<Seq<char>> {
    if dev_bypass {
        None
    } else if spec_h3_reuse(attempts, h3, now) {
        Some("Fingerprint (3-hash) has been used recently."@)
    } else if spec_h2_reuse(attempts, h_wc, h_wa, h_ca, now) {
        Some("Fingerprint (2-hash) has been used recently."@)
    } else {
        None
    }
}

/// Checks one fingerprint's hashes against the recent attempt history, both
/// windows in a single pass.
pub fn verify_fingerprint_hashes(
    attempts: &Vec<AttemptRecord>,
    hashes: &FingerprintHashes,
    dev_bypass: bool,
    now: i64,
) -> (r: Option<String>)
    requires
        0 <= now <= MAX_TIMESTAMP,
    ensures
        opt_string_view(r) == spec_fingerprint_rejection(
            attempts@,
            hashes.h3@,
            hashes.h_wc@,
            hashes.h_wa@,
            hashes.h_ca@,
            dev_bypass,
            now as int,
        ),
{
    if dev_bypass {
        return None;
    }
    let h3_cutoff = now - FINGERPRINT_3_HASH_LOCK_DURATION_HOURS * 3600;
    let h2_cutoff = now - FINGERPRINT_2_HASH_LOCK_DURATION_HOURS * 3600;
    let n = attempts.len();
    let mut h3_found = false;
    let mut h2_found = false;
    let mut i: usize = 0;
    while i < n
        invariant
            n == attempts@.len(),
            i <= n,
            h3_cutoff == now - FINGERPRINT_3_HASH_LOCK_DURATION_HOURS * 3600,
            h2_cutoff == now - FINGERPRINT_2_HASH_LOCK_DURATION_HOURS * 3600,
            h3_found ==> spec_h3_reuse(attempts@, hashes.h3@, now as int),
            h2_found ==> spec_h2_reuse(attempts@, hashes.h_wc@, hashes.h_wa@, hashes.h_ca@, now as int),
            !h3_found ==> (forall|j: int|
                0 <= j < i ==> !(opt_string_view(attempts@[j].hash_webgl_canvas_audio) == Some(
                    hashes.h3@,
                ) && attempts@[j].created_at > now - FINGERPRINT_3_HASH_LOCK_DURATION_HOURS
                    * 3600)),
            !h2_found ==> (forall|j: int|
                0 <= j < i ==> !((opt_string_view(attempts@[j].hash_webgl_canvas) == Some(
                    hashes.h_wc@,
                ) || opt_string_view(attempts@[j].hash_webgl_audio) == Some(hashes.h_wa@)
                    || opt_string_view(attempts@[j].hash_canvas_audio) == Some(hashes.h_ca@))
                    && attempts@[j].created_at > now - FINGERPRINT_2_HASH_LOCK_DURATION_HOURS
                    * 3600)),
        decreases n - i,
    {
        let a = &attempts[i];
        if a.created_at > h3_cutoff {
            let m3 = match &a.hash_webgl_canvas_audio {
                Some(h) => str_eq(h.as_str(), hashes.h3.as_str()),
                None => false,
            };
            if m3 {
                h3_found = true;
            }
        }
        if a.created_at > h2_cutoff {
            let m_wc = match &a.hash_webgl_canvas {
                Some(h) => str_eq(h.as_str(), hashes.h_wc.as_str()),
                None => false,
            };
            let m_wa = match &a.hash_webgl_audio {
                Some(h) => str_eq(h.as_str(), hashes.h_wa.as_str()),
                None => false,
            };
            let m_ca = match &a.hash_canvas_audio {
                Some(h) => str_eq(h.as_str(), hashes.h_ca.as_str()),
                None => false,
            };
            if m_wc || m_wa || m_ca {
                h2_found = true;
            }
        }
        i = i + 1;
    }
    if h3_found {
        Some(String::from_str("Fingerprint (3-hash) has been used recently."))
    } else if h2_found {
        Some(String::from_str("Fingerprint (2-hash) has been used recently."))
    } else {
        None
    }
}

/// Law: an exact fingerprint reuse inside the 23-hour window cannot pass.
/// Where some stored attempt carries the same 3-way hash and is younger
/// than 23 hours, the deduplicator reports the 3-way rejection — unless the
/// development bypass is on.
pub proof fn lemma_fingerprint_reuse_rejected(
    attempts: Seq<AttemptRecord>,
    h3: Seq<char>,
    h_wc: Seq<char>,
    h_wa: Seq<char>,
    h_ca: Seq<char>,
    now: int,
)
    requires
        spec_h3_reuse(attempts, h3, now),
    ensures
        spec_fingerprint_rejection(attempts, h3, h_wc, h_wa, h_ca, false, now) == Some(
            "Fingerprint (3-hash) has been used recently."@,
        ),
{
}

/// Law: a pairwise fingerprint match inside the one-hour window cannot pass
/// either; it reports the weaker 2-way rejection where no 3-way match
/// outranks it.
pub proof fn lemma_pairwise_reuse_rejected(
    attempts: Seq<AttemptRecord>,
    h3: Seq<char>,
    h_wc: Seq<char>,
    h_wa: Seq<char>,
    h_ca: Seq<char>,
    now: int,
)
    requires
        spec_h2_reuse(attempts, h_wc, h_wa, h_ca, now),
    ensures
        spec_fingerprint_rejection(attempts, h3, h_wc, h_wa, h_ca, false, now) is Some,
{
}

/// Whether a legacy flat value spells "yes" in any ASCII case.
pub open spec fn spec_is_yes(v: Seq<char>) -> bool {
    v.len() == 3 && (v[0] == 'y' || v[0] == 'Y') && (v[1] == 'e' || v[1] == 'E') && (v[2] == 's'
        || v[2] == 'S')
}

/// Whether a legacy flat key is one the ruling watches.
pub open spec fn spec_watched_key(k: Seq<char>) -> bool {
    ||| k == "proxy"@
    ||| k == "vpn"@
    ||| k == "tor"@
    ||| k == "hosting"@
    ||| k == "compromised"@
    ||| k == "scraper"@
    ||| k == "anonymous"@
}

/// Whether the structured detection block raises any flag.
pub open spec fn spec_detections_flagged(d: ProxyCheckDetections) -> bool {
    d.proxy || d.vpn || d.tor || d.hosting || d.compromised || d.scraper || d.anonymous
}

/// Whether an IP-reputation answer flags the address: a raised structured
/// detection, or a watched legacy field whose value spells "yes".
pub open spec fn spec_reputation_flagged(rep: IpReputation) -> bool {
    ||| (rep.detections matches Some(d) && spec_detections_flagged(d))
    ||| (exists|i: int|
        0 <= i < rep.legacy_flags.len() && spec_watched_key(rep.legacy_flags[i].key@)
            && spec_is_yes(rep.legacy_flags[i].value@))
}

/// Whether one legacy value spells "yes" in any ASCII case.
fn is_yes(v: &str) -> (r: bool)
    ensures
        r == spec_is_yes(v@),
{
    let n = v.unicode_len();
    if n != 3 {
        return false;
    }
    let c0 = v.get_char(0);
    let c1 = v.get_char(1);
    let c2 = v.get_char(2);
    (c0 == 'y' || c0 == 'Y') && (c1 == 'e' || c1 == 'E') && (c2 == 's' || c2 == 'S')
}

/// Whether a legacy flat key is one the ruling watches.
fn is_watched_key(k: &str) -> (r: bool)
    ensures
        r == spec_watched_key(k@),
{
    str_eq(k, "proxy") || str_eq(k, "vpn") || str_eq(k, "tor") || str_eq(k, "hosting") || str_eq(
        k,
        "compromised",
    ) || str_eq(k, "scraper") || str_eq(k, "anonymous")
}

/// The IP-reputation ruling: a rejection where the answer flags the
/// address, through the structured detections or the legacy flat fields.
pub fn verify_proxycheck(rep: &IpReputation) -> (r: Option<String>)
    ensures
        r is Some <==> spec_reputation_flagged(*rep),
        r matches Some(m) ==> m@ == spec_reputation_rejection_message(),
{
    if let Some(d) = &rep.detections {
        if d.proxy || d.vpn || d.tor || d.hosting || d.compromised || d.scraper || d.anonymous {
            return Some(String::from_str(REPUTATION_REJECTION_MESSAGE));
        }
    }
    let n = rep.legacy_flags.len();
    let mut i: usize = 0;
    while i < n
        invariant
            n == rep.legacy_flags@.len(),
            i <= n,
            forall|j: int|
                0 <= j < i ==> !(spec_watched_key(rep.legacy_flags@[j].key@) && spec_is_yes(
                    rep.legacy_flags@[j].value@,
                )),
        decreases n - i,
    {
        let flag = &rep.legacy_flags[i];
        if is_watched_key(flag.key.as_str()) && is_yes(flag.value.as_str()) {
            return Some(String::from_str(REPUTATION_REJECTION_MESSAGE));
        }
        i = i + 1;
    }
    None
}

/// The fixed wording of an IP-reputation rejection.
pub const REPUTATION_REJECTION_MESSAGE: &'static str =
    "Verification failed. If you are using a VPN or proxy, turn it off and try again.";

/// The wording of an IP-reputation rejection, in spec form.
pub open spec fn spec_reputation_rejection_message() -> Seq<char> {
    "Verification failed. If you are using a VPN or proxy, turn it off and try again."@
}

/// The level-up ban gate: accounts flagged as banned from leveling up
/// are rejected there and nowhere else.
pub open spec fn spec_level_ban_rejection(
    t: VerificationType,
    user_id: Option<i32>,
    banned_from_level_up: bool,
) -> Option<Seq<char>> {
    if t is LevelUp && user_id is Some && banned_from_level_up {
        Some("This account is banned from leveling up."@)
    } else {
        None
    }
}

/// The view of an optional CAPTCHA answer reference.
pub open spec fn opt_captcha_view(o: Option<&CaptchaResponse>) -> Option<CaptchaResponse> {
    match o {
        Some(c) => Some(*c),
        None => None,
    }
}

/// The view of an optional IP-reputation reference.
pub open spec fn opt_reputation_view(o: Option<&IpReputation>) -> Option<IpReputation> {
    match o {
        Some(r) => Some(*r),
        None => None,
    }
}

/// The first rejection among the steps that run before the IP-reputation
/// call: CAPTCHA outcome, then level-up ban, then fingerprint
/// deduplication. Admins bypass the fingerprint check.
pub open spec fn spec_pre_reputation_rejection(
    input: VerificationInput,
    captcha: Option<CaptchaResponse>,
    banned_from_level_up: bool,
    attempts: Seq<AttemptRecord>,
    dev_bypass: bool,
    now: int,
) -> Option<(Seq<char>, RejectionType)> {
    let is_admin = input.role == Some(Role::Admin);
    let captcha_reject = if spec_captcha_required(input.verification_type) {
        match captcha {
            Some(c) => spec_captcha_rejection(c),
            None => None,
        }
    } else {
        None
    };
    match captcha_reject {
        Some(m) => Some((m, RejectionType::Generic)),
        None => match spec_level_ban_rejection(
            input.verification_type,
            input.user_id,
            banned_from_level_up,
        ) {
            Some(m) => Some((m, RejectionType::Generic)),
            None => match input.fingerprint_data {
                Some(d) => if is_admin {
                    None
                } else {
                    match spec_fingerprint_rejection(
                        attempts,
                        hex_of(sha256_of(d.webgl@ + d.canvas@ + d.audio@)),
                        hex_of(sha256_of(d.webgl@ + d.canvas@)),
                        hex_of(sha256_of(d.webgl@ + d.audio@)),
                        hex_of(sha256_of(d.canvas@ + d.audio@)),
                        dev_bypass,
                        now,
                    ) {
                        Some(m) => Some((m, RejectionType::RateLimit)),
                        None => None,
                    }
                },
                None => None,
            },
        },
    }
}

/// The pipeline's overall rejection: the pre-reputation steps in order, then
/// the IP-reputation ruling where it was consulted. Admins bypass the
/// reputation ruling too.
pub open spec fn spec_overall_rejection(
    input: VerificationInput,
    captcha: Option<CaptchaResponse>,
    banned_from_level_up: bool,
    attempts: Seq<AttemptRecord>,
    dev_bypass: bool,
    reputation: Option<IpReputation>,
    proxycheck_enabled: bool,
    now: int,
) -> Option<(Seq<char>, RejectionType)> {
    let is_admin = input.role == Some(Role::Admin);
    match spec_pre_reputation_rejection(
        input,
        captcha,
        banned_from_level_up,
        attempts,
        dev_bypass,
        now,
    ) {
        Some(x) => Some(x),
        None => if proxycheck_enabled && !is_admin {
            match reputation {
                Some(rep) => if spec_reputation_flagged(rep) {
                    Some((spec_reputation_rejection_message(), RejectionType::RateLimit))
                } else {
                    None
                },
                None => None,
            }
        } else {
            None
        },
    }
}

/// The row one pipeline run persists.
pub open spec fn spec_attempt_from(
    rec: AttemptRecord,
    id: i32,
    input: VerificationInput,
    result: VerificationResult,
    proxycheck_json: Option<Seq<char>>,
    now: i64,
) -> bool {
    &&& rec.id == id
    &&& rec.user_id == input.user_id
    &&& rec.attempt_type == input.verification_type
    &&& rec.is_success == result.is_success
    &&& rec.ip_address@ == input.ip_address@
    &&& opt_string_view(rec.fingerprint_json) == (match input.fingerprint_data {
        Some(d) => Some(d.raw@),
        None => None,
    })
    &&& opt_string_view(rec.proxycheck_json) == proxycheck_json
    &&& (match result.hashes {
        Some(h) => {
            &&& opt_string_view(rec.hash_webgl_canvas_audio) == Some(h.h3@)
            &&& opt_string_view(rec.hash_webgl_canvas) == Some(h.h_wc@)
            &&& opt_string_view(rec.hash_webgl_audio) == Some(h.h_wa@)
            &&& opt_string_view(rec.hash_canvas_audio) == Some(h.h_ca@)
        },
        None => {
            &&& rec.hash_webgl_canvas_audio is None
            &&& rec.hash_webgl_canvas is None
            &&& rec.hash_webgl_audio is None
            &&& rec.hash_canvas_audio is None
        },
    })
    &&& opt_string_view(rec.rejection_reason) == opt_string_view(result.rejection_reason)
    &&& rec.created_at == now
}

/// Persists one verification attempt, success or failure, and returns its
/// id. The attempt table only ever grows; rows are never changed. For a
/// failed level-up attempt the caller also charges the user's failure
/// counter, in the same unit of work (see the level-up module).
pub fn save_attempt(
    store: &mut AttemptStore,
    input: &VerificationInput,
    result: &VerificationResult,
    proxycheck_json: Option<String>,
    now: i64,
) -> (id: i32)
    requires
        old(store).next_id < i32::MAX,
    ensures
        id == old(store).next_id,
        final(store).next_id == old(store).next_id + 1,
        final(store).attempts@.len() == old(store).attempts@.len() + 1,
        final(store).attempts@.drop_last() == old(store).attempts@,
        spec_attempt_from(
            final(store).attempts@.last(),
            old(store).next_id,
            *input,
            *result,
            opt_string_view(proxycheck_json),
            now,
        ),
{
    let id = store.next_id;
    let fingerprint_json = match &input.fingerprint_data {
        Some(d) => Some(d.raw.clone()),
        None => None,
    };
    let (h3, h_wc, h_wa, h_ca) = match &result.hashes {
        Some(h) => (
            Some(h.h3.clone()),
            Some(h.h_wc.clone()),
            Some(h.h_wa.clone()),
            Some(h.h_ca.clone()),
        ),
        None => (None, None, None, None),
    };
    let rejection_reason = match &result.rejection_reason {
        Some(m) => Some(m.clone()),
        None => None,
    };
    let rec = AttemptRecord {
        id,
        user_id: input.user_id,
        attempt_type: input.verification_type,
        is_success: result.is_success,
        ip_address: input.ip_address.clone(),
        fingerprint_json,
        proxycheck_json,
        hash_webgl_canvas_audio: h3,
        hash_webgl_canvas: h_wc,
        hash_webgl_audio: h_wa,
        hash_canvas_audio: h_ca,
        rejection_reason,
        created_at: now,
    };
    store.attempts.push(rec);
    store.next_id = store.next_id + 1;
    proof {
        assert(final(store).attempts@.drop_last() =~= old(store).attempts@);
    }
    id
}

/// Runs the whole verification pipeline for one write action and persists
/// the attempt.
///
/// The external calls come in as plain values: `captcha` is the provider's
/// answer where one was obtained, `banned_from_level_up` the account flag,
/// `reputation` the IP-reputation answer where one was fetched. A missing
/// CAPTCHA token is refused outright; a provider answer that is owed but
/// absent (the provider was unreachable or answered garbage) is an internal
/// error, and no attempt is persisted, since verification never completed.
/// Every completed run — rejected or passed — persists exactly one attempt
/// and returns its id.
pub fn perform_verification(
    store: &mut AttemptStore,
    input: &VerificationInput,
    captcha: Option<&CaptchaResponse>,
    banned_from_level_up: bool,
    reputation: Option<&IpReputation>,
    proxycheck_enabled: bool,
    dev_bypass_fingerprint: bool,
    now: i64,
) -> (r: Result<(VerificationResult, i32), ServiceError>)
    requires
        0 <= now <= MAX_TIMESTAMP,
        old(store).next_id < i32::MAX,
    ensures
        r is Err ==> final(store).attempts@ == old(store).attempts@ && final(store).next_id == old(
            store,
        ).next_id,
        spec_captcha_required(input.verification_type) && input.captcha_token is None ==> (
        r matches Err(e) && e is BadRequest),
        spec_captcha_required(input.verification_type) && input.captcha_token is Some && captcha
            is None ==> (r matches Err(e) && e is InternalServerError),
        ({
            let pre = spec_pre_reputation_rejection(
                *input,
                opt_captcha_view(captcha),
                banned_from_level_up,
                old(store).attempts@,
                dev_bypass_fingerprint,
                now as int,
            );
            &&& (!(spec_captcha_required(input.verification_type) && (input.captcha_token is None
                || captcha is None)) && pre is None && proxycheck_enabled && reputation is None
                ==> (r matches Err(e) && e is InternalServerError))
            &&& (!(spec_captcha_required(input.verification_type) && (input.captcha_token is None
                || captcha is None)) && !(pre is None && proxycheck_enabled && reputation is None)
                ==> r is Ok)
        }),
        r matches Ok(pair) ==> ({
            let rejection = spec_overall_rejection(
                *input,
                opt_captcha_view(captcha),
                banned_from_level_up,
                old(store).attempts@,
                dev_bypass_fingerprint,
                opt_reputation_view(reputation),
                proxycheck_enabled,
                now as int,
            );
            let pre = spec_pre_reputation_rejection(
                *input,
                opt_captcha_view(captcha),
                banned_from_level_up,
                old(store).attempts@,
                dev_bypass_fingerprint,
                now as int,
            );
            let consulted = pre is None && proxycheck_enabled;
            &&& pair.1 == old(store).next_id
            &&& pair.0.is_success == (rejection is None)
            &&& (rejection matches Some(x) ==> opt_string_view(pair.0.rejection_reason) == Some(
                x.0,
            ) && pair.0.rejection_type == Some(x.1))
            &&& (rejection is None ==> pair.0.rejection_reason is None && pair.0.rejection_type
                is None)
            &&& (match input.fingerprint_data {
                Some(d) => pair.0.hashes matches Some(h) && spec_fingerprint_hashes_of(h, d),
                None => pair.0.hashes is None,
            })
            &&& final(store).next_id == old(store).next_id + 1
            &&& final(store).attempts@.len() == old(store).attempts@.len() + 1
            &&& final(store).attempts@.drop_last() == old(store).attempts@
            &&& spec_attempt_from(
                final(store).attempts@.last(),
                old(store).next_id,
                *input,
                pair.0,
                if consulted {
                    match opt_reputation_view(reputation) {
                        Some(rep) => Some(rep.raw@),
                        None => None,
                    }
                } else {
                    None
                },
                now,
            )
        }),
{
    let is_admin = match input.role {
        Some(Role::Admin) => true,
        _ => false,
    };
    let mut rejection_reason: Option<String> = None;
    let mut rejection_type: Option<RejectionType> = None;

    if captcha_required(input.verification_type) {
        if input.captcha_token.is_none() {
            return Err(ServiceError::BadRequest(String::from_str("Captcha token is required.")));
        }
        match captcha {
            None => {
                return Err(
                    ServiceError::InternalServerError(
                        String::from_str("The CAPTCHA provider could not be reached."),
                    ),
                );
            },
            Some(c) => {
                if let Some(reason) = evaluate_captcha(c) {
                    rejection_reason = Some(reason);
                    rejection_type = Some(RejectionType::Generic);
                }
            },
        }
    }

    if rejection_reason.is_none() && matches!(input.verification_type, VerificationType::LevelUp)
        && input.user_id.is_some() && banned_from_level_up {
        rejection_reason = Some(String::from_str("This account is banned from leveling up."));
        rejection_type = Some(RejectionType::Generic);
    }

    let hashes: Option<FingerprintHashes> = match &input.fingerprint_data {
        Some(d) => {
            let h = calculate_fingerprint_hashes(d);
            if rejection_reason.is_none() && !is_admin {
                if let Some(reason) = verify_fingerprint_hashes(
                    &store.attempts,
                    &h,
                    dev_bypass_fingerprint,
                    now,
                ) {
                    rejection_reason = Some(reason);
                    rejection_type = Some(RejectionType::RateLimit);
                }
            }
            Some(h)
        },
        None => None,
    };

    let proxycheck_json: Option<String> = if rejection_reason.is_none() && proxycheck_enabled {
        match reputation {
            None => {
                return Err(
                    ServiceError::InternalServerError(
                        String::from_str("The IP reputation provider could not be reached."),
                    ),
                );
            },
            Some(rep) => {
                if !is_admin {
                    if let Some(reason) = verify_proxycheck(rep) {
                        rejection_reason = Some(reason);
                        rejection_type = Some(RejectionType::RateLimit);
                    }
                }
                Some(rep.raw.clone())
            },
        }
    } else {
        None
    };

    let is_success = rejection_reason.is_none();
    let result = VerificationResult { is_success, rejection_reason, rejection_type, hashes };
    let attempt_id = save_attempt(store, input, &result, proxycheck_json, now);
    Ok((result, attempt_id))
}

/// The CAPTCHA outcome of a provider answer: a rejection with the joined
/// error codes where the provider said no.
pub open spec fn spec_captcha_rejection(resp: CaptchaResponse) -> Option<Seq<char>> {
    if resp.success {
        None
    } else {
        Some("Captcha verification failed. Error codes: "@ + spec_join(str_views(resp.error_codes@), ", "@))
    }
}

/// Evaluates a CAPTCHA provider answer. A failed check is a rejection whose
/// reason joins the provider's error codes; reachability problems never get
/// here — the caller surfaces them as internal errors instead.
pub fn evaluate_captcha(resp: &CaptchaResponse) -> (r: Option<String>)
    ensures
        opt_string_view(r) == spec_captcha_rejection(*resp),
{
    if resp.success {
        None
    } else {
        let mut msg = String::from_str("Captcha verification failed. Error codes: ");
        let joined = join_with(&resp.error_codes, ", ");
        msg.append(joined.as_str());
        Some(msg)
    }
}

} // verus!
