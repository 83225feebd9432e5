//! Identity hasher: derives the daily-rotating display identifier and the
//! permanent ban-matching hashes from (user identifier, IP address, device
//! info), two process-wide secrets, and the current calendar day.

use vstd::prelude::*;

use crate::crypto::{
    base62_encode, base62_of, be_value_of, be_value_prefix, current_day_tokyo, hex_encode, hex_of,
    hmac_sha256, hmac_sha256_of, lemma_hex_of_len, push_char,
};
use vstd::string::{StrSliceExecFns, StringExecFns};

verus! {

/// The two secrets the hasher is keyed with, read once at startup.
/// The permanent pepper keys the stable ban-matching hashes; the daily salt
/// keys the rotating display identifier.
pub struct IdentityConfig {
    pub permanent_pepper: String,
    pub daily_salt: String,
}

/// Everything derived for one visitor: shown to others only through
/// `display_user_id`, matched for bans only through the permanent hashes.
pub struct IdentityHashes {
    pub display_user_id: String,
    pub display_id_user_part: String,
    pub display_id_ip_part: String,
    pub display_id_device_part: String,
    pub permanent_user_hash: String,
    pub permanent_ip_hash: String,
    pub permanent_device_hash: String,
}

/// A permanent hash: hex of the keyed MAC over the raw value. It takes no
/// calendar day, so it cannot rotate.
pub open spec fn spec_permanent_hash(pepper: Seq<char>, value: Seq<char>) -> Seq<char> {
    hex_of(hmac_sha256_of(pepper, value))
}

/// The message a daily display part is derived from: the raw value and the
/// calendar day, joined by a dash.
pub open spec fn spec_daily_message(value: Seq<char>, day: Seq<char>) -> Seq<char> {
    value + seq!['-'] + day
}

/// A display-identifier part: the low 128 bits of the keyed MAC, base-62
/// encoded and truncated to the given width.
pub open spec fn spec_display_part(
    salt: Seq<char>,
    value: Seq<char>,
    day: Seq<char>,
    width: int,
) -> Seq<char> {
    let digest = hmac_sha256_of(salt, spec_daily_message(value, day));
    let encoded = base62_of(be_value_of(digest.take(16)));
    if width <= encoded.len() {
        encoded.take(width)
    } else {
        encoded
    }
}

/// The full display identifier: user part (8 chars), IP part (4) and device
/// part (4), joined by dashes. The unequal widths bias collisions toward the
/// dimensions least useful for deanonymization.
pub open spec fn spec_display_user_id(
    salt: Seq<char>,
    user: Seq<char>,
    ip: Seq<char>,
    device: Seq<char>,
    day: Seq<char>,
) -> Seq<char> {
    spec_display_part(salt, user, day, 8) + seq!['-'] + spec_display_part(salt, ip, day, 4)
        + seq!['-'] + spec_display_part(salt, device, day, 4)
}

/// What it means for a result to be the derivation of the given inputs on the
/// given calendar day.
pub open spec fn is_derivation(
    r: IdentityHashes,
    pepper: Seq<char>,
    salt: Seq<char>,
    user: Seq<char>,
    ip: Seq<char>,
    device: Seq<char>,
    day: Seq<char>,
) -> bool {
    &&& r.permanent_user_hash@ == spec_permanent_hash(pepper, user)
    &&& r.permanent_ip_hash@ == spec_permanent_hash(pepper, ip)
    &&& r.permanent_device_hash@ == spec_permanent_hash(pepper, device)
    &&& r.display_id_user_part@ == spec_display_part(salt, user, day, 8)
    &&& r.display_id_ip_part@ == spec_display_part(salt, ip, day, 4)
    &&& r.display_id_device_part@ == spec_display_part(salt, device, day, 4)
    &&& r.display_user_id@ == spec_display_user_id(salt, user, ip, device, day)
}

/// Hex-encoded HMAC-SHA-256 of `data` under `key`: the permanent hash form.
pub fn create_hmac_hash(key: &str, data: &str) -> (r: String)
    ensures
        r@ == spec_permanent_hash(key@, data@),
        r@.len() == 64,
{
    let digest = hmac_sha256(key, data);
    let r = hex_encode(digest.as_slice());
    proof {
        lemma_hex_of_len(hmac_sha256_of(key@, data@));
    }
    r
}

/// Base-62 identifier part: the first 16 bytes of the keyed MAC read as a
/// big-endian number, base-62 encoded, truncated to `length` characters.
pub fn create_base62_id_part(key: &str, data: &str, length: usize) -> (r: String)
    ensures
        ({
            let digest = hmac_sha256_of(key@, data@);
            let encoded = base62_of(be_value_of(digest.take(16)));
            r@ == if length <= encoded.len() {
                encoded.take(length as int)
            } else {
                encoded
            }
        }),
{
    let digest = hmac_sha256(key, data);
    let num = be_value_prefix(digest.as_slice(), 16);
    let encoded = base62_encode(num);
    let n = encoded.as_str().unicode_len();
    if length < n {
        String::from_str(encoded.as_str().substring_char(0, length))
    } else {
        proof {
            assert(encoded@.take(encoded@.len() as int) =~= encoded@);
        }
        encoded
    }
}

/// Derives the display identifier and the permanent hashes for one visitor on
/// the given calendar day. Pure: the same inputs and day always give the same
/// result, and the permanent hashes do not depend on the day at all.
pub fn generate_identity_hashes(
    config: &IdentityConfig,
    user_identifier: &str,
    ip_address: &str,
    device_info: &str,
    day: &str,
) -> (r: IdentityHashes)
    ensures
        is_derivation(
            r,
            config.permanent_pepper@,
            config.daily_salt@,
            user_identifier@,
            ip_address@,
            device_info@,
            day@,
        ),
{
    let pepper = config.permanent_pepper.as_str();
    let salt = config.daily_salt.as_str();

    let permanent_user_hash = create_hmac_hash(pepper, user_identifier);
    let permanent_ip_hash = create_hmac_hash(pepper, ip_address);
    let permanent_device_hash = create_hmac_hash(pepper, device_info);

    let daily_user_data = daily_message(user_identifier, day);
    let daily_ip_data = daily_message(ip_address, day);
    let daily_device_data = daily_message(device_info, day);

    let display_id_user_part = create_base62_id_part(salt, daily_user_data.as_str(), 8);
    let display_id_ip_part = create_base62_id_part(salt, daily_ip_data.as_str(), 4);
    let display_id_device_part = create_base62_id_part(salt, daily_device_data.as_str(), 4);

    let mut display_user_id = display_id_user_part.clone();
    push_char(&mut display_user_id, '-');
    display_user_id.append(display_id_ip_part.as_str());
    push_char(&mut display_user_id, '-');
    display_user_id.append(display_id_device_part.as_str());

    IdentityHashes {
        display_user_id,
        display_id_user_part,
        display_id_ip_part,
        display_id_device_part,
        permanent_user_hash,
        permanent_ip_hash,
        permanent_device_hash,
    }
}

/// Derives identity hashes for the current calendar day in the site's
/// timezone. The permanent hashes are exact; the display parts are the
/// derivation for whatever day the clock gave.
pub fn generate_identity_hashes_today(
    config: &IdentityConfig,
    user_identifier: &str,
    ip_address: &str,
    device_info: &str,
) -> (r: IdentityHashes)
    ensures
        r.permanent_user_hash@ == spec_permanent_hash(config.permanent_pepper@, user_identifier@),
        r.permanent_ip_hash@ == spec_permanent_hash(config.permanent_pepper@, ip_address@),
        r.permanent_device_hash@ == spec_permanent_hash(config.permanent_pepper@, device_info@),
        exists|day: Seq<char>|
            is_derivation(
                r,
                config.permanent_pepper@,
                config.daily_salt@,
                user_identifier@,
                ip_address@,
                device_info@,
                day,
            ),
{
    let today = current_day_tokyo();
    let r = generate_identity_hashes(
        config,
        user_identifier,
        ip_address,
        device_info,
        today.as_str(),
    );
    proof {
        let day = today@;
        assert(is_derivation(
            r,
            config.permanent_pepper@,
            config.daily_salt@,
            user_identifier@,
            ip_address@,
            device_info@,
            day,
        ));
    }
    r
}

/// The raw value joined to the calendar day by a dash.
fn daily_message(value: &str, day: &str) -> (r: String)
    ensures
        r@ == spec_daily_message(value@, day@),
{
    let mut r = String::from_str(value);
    push_char(&mut r, '-');
    r.append(day);
    proof {
        assert(r@ =~= spec_daily_message(value@, day@));
    }
    r
}

/// Law: permanent hashes are stable across days. Two derivations for the same
/// pepper and raw values agree on all three permanent hashes, whatever
/// calendar days they were made on.
pub proof fn lemma_permanent_hashes_stable(
    a: IdentityHashes,
    b: IdentityHashes,
    pepper: Seq<char>,
    salt: Seq<char>,
    user: Seq<char>,
    ip: Seq<char>,
    device: Seq<char>,
    day_a: Seq<char>,
    day_b: Seq<char>,
)
    requires
        is_derivation(a, pepper, salt, user, ip, device, day_a),
        is_derivation(b, pepper, salt, user, ip, device, day_b),
    ensures
        a.permanent_user_hash@ == b.permanent_user_hash@,
        a.permanent_ip_hash@ == b.permanent_ip_hash@,
        a.permanent_device_hash@ == b.permanent_device_hash@,
{
}

/// Law: the display identifier is a function of the inputs and the calendar
/// day. Two derivations for the same secrets, raw values and day agree on the
/// display identifier and each of its parts.
pub proof fn lemma_display_id_same_day(
    a: IdentityHashes,
    b: IdentityHashes,
    pepper: Seq<char>,
    salt: Seq<char>,
    user: Seq<char>,
    ip: Seq<char>,
    device: Seq<char>,
    day: Seq<char>,
)
    requires
        is_derivation(a, pepper, salt, user, ip, device, day),
        is_derivation(b, pepper, salt, user, ip, device, day),
    ensures
        a.display_user_id@ == b.display_user_id@,
        a.display_id_user_part@ == b.display_id_user_part@,
        a.display_id_ip_part@ == b.display_id_ip_part@,
        a.display_id_device_part@ == b.display_id_device_part@,
{
}

} // verus!
