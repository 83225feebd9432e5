//! Cryptographic primitives behind the identity and fingerprint engines.
//!
//! The digests themselves come from outside crates and are trusted; their
//! results are either named (HMAC, SHA-256) or pinned down exactly by a spec
//! function (hex, base-62, decimal rendering).

use vstd::prelude::*;

use hmac::Mac;
use sha2::Digest;

verus! {

/// The digest that HMAC-SHA-256 produces for a key and a message.
/// Far too long to state; it is a function of the two arguments alone.
pub uninterp spec fn hmac_sha256_of(key: Seq<char>, data: Seq<char>) -> Seq<u8>;

/// The digest that SHA-256 produces for a message.
pub uninterp spec fn sha256_of(data: Seq<char>) -> Seq<u8>;

pub const HEX_DIGITS: [char; 16] = [
    '0', '1', '2', '3', '4', '5', '6', '7', '8', '9', 'a', 'b', 'c', 'd', 'e', 'f',
];

pub const BASE62_DIGITS: [char; 62] = [
    '0', '1', '2', '3', '4', '5', '6', '7', '8', '9', 'A', 'B', 'C', 'D', 'E', 'F', 'G', 'H', 'I',
    'J', 'K', 'L', 'M', 'N', 'O', 'P', 'Q', 'R', 'S', 'T', 'U', 'V', 'W', 'X', 'Y', 'Z', 'a', 'b',
    'c', 'd', 'e', 'f', 'g', 'h', 'i', 'j', 'k', 'l', 'm', 'n', 'o', 'p', 'q', 'r', 's', 't', 'u',
    'v', 'w', 'x', 'y', 'z',
];

pub const DEC_DIGITS: [char; 10] = ['0', '1', '2', '3', '4', '5', '6', '7', '8', '9'];

/// Lower-case hexadecimal rendering: two digits for each byte, in order.
pub open spec fn hex_of(bytes: Seq<u8>) -> Seq<char>
    decreases bytes.len(),
{
    if bytes.len() == 0 {
        Seq::empty()
    } else {
        seq![
            HEX_DIGITS@[bytes.first() as int / 16],
            HEX_DIGITS@[bytes.first() as int % 16],
        ] + hex_of(bytes.drop_first())
    }
}

pub proof fn lemma_hex_of_len(bytes: Seq<u8>)
    ensures
        hex_of(bytes).len() == 2 * bytes.len(),
    decreases bytes.len(),
{
    if bytes.len() > 0 {
        lemma_hex_of_len(bytes.drop_first());
    }
}

/// Base-62 positional rendering of an unsigned number, most significant digit
/// first, with the alphabet 0-9, A-Z, a-z; zero renders as "0".
pub open spec fn base62_of(n: nat) -> Seq<char>
    decreases n,
{
    if n < 62 {
        seq![BASE62_DIGITS@[n as int]]
    } else {
        base62_of(n / 62) + seq![BASE62_DIGITS@[(n % 62) as int]]
    }
}

/// Decimal rendering of an unsigned number, most significant digit first.
pub open spec fn dec_str_of(n: nat) -> Seq<char>
    decreases n,
{
    if n < 10 {
        seq![DEC_DIGITS@[n as int]]
    } else {
        dec_str_of(n / 10) + seq![DEC_DIGITS@[(n % 10) as int]]
    }
}

/// Decimal rendering of a signed number: a leading minus where negative.
pub open spec fn i64_str_of(n: int) -> Seq<char> {
    if n < 0 {
        seq!['-'] + dec_str_of((-n) as nat)
    } else {
        dec_str_of(n as nat)
    }
}

/// The big-endian value of a byte string.
pub open spec fn be_value_of(bytes: Seq<u8>) -> nat
    decreases bytes.len(),
{
    if bytes.len() == 0 {
        0
    } else {
        (be_value_of(bytes.drop_last()) * 256 + bytes.last()) as nat
    }
}

pub proof fn lemma_be_value_bound(bytes: Seq<u8>)
    ensures
        be_value_of(bytes) < vstd::arithmetic::power2::pow2(8 * bytes.len()),
    decreases bytes.len(),
{
    vstd::arithmetic::power2::lemma2_to64();
    if bytes.len() == 0 {
    } else {
        let prefix = bytes.drop_last();
        lemma_be_value_bound(prefix);
        vstd::arithmetic::power2::lemma_pow2_adds(8 * prefix.len(), 8);
        vstd::arithmetic::mul::lemma_mul_inequality(
            be_value_of(prefix) as int + 1,
            vstd::arithmetic::power2::pow2(8 * prefix.len()) as int,
            256,
        );
    }
}

/// Relies on hmac's `Hmac<Sha256>` (with sha2): a keyed MAC over the message
/// bytes, a pure function of key and data, with a 32-byte digest.
#[verifier::external_body]
pub(crate) fn hmac_sha256(key: &str, data: &str) -> (r: Vec<u8>)
    ensures
        r@ == hmac_sha256_of(key@, data@),
        r@.len() == 32,
{
    let mut mac = <hmac::Hmac<sha2::Sha256> as hmac::KeyInit>::new_from_slice(key.as_bytes())
        .expect("HMAC accepts keys of any length");
    mac.update(data.as_bytes());
    mac.finalize().into_bytes().to_vec()
}

/// Relies on sha2's `Sha256`: a 32-byte digest of the message bytes,
/// a pure function of the data alone.
#[verifier::external_body]
pub(crate) fn sha256(data: &str) -> (r: Vec<u8>)
    ensures
        r@ == sha256_of(data@),
        r@.len() == 32,
{
    sha2::Sha256::digest(data.as_bytes()).to_vec()
}

/// Relies on hex's `encode`: two lower-case hex digits for each byte.
#[verifier::external_body]
pub(crate) fn hex_encode(bytes: &[u8]) -> (r: String)
    ensures
        r@ == hex_of(bytes@),
{
    hex::encode(bytes)
}

/// Relies on base62's `encode`: the standard-alphabet base-62 rendering of
/// the number, most significant digit first.
#[verifier::external_body]
pub(crate) fn base62_encode(n: u128) -> (r: String)
    ensures
        r@ == base62_of(n as nat),
{
    base62::encode(n)
}

/// Relies on std's `Display` for `i64`: the decimal rendering of the number.
#[verifier::external_body]
pub(crate) fn i64_to_string(n: i64) -> (r: String)
    ensures
        r@ == i64_str_of(n as int),
{
    format!("{}", n)
}

/// Relies on std's `String::push`: appends one character.
#[verifier::external_body]
pub(crate) fn push_char(s: &mut String, c: char)
    ensures
        final(s)@ == old(s)@ + seq![c],
{
    s.push(c);
}

/// Relies on chrono's `Utc::now` and chrono-tz's `Asia::Tokyo`: the current
/// calendar day in the site's timezone, as `YYYY-MM-DD`. The value depends on
/// the clock, so nothing is promised of it.
#[verifier::external_body]
pub(crate) fn current_day_tokyo() -> (r: String) {
    chrono::Utc::now()
        .with_timezone(&chrono_tz::Asia::Tokyo)
        .date_naive()
        .format("%Y-%m-%d")
        .to_string()
}

/// The big-endian value of the first `k` bytes of a byte string.
pub fn be_value_prefix(bytes: &[u8], k: usize) -> (r: u128)
    requires
        k <= bytes@.len(),
        k <= 16,
    ensures
        r == be_value_of(bytes@.take(k as int)),
{
    let mut num: u128 = 0;
    let mut i: usize = 0;
    proof {
        vstd::arithmetic::power2::lemma2_to64();
        assert(bytes@.take(0) =~= Seq::<u8>::empty());
    }
    while i < k
        invariant
            i <= k <= bytes@.len(),
            k <= 16,
            num == be_value_of(bytes@.take(i as int)),
            num < vstd::arithmetic::power2::pow2(8 * i as nat),
        decreases k - i,
    {
        proof {
            let e = 8 * i as nat;
            vstd::arithmetic::power2::lemma2_to64();
            vstd::arithmetic::power2::lemma_pow2_adds(e, 8);
            vstd::arithmetic::power2::lemma_pow2_adds(64, 56);
            vstd::arithmetic::power2::lemma_pow2_adds(64, 64);
            if e < 120 {
                vstd::arithmetic::power2::lemma_pow2_strictly_increases(e, 120);
            }
            vstd::arithmetic::mul::lemma_mul_inequality(
                num as int,
                vstd::arithmetic::power2::pow2(120) as int - 1,
                256,
            );
            vstd::arithmetic::power2::lemma_pow2_adds(120, 8);
            vstd::arithmetic::mul::lemma_mul_strict_inequality(
                num as int,
                vstd::arithmetic::power2::pow2(e) as int,
                256,
            );
            assert(bytes@.take(i as int + 1).drop_last() =~= bytes@.take(i as int));
            assert(bytes@.take(i as int + 1).last() == bytes@[i as int]);
        }
        num = num * 256 + (bytes[i] as u128);
        i = i + 1;
    }
    proof {
        assert(bytes@.take(k as int) =~= bytes@.take(i as int));
    }
    num
}

/// Hex digest of SHA-256 over a string: the comparison form the fingerprint
/// deduplicator stores.
pub fn sha256_hex(data: &str) -> (r: String)
    ensures
        r@ == hex_of(sha256_of(data@)),
        r@.len() == 64,
{
    let digest = sha256(data);
    let r = hex_encode(digest.as_slice());
    proof {
        lemma_hex_of_len(sha256_of(data@));
    }
    r
}

} // verus!
