use niwatori::crypto::sha256_hex;
use niwatori::identity::{create_base62_id_part, create_hmac_hash, generate_identity_hashes, IdentityConfig};

use hmac::Mac;

fn config() -> IdentityConfig {
    IdentityConfig {
        permanent_pepper: String::from("test-permanent-pepper"),
        daily_salt: String::from("test-daily-salt"),
    }
}

#[test]
fn permanent_hashes_identical_across_days() {
    let cfg = config();
    let a = generate_identity_hashes(&cfg, "user@example", "198.51.100.7", "agent-a", "2024-01-01");
    let b = generate_identity_hashes(&cfg, "user@example", "198.51.100.7", "agent-a", "2024-06-30");
    assert_eq!(a.permanent_user_hash, b.permanent_user_hash);
    assert_eq!(a.permanent_ip_hash, b.permanent_ip_hash);
    assert_eq!(a.permanent_device_hash, b.permanent_device_hash);
}

#[test]
fn permanent_hashes_identical_across_calls() {
    let cfg = config();
    let a = generate_identity_hashes(&cfg, "user@example", "198.51.100.7", "agent-a", "2024-01-01");
    let b = generate_identity_hashes(&cfg, "user@example", "198.51.100.7", "agent-a", "2024-01-01");
    assert_eq!(a.permanent_user_hash, b.permanent_user_hash);
    assert_eq!(a.display_user_id, b.display_user_id);
}

#[test]
fn display_id_changes_across_days() {
    let cfg = config();
    let a = generate_identity_hashes(&cfg, "user@example", "198.51.100.7", "agent-a", "2024-01-01");
    let b = generate_identity_hashes(&cfg, "user@example", "198.51.100.7", "agent-a", "2024-01-02");
    assert_ne!(a.display_user_id, b.display_user_id);
    assert_ne!(a.display_id_user_part, b.display_id_user_part);
}

#[test]
fn display_id_joins_parts_with_dashes() {
    let cfg = config();
    let a = generate_identity_hashes(&cfg, "user@example", "198.51.100.7", "agent-a", "2024-01-01");
    let expected = format!(
        "{}-{}-{}",
        a.display_id_user_part, a.display_id_ip_part, a.display_id_device_part
    );
    assert_eq!(a.display_user_id, expected);
    assert_eq!(a.display_id_user_part.chars().count(), 8);
    assert_eq!(a.display_id_ip_part.chars().count(), 4);
    assert_eq!(a.display_id_device_part.chars().count(), 4);
}

#[test]
fn different_inputs_give_different_permanent_hashes() {
    let cfg = config();
    let a = generate_identity_hashes(&cfg, "user@example", "198.51.100.7", "agent-a", "2024-01-01");
    let b = generate_identity_hashes(&cfg, "other@example", "198.51.100.7", "agent-a", "2024-01-01");
    assert_ne!(a.permanent_user_hash, b.permanent_user_hash);
    assert_eq!(a.permanent_ip_hash, b.permanent_ip_hash);
}

#[test]
fn create_hmac_hash_matches_reference_mac() {
    let mut mac = <hmac::Hmac<sha2::Sha256> as hmac::KeyInit>::new_from_slice(b"key-1").unwrap();
    mac.update("payload".as_bytes());
    let expected = hex::encode(mac.finalize().into_bytes());
    assert_eq!(create_hmac_hash("key-1", "payload"), expected);
    assert_eq!(expected.len(), 64);
}

#[test]
fn create_base62_id_part_matches_reference_encoding() {
    let mut mac = <hmac::Hmac<sha2::Sha256> as hmac::KeyInit>::new_from_slice(b"salt").unwrap();
    mac.update("value-2024-01-01".as_bytes());
    let digest = mac.finalize().into_bytes();
    let mut first16 = [0u8; 16];
    first16.copy_from_slice(&digest[..16]);
    let encoded = base62::encode(u128::from_be_bytes(first16));
    let expected: String = encoded.chars().take(8).collect();
    assert_eq!(create_base62_id_part("salt", "value-2024-01-01", 8), expected);
}

#[test]
fn sha256_hex_matches_reference_digest() {
    let expected = hex::encode(<sha2::Sha256 as sha2::Digest>::digest("abc".as_bytes()));
    assert_eq!(sha256_hex("abc"), expected);
    assert_eq!(
        sha256_hex("abc"),
        "ba7816bf8f01cfea414140de5dae2223b00361a396177a9cb410ff61f20015ad"
    );
}
