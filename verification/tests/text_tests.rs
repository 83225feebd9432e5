use niwatori::text::{
    extract_and_remove_linking_token, is_potentially_exposed_token, join_with, str_eq, trim_str,
    validate_body_sequences, validate_no_suspicious_sequences,
};

#[test]
fn str_eq_compares_by_characters() {
    assert!(str_eq("abc", "abc"));
    assert!(!str_eq("abc", "abd"));
    assert!(!str_eq("abc", "abcd"));
    assert!(str_eq("", ""));
}

#[test]
fn trim_drops_whitespace_from_both_ends() {
    assert_eq!(trim_str("  hello \n"), "hello");
    assert_eq!(trim_str("hello"), "hello");
    assert_eq!(trim_str(" \t "), "");
    assert_eq!(trim_str("a b"), "a b");
}

#[test]
fn join_with_separates_parts() {
    let parts = vec![String::from("a"), String::from("b"), String::from("c")];
    assert_eq!(join_with(&parts, ", "), "a, b, c");
    assert_eq!(join_with(&vec![String::from("only")], ", "), "only");
    let none: Vec<String> = Vec::new();
    assert_eq!(join_with(&none, ", "), "");
}

#[test]
fn exposed_token_is_exactly_32_alphanumerics_after_trim() {
    let token = "a1B2c3D4e5F6g7H8i9J0k1L2m3N4o5P6";
    assert_eq!(token.len(), 32);
    assert!(is_potentially_exposed_token(token));
    assert!(is_potentially_exposed_token(&format!("  {}\n", token)));
    assert!(!is_potentially_exposed_token(&token[..31]));
    assert!(!is_potentially_exposed_token(&format!("{}-", &token[..31])));
    assert!(!is_potentially_exposed_token(&format!("{} extra", token)));
}

#[test]
fn linking_token_is_extracted_and_cut_out() {
    let token = "abcdefghijklmnopqrstuvwxyz012345";
    let body = format!("hello !token({}) world", token);
    let (found, cleaned) = extract_and_remove_linking_token(&body);
    assert_eq!(found.as_deref(), Some(token));
    assert_eq!(cleaned, "hello  world");

    let (none, unchanged) = extract_and_remove_linking_token("  nothing here  ");
    assert_eq!(none, None);
    assert_eq!(unchanged, "  nothing here  ");
}

#[test]
fn token_only_body_becomes_empty_after_extraction() {
    let token = "abcdefghijklmnopqrstuvwxyz012345";
    let body = format!("!token({})", token);
    let (found, cleaned) = extract_and_remove_linking_token(&body);
    assert_eq!(found.as_deref(), Some(token));
    assert_eq!(cleaned, "");
}

#[test]
fn malformed_token_references_are_ignored() {
    let short = "!token(tooshort)";
    let (found, cleaned) = extract_and_remove_linking_token(short);
    assert_eq!(found, None);
    assert_eq!(cleaned, short);

    let bad_char = "!token(abcdefghijklmnopqrstuvwxyz01234-)";
    assert_eq!(extract_and_remove_linking_token(bad_char).0, None);
}

#[test]
fn long_alphanumeric_runs_are_refused_in_guarded_fields() {
    assert!(validate_no_suspicious_sequences("short words only").is_ok());
    assert!(validate_no_suspicious_sequences("abcdefghijklmn").is_ok());
    let r = validate_no_suspicious_sequences("abcdefghijklmno");
    assert_eq!(r.unwrap_err(), "Runs of 15 or more letters and digits are not allowed.");
    assert!(validate_no_suspicious_sequences("x abcdefghij12345 y").is_err());
}

#[test]
fn token_references_are_refused_everywhere() {
    let body = "see !token(abcdefghijklmnopqrstuvwxyz012345) inside";
    let r = validate_no_suspicious_sequences(body);
    assert!(r.is_err());
    let b = validate_body_sequences(body);
    assert_eq!(b.unwrap_err(), "A linking token cannot be used in this field.");
}

#[test]
fn body_rule_allows_long_runs() {
    assert!(validate_body_sequences("abcdefghijklmnopqrstuvwxyz0123456789").is_ok());
}
