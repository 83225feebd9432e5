use niwatori::auth::{choose_client_ip, resolve_poster_auth, preflight_check};
use niwatori::errors::ServiceError;
use niwatori::verification::{AttemptStore, CaptchaResponse, VerificationInput, VerificationType};

use std::time::{SystemTime, UNIX_EPOCH};

#[test]
fn client_ip_prefers_real_ip_then_forwarded_then_remote() {
    assert_eq!(choose_client_ip(Some("10.0.0.1"), Some("10.0.0.2, 10.0.0.3"), Some("10.0.0.4")), "10.0.0.1");
    assert_eq!(choose_client_ip(None, Some(" 10.0.0.2 , 10.0.0.3"), Some("10.0.0.4")), "10.0.0.2");
    assert_eq!(choose_client_ip(None, Some("10.0.0.2"), None), "10.0.0.2");
    assert_eq!(choose_client_ip(None, None, Some("10.0.0.4")), "10.0.0.4");
    assert_eq!(choose_client_ip(None, None, None), "0.0.0.0");
    assert_eq!(choose_client_ip(None, Some(""), Some("10.0.0.4")), "");
}

#[test]
fn poster_auth_prefers_a_valid_token_over_the_session() {
    let ok = resolve_poster_auth(
        true,
        Some(8),
        Some(3),
        String::from("kept text"),
        String::from("orig"),
    );
    assert_eq!(ok.unwrap(), (8, true, String::from("kept text")));

    let empty_left = resolve_poster_auth(true, Some(8), None, String::new(), String::from("orig"));
    assert_eq!(empty_left.unwrap(), (8, true, String::from("Authentication successful.")));

    let bad_token =
        resolve_poster_auth(true, None, Some(3), String::from("x"), String::from("orig"));
    assert!(matches!(bad_token, Err(ServiceError::BadRequest(_))));

    let session = resolve_poster_auth(false, None, Some(3), String::new(), String::from("orig"));
    assert_eq!(session.unwrap(), (3, false, String::from("orig")));

    let nobody = resolve_poster_auth(false, None, None, String::new(), String::from("orig"));
    assert!(matches!(nobody, Err(ServiceError::Unauthorized)));
}

#[test]
fn failed_captcha_surfaces_its_codes_from_the_preflight() {
    let now = SystemTime::now().duration_since(UNIX_EPOCH).unwrap().as_secs() as i64;
    let mut store = AttemptStore { attempts: Vec::new(), next_id: 1 };
    let input = VerificationInput {
        verification_type: VerificationType::Registration,
        user_id: None,
        role: None,
        ip_address: String::from("203.0.113.9"),
        raw_ip_address: None,
        captcha_token: Some(String::from("tok")),
        fingerprint_data: None,
    };
    let captcha = CaptchaResponse {
        success: false,
        error_codes: vec![String::from("expired")],
    };
    let r = preflight_check(&mut store, "jwt-secret", &input, Some(&captcha), None, false, false, now);
    match r {
        Err(ServiceError::BadRequest(m)) => {
            assert_eq!(m, "Captcha verification failed. Error codes: expired")
        },
        _ => panic!("expected the preflight to surface the captcha failure"),
    }
    // The rejected attempt is still persisted for audit.
    assert_eq!(store.attempts.len(), 1);
    assert!(!store.attempts[0].is_success);
}
