use niwatori::errors::ServiceError;
use niwatori::models::get_level_display_threshold;
use niwatori::text::parse_i32;
use niwatori::models::{
    author_name_allowed, can_moderate, comment_capacity_reached, pagination_offset,
    validate_update_board_settings, UpdateBoardSettingsRequest,
    process_level_visibility, resolve_author_name, truncated_ipv6_segments,
    validate_create_board_request, validate_create_comment_request, validate_create_post_request,
    validate_update_board_details, CreateBoardRequest, CreateCommentRequest, CreatePostRequest,
    PaginationParams, Role, UpdateBoardDetailsRequest,
};

fn post_request() -> CreatePostRequest {
    CreatePostRequest {
        title: String::from("hello"),
        body: String::from("a body"),
        author_name: None,
        board_id: 1,
        fingerprint: None,
    }
}

#[test]
fn level_visibility_hides_high_levels_from_non_admins() {
    // Below the threshold everything shows.
    assert_eq!(process_level_visibility(Some(2), Some(3), 5, false), (Some(2), Some(3), None));
    // The current level crossed the threshold but the creation level shows,
    // so the hiding is flagged.
    assert_eq!(process_level_visibility(Some(2), Some(7), 5, false), (Some(2), None, Some(true)));
    // Both at or above the threshold: nothing shows and nothing is flagged.
    assert_eq!(process_level_visibility(Some(6), Some(7), 5, false), (None, None, None));
    // Admins see everything.
    assert_eq!(process_level_visibility(Some(6), Some(7), 5, true), (Some(6), Some(7), None));
    // No levels at all.
    assert_eq!(process_level_visibility(None, None, 5, false), (None, None, None));
}

#[test]
fn post_request_bounds_are_enforced() {
    assert!(validate_create_post_request(&post_request()).is_ok());

    let mut long_title = post_request();
    long_title.title = "t".repeat(101);
    assert!(matches!(
        validate_create_post_request(&long_title),
        Err(ServiceError::ValidationFailed(_))
    ));

    let mut empty_body = post_request();
    empty_body.body = String::new();
    assert!(validate_create_post_request(&empty_body).is_err());

    let mut long_name = post_request();
    long_name.author_name = Some(String::from("elevenchars!"));
    assert!(validate_create_post_request(&long_name).is_err());

    let mut tokeny_title = post_request();
    tokeny_title.title = String::from("x abcdefghij12345 y");
    assert!(validate_create_post_request(&tokeny_title).is_err());

    // Long alphanumeric runs are fine in the body, unlike the title.
    let mut runny_body = post_request();
    runny_body.body = "b".repeat(700);
    assert!(validate_create_post_request(&runny_body).is_ok());
}

#[test]
fn board_request_bounds_are_enforced() {
    let ok = CreateBoardRequest {
        name: String::from("a board"),
        description: String::from("about things"),
        default_name: Some(String::from("anon")),
        fingerprint: None,
    };
    assert!(validate_create_board_request(&ok).is_ok());

    let long_default = CreateBoardRequest {
        default_name: Some(String::from("elevenchars")),
        name: String::from("a board"),
        description: String::from("about things"),
        fingerprint: None,
    };
    assert!(validate_create_board_request(&long_default).is_err());
}

#[test]
fn comment_request_bounds_are_enforced() {
    let ok = CreateCommentRequest {
        body: String::from("fine"),
        author_name: None,
        post_id: 1,
        fingerprint: None,
    };
    assert!(validate_create_comment_request(&ok).is_ok());
    let long = CreateCommentRequest { body: "b".repeat(301), ..ok };
    assert!(validate_create_comment_request(&long).is_err());
}

#[test]
fn thread_cap_must_be_positive() {
    assert!(validate_update_board_settings(&UpdateBoardSettingsRequest { max_posts: 1 }).is_ok());
    assert!(validate_update_board_settings(&UpdateBoardSettingsRequest { max_posts: 0 }).is_err());
}

#[test]
fn board_details_update_checks_only_present_fields() {
    let nothing = UpdateBoardDetailsRequest { name: None, description: None, default_name: None };
    assert!(validate_update_board_details(&nothing).is_ok());
    let bad = UpdateBoardDetailsRequest {
        name: Some(String::new()),
        description: None,
        default_name: None,
    };
    assert!(validate_update_board_details(&bad).is_err());
}

#[test]
fn reserved_author_character_is_admin_only() {
    let staff_name = format!("mod{}", '\u{2615}');
    assert!(!author_name_allowed(false, Some(&staff_name)));
    assert!(author_name_allowed(true, Some(&staff_name)));
    assert!(author_name_allowed(false, Some("plain")));
    assert!(author_name_allowed(false, None));
}

#[test]
fn comment_capacity_tops_out_at_999() {
    assert!(!comment_capacity_reached(998));
    assert!(comment_capacity_reached(999));
    assert!(comment_capacity_reached(1_500));
}

#[test]
fn blank_author_names_fall_back_to_the_board_default() {
    assert_eq!(resolve_author_name(Some(String::from("poster")), "anon"), "poster");
    assert_eq!(resolve_author_name(Some(String::from("   ")), "anon"), "anon");
    assert_eq!(resolve_author_name(None, "anon"), "anon");
}

#[test]
fn moderation_needs_adminship_or_ownership() {
    assert!(can_moderate(Role::Admin, 1, None));
    assert!(can_moderate(Role::User, 4, Some(4)));
    assert!(!can_moderate(Role::User, 4, Some(5)));
    assert!(!can_moderate(Role::Moderator, 4, None));
}

#[test]
fn ipv6_truncation_zeroes_the_host_half() {
    let segments = [0x2001, 0x0db8, 0x1234, 0x5678, 0x9abc, 0xdef0, 0x1111, 0x2222];
    assert_eq!(
        truncated_ipv6_segments(segments),
        [0x2001, 0x0db8, 0x1234, 0x5678, 0, 0, 0, 0]
    );
}

#[test]
fn pagination_offset_is_zero_based() {
    assert_eq!(pagination_offset(&PaginationParams { page: 1, limit: 20 }), 0);
    assert_eq!(pagination_offset(&PaginationParams { page: 3, limit: 20 }), 40);
}

#[test]
fn service_error_codes_and_messages() {
    assert_eq!(ServiceError::Unauthorized.status_code(), 401);
    assert_eq!(ServiceError::Forbidden(String::new()).status_code(), 403);
    assert_eq!(ServiceError::TooManyRequests(String::from("wait")).status_code(), 429);
    assert_eq!(ServiceError::NotFound(String::from("gone")).message(), "gone");
    assert_eq!(ServiceError::Unauthorized.message(), "Unauthorized");
    assert_eq!(Role::Admin.as_str(), "admin");
    assert_eq!(Role::User.as_str(), "user");
}

#[test]
fn level_threshold_setting_parses_or_defaults_wide() {
    assert_eq!(get_level_display_threshold(Some("5")), 5);
    assert_eq!(get_level_display_threshold(Some("+12")), 12);
    assert_eq!(get_level_display_threshold(Some("007")), 7);
    assert_eq!(get_level_display_threshold(Some("-3")), -3);
    assert_eq!(get_level_display_threshold(Some("2147483647")), i32::MAX);
    assert_eq!(get_level_display_threshold(Some("2147483648")), i32::MAX);
    assert_eq!(get_level_display_threshold(Some("not a number")), i32::MAX);
    assert_eq!(get_level_display_threshold(Some(" 5")), i32::MAX);
    assert_eq!(get_level_display_threshold(Some("")), i32::MAX);
    assert_eq!(get_level_display_threshold(None), i32::MAX);
}

#[test]
fn parse_i32_agrees_with_std_on_samples() {
    for sample in ["0", "42", "-42", "+7", "2147483647", "-2147483648", "2147483648",
        "-2147483649", "", "-", "+", "1x", "x1", "0012", " 1", "1 "] {
        assert_eq!(parse_i32(sample), sample.parse::<i32>().ok(), "sample {:?}", sample);
    }
}
