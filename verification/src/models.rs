//! Plain data types shared across the engine: roles, board metadata, and the
//! request and response shapes of the surrounding service.

use vstd::prelude::*;

use crate::errors::{ServiceError, ValidationIssue};
use crate::text::{
    parse_i32, spec_has_long_alnum_run, spec_has_token_reference, spec_parse_i32, spec_trim,
    trim_str, validate_no_suspicious_sequences,
};
use vstd::string::{StrSliceExecFns, StringExecFns};

verus! {

/// The role a signed-in account holds.
#[derive(Clone, Copy, PartialEq, Eq, Structural, Debug)]
pub enum Role {
    Admin,
    Moderator,
    User,
}

impl Role {
    /// The lower-case name of the role.
    pub fn as_str(&self) -> (r: &'static str)
        ensures
            r@ == match self {
                Role::Admin => "admin"@,
                Role::Moderator => "moderator"@,
                Role::User => "user"@,
            },
    {
        match self {
            Role::Admin => "admin",
            Role::Moderator => "moderator",
            Role::User => "user",
        }
    }
}

/// The authenticated caller, as the session layer hands it to every
/// decision: its account id, role and level.
#[derive(Clone, Copy, PartialEq, Eq, Structural, Debug)]
pub struct AuthenticatedUser {
    pub user_id: i32,
    pub role: Role,
    pub level: i32,
}

/// How strictly a board is moderated; on `Beta` boards the thread creator
/// may also ban within their thread.
#[derive(Clone, Copy, PartialEq, Eq, Structural, Debug)]
pub enum BoardModerationType {
    Alpha,
    Beta,
}

/// One key/value row of the settings table.
pub struct Setting {
    pub key: String,
    pub value: String,
}

/// Page-number pagination as the admin listings take it.
#[derive(Clone, Copy, PartialEq, Eq, Structural, Debug)]
pub struct PaginationParams {
    pub page: i64,
    pub limit: i64,
}

/// A page of items with the table's total count.
pub struct PaginatedResponse<T> {
    pub items: Vec<T>,
    pub total_count: i64,
}

/// The board-creator details an admin sees on a board page.
pub struct CreatorInfoResponse {
    pub display_user_id: String,
    pub level: i32,
    pub level_at_creation: i32,
}

/// Which post, comment or user an admin asks identity details for.
#[derive(Clone, Copy, PartialEq, Eq, Structural, Debug)]
pub struct IdentityQuery {
    pub post_id: Option<i32>,
    pub comment_id: Option<i32>,
    pub user_id: Option<i32>,
}

/// The recovered identity of a poster, with the permanent hashes recomputed
/// from it.
pub struct IdentityDetails {
    pub email: String,
    pub ip_address: String,
    pub device_info: String,
    pub permanent_user_hash: Option<String>,
    pub permanent_ip_hash: Option<String>,
    pub permanent_device_hash: Option<String>,
}

/// One account row as the level-up and rate-limit engines read it. The
/// `email` column holds the opaque account identifier.
pub struct User {
    pub id: i32,
    pub email: String,
    pub role: Role,
    pub created_at: i64,
    pub level: i32,
    pub last_level_up_at: Option<i64>,
    pub last_level_up_ip: Option<String>,
    pub level_up_failure_count: i32,
    pub last_level_up_attempt_at: Option<i64>,
    pub banned_from_level_up: bool,
    pub is_rate_limit_exempt: bool,
    pub last_linking_token_generated_at: Option<i64>,
}

/// What a caller submits to create a thread. The body may carry a linking
/// token; the fingerprint rides along for verification.
pub struct CreatePostRequest {
    pub title: String,
    pub body: String,
    pub author_name: Option<String>,
    pub board_id: i32,
    pub fingerprint: Option<String>,
}

/// What a caller submits to create a board.
pub struct CreateBoardRequest {
    pub name: String,
    pub description: String,
    pub default_name: Option<String>,
    pub fingerprint: Option<String>,
}

/// What a caller submits to comment in a thread.
pub struct CreateCommentRequest {
    pub body: String,
    pub author_name: Option<String>,
    pub post_id: i32,
    pub fingerprint: Option<String>,
}

/// What a board owner may change about a board's text fields.
pub struct UpdateBoardDetailsRequest {
    pub name: Option<String>,
    pub description: Option<String>,
    pub default_name: Option<String>,
}

/// The thread-count cap update an admin submits.
#[derive(Clone, Copy, PartialEq, Eq, Structural, Debug)]
pub struct UpdateBoardSettingsRequest {
    pub max_posts: i32,
}

/// The moderation-mode update an admin submits.
#[derive(Clone, Copy, PartialEq, Eq, Structural, Debug)]
pub struct UpdateBoardModerationTypeRequest {
    pub moderation_type: BoardModerationType,
}

/// A text field that passes the general rule: inside the length bounds,
/// without long alphanumeric runs, without a linking-token reference.
pub open spec fn spec_guarded_text_valid(s: Seq<char>, min: int, max: int) -> bool {
    &&& min <= s.len() <= max
    &&& !spec_has_long_alnum_run(s)
    &&& !spec_has_token_reference(s)
}

/// A thread-creation request inside all its bounds: a guarded title of 1 to
/// 100 characters, a body of 1 to 750, and a guarded author name of at most
/// 10.
pub open spec fn spec_create_post_request_valid(data: CreatePostRequest) -> bool {
    &&& spec_guarded_text_valid(data.title@, 1, 100)
    &&& 1 <= data.body@.len() <= 750
    &&& (data.author_name matches Some(n) ==> n@.len() <= 10 && !spec_has_long_alnum_run(n@)
        && !spec_has_token_reference(n@))
}

/// A board-creation request inside all its bounds: a guarded name of 1 to
/// 20 characters, a guarded description of 1 to 100, and a default name of
/// at most 10.
pub open spec fn spec_create_board_request_valid(data: CreateBoardRequest) -> bool {
    &&& spec_guarded_text_valid(data.name@, 1, 20)
    &&& spec_guarded_text_valid(data.description@, 1, 100)
    &&& (data.default_name matches Some(n) ==> n@.len() <= 10)
}

/// A comment request inside all its bounds: a body of 1 to 300 characters
/// and a guarded author name of at most 10.
pub open spec fn spec_create_comment_request_valid(data: CreateCommentRequest) -> bool {
    &&& 1 <= data.body@.len() <= 300
    &&& (data.author_name matches Some(n) ==> n@.len() <= 10 && !spec_has_long_alnum_run(n@)
        && !spec_has_token_reference(n@))
}

/// A board-details update inside all its bounds, each field judged only
/// where present.
pub open spec fn spec_update_board_details_valid(data: UpdateBoardDetailsRequest) -> bool {
    &&& (data.name matches Some(n) ==> spec_guarded_text_valid(n@, 1, 20))
    &&& (data.description matches Some(d) ==> spec_guarded_text_valid(d@, 1, 100))
    &&& (data.default_name matches Some(n) ==> n@.len() <= 10)
}

/// Validates one guarded text field, collecting an issue per broken rule.
fn check_guarded_text(
    issues: &mut Vec<ValidationIssue>,
    field: &str,
    value: &str,
    min: usize,
    max: usize,
    message: &str,
) -> (ok: bool)
    ensures
        ok == spec_guarded_text_valid(value@, min as int, max as int),
        ok ==> final(issues)@ == old(issues)@,
        !ok ==> final(issues)@.len() > old(issues)@.len(),
{
    let len = value.unicode_len();
    if len < min || len > max {
        issues.push(
            ValidationIssue { field: String::from_str(field), message: String::from_str(message) },
        );
        return false;
    }
    if let Err(m) = validate_no_suspicious_sequences(value) {
        issues.push(ValidationIssue { field: String::from_str(field), message: m });
        return false;
    }
    true
}

/// Validates a thread-creation request's text fields.
pub fn validate_create_post_request(data: &CreatePostRequest) -> (r: Result<(), ServiceError>)
    ensures
        r is Ok <==> spec_create_post_request_valid(*data),
        r matches Err(e) ==> e is ValidationFailed,
{
    let mut issues: Vec<ValidationIssue> = Vec::new();
    check_guarded_text(
        &mut issues,
        "title",
        data.title.as_str(),
        1,
        100,
        "The title must be 1 to 100 characters.",
    );
    let body_len = data.body.as_str().unicode_len();
    if body_len < 1 || body_len > 750 {
        issues.push(
            ValidationIssue {
                field: String::from_str("body"),
                message: String::from_str("The body must be 1 to 750 characters."),
            },
        );
    }
    if let Some(name) = &data.author_name {
        check_author_name(&mut issues, name.as_str());
    }
    if issues.len() == 0 {
        Ok(())
    } else {
        Err(ServiceError::ValidationFailed(issues))
    }
}

/// Validates an author name: at most 10 characters and guarded.
fn check_author_name(issues: &mut Vec<ValidationIssue>, name: &str) -> (ok: bool)
    ensures
        ok == (name@.len() <= 10 && !spec_has_long_alnum_run(name@) && !spec_has_token_reference(
            name@,
        )),
        ok ==> final(issues)@ == old(issues)@,
        !ok ==> final(issues)@.len() > old(issues)@.len(),
{
    if name.unicode_len() > 10 {
        issues.push(
            ValidationIssue {
                field: String::from_str("author_name"),
                message: String::from_str("The name may be at most 10 characters."),
            },
        );
        return false;
    }
    if let Err(m) = validate_no_suspicious_sequences(name) {
        issues.push(ValidationIssue { field: String::from_str("author_name"), message: m });
        return false;
    }
    true
}

/// Validates a board-creation request's text fields.
pub fn validate_create_board_request(data: &CreateBoardRequest) -> (r: Result<(), ServiceError>)
    ensures
        r is Ok <==> spec_create_board_request_valid(*data),
        r matches Err(e) ==> e is ValidationFailed,
{
    let mut issues: Vec<ValidationIssue> = Vec::new();
    check_guarded_text(
        &mut issues,
        "name",
        data.name.as_str(),
        1,
        20,
        "The board name must be 1 to 20 characters.",
    );
    check_guarded_text(
        &mut issues,
        "description",
        data.description.as_str(),
        1,
        100,
        "The description must be 1 to 100 characters.",
    );
    if let Some(name) = &data.default_name {
        if name.unicode_len() > 10 {
            issues.push(
                ValidationIssue {
                    field: String::from_str("default_name"),
                    message: String::from_str("The default name may be at most 10 characters."),
                },
            );
        }
    }
    if issues.len() == 0 {
        Ok(())
    } else {
        Err(ServiceError::ValidationFailed(issues))
    }
}

/// Validates a comment request's text fields.
pub fn validate_create_comment_request(data: &CreateCommentRequest) -> (r: Result<
    (),
    ServiceError,
>)
    ensures
        r is Ok <==> spec_create_comment_request_valid(*data),
        r matches Err(e) ==> e is ValidationFailed,
{
    let mut issues: Vec<ValidationIssue> = Vec::new();
    let body_len = data.body.as_str().unicode_len();
    if body_len < 1 || body_len > 300 {
        issues.push(
            ValidationIssue {
                field: String::from_str("body"),
                message: String::from_str("The body must be 1 to 300 characters."),
            },
        );
    }
    if let Some(name) = &data.author_name {
        check_author_name(&mut issues, name.as_str());
    }
    if issues.len() == 0 {
        Ok(())
    } else {
        Err(ServiceError::ValidationFailed(issues))
    }
}

/// Validates a board-details update, each present field against its bounds.
pub fn validate_update_board_details(data: &UpdateBoardDetailsRequest) -> (r: Result<
    (),
    ServiceError,
>)
    ensures
        r is Ok <==> spec_update_board_details_valid(*data),
        r matches Err(e) ==> e is ValidationFailed,
{
    let mut issues: Vec<ValidationIssue> = Vec::new();
    if let Some(name) = &data.name {
        check_guarded_text(
            &mut issues,
            "name",
            name.as_str(),
            1,
            20,
            "The board name must be 1 to 20 characters.",
        );
    }
    if let Some(description) = &data.description {
        check_guarded_text(
            &mut issues,
            "description",
            description.as_str(),
            1,
            100,
            "The description must be 1 to 100 characters.",
        );
    }
    if let Some(name) = &data.default_name {
        if name.unicode_len() > 10 {
            issues.push(
                ValidationIssue {
                    field: String::from_str("default_name"),
                    message: String::from_str("The default name may be at most 10 characters."),
                },
            );
        }
    }
    if issues.len() == 0 {
        Ok(())
    } else {
        Err(ServiceError::ValidationFailed(issues))
    }
}

/// Validates the thread-count cap: at least one thread must fit.
pub fn validate_update_board_settings(data: &UpdateBoardSettingsRequest) -> (r: Result<
    (),
    ServiceError,
>)
    ensures
        r is Ok <==> data.max_posts >= 1,
        r matches Err(e) ==> e is ValidationFailed,
{
    if data.max_posts >= 1 {
        Ok(())
    } else {
        let mut issues: Vec<ValidationIssue> = Vec::new();
        issues.push(
            ValidationIssue {
                field: String::from_str("max_posts"),
                message: String::from_str("The thread cap must be at least 1."),
            },
        );
        Err(ServiceError::ValidationFailed(issues))
    }
}

/// The character reserved for staff author names.
pub const RESERVED_AUTHOR_CHAR: char = '\u{2615}';

/// Whether an author name is allowed for this caller: the reserved staff
/// character may only appear in an admin's name.
#[verifier::loop_isolation(false)]
pub fn author_name_allowed(is_admin: bool, author_name: Option<&str>) -> (r: bool)
    ensures
        r == (is_admin || match author_name {
            Some(n) => !(exists|i: int| 0 <= i < n@.len() && n@[i] == RESERVED_AUTHOR_CHAR),
            None => true,
        }),
{
    if is_admin {
        return true;
    }
    match author_name {
        None => true,
        Some(n) => {
            let len = n.unicode_len();
            let mut i: usize = 0;
            while i < len
                invariant
                    len == n@.len(),
                    i <= len,
                    forall|j: int| 0 <= j < i ==> n@[j] != RESERVED_AUTHOR_CHAR,
                decreases len - i,
            {
                if n.get_char(i) == RESERVED_AUTHOR_CHAR {
                    return false;
                }
                i = i + 1;
            }
            true
        },
    }
}

/// A thread stops accepting comments once the 1000-write cap is reached:
/// the thread body counts as one write, so 999 comments fill it.
pub fn comment_capacity_reached(current_comment_count: i64) -> (r: bool)
    ensures
        r == (current_comment_count >= 999),
{
    current_comment_count >= 999
}

/// The author name a write is stored under: the submitted name where it has
/// substance, else the board's default name.
pub fn resolve_author_name(author_name: Option<String>, default_name: &str) -> (r: String)
    ensures
        r@ == (match author_name {
            Some(n) => if spec_trim(n@).len() > 0 {
                n@
            } else {
                default_name@
            },
            None => default_name@,
        }),
{
    match author_name {
        Some(n) => {
            let trimmed = trim_str(n.as_str());
            if trimmed.as_str().unicode_len() > 0 {
                n
            } else {
                String::from_str(default_name)
            }
        },
        None => String::from_str(default_name),
    }
}

/// Whether the caller moderates a board: admins, and the board's creator.
pub fn can_moderate(role: Role, user_id: i32, created_by: Option<i32>) -> (r: bool)
    ensures
        r == (role is Admin || created_by == Some(user_id)),
{
    let owns = match created_by {
        Some(c) => c == user_id,
        None => false,
    };
    matches!(role, Role::Admin) || owns
}

/// An IPv6 address reduced to its /64 prefix: the network half kept, the
/// host half zeroed, so low-order bits cannot fingerprint a visitor.
pub fn truncated_ipv6_segments(segments: [u16; 8]) -> (r: [u16; 8])
    ensures
        r@[0] == segments@[0],
        r@[1] == segments@[1],
        r@[2] == segments@[2],
        r@[3] == segments@[3],
        r@[4] == 0,
        r@[5] == 0,
        r@[6] == 0,
        r@[7] == 0,
{
    [segments[0], segments[1], segments[2], segments[3], 0, 0, 0, 0]
}

/// How the visibility of level numbers is decided for one post or comment:
/// which levels the caller may see, and whether a hidden current level is
/// flagged as hidden.
pub open spec fn spec_level_visibility(
    raw_level_at_creation: Option<i32>,
    raw_current_level: Option<i32>,
    threshold: i32,
    is_admin: bool,
) -> (Option<i32>, Option<i32>, Option<bool>) {
    let display_at_creation = match raw_level_at_creation {
        Some(l) => if is_admin || l < threshold {
            Some(l)
        } else {
            None
        },
        None => None,
    };
    match raw_current_level {
        Some(l) => if is_admin || l < threshold {
            (display_at_creation, Some(l), None)
        } else if display_at_creation is Some {
            (display_at_creation, None, Some(true))
        } else {
            (display_at_creation, None, None)
        },
        None => (display_at_creation, None, None),
    }
}

/// Filters the level numbers shown for one post or comment: a level at or
/// above the display threshold is hidden from everyone but admins, and the
/// current level is marked hidden only where the creation level still
/// shows.
pub fn process_level_visibility(
    raw_level_at_creation: Option<i32>,
    raw_current_level: Option<i32>,
    threshold: i32,
    is_admin: bool,
) -> (r: (Option<i32>, Option<i32>, Option<bool>))
    ensures
        r == spec_level_visibility(raw_level_at_creation, raw_current_level, threshold, is_admin),
{
    let display_level_at_creation = match raw_level_at_creation {
        Some(l) => if is_admin || l < threshold {
            Some(l)
        } else {
            None
        },
        None => None,
    };
    let (display_current_level, is_current_level_hidden) = match raw_current_level {
        Some(l) => if is_admin || l < threshold {
            (Some(l), None)
        } else if display_level_at_creation.is_some() {
            (None, Some(true))
        } else {
            (None, None)
        },
        None => (None, None),
    };
    (display_level_at_creation, display_current_level, is_current_level_hidden)
}

/// The level-display threshold a stored setting encodes: the parsed value,
/// or the widest possible threshold where the setting is absent or
/// malformed, so that by default every level shows.
pub fn get_level_display_threshold(setting_value: Option<&str>) -> (r: i32)
    ensures
        r == (match setting_value {
            Some(v) => match spec_parse_i32(v@) {
                Some(t) => t as i32,
                None => i32::MAX,
            },
            None => i32::MAX,
        }),
{
    match setting_value {
        Some(v) => match parse_i32(v) {
            Some(t) => t,
            None => i32::MAX,
        },
        None => i32::MAX,
    }
}

/// The offset a page-number pagination starts at: `(page - 1) * limit`.
pub fn pagination_offset(params: &PaginationParams) -> (r: i64)
    requires
        1 <= params.page,
        0 <= params.limit,
        (params.page - 1) * params.limit <= i64::MAX,
    ensures
        r == (params.page - 1) * params.limit,
{
    (params.page - 1) * params.limit
}

} // verus!
