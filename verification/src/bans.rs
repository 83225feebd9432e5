//! Ban matcher and ban administration: whether a permanent hash is banned in
//! a scope, and the permission, duplicate and insertion rules for creating
//! and deleting bans.

use vstd::prelude::*;

use crate::errors::{ServiceError, ValidationIssue};
use crate::models::{BoardModerationType, Role};
use crate::text::{opt_str_eq, opt_str_view, str_eq};
use vstd::string::StringExecFns;

verus! {

/// Which dimension of a visitor a ban pins: the account, the network, or the
/// device.
#[derive(Clone, Copy, PartialEq, Eq, Structural, Debug)]
pub enum BanType {
    User,
    Ip,
    Device,
}

/// The applicability tier of a ban: everywhere, one board, or one thread.
#[derive(Clone, Copy, PartialEq, Eq, Structural, Debug)]
pub enum BanScope {
    Global,
    Board,
    Thread,
}

/// One stored ban. `(board_id, post_id)` encode the scope:
/// `(None, None)` global, `(Some(b), None)` board-wide, `(_, Some(p))`
/// thread-wide. The encrypted source fields hold investigative PII captured
/// at ban time; the matcher never reads them.
pub struct Ban {
    pub id: i32,
    pub ban_type: BanType,
    pub hash_value: String,
    pub board_id: Option<i32>,
    pub post_id: Option<i32>,
    pub reason: Option<String>,
    pub created_by: i32,
    pub created_at: i64,
    pub expires_at: Option<i64>,
    pub source_post_id: Option<i32>,
    pub source_comment_id: Option<i32>,
    pub encrypted_source_email: Option<Vec<u8>>,
    pub encrypted_source_ip: Option<Vec<u8>>,
    pub encrypted_source_device_info: Option<Vec<u8>>,
}

/// The persisted ban table, with the id the next insertion takes.
pub struct BanTable {
    pub bans: Vec<Ban>,
    pub next_id: i32,
}

/// Whether a ban's scope covers an action at `(board_id, post_id)`:
/// global bans always, board bans when the board matches and the ban has no
/// thread, thread bans when the thread matches exactly.
pub open spec fn spec_scope_applies(ban: Ban, board_id: Option<i32>, post_id: Option<i32>) -> bool {
    ||| (ban.board_id is None && ban.post_id is None)
    ||| (ban.post_id is None && ban.board_id is Some && board_id == ban.board_id)
    ||| (ban.post_id is Some && post_id == ban.post_id)
}

/// Whether a ban's hash matches one of the probed hashes of its own type.
/// An absent probe matches nothing.
pub open spec fn spec_hash_matches(
    ban: Ban,
    user_hash: Option<Seq<char>>,
    ip_hash: Option<Seq<char>>,
    device_hash: Option<Seq<char>>,
) -> bool {
    ||| (ban.ban_type is User && user_hash == Some(ban.hash_value@))
    ||| (ban.ban_type is Ip && ip_hash == Some(ban.hash_value@))
    ||| (ban.ban_type is Device && device_hash == Some(ban.hash_value@))
}

/// Whether one ban blocks the probed action.
pub open spec fn spec_ban_blocks(
    ban: Ban,
    board_id: Option<i32>,
    post_id: Option<i32>,
    user_hash: Option<Seq<char>>,
    ip_hash: Option<Seq<char>>,
    device_hash: Option<Seq<char>>,
) -> bool {
    spec_hash_matches(ban, user_hash, ip_hash, device_hash) && spec_scope_applies(
        ban,
        board_id,
        post_id,
    )
}

/// Whether any stored ban blocks the probed action.
pub open spec fn spec_is_banned(
    bans: Seq<Ban>,
    board_id: Option<i32>,
    post_id: Option<i32>,
    user_hash: Option<Seq<char>>,
    ip_hash: Option<Seq<char>>,
    device_hash: Option<Seq<char>>,
) -> bool {
    exists|i: int|
        0 <= i < bans.len() && spec_ban_blocks(
            bans[i],
            board_id,
            post_id,
            user_hash,
            ip_hash,
            device_hash,
        )
}

/// Whether one ban blocks the probed action (executable form).
fn ban_blocks(
    ban: &Ban,
    board_id: Option<i32>,
    post_id: Option<i32>,
    user_hash: Option<&str>,
    ip_hash: Option<&str>,
    device_hash: Option<&str>,
) -> (r: bool)
    ensures
        r == spec_ban_blocks(
            *ban,
            board_id,
            post_id,
            opt_str_view(user_hash),
            opt_str_view(ip_hash),
            opt_str_view(device_hash),
        ),
{
    let hash_matches = match ban.ban_type {
        BanType::User => opt_str_eq(user_hash, ban.hash_value.as_str()),
        BanType::Ip => opt_str_eq(ip_hash, ban.hash_value.as_str()),
        BanType::Device => opt_str_eq(device_hash, ban.hash_value.as_str()),
    };
    if !hash_matches {
        return false;
    }
    match (ban.board_id, ban.post_id) {
        (None, None) => true,
        (Some(b), None) => match board_id {
            Some(q) => q == b,
            None => false,
        },
        (_, Some(p)) => match post_id {
            Some(q) => q == p,
            None => false,
        },
    }
}

/// Whether any of the probed permanent hashes is banned for an action at
/// `(board_id, post_id)`. A pure read of the table: no probe, no write.
pub fn is_banned(
    bans: &Vec<Ban>,
    board_id: Option<i32>,
    post_id: Option<i32>,
    user_hash: Option<&str>,
    ip_hash: Option<&str>,
    device_hash: Option<&str>,
) -> (r: bool)
    ensures
        r == spec_is_banned(
            bans@,
            board_id,
            post_id,
            opt_str_view(user_hash),
            opt_str_view(ip_hash),
            opt_str_view(device_hash),
        ),
{
    let n = bans.len();
    let mut i: usize = 0;
    while i < n
        invariant
            n == bans@.len(),
            i <= n,
            forall|j: int|
                0 <= j < i ==> !spec_ban_blocks(
                    bans@[j],
                    board_id,
                    post_id,
                    opt_str_view(user_hash),
                    opt_str_view(ip_hash),
                    opt_str_view(device_hash),
                ),
        decreases n - i,
    {
        if ban_blocks(&bans[i], board_id, post_id, user_hash, ip_hash, device_hash) {
            return true;
        }
        i = i + 1;
    }
    false
}

/// The matcher as the write path calls it: `Ok` when nothing blocks the
/// action, and a `Forbidden` with a deliberately empty message when a ban
/// matches, so the caller's rejection confirms nothing to the banned party.
pub fn check_if_banned(
    bans: &Vec<Ban>,
    board_id: Option<i32>,
    post_id: Option<i32>,
    user_hash: Option<&str>,
    ip_hash: Option<&str>,
    device_hash: Option<&str>,
) -> (r: Result<(), ServiceError>)
    ensures
        r is Ok <==> !spec_is_banned(
            bans@,
            board_id,
            post_id,
            opt_str_view(user_hash),
            opt_str_view(ip_hash),
            opt_str_view(device_hash),
        ),
        r matches Err(e) ==> e matches ServiceError::Forbidden(m) && m@ == Seq::<char>::empty(),
{
    if is_banned(bans, board_id, post_id, user_hash, ip_hash, device_hash) {
        Err(ServiceError::Forbidden(String::new()))
    } else {
        Ok(())
    }
}

/// The hashes and location of the post or comment a ban is aimed at, as the
/// storage layer looks them up.
pub struct TargetHashes {
    pub board_id: Option<i32>,
    pub post_id: Option<i32>,
    pub permanent_user_hash: Option<String>,
    pub permanent_ip_hash: Option<String>,
    pub permanent_device_hash: Option<String>,
}

/// What a caller asks for when creating a ban: a target given by post,
/// comment or raw hash, the type and scope, and optional investigative PII.
pub struct CreateBanRequest {
    pub post_id: Option<i32>,
    pub comment_id: Option<i32>,
    pub hash_value: Option<String>,
    pub ban_type: BanType,
    pub scope: BanScope,
    pub reason: Option<String>,
    pub board_id: Option<i32>,
    pub source_email: Option<String>,
    pub source_ip_address: Option<String>,
    pub source_device_info: Option<String>,
}

/// The board facts the thread-scope permission check reads.
#[derive(Clone, Copy, PartialEq, Eq, Structural, Debug)]
pub struct BoardInfo {
    pub created_by: Option<i32>,
    pub moderation_type: BoardModerationType,
}

/// The outcome of resolving what a ban request points at: the hash to ban,
/// the provenance ids, and the board/thread the target sits in.
pub struct ResolvedTarget {
    pub hash_to_ban: String,
    pub source_post_id: Option<i32>,
    pub source_comment_id: Option<i32>,
    pub target_board_id: Option<i32>,
    pub target_post_id: Option<i32>,
}

/// The hash a target carries for the given ban type.
pub open spec fn spec_hash_for_type(ban_type: BanType, t: TargetHashes) -> Option<Seq<char>> {
    match ban_type {
        BanType::User => match t.permanent_user_hash {
            Some(h) => Some(h@),
            None => None,
        },
        BanType::Ip => match t.permanent_ip_hash {
            Some(h) => Some(h@),
            None => None,
        },
        BanType::Device => match t.permanent_device_hash {
            Some(h) => Some(h@),
            None => None,
        },
    }
}

/// A request names its target through a post when it carries a post id and
/// no raw hash.
pub open spec fn spec_resolves_via_post(data: CreateBanRequest) -> bool {
    data.post_id is Some && data.hash_value is None
}

/// A request names its target through a comment when it carries a comment id
/// and no raw hash, and no post id took precedence.
pub open spec fn spec_resolves_via_comment(data: CreateBanRequest) -> bool {
    !spec_resolves_via_post(data) && data.comment_id is Some && data.hash_value is None
}

/// The resolved target, or `None` where resolution fails: the looked-up row
/// is missing, the row has no hash of the requested type, a raw hash was
/// given by a non-admin, or no target was named at all.
pub open spec fn spec_resolved_target(
    data: CreateBanRequest,
    post_target: Option<TargetHashes>,
    comment_target: Option<TargetHashes>,
    is_admin: bool,
) -> Option<(Seq<char>, Option<i32>, Option<i32>, Option<i32>, Option<i32>)> {
    if spec_resolves_via_post(data) {
        match post_target {
            Some(t) => match spec_hash_for_type(data.ban_type, t) {
                Some(h) => Some((h, data.post_id, None, t.board_id, t.post_id)),
                None => None,
            },
            None => None,
        }
    } else if spec_resolves_via_comment(data) {
        match comment_target {
            Some(t) => match spec_hash_for_type(data.ban_type, t) {
                Some(h) => Some((h, None, data.comment_id, t.board_id, t.post_id)),
                None => None,
            },
            None => None,
        }
    } else {
        match data.hash_value {
            Some(h) => if is_admin {
                Some((h@, None, None, data.board_id, data.post_id))
            } else {
                None
            },
            None => None,
        }
    }
}

/// The hash a target carries for the given ban type (executable form).
pub fn select_hash_for_type(ban_type: BanType, t: &TargetHashes) -> (r: Option<String>)
    ensures
        match r {
            Some(h) => spec_hash_for_type(ban_type, *t) == Some(h@),
            None => spec_hash_for_type(ban_type, *t) is None,
        },
{
    match ban_type {
        BanType::User => match &t.permanent_user_hash {
            Some(h) => Some(h.clone()),
            None => None,
        },
        BanType::Ip => match &t.permanent_ip_hash {
            Some(h) => Some(h.clone()),
            None => None,
        },
        BanType::Device => match &t.permanent_device_hash {
            Some(h) => Some(h.clone()),
            None => None,
        },
    }
}

/// Resolves what the request points at. `post_target` and `comment_target`
/// are the storage layer's lookups of the named post or comment, where one
/// was named.
pub fn resolve_ban_target(
    data: &CreateBanRequest,
    post_target: Option<&TargetHashes>,
    comment_target: Option<&TargetHashes>,
    is_admin: bool,
) -> (r: Result<ResolvedTarget, ServiceError>)
    ensures
        ({
            let resolved = spec_resolved_target(
                *data,
                opt_target_view(post_target),
                opt_target_view(comment_target),
                is_admin,
            );
            match r {
                Ok(t) => resolved == Some(
                    (
                        t.hash_to_ban@,
                        t.source_post_id,
                        t.source_comment_id,
                        t.target_board_id,
                        t.target_post_id,
                    ),
                ),
                Err(_) => resolved is None,
            }
        }),
        spec_resolves_via_post(*data) && opt_target_view(post_target) is None ==> (r matches Err(
            e,
        ) && e is NotFound),
        spec_resolves_via_post(*data) && opt_target_view(post_target) is Some
            && spec_hash_for_type(data.ban_type, opt_target_view(post_target)->Some_0) is None
            ==> (r matches Err(e) && e is BadRequest),
        spec_resolves_via_comment(*data) && opt_target_view(comment_target) is None ==> (
        r matches Err(e) && e is NotFound),
        spec_resolves_via_comment(*data) && opt_target_view(comment_target) is Some
            && spec_hash_for_type(data.ban_type, opt_target_view(comment_target)->Some_0) is None
            ==> (r matches Err(e) && e is BadRequest),
        !spec_resolves_via_post(*data) && !spec_resolves_via_comment(*data) && data.hash_value
            is Some && !is_admin ==> (r matches Err(e) && e is Forbidden),
        !spec_resolves_via_post(*data) && !spec_resolves_via_comment(*data) && data.hash_value
            is None ==> (r matches Err(e) && e is BadRequest),
{
    if data.post_id.is_some() && data.hash_value.is_none() {
        let t = match post_target {
            Some(t) => t,
            None => {
                return Err(
                    ServiceError::NotFound(String::from_str("The specified post was not found.")),
                );
            },
        };
        match select_hash_for_type(data.ban_type, t) {
            Some(hash) => Ok(ResolvedTarget {
                hash_to_ban: hash,
                source_post_id: data.post_id,
                source_comment_id: None,
                target_board_id: t.board_id,
                target_post_id: t.post_id,
            }),
            None => Err(
                ServiceError::BadRequest(
                    String::from_str("This post has no hash for the requested ban type."),
                ),
            ),
        }
    } else if data.comment_id.is_some() && data.hash_value.is_none() {
        let t = match comment_target {
            Some(t) => t,
            None => {
                return Err(
                    ServiceError::NotFound(
                        String::from_str("The specified comment was not found."),
                    ),
                );
            },
        };
        match select_hash_for_type(data.ban_type, t) {
            Some(hash) => Ok(ResolvedTarget {
                hash_to_ban: hash,
                source_post_id: None,
                source_comment_id: data.comment_id,
                target_board_id: t.board_id,
                target_post_id: t.post_id,
            }),
            None => Err(
                ServiceError::BadRequest(
                    String::from_str("This comment has no hash for the requested ban type."),
                ),
            ),
        }
    } else {
        match &data.hash_value {
            Some(hash) => {
                if !is_admin {
                    return Err(
                        ServiceError::Forbidden(
                            String::from_str("Banning by raw hash value is admin-only."),
                        ),
                    );
                }
                Ok(ResolvedTarget {
                    hash_to_ban: hash.clone(),
                    source_post_id: None,
                    source_comment_id: None,
                    target_board_id: data.board_id,
                    target_post_id: data.post_id,
                })
            },
            None => Err(
                ServiceError::BadRequest(
                    String::from_str("Specify a ban target (post_id, comment_id, or hash_value)."),
                ),
            ),
        }
    }
}

/// The view of an optional target reference.
pub open spec fn opt_target_view(o: Option<&TargetHashes>) -> Option<TargetHashes> {
    match o {
        Some(t) => Some(*t),
        None => None,
    }
}

/// The view of an optional board reference.
pub open spec fn opt_board_view(o: Option<&BoardInfo>) -> Option<BoardInfo> {
    match o {
        Some(b) => Some(*b),
        None => None,
    }
}

/// The `(board_id, post_id)` pair the ban is stored under, or `None` where
/// the caller lacks permission or the scope cannot be pinned down.
/// Device bans and global scope are admin-only; board scope asks for board
/// ownership; thread scope asks for board ownership, or thread creatorship
/// on boards under relaxed moderation.
pub open spec fn spec_authorized_scope_ids(
    is_admin: bool,
    user_id: i32,
    ban_type: BanType,
    scope: BanScope,
    target_board_id: Option<i32>,
    requested_board_id: Option<i32>,
    target_post_id: Option<i32>,
    requested_post_id: Option<i32>,
    board: Option<BoardInfo>,
    is_board_owner: bool,
    is_thread_creator: bool,
    board_id_from_post: Option<i32>,
) -> Option<(Option<i32>, Option<i32>)> {
    if ban_type is Device && !is_admin {
        None
    } else {
        match scope {
            BanScope::Global => if is_admin {
                Some((None, None))
            } else {
                None
            },
            BanScope::Board => {
                let chosen = if target_board_id is Some {
                    target_board_id
                } else {
                    requested_board_id
                };
                match chosen {
                    Some(b) => if is_admin || is_board_owner {
                        Some((Some(b), None))
                    } else {
                        None
                    },
                    None => None,
                }
            },
            BanScope::Thread => {
                let chosen_post = if target_post_id is Some {
                    target_post_id
                } else {
                    requested_post_id
                };
                match chosen_post {
                    Some(p) => {
                        let chosen_board = if target_board_id is Some {
                            target_board_id
                        } else {
                            board_id_from_post
                        };
                        match chosen_board {
                            Some(b) => if is_admin {
                                Some((Some(b), Some(p)))
                            } else {
                                match board {
                                    Some(info) => if info.created_by == Some(user_id)
                                        || (info.moderation_type is Beta && is_thread_creator) {
                                        Some((Some(b), Some(p)))
                                    } else {
                                        None
                                    },
                                    None => None,
                                }
                            },
                            None => None,
                        }
                    },
                    None => None,
                }
            },
        }
    }
}

/// Permission and scope check for ban creation (executable form). The looked
/// up facts — board row, ownership, thread creatorship, and the board id the
/// named thread sits on — come from the storage layer.
pub fn authorize_ban_scope(
    is_admin: bool,
    user_id: i32,
    ban_type: BanType,
    scope: BanScope,
    target_board_id: Option<i32>,
    requested_board_id: Option<i32>,
    target_post_id: Option<i32>,
    requested_post_id: Option<i32>,
    board: Option<&BoardInfo>,
    is_board_owner: bool,
    is_thread_creator: bool,
    board_id_from_post: Option<i32>,
) -> (r: Result<(Option<i32>, Option<i32>), ServiceError>)
    ensures
        ({
            let authorized = spec_authorized_scope_ids(
                is_admin,
                user_id,
                ban_type,
                scope,
                target_board_id,
                requested_board_id,
                target_post_id,
                requested_post_id,
                opt_board_view(board),
                is_board_owner,
                is_thread_creator,
                board_id_from_post,
            );
            match r {
                Ok(ids) => authorized == Some(ids),
                Err(_) => authorized is None,
            }
        }),
        ban_type is Device && !is_admin ==> (r matches Err(e) && e is Forbidden),
        !(ban_type is Device && !is_admin) && scope is Global && !is_admin ==> (r matches Err(e)
            && e is Forbidden),
        !(ban_type is Device && !is_admin) && scope is Board ==> ({
            let chosen = if target_board_id is Some {
                target_board_id
            } else {
                requested_board_id
            };
            &&& (chosen is None ==> (r matches Err(e) && e is BadRequest))
            &&& (chosen is Some && !is_admin && !is_board_owner ==> (r matches Err(e)
                && e is Forbidden))
        }),
        !(ban_type is Device && !is_admin) && scope is Thread ==> ({
            let chosen_post = if target_post_id is Some {
                target_post_id
            } else {
                requested_post_id
            };
            let chosen_board = if target_board_id is Some {
                target_board_id
            } else {
                board_id_from_post
            };
            &&& (chosen_post is None ==> (r matches Err(e) && e is BadRequest))
            &&& (chosen_post is Some && chosen_board is None ==> (r matches Err(e)
                && e is NotFound))
            &&& (chosen_post is Some && chosen_board is Some && !is_admin && opt_board_view(board)
                is None ==> (r matches Err(e) && e is NotFound))
            &&& (chosen_post is Some && chosen_board is Some && !is_admin && opt_board_view(board)
                is Some && !((opt_board_view(board)->Some_0).created_by == Some(user_id) || (
            (opt_board_view(board)->Some_0).moderation_type is Beta && is_thread_creator)) ==> (
            r matches Err(e) && e is Forbidden))
        }),
{
    if matches!(ban_type, BanType::Device) && !is_admin {
        return Err(ServiceError::Forbidden(String::from_str("Device bans are admin-only.")));
    }
    match scope {
        BanScope::Global => {
            if is_admin {
                Ok((None, None))
            } else {
                Err(ServiceError::Forbidden(String::from_str("Global bans are admin-only.")))
            }
        },
        BanScope::Board => {
            let chosen = match target_board_id {
                Some(b) => Some(b),
                None => requested_board_id,
            };
            match chosen {
                Some(b) => {
                    if is_admin || is_board_owner {
                        Ok((Some(b), None))
                    } else {
                        Err(
                            ServiceError::Forbidden(
                                String::from_str("You do not moderate this board."),
                            ),
                        )
                    }
                },
                None => Err(
                    ServiceError::BadRequest(
                        String::from_str(
                            "A board ban needs a target post/comment or an explicit board_id.",
                        ),
                    ),
                ),
            }
        },
        BanScope::Thread => {
            let chosen_post = match target_post_id {
                Some(p) => Some(p),
                None => requested_post_id,
            };
            let p = match chosen_post {
                Some(p) => p,
                None => {
                    return Err(
                        ServiceError::BadRequest(
                            String::from_str(
                                "A thread ban needs a target post/comment or an explicit post_id.",
                            ),
                        ),
                    );
                },
            };
            let chosen_board = match target_board_id {
                Some(b) => Some(b),
                None => board_id_from_post,
            };
            let b = match chosen_board {
                Some(b) => b,
                None => {
                    return Err(
                        ServiceError::NotFound(
                            String::from_str("The specified thread was not found."),
                        ),
                    );
                },
            };
            if is_admin {
                return Ok((Some(b), Some(p)));
            }
            match board {
                Some(info) => {
                    let owns = match info.created_by {
                        Some(c) => c == user_id,
                        None => false,
                    };
                    if owns || (matches!(info.moderation_type, BoardModerationType::Beta)
                        && is_thread_creator) {
                        Ok((Some(b), Some(p)))
                    } else {
                        Err(
                            ServiceError::Forbidden(
                                String::from_str("You do not moderate this thread."),
                            ),
                        )
                    }
                },
                None => Err(
                    ServiceError::NotFound(String::from_str("The target board was not found.")),
                ),
            }
        },
    }
}

/// Whether a stored ban pins the same `(type, hash, scope)` triple the new
/// ban would: the duplicate the creation path refuses.
pub open spec fn spec_same_scope_ban(
    ban: Ban,
    ban_type: BanType,
    hash: Seq<char>,
    board_id: Option<i32>,
    post_id: Option<i32>,
) -> bool {
    &&& ban.ban_type == ban_type
    &&& ban.hash_value@ == hash
    &&& {
        ||| (ban.post_id is None && ban.board_id is None)
        ||| (ban.post_id is None && board_id is Some && ban.board_id == board_id)
        ||| (post_id is Some && ban.post_id == post_id)
    }
}

/// Whether the table already holds a ban of the same `(type, hash, scope)`.
pub open spec fn spec_duplicate_exists(
    bans: Seq<Ban>,
    ban_type: BanType,
    hash: Seq<char>,
    board_id: Option<i32>,
    post_id: Option<i32>,
) -> bool {
    exists|i: int| 0 <= i < bans.len() && spec_same_scope_ban(bans[i], ban_type, hash, board_id, post_id)
}

/// Looks for an existing ban of the same `(type, hash, scope)` triple.
pub fn duplicate_ban_exists(
    bans: &Vec<Ban>,
    ban_type: BanType,
    hash: &str,
    board_id: Option<i32>,
    post_id: Option<i32>,
) -> (r: bool)
    ensures
        r == spec_duplicate_exists(bans@, ban_type, hash@, board_id, post_id),
{
    let n = bans.len();
    let mut i: usize = 0;
    while i < n
        invariant
            n == bans@.len(),
            i <= n,
            forall|j: int|
                0 <= j < i ==> !spec_same_scope_ban(bans@[j], ban_type, hash@, board_id, post_id),
        decreases n - i,
    {
        let ban = &bans[i];
        let type_and_hash = ban_type_eq(ban.ban_type, ban_type) && str_eq(
            ban.hash_value.as_str(),
            hash,
        );
        if type_and_hash {
            let scope_same = match (ban.board_id, ban.post_id) {
                (None, None) => true,
                (Some(b), None) => match board_id {
                    Some(q) => q == b,
                    None => false,
                },
                (_, Some(p)) => match post_id {
                    Some(q) => q == p,
                    None => false,
                },
            };
            if scope_same {
                return true;
            }
        }
        i = i + 1;
    }
    false
}

/// Equality of ban types.
fn ban_type_eq(a: BanType, b: BanType) -> (r: bool)
    ensures
        r == (a == b),
{
    match (a, b) {
        (BanType::User, BanType::User) => true,
        (BanType::Ip, BanType::Ip) => true,
        (BanType::Device, BanType::Device) => true,
        _ => false,
    }
}

/// The field-length bounds a ban request must meet: a raw hash is exactly 64
/// characters, a reason at most 255, and the source PII fields at most 254,
/// 45 and 512 characters.
pub open spec fn spec_create_ban_request_valid(data: CreateBanRequest) -> bool {
    &&& (data.hash_value matches Some(h) ==> h@.len() == 64)
    &&& (data.reason matches Some(s) ==> s@.len() <= 255)
    &&& (data.source_email matches Some(s) ==> s@.len() <= 254)
    &&& (data.source_ip_address matches Some(s) ==> s@.len() <= 45)
    &&& (data.source_device_info matches Some(s) ==> s@.len() <= 512)
}

/// Validates the field lengths of a ban request.
pub fn validate_create_ban_request(data: &CreateBanRequest) -> (r: Result<(), ServiceError>)
    ensures
        r is Ok <==> spec_create_ban_request_valid(*data),
        r matches Err(e) ==> e is ValidationFailed,
{
    let mut issues: Vec<ValidationIssue> = Vec::new();
    if let Some(h) = &data.hash_value {
        if h.as_str().unicode_len() != 64 {
            issues.push(
                ValidationIssue {
                    field: String::from_str("hash_value"),
                    message: String::from_str("A hash value must be exactly 64 characters."),
                },
            );
        }
    }
    if let Some(s) = &data.reason {
        if s.as_str().unicode_len() > 255 {
            issues.push(
                ValidationIssue {
                    field: String::from_str("reason"),
                    message: String::from_str("A reason may be at most 255 characters."),
                },
            );
        }
    }
    if let Some(s) = &data.source_email {
        if s.as_str().unicode_len() > 254 {
            issues.push(
                ValidationIssue {
                    field: String::from_str("source_email"),
                    message: String::from_str("A source email may be at most 254 characters."),
                },
            );
        }
    }
    if let Some(s) = &data.source_ip_address {
        if s.as_str().unicode_len() > 45 {
            issues.push(
                ValidationIssue {
                    field: String::from_str("source_ip_address"),
                    message: String::from_str("A source IP may be at most 45 characters."),
                },
            );
        }
    }
    if let Some(s) = &data.source_device_info {
        if s.as_str().unicode_len() > 512 {
            issues.push(
                ValidationIssue {
                    field: String::from_str("source_device_info"),
                    message: String::from_str("Source device info may be at most 512 characters."),
                },
            );
        }
    }
    if issues.len() == 0 {
        Ok(())
    } else {
        Err(ServiceError::ValidationFailed(issues))
    }
}

/// The scope a stored `(board_id, post_id)` pair encodes.
pub fn scope_of(board_id: Option<i32>, post_id: Option<i32>) -> (r: BanScope)
    ensures
        r == if post_id is Some {
            BanScope::Thread
        } else if board_id is Some {
            BanScope::Board
        } else {
            BanScope::Global
        },
{
    if post_id.is_some() {
        BanScope::Thread
    } else if board_id.is_some() {
        BanScope::Board
    } else {
        BanScope::Global
    }
}

/// The fields a freshly created ban carries.
pub open spec fn spec_created_ban(
    b: Ban,
    id: i32,
    ban_type: BanType,
    hash: Seq<char>,
    board_id: Option<i32>,
    post_id: Option<i32>,
    reason: Option<Seq<char>>,
    created_by: i32,
    created_at: i64,
    source_post_id: Option<i32>,
    source_comment_id: Option<i32>,
    encrypted_source_email: Option<Seq<u8>>,
    encrypted_source_ip: Option<Seq<u8>>,
    encrypted_source_device_info: Option<Seq<u8>>,
) -> bool {
    &&& b.id == id
    &&& b.ban_type == ban_type
    &&& b.hash_value@ == hash
    &&& b.board_id == board_id
    &&& b.post_id == post_id
    &&& opt_view_chars(b.reason) == reason
    &&& b.created_by == created_by
    &&& b.created_at == created_at
    &&& b.expires_at is None
    &&& b.source_post_id == source_post_id
    &&& b.source_comment_id == source_comment_id
    &&& opt_view_bytes(b.encrypted_source_email) == encrypted_source_email
    &&& opt_view_bytes(b.encrypted_source_ip) == encrypted_source_ip
    &&& opt_view_bytes(b.encrypted_source_device_info) == encrypted_source_device_info
}

/// The view of an optional owned string.
pub open spec fn opt_view_chars(o: Option<String>) -> Option<Seq<char>> {
    match o {
        Some(s) => Some(s@),
        None => None,
    }
}

/// The view of an optional byte buffer.
pub open spec fn opt_view_bytes(o: Option<Vec<u8>>) -> Option<Seq<u8>> {
    match o {
        Some(v) => Some(v@),
        None => None,
    }
}

/// Creates a ban: resolves the target, checks permission and scope, refuses
/// duplicates with a message naming the scope, validates the request, and
/// appends the row. The storage lookups (target rows, board facts) and the
/// encrypted PII come from the caller; `now` is the creation timestamp.
/// Returns the new ban's id; on any refusal the table is untouched, a
/// permission refusal is `Forbidden`, and a duplicate is a `BadRequest`
/// naming the scope.
pub fn create_ban(
    table: &mut BanTable,
    user_id: i32,
    role: Role,
    data: &CreateBanRequest,
    post_target: Option<&TargetHashes>,
    comment_target: Option<&TargetHashes>,
    board: Option<&BoardInfo>,
    is_board_owner: bool,
    is_thread_creator: bool,
    board_id_from_post: Option<i32>,
    encrypted_source_email: Option<Vec<u8>>,
    encrypted_source_ip: Option<Vec<u8>>,
    encrypted_source_device_info: Option<Vec<u8>>,
    now: i64,
) -> (r: Result<i32, ServiceError>)
    requires
        old(table).next_id < i32::MAX,
    ensures
        r is Err ==> final(table).bans@ == old(table).bans@ && final(table).next_id == old(
            table,
        ).next_id,
        !spec_resolves_via_post(*data) && !spec_resolves_via_comment(*data) && data.hash_value
            is Some && !(role is Admin) ==> (r matches Err(e) && e is Forbidden),
        ({
            let resolved = spec_resolved_target(
                *data,
                opt_target_view(post_target),
                opt_target_view(comment_target),
                role is Admin,
            );
            let is_admin = role is Admin;
            resolved is Some ==> {
                let t = resolved->Some_0;
                let chosen_board = if t.3 is Some {
                    t.3
                } else {
                    data.board_id
                };
                let chosen_post = if t.4 is Some {
                    t.4
                } else {
                    data.post_id
                };
                let thread_board = if t.3 is Some {
                    t.3
                } else {
                    board_id_from_post
                };
                &&& (data.ban_type is Device && !is_admin ==> (r matches Err(e)
                    && e is Forbidden))
                &&& (!(data.ban_type is Device && !is_admin) && data.scope is Global && !is_admin
                    ==> (r matches Err(e) && e is Forbidden))
                &&& (!(data.ban_type is Device && !is_admin) && data.scope is Board && chosen_board
                    is Some && !is_admin && !is_board_owner ==> (r matches Err(e)
                    && e is Forbidden))
                &&& (!(data.ban_type is Device && !is_admin) && data.scope is Thread && chosen_post
                    is Some && thread_board is Some && !is_admin && opt_board_view(board) is Some
                    && !((opt_board_view(board)->Some_0).created_by == Some(user_id) || (
                (opt_board_view(board)->Some_0).moderation_type is Beta && is_thread_creator))
                    ==> (r matches Err(e) && e is Forbidden))
                &&& ({
                    let authorized = spec_authorized_scope_ids(
                        is_admin,
                        user_id,
                        data.ban_type,
                        data.scope,
                        t.3,
                        data.board_id,
                        t.4,
                        data.post_id,
                        opt_board_view(board),
                        is_board_owner,
                        is_thread_creator,
                        board_id_from_post,
                    );
                    authorized is Some && spec_duplicate_exists(
                        old(table).bans@,
                        data.ban_type,
                        t.0,
                        authorized->Some_0.0,
                        authorized->Some_0.1,
                    ) ==> (r matches Err(e) && e matches ServiceError::BadRequest(m) && m@
                        == (match data.scope {
                        BanScope::Thread => "This user/IP/device is already banned in this thread."@,
                        BanScope::Board => "This user/IP/device is already banned on this board."@,
                        BanScope::Global => "This user/IP/device is already banned globally."@,
                    }))
                })
            }
        }),
        ({
            let resolved = spec_resolved_target(
                *data,
                opt_target_view(post_target),
                opt_target_view(comment_target),
                role is Admin,
            );
            match resolved {
                None => r is Err,
                Some(t) => {
                    let authorized = spec_authorized_scope_ids(
                        role is Admin,
                        user_id,
                        data.ban_type,
                        data.scope,
                        t.3,
                        data.board_id,
                        t.4,
                        data.post_id,
                        opt_board_view(board),
                        is_board_owner,
                        is_thread_creator,
                        board_id_from_post,
                    );
                    match authorized {
                        None => r is Err,
                        Some(ids) => {
                            if spec_duplicate_exists(
                                old(table).bans@,
                                data.ban_type,
                                t.0,
                                ids.0,
                                ids.1,
                            ) {
                                r is Err
                            } else if !spec_create_ban_request_valid(*data) {
                                r is Err
                            } else {
                                &&& r == Result::<i32, ServiceError>::Ok(old(table).next_id)
                                &&& final(table).next_id == old(table).next_id + 1
                                &&& final(table).bans@.len() == old(table).bans@.len() + 1
                                &&& final(table).bans@.drop_last() == old(table).bans@
                                &&& spec_created_ban(
                                    final(table).bans@.last(),
                                    old(table).next_id,
                                    data.ban_type,
                                    t.0,
                                    ids.0,
                                    ids.1,
                                    opt_view_chars(data.reason),
                                    user_id,
                                    now,
                                    t.1,
                                    t.2,
                                    opt_view_bytes(encrypted_source_email),
                                    opt_view_bytes(encrypted_source_ip),
                                    opt_view_bytes(encrypted_source_device_info),
                                )
                            }
                        },
                    }
                },
            }
        }),
{
    let is_admin = matches!(role, Role::Admin);
    let resolved = match resolve_ban_target(data, post_target, comment_target, is_admin) {
        Ok(t) => t,
        Err(e) => {
            return Err(e);
        },
    };
    let ids = match authorize_ban_scope(
        is_admin,
        user_id,
        data.ban_type,
        data.scope,
        resolved.target_board_id,
        data.board_id,
        resolved.target_post_id,
        data.post_id,
        board,
        is_board_owner,
        is_thread_creator,
        board_id_from_post,
    ) {
        Ok(ids) => ids,
        Err(e) => {
            return Err(e);
        },
    };
    let (board_id_for_db, post_id_for_db) = ids;
    if duplicate_ban_exists(
        &table.bans,
        data.ban_type,
        resolved.hash_to_ban.as_str(),
        board_id_for_db,
        post_id_for_db,
    ) {
        let msg = match data.scope {
            BanScope::Thread => "This user/IP/device is already banned in this thread.",
            BanScope::Board => "This user/IP/device is already banned on this board.",
            BanScope::Global => "This user/IP/device is already banned globally.",
        };
        return Err(ServiceError::BadRequest(String::from_str(msg)));
    }
    if let Err(e) = validate_create_ban_request(data) {
        return Err(e);
    }
    let id = table.next_id;
    let reason = match &data.reason {
        Some(s) => Some(s.clone()),
        None => None,
    };
    let ban = Ban {
        id,
        ban_type: data.ban_type,
        hash_value: resolved.hash_to_ban,
        board_id: board_id_for_db,
        post_id: post_id_for_db,
        reason,
        created_by: user_id,
        created_at: now,
        expires_at: None,
        source_post_id: resolved.source_post_id,
        source_comment_id: resolved.source_comment_id,
        encrypted_source_email,
        encrypted_source_ip,
        encrypted_source_device_info,
    };
    table.bans.push(ban);
    table.next_id = table.next_id + 1;
    proof {
        assert(final(table).bans@.drop_last() =~= old(table).bans@);
    }
    Ok(id)
}

/// Whether the caller may delete a ban: admins, the ban's creator, and the
/// owner of the board it is scoped to.
pub fn can_delete_ban(
    role: Role,
    user_id: i32,
    ban_creator_id: i32,
    board_owner_id: Option<i32>,
) -> (r: bool)
    ensures
        r == (role is Admin || ban_creator_id == user_id || board_owner_id == Some(user_id)),
{
    let is_owner = match board_owner_id {
        Some(o) => o == user_id,
        None => false,
    };
    matches!(role, Role::Admin) || ban_creator_id == user_id || is_owner
}

/// The index of the first stored ban with the given id.
pub open spec fn spec_find_ban(bans: Seq<Ban>, ban_id: i32, i: int) -> Option<int>
    decreases bans.len() - i,
{
    if i < 0 || i >= bans.len() {
        None
    } else if bans[i].id == ban_id {
        Some(i)
    } else {
        spec_find_ban(bans, ban_id, i + 1)
    }
}

/// Deletes the stored ban with the given id. Deletion is owed to an admin,
/// the ban's creator, and the owner of the board the ban is scoped to
/// (`board_owner_id` is the storage layer's lookup of that owner); anyone
/// else is refused with `Forbidden`, and an unknown id with `NotFound`.
#[verifier::loop_isolation(false)]
pub fn delete_ban(
    table: &mut BanTable,
    ban_id: i32,
    user_id: i32,
    role: Role,
    board_owner_id: Option<i32>,
) -> (r: Result<(), ServiceError>)
    ensures
        final(table).next_id == old(table).next_id,
        r is Err ==> final(table).bans@ == old(table).bans@,
        ({
            let found = spec_find_ban(old(table).bans@, ban_id, 0);
            &&& (found is None ==> (r matches Err(e) && e is NotFound))
            &&& (found is Some ==> {
                let i = found->Some_0;
                let permitted = role is Admin || old(table).bans@[i].created_by == user_id
                    || board_owner_id == Some(user_id);
                &&& (permitted ==> r is Ok && final(table).bans@ == old(table).bans@.remove(i))
                &&& (!permitted ==> (r matches Err(e) && e is Forbidden))
            })
        }),
{
    let n = table.bans.len();
    let mut i: usize = 0;
    while i < n
        invariant
            i <= n,
            *table == *old(table),
            spec_find_ban(old(table).bans@, ban_id, 0) == spec_find_ban(
                old(table).bans@,
                ban_id,
                i as int,
            ),
        decreases n - i,
    {
        if table.bans[i].id == ban_id {
            proof {
                assert(spec_find_ban(old(table).bans@, ban_id, i as int) == Some(i as int));
            }
            if !can_delete_ban(role, user_id, table.bans[i].created_by, board_owner_id) {
                return Err(
                    ServiceError::Forbidden(
                        String::from_str("You may not delete this ban."),
                    ),
                );
            }
            table.bans.remove(i);
            return Ok(());
        }
        i = i + 1;
    }
    Err(ServiceError::NotFound(String::from_str("The specified ban was not found.")))
}

/// Law: a global ban blocks its hash on every board and in every thread.
pub proof fn lemma_global_ban_blocks_everywhere(
    bans: Seq<Ban>,
    i: int,
    board_id: Option<i32>,
    post_id: Option<i32>,
    user_hash: Option<Seq<char>>,
    ip_hash: Option<Seq<char>>,
    device_hash: Option<Seq<char>>,
)
    requires
        0 <= i < bans.len(),
        bans[i].board_id is None,
        bans[i].post_id is None,
        spec_hash_matches(bans[i], user_hash, ip_hash, device_hash),
    ensures
        spec_is_banned(bans, board_id, post_id, user_hash, ip_hash, device_hash),
{
    assert(spec_ban_blocks(bans[i], board_id, post_id, user_hash, ip_hash, device_hash));
}

/// Law: a board-scoped ban does not reach other boards. If every stored ban
/// is scoped to a single board, probes against any other board (with no
/// thread named) are clean.
pub proof fn lemma_board_ban_scoped(
    bans: Seq<Ban>,
    banned_board: i32,
    other_board: i32,
    user_hash: Option<Seq<char>>,
    ip_hash: Option<Seq<char>>,
    device_hash: Option<Seq<char>>,
)
    requires
        banned_board != other_board,
        forall|i: int|
            0 <= i < bans.len() ==> bans[i].board_id == Some(banned_board) && bans[i].post_id
                is None,
    ensures
        !spec_is_banned(
            bans,
            Some(other_board),
            None::<i32>,
            user_hash,
            ip_hash,
            device_hash,
        ),
{
}

/// Law: a thread-scoped ban does not reach other threads, even on the same
/// board. If every stored ban is scoped to a single thread, probes against
/// any other thread are clean.
pub proof fn lemma_thread_ban_scoped(
    bans: Seq<Ban>,
    banned_post: i32,
    board_id: Option<i32>,
    other_post: i32,
    user_hash: Option<Seq<char>>,
    ip_hash: Option<Seq<char>>,
    device_hash: Option<Seq<char>>,
)
    requires
        banned_post != other_post,
        forall|i: int| 0 <= i < bans.len() ==> bans[i].post_id == Some(banned_post),
    ensures
        !spec_is_banned(
            bans,
            board_id,
            Some(other_post),
            user_hash,
            ip_hash,
            device_hash,
        ),
{
}

/// Law: the matcher is idempotent. With the same table and the same probe and
/// no intervening writes, two calls decide alike; both agree with the
/// specification predicate.
pub proof fn lemma_is_banned_idempotent(
    first: bool,
    second: bool,
    bans: Seq<Ban>,
    board_id: Option<i32>,
    post_id: Option<i32>,
    user_hash: Option<Seq<char>>,
    ip_hash: Option<Seq<char>>,
    device_hash: Option<Seq<char>>,
)
    requires
        first == spec_is_banned(bans, board_id, post_id, user_hash, ip_hash, device_hash),
        second == spec_is_banned(bans, board_id, post_id, user_hash, ip_hash, device_hash),
    ensures
        first == second,
{
}

} // verus!
