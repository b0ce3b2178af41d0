//! Deciding whether a token still stands for its user.
//!
//! A token names its user and the version of the password it was issued
//! under. It stands as long as the user exists and the password has not
//! changed since. Looking the user up is the caller's part.

use crate::errors::{ApiError, ApiErrorView};
use crate::stats::{parse_integer, parse_integer_of};
use crate::text::chars_of;
use vstd::prelude::*;

verus! {

/// The user that a request is made for.
#[derive(Debug, Clone)]
pub struct AuthUser {
    pub user_id: i64,
    pub username: String,
}

/// The user id that the subject of a token writes, or the error for a
/// subject that writes none.
pub open spec fn subject_id(subject: Seq<char>) -> Result<int, ApiErrorView> {
    match parse_integer(subject) {
        Some(id) => Ok(id),
        None => Err(ApiErrorView::Unauthorized("Invalid user ID in token"@)),
    }
}

/// The verdict on a token issued under password version `token_version`
/// for a user whose stored version is `stored_version`, `None` standing for
/// a user that does not exist.
pub open spec fn freshness(token_version: i64, stored_version: Option<i64>) -> Result<
    (),
    ApiErrorView,
> {
    match stored_version {
        None => Err(ApiErrorView::Unauthorized("User not found"@)),
        Some(stored) => if stored == token_version {
            Ok(())
        } else {
            Err(
                ApiErrorView::Unauthorized(
                    "Token has been invalidated due to password change"@,
                ),
            )
        },
    }
}

/// What follows `Bearer ` in an authorization header, if the header starts
/// with it.
pub open spec fn bearer_text(header: Seq<char>) -> Option<Seq<char>> {
    if header.len() >= 7 && header.subrange(0, 7) == bearer_prefix() {
        Some(header.subrange(7, header.len() as int))
    } else {
        None
    }
}

/// The characters `Bearer ` that announce a token.
pub open spec fn bearer_prefix() -> Seq<char> {
    seq!['B', 'e', 'a', 'r', 'e', 'r', ' ']
}

/// Reads the user id from the subject of a token.
pub fn token_user_id(subject: &str) -> (r: Result<i64, ApiError>)
    ensures
        match r {
            Ok(id) => subject_id(subject@) == Ok::<int, ApiErrorView>(id as int),
            Err(e) => subject_id(subject@) == Err::<int, ApiErrorView>(e@),
        },
{
    let chars = chars_of(subject);
    match parse_integer_of(chars.as_slice()) {
        Some(id) => Ok(id),
        None => Err(ApiError::Unauthorized("Invalid user ID in token".to_owned())),
    }
}

/// Decides whether a token still stands.
pub fn freshness_verdict(token_version: i64, stored_version: Option<i64>) -> (r: Result<
    (),
    ApiError,
>)
    ensures
        match r {
            Ok(()) => freshness(token_version, stored_version) is Ok,
            Err(e) => freshness(token_version, stored_version) == Err::<(), ApiErrorView>(e@),
        },
{
    match stored_version {
        None => Err(ApiError::Unauthorized("User not found".to_owned())),
        Some(stored) => if stored == token_version {
            Ok(())
        } else {
            Err(
                ApiError::Unauthorized(
                    "Token has been invalidated due to password change".to_owned(),
                ),
            )
        },
    }
}

/// The token of an authorization header.
pub fn bearer_token(header: &str) -> (token: Option<String>)
    ensures
        match token {
            Some(t) => bearer_text(header@) == Some(t@),
            None => bearer_text(header@) is None,
        },
{
    let chars = chars_of(header);
    let n = chars.len();
    if n < 7 {
        return None;
    }
    let starts = chars[0] == 'B' && chars[1] == 'e' && chars[2] == 'a' && chars[3] == 'r'
        && chars[4] == 'e' && chars[5] == 'r' && chars[6] == ' ';
    proof {
        let head = header@.subrange(0, 7);
        if starts {
            assert(head =~= bearer_prefix());
        } else {
            assert(head[0] == header@[0]);
            assert(head[1] == header@[1]);
            assert(head[2] == header@[2]);
            assert(head[3] == header@[3]);
            assert(head[4] == header@[4]);
            assert(head[5] == header@[5]);
            assert(head[6] == header@[6]);
        }
    }
    if starts {
        Some(header.substring_char(7, n).to_owned())
    } else {
        None
    }
}

/// The user that a token stands for, where its subject writes a user id.
pub fn auth_user(subject: &str, username: &str) -> (user: Option<AuthUser>)
    ensures
        match user {
            Some(u) => parse_integer(subject@) == Some(u.user_id as int) && u.username@
                == username@,
            None => parse_integer(subject@) is None,
        },
{
    let chars = chars_of(subject);
    match parse_integer_of(chars.as_slice()) {
        Some(user_id) => Some(AuthUser { user_id, username: username.to_owned() }),
        None => None,
    }
}

} // verus!
