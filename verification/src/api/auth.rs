use vstd::prelude::*;
use vstd::string::*;

use crate::api::{ApiError, ApiErrorView};
use crate::text::{copy_text, nth_word, same_text, words};

verus! {

/// The claims of a validated token: whose token it is, and, once known, the
/// id of that user.
#[derive(Debug)]
pub struct Claims {
    pub sub: String,
    pub user_id: Option<i32>,
}

impl Claims {
    /// A copy of the claims.
    pub fn duplicate(&self) -> (c: Claims)
        ensures
            c.sub@ == self.sub@,
            c.user_id == self.user_id,
    {
        Claims { sub: copy_text(&self.sub), user_id: self.user_id }
    }

    /// The claims with the user's id set.
    pub fn with_user_id(self, id: i32) -> (c: Claims)
        ensures
            c.sub@ == self.sub@,
            c.user_id == Some(id),
    {
        Claims { sub: self.sub, user_id: Some(id) }
    }
}

/// The most requests that a user who is not the administrator may make.
pub const RATE_LIMIT: u64 = 10;

/// The token of an `Authorization` header: its second word.
pub open spec fn token_of(header: Seq<char>) -> Option<Seq<char>> {
    if words(header).len() > 1 {
        Some(words(header)[1])
    } else {
        None
    }
}

/// The token of an `Authorization` header (its second word, as in
/// `Bearer <token>`), if the request has such a header with such a word.
pub fn authorization_token(header: Option<&str>) -> (t: Option<String>)
    ensures
        match header {
            None => t is None,
            Some(h) => match t {
                Some(x) => token_of(h@) == Some(x@),
                None => token_of(h@) is None,
            },
        },
{
    match header {
        None => None,
        Some(h) => nth_word(h, 1),
    }
}

/// The first check of an authenticated request: it must carry a token.
pub fn require_token(token: Option<String>) -> (r: Result<String, ApiError>)
    ensures
        match token {
            Some(t) => r matches Ok(x) && x@ == t@,
            None => r matches Err(e) && e@ == ApiErrorView::AuthError(
                "failed to authorization"@,
            ),
        },
{
    match token {
        Some(t) => Ok(t),
        None => Err(ApiError::AuthError(String::from_str("failed to authorization"))),
    }
}

/// The second check of an authenticated request: its token must be valid;
/// `claims` is what validation gave, `None` when it failed.
pub fn require_valid(claims: Option<Claims>) -> (r: Result<Claims, ApiError>)
    ensures
        match claims {
            Some(c) => r matches Ok(x) && x.sub@ == c.sub@ && x.user_id == c.user_id,
            None => r matches Err(e) && e@ == ApiErrorView::AuthError("invalid token"@),
        },
{
    match claims {
        Some(c) => Ok(c),
        None => Err(ApiError::AuthError(String::from_str("invalid token"))),
    }
}

/// Whether the subject of a token is the administrator.
pub fn is_admin(admin_user: &str, sub: &str) -> (b: bool)
    ensures
        b == (admin_user@ == sub@),
{
    same_text(admin_user, sub)
}

/// The last check of an administrator's request: the token must be the
/// administrator's.
pub fn require_admin(claims: Claims, admin_user: &str) -> (r: Result<Claims, ApiError>)
    ensures
        claims.sub@ == admin_user@ ==> (r matches Ok(x) && x.sub@ == claims.sub@ && x.user_id
            == claims.user_id),
        claims.sub@ != admin_user@ ==> (r matches Err(e) && e@ == ApiErrorView::AuthError(
            "you don't have access"@,
        )),
{
    if is_admin(admin_user, claims.sub.as_str()) {
        Ok(claims)
    } else {
        Err(ApiError::AuthError(String::from_str("you don't have access")))
    }
}

/// What the rate limit answers to a user's request count: the count must not
/// exceed the limit.
pub open spec fn rate_verdict(count: Option<u64>) -> Result<(), ApiErrorView> {
    match count {
        None => Err(ApiErrorView::ServerError("internal error"@)),
        Some(n) => if n > RATE_LIMIT {
            Err(ApiErrorView::AuthError("reached rate limit"@))
        } else {
            Ok(())
        },
    }
}

/// The rate limit of a user who is not the administrator, given the count of
/// their requests (`None` when counting failed).
pub fn check_rate_limit(count: Option<u64>) -> (r: Result<(), ApiError>)
    ensures
        match r {
            Ok(()) => rate_verdict(count) is Ok,
            Err(e) => rate_verdict(count) == Err::<(), ApiErrorView>(e@),
        },
{
    match count {
        None => Err(ApiError::ServerError(String::from_str("internal error"))),
        Some(n) => if n > RATE_LIMIT {
            Err(ApiError::AuthError(String::from_str("reached rate limit")))
        } else {
            Ok(())
        },
    }
}

/// A count that the rate limit refuses is refused at every greater count too,
/// and one that it lets through lets every smaller count through.
pub proof fn rate_limit_is_monotone(m: u64, n: u64)
    requires
        m <= n,
    ensures
        rate_verdict(Some(m)) is Err ==> rate_verdict(Some(n)) is Err,
        rate_verdict(Some(n)) is Ok ==> rate_verdict(Some(m)) is Ok,
{
}

} // verus!
