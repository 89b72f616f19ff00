//! Who is calling: from the `Authorization` header to a user id.

use vstd::prelude::*;
use vstd::string::StringExecFns;
use vstd::string::StrSliceExecFns;

use crate::clock::unix_now;
use crate::config::auth::{verified_claims, verify_token, Claims, ClaimsView, JwtConfig};
use crate::utils::{AppError, AppErrorView};

verus! {

/// The caller of a protected endpoint.
#[derive(Debug, Clone, Copy, PartialEq, Eq)]
pub struct AuthenticatedUser {
    pub user_id: i64,
}

/// The token of a header value of the exact form `Bearer <token>`; `None`
/// for any other shape.
pub open spec fn bearer_token_spec(header: Seq<char>) -> Option<Seq<char>> {
    if header.len() >= 7 && header.take(7) == "Bearer "@ {
        Some(header.skip(7))
    } else {
        None
    }
}

/// The token of a header value of the exact form `Bearer <token>`.
pub fn bearer_token(header: &str) -> (r: Option<&str>)
    ensures
        r is Some == bearer_token_spec(header@) is Some,
        r matches Some(token) ==> bearer_token_spec(header@) == Some(token@),
{
    proof {
        reveal_strlit("Bearer ");
    }
    let prefix = "Bearer ";
    let n = header.unicode_len();
    if n < 7 {
        return None;
    }
    let mut i: usize = 0;
    while i < 7
        invariant
            i <= 7,
            7 <= n,
            n == header@.len(),
            prefix@ == "Bearer "@,
            prefix@.len() == 7,
            forall|k: int| 0 <= k < i ==> header@[k] == prefix@[k],
        decreases 7 - i,
    {
        if header.get_char(i) != prefix.get_char(i) {
            return None;
        }
        i += 1;
    }
    assert(header@.take(7) =~= prefix@);
    Some(header.substring_char(7, n))
}

/// The answer to a caller that could not be identified.
pub open spec fn unauthorized(message: Seq<char>) -> Result<AuthenticatedUser, AppErrorView> {
    Err(AppErrorView::Unauthorized(message))
}

/// Who the claims of a verified token identify at `now`: the user named by
/// the subject, unless the claims are missing, have expired, or name no
/// valid user id.
pub open spec fn authorize_spec(claims: Option<ClaimsView>, now: i64) -> Result<
    AuthenticatedUser,
    AppErrorView,
> {
    match claims {
        None => unauthorized("Invalid token"@),
        Some(c) => if c.expired_at(now) {
            unauthorized("Invalid token"@)
        } else {
            match c.user_id() {
                Some(user_id) => Ok(AuthenticatedUser { user_id }),
                None => unauthorized("Invalid user ID in token"@),
            }
        },
    }
}

/// The mathematical value of an identification result.
pub open spec fn identity_view(r: Result<AuthenticatedUser, AppError>) -> Result<
    AuthenticatedUser,
    AppErrorView,
> {
    match r {
        Ok(user) => Ok(user),
        Err(e) => Err(e@),
    }
}

/// Identifies the caller from the claims of a verified token, at `now`.
/// Expired claims are refused whatever the verifier's leeway let through.
pub fn authorize(claims: Option<Claims>, now: i64) -> (r: Result<AuthenticatedUser, AppError>)
    ensures
        identity_view(r) == authorize_spec(claims.deep_view(), now),
{
    match claims {
        None => Err(AppError::Unauthorized(String::from_str("Invalid token"))),
        Some(c) => {
            if c.expired_at(now) {
                Err(AppError::Unauthorized(String::from_str("Invalid token")))
            } else {
                match c.user_id() {
                    Some(user_id) => Ok(AuthenticatedUser { user_id }),
                    None => Err(
                        AppError::Unauthorized(String::from_str("Invalid user ID in token")),
                    ),
                }
            }
        },
    }
}

/// Who the value of the `Authorization` header identifies at `now`, under
/// the signing `secret`; `header` is `None` where the request has no such
/// header or its value is not text.
///
/// The value must have the exact form `Bearer <token>`, the token must
/// verify under the secret, its claims must not have expired at `now`, and
/// their subject must be a user id. Every refusal is `Unauthorized`.
pub open spec fn authenticate_spec(header: Option<Seq<char>>, secret: Seq<char>, now: i64) -> Result<
    AuthenticatedUser,
    AppErrorView,
> {
    match header {
        None => unauthorized("No authorization header"@),
        Some(value) => match bearer_token_spec(value) {
            None => unauthorized("Invalid authorization header format"@),
            Some(token) => authorize_spec(verified_claims(token, secret), now),
        },
    }
}

/// The mathematical value of a header that may be missing.
pub open spec fn header_view(header: Option<&str>) -> Option<Seq<char>> {
    match header {
        Some(value) => Some(value@),
        None => None,
    }
}

/// Identifies the caller from the value of the `Authorization` header, at
/// the instant `now`.
pub fn authenticate_at(header: Option<&str>, config: &JwtConfig, now: i64) -> (r: Result<
    AuthenticatedUser,
    AppError,
>)
    ensures
        identity_view(r) == authenticate_spec(header_view(header), config.secret@, now),
{
    match header {
        None => Err(AppError::Unauthorized(String::from_str("No authorization header"))),
        Some(value) => match bearer_token(value) {
            None => Err(
                AppError::Unauthorized(String::from_str("Invalid authorization header format")),
            ),
            Some(token) => authorize(verify_token(token, config), now),
        },
    }
}

/// Identifies the caller from the value of the `Authorization` header, at
/// the instant the clock shows.
pub fn authenticate(header: Option<&str>, config: &JwtConfig) -> (r: Result<
    AuthenticatedUser,
    AppError,
>)
    ensures
        exists|now: i64|
            identity_view(r) == #[trigger] authenticate_spec(
                header_view(header),
                config.secret@,
                now,
            ),
        r matches Err(e) ==> e is Unauthorized,
{
    authenticate_at(header, config, unix_now())
}

/// Every refusal is `Unauthorized`, and a token whose claims have expired
/// identifies nobody, whatever else holds of it.
pub proof fn law_expired_token_is_refused(
    header: Option<Seq<char>>,
    secret: Seq<char>,
    now: i64,
)
    ensures
        authenticate_spec(header, secret, now) matches Err(e) ==> e is Unauthorized,
        header is Some && bearer_token_spec(header->0) is Some && verified_claims(
            bearer_token_spec(header->0)->0,
            secret,
        ) is Some && verified_claims(bearer_token_spec(header->0)->0, secret)->0.exp <= now
            ==> authenticate_spec(header, secret, now) is Err,
{
}

/// A token minted for `user_id` at `minted_at` identifies that user at every
/// instant before its expiry and nobody from then on.
pub proof fn law_minted_claims_identify_their_user(user_id: i64, minted_at: i64, now: i64)
    requires
        ClaimsView::for_user(user_id, minted_at) is Some,
    ensures
        now < minted_at + crate::clock::TOKEN_TTL_SECONDS ==> authorize_spec(
            ClaimsView::for_user(user_id, minted_at),
            now,
        ) == Ok::<AuthenticatedUser, AppErrorView>(AuthenticatedUser { user_id }),
        now >= minted_at + crate::clock::TOKEN_TTL_SECONDS ==> authorize_spec(
            ClaimsView::for_user(user_id, minted_at),
            now,
        ) is Err,
{
    crate::config::auth::law_minted_claims_name_their_user(user_id, minted_at);
}

} // verus!
