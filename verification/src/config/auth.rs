//! Session tokens: the signing configuration, the claims, and their minting.

use vstd::prelude::*;
use vstd::string::StringExecFns;

use crate::clock::{expiry_after, token_expiry, TOKEN_TTL_SECONDS};
use crate::text::{decimal_text, i64_to_string, parse_i64, parse_i64_spec};

verus! {

/// The error type of the `jsonwebtoken` crate.
#[verifier::external_type_specification]
#[verifier::external_body]
pub struct ExTokenError(jsonwebtoken::errors::Error);

/// The symmetric key that signs and verifies session tokens.
#[derive(Debug, Clone, PartialEq, Eq)]
pub struct JwtConfig {
    pub secret: String,
}

impl JwtConfig {
    /// The configuration for the given secret, or for the built-in
    /// development secret where none is set.
    pub fn from_secret(secret: Option<String>) -> (r: JwtConfig)
        ensures
            r.secret@ == (if secret is Some {
                secret->0@
            } else {
                "your-super-secret-and-ultra-long-secret-key"@
            }),
    {
        JwtConfig {
            secret: match secret {
                Some(secret) => secret,
                None => String::from_str("your-super-secret-and-ultra-long-secret-key"),
            },
        }
    }
}

/// What a session token asserts: the user's id as decimal text, and the
/// instant the token expires, in seconds since the Unix epoch.
#[derive(Debug, Clone, PartialEq, Eq)]
pub struct Claims {
    pub sub: String,
    pub exp: usize,
}

/// The mathematical value of [`Claims`].
pub struct ClaimsView {
    pub sub: Seq<char>,
    pub exp: usize,
}

impl View for Claims {
    type V = ClaimsView;

    open spec fn view(&self) -> ClaimsView {
        ClaimsView { sub: self.sub@, exp: self.exp }
    }
}

impl DeepView for Claims {
    type V = ClaimsView;

    open spec fn deep_view(&self) -> ClaimsView {
        self.view()
    }
}

impl ClaimsView {
    /// The claims of a token minted for `user_id` at `now`: the subject is
    /// the id in decimal, the expiry twenty-four hours later. `None` where
    /// that instant is negative or does not fit.
    pub open spec fn for_user(user_id: i64, now: i64) -> Option<ClaimsView> {
        match expiry_after(now, TOKEN_TTL_SECONDS) {
            Some(exp) => if 0 <= exp <= usize::MAX {
                Some(ClaimsView { sub: decimal_text(user_id as int), exp: exp as usize })
            } else {
                None
            },
            None => None,
        }
    }

    /// The user the claims name, where the subject is a 64-bit decimal.
    pub open spec fn user_id(self) -> Option<i64> {
        parse_i64_spec(self.sub)
    }

    /// Whether the claims have expired at `now`.
    pub open spec fn expired_at(self, now: i64) -> bool {
        self.exp <= now
    }
}

impl Claims {
    /// The claims of a token minted for `user_id` at `now`.
    pub fn for_user(user_id: i64, now: i64) -> (r: Option<Claims>)
        ensures
            r.deep_view() == ClaimsView::for_user(user_id, now),
    {
        match token_expiry(now) {
            Some(exp) => {
                if exp >= 0 && exp as u64 <= usize::MAX as u64 {
                    Some(Claims { sub: i64_to_string(user_id), exp: exp as usize })
                } else {
                    None
                }
            },
            None => None,
        }
    }

    /// The user the claims name, where the subject is a 64-bit decimal.
    pub fn user_id(&self) -> (r: Option<i64>)
        ensures
            r == self@.user_id(),
    {
        parse_i64(self.sub.as_str())
    }

    /// Whether the claims have expired at `now`.
    pub fn expired_at(&self, now: i64) -> (r: bool)
        ensures
            r == self@.expired_at(now),
    {
        now >= 0 && self.exp as u64 <= now as u64
    }
}

/// Claims minted for a user always name that user.
pub proof fn law_minted_claims_name_their_user(user_id: i64, now: i64)
    requires
        ClaimsView::for_user(user_id, now) is Some,
    ensures
        ClaimsView::for_user(user_id, now)->0.user_id() == Some(user_id),
        ClaimsView::for_user(user_id, now)->0.exp == now + TOKEN_TTL_SECONDS,
        !ClaimsView::for_user(user_id, now)->0.expired_at(now),
{
    crate::text::law_parse_inverts_decimal_text(user_id);
}

/// The compact HS256 token that `jsonwebtoken::encode` gives for the default
/// header, the claims `sub` and `exp`, and the key made of `secret`.
pub uninterp spec fn signed_token(sub: Seq<char>, exp: usize, secret: Seq<char>) -> Seq<char>;

/// Signs claims with `jsonwebtoken::encode`, under the default header
/// (HS256) and the key `EncodingKey::from_secret(secret)`.
///
/// The claims are handed over as a JSON object with the members `sub` (text)
/// and `exp` (number). The result depends on the arguments alone, so it is
/// named: [`signed_token`]. For this header, such a key and these two
/// claims the crate has no way to fail: the key's family is the header's,
/// header and claims serialise to JSON, and the HMAC is computed without
/// error. The token is the header, the claims and the signature joined by
/// two dots, so it is never empty. Nothing more is claimed of it.
#[verifier::external_body]
fn sign_claims(sub: &str, exp: usize, secret: &str) -> (r: Result<
    String,
    jsonwebtoken::errors::Error,
>)
    ensures
        r is Ok,
        r->Ok_0@ == signed_token(sub@, exp, secret@),
        r->Ok_0@.len() > 0,
{
    let mut body = serde_json::Map::new();
    body.insert("sub".to_owned(), serde_json::Value::from(sub));
    body.insert("exp".to_owned(), serde_json::Value::from(exp as u64));
    let key = jsonwebtoken::EncodingKey::from_secret(secret.as_bytes());
    jsonwebtoken::encode(&jsonwebtoken::Header::default(), &body, &key)
}

/// The token minted for `user_id` at `now` under `secret`: there is one
/// wherever the claims' expiry fits.
pub open spec fn minted_token(user_id: i64, now: i64, secret: Seq<char>) -> Option<Seq<char>> {
    match ClaimsView::for_user(user_id, now) {
        Some(claims) => Some(signed_token(claims.sub, claims.exp, secret)),
        None => None,
    }
}

/// Mints the session token for `user_id` at `now`: subject the id, expiry
/// twenty-four hours later, signed with the configured secret. There is a
/// token, and it is not empty, wherever that expiry is not negative and
/// fits.
pub fn mint_token(user_id: i64, now: i64, config: &JwtConfig) -> (r: Option<String>)
    ensures
        r.deep_view() == minted_token(user_id, now, config.secret@),
        r is Some == ClaimsView::for_user(user_id, now) is Some,
        r matches Some(token) ==> token@.len() > 0,
{
    match Claims::for_user(user_id, now) {
        Some(claims) => match sign_claims(
            claims.sub.as_str(),
            claims.exp,
            config.secret.as_str(),
        ) {
            Ok(token) => Some(token),
            Err(_) => None,
        },
        None => None,
    }
}

/// What a verified token carries: the members `sub` and `exp` of its
/// claims, each `None` where it is missing or of another JSON type.
#[derive(Debug, Clone, PartialEq, Eq)]
pub struct DecodedClaims {
    pub sub: Option<String>,
    pub exp: Option<u64>,
}

/// What `jsonwebtoken::decode` finds in `token` under the key made of
/// `secret`: the members `sub` (where it is text) and `exp` (where it is a
/// non-negative whole number) of the claims; `None` where it reports an error.
pub uninterp spec fn decoded_token(token: Seq<char>, secret: Seq<char>) -> Option<
    (Option<Seq<char>>, Option<u64>),
>;

/// Verifies `token` with `jsonwebtoken::decode`, under the key
/// `DecodingKey::from_secret(secret)` and the default validation without its
/// comparison of `exp` with the system clock: the algorithm must be HS256,
/// the signature must match, and an `exp` claim must be present and
/// numeric. The claims are read as a JSON value, of which the members `sub`
/// and `exp` are handed out.
///
/// With the clock left out the result depends on the arguments alone, so it
/// is named: [`decoded_token`]. Nothing more is claimed of it. Whether the
/// token has expired is decided by [`Claims::expired_at`].
#[verifier::external_body]
fn decode_claims(token: &str, secret: &str) -> (r: Result<
    DecodedClaims,
    jsonwebtoken::errors::Error,
>)
    ensures
        r matches Ok(d) ==> decoded_token(token@, secret@) == Some((d.sub.deep_view(), d.exp)),
        r is Err ==> decoded_token(token@, secret@) is None,
{
    let key = jsonwebtoken::DecodingKey::from_secret(secret.as_bytes());
    let mut validation = jsonwebtoken::Validation::default();
    validation.validate_exp = false;
    let data = jsonwebtoken::decode::<serde_json::Value>(token, &key, &validation)?;
    Ok(
        DecodedClaims {
            sub: data.claims.get("sub").and_then(|v| v.as_str()).map(str::to_owned),
            exp: data.claims.get("exp").and_then(|v| v.as_u64()),
        },
    )
}

/// The claims that a decoded token amounts to: both members present, and
/// the expiry within the machine's word.
pub open spec fn accepted_claims(decoded: Option<(Option<Seq<char>>, Option<u64>)>) -> Option<
    ClaimsView,
> {
    match decoded {
        Some((Some(sub), Some(exp))) => if exp <= usize::MAX {
            Some(ClaimsView { sub, exp: exp as usize })
        } else {
            None
        },
        _ => None,
    }
}

/// The claims of `token` where it verifies under `secret`. Their expiry is
/// not looked at.
pub open spec fn verified_claims(token: Seq<char>, secret: Seq<char>) -> Option<ClaimsView> {
    accepted_claims(decoded_token(token, secret))
}

/// Turns what a verified token carries into claims.
pub fn claims_of(decoded: DecodedClaims) -> (r: Option<Claims>)
    ensures
        r.deep_view() == accepted_claims(Some((decoded.sub.deep_view(), decoded.exp))),
{
    match (decoded.sub, decoded.exp) {
        (Some(sub), Some(exp)) => {
            if exp <= usize::MAX as u64 {
                Some(Claims { sub, exp: exp as usize })
            } else {
                None
            }
        },
        _ => None,
    }
}

/// Verifies `token` against the configured secret and hands out its claims;
/// `None` where the token is malformed, tampered with, signed with another
/// key, or lacks a claim. Whether the claims have expired is for the caller
/// to ask of them.
pub fn verify_token(token: &str, config: &JwtConfig) -> (r: Option<Claims>)
    ensures
        r.deep_view() == verified_claims(token@, config.secret@),
{
    match decode_claims(token, config.secret.as_str()) {
        Ok(decoded) => claims_of(decoded),
        Err(_) => None,
    }
}

} // verus!
