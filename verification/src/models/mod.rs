//! The user record and the request and response bodies of the auth endpoints.

use vstd::prelude::*;

pub mod app;
pub mod article;

verus! {

/// A stored account. Instants are seconds since the Unix epoch.
#[derive(Debug, Clone, PartialEq, Eq)]
pub struct User {
    pub id: i64,
    pub username: String,
    pub email: String,
    pub email_verified: i8,
    pub verification_code: Option<String>,
    pub verification_code_expires_at: Option<i64>,
    pub created_at: i64,
    pub updated_at: i64,
}

/// The mathematical value of a [`User`].
pub struct UserView {
    pub id: i64,
    pub username: Seq<char>,
    pub email: Seq<char>,
    pub email_verified: i8,
    pub verification_code: Option<Seq<char>>,
    pub verification_code_expires_at: Option<i64>,
    pub created_at: i64,
    pub updated_at: i64,
}

impl View for User {
    type V = UserView;

    open spec fn view(&self) -> UserView {
        UserView {
            id: self.id,
            username: self.username@,
            email: self.email@,
            email_verified: self.email_verified,
            verification_code: self.verification_code.deep_view(),
            verification_code_expires_at: self.verification_code_expires_at,
            created_at: self.created_at,
            updated_at: self.updated_at,
        }
    }
}

impl DeepView for User {
    type V = UserView;

    open spec fn deep_view(&self) -> UserView {
        self.view()
    }
}

impl UserView {
    /// The flag is 0 or 1, and a pending code always comes with its expiry.
    pub open spec fn well_formed(self) -> bool {
        &&& (self.email_verified == 0 || self.email_verified == 1)
        &&& (self.verification_code is Some <==> self.verification_code_expires_at is Some)
    }

    /// Whether the account has proved control of its email address.
    pub open spec fn is_verified(self) -> bool {
        self.email_verified != 0
    }

    /// Whether `code`, submitted at `now`, is the pending code and has not
    /// expired: the match is exact and the expiry strictly in the future.
    pub open spec fn accepts_code(self, code: Seq<char>, now: i64) -> bool {
        &&& self.verification_code == Some(code)
        &&& self.verification_code_expires_at is Some
        &&& self.verification_code_expires_at->0 > now
    }

    /// The account after a successful login: verified, with no pending code.
    pub open spec fn confirmed(self) -> UserView {
        UserView {
            email_verified: 1,
            verification_code: None,
            verification_code_expires_at: None,
            ..self
        }
    }

    /// What the outside world is shown of the account: never the code.
    pub open spec fn response(self) -> UserResponseView {
        UserResponseView {
            id: self.id,
            username: self.username,
            email: self.email,
            email_verified: self.is_verified(),
            created_at: self.created_at,
            updated_at: self.updated_at,
        }
    }
}

impl User {
    /// Whether `code`, submitted at `now`, matches the pending code before its expiry.
    pub fn accepts_code(&self, code: &String, now: i64) -> (r: bool)
        ensures
            r == self@.accepts_code(code@, now),
    {
        match (&self.verification_code, self.verification_code_expires_at) {
            (Some(pending), Some(expires_at)) => *pending == *code && expires_at > now,
            _ => false,
        }
    }

    /// Marks the account verified and uses up its pending code.
    pub fn confirm(self) -> (r: User)
        ensures
            r@ == self@.confirmed(),
    {
        User {
            id: self.id,
            username: self.username,
            email: self.email,
            email_verified: 1,
            verification_code: None,
            verification_code_expires_at: None,
            created_at: self.created_at,
            updated_at: self.updated_at,
        }
    }

    /// The outward form of the account, without the one-time code fields.
    pub fn into_response(self) -> (r: UserResponse)
        ensures
            r@ == self@.response(),
    {
        UserResponse {
            id: self.id,
            username: self.username,
            email: self.email,
            email_verified: self.email_verified != 0,
            created_at: self.created_at,
            updated_at: self.updated_at,
        }
    }

    /// A copy of the record.
    pub fn duplicate(&self) -> (r: User)
        ensures
            r == *self,
    {
        User {
            id: self.id,
            username: self.username.clone(),
            email: self.email.clone(),
            email_verified: self.email_verified,
            verification_code: match &self.verification_code {
                Some(code) => Some(code.clone()),
                None => None,
            },
            verification_code_expires_at: self.verification_code_expires_at,
            created_at: self.created_at,
            updated_at: self.updated_at,
        }
    }
}

/// Confirming is idempotent and never clears the verified flag.
pub proof fn law_confirming_is_final(user: UserView)
    ensures
        user.confirmed().is_verified(),
        user.confirmed().well_formed(),
        user.confirmed().confirmed() == user.confirmed(),
        forall|code: Seq<char>, now: i64| !user.confirmed().accepts_code(code, now),
{
}

/// Body of `POST /auth/login`.
#[derive(Debug, Clone, PartialEq, Eq)]
pub struct LoginRequest {
    pub email: String,
    pub verification_code: String,
}

/// Body of `POST /auth/register`.
#[derive(Debug, Clone, PartialEq, Eq)]
pub struct RegisterRequest {
    pub username: String,
    pub email: String,
}

/// Body of a request for a fresh verification code.
#[derive(Debug, Clone, PartialEq, Eq)]
pub struct GetVerificationCodeRequest {
    pub email: String,
}

/// The account as shown to clients.
#[derive(Debug, Clone, PartialEq, Eq)]
pub struct UserResponse {
    pub id: i64,
    pub username: String,
    pub email: String,
    pub email_verified: bool,
    pub created_at: i64,
    pub updated_at: i64,
}

/// The mathematical value of a [`UserResponse`].
pub struct UserResponseView {
    pub id: i64,
    pub username: Seq<char>,
    pub email: Seq<char>,
    pub email_verified: bool,
    pub created_at: i64,
    pub updated_at: i64,
}

impl View for UserResponse {
    type V = UserResponseView;

    open spec fn view(&self) -> UserResponseView {
        UserResponseView {
            id: self.id,
            username: self.username@,
            email: self.email@,
            email_verified: self.email_verified,
            created_at: self.created_at,
            updated_at: self.updated_at,
        }
    }
}

/// Body of a successful login: the session token and the account.
#[derive(Debug, Clone, PartialEq, Eq)]
pub struct AuthResponse {
    pub token: String,
    pub user: UserResponse,
}

/// The mathematical value of an [`AuthResponse`].
pub struct AuthResponseView {
    pub token: Seq<char>,
    pub user: UserResponseView,
}

impl View for AuthResponse {
    type V = AuthResponseView;

    open spec fn view(&self) -> AuthResponseView {
        AuthResponseView { token: self.token@, user: self.user@ }
    }
}

/// A body that carries one human-readable message.
#[derive(Debug, Clone, PartialEq, Eq)]
pub struct MessageResponse {
    pub message: String,
}

} // verus!
