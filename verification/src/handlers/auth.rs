//! The account endpoints: register, login, and who-am-I.
//!
//! Registration issues a one-time code that is valid for thirty minutes and
//! mails it. Login accepts the code once, marks the account verified and
//! mints a session token that is valid for twenty-four hours.

use vstd::prelude::*;

use crate::clock::{code_expiry, expiry_after, unix_now, CODE_TTL_SECONDS};
use crate::config::auth::{mint_token, minted_token, JwtConfig};
use crate::handlers::{
    internal_error, Action, ActionView, Body, BodyView, Event, EventView, Rejection, Response,
    ResponseView, Step, STATUS_OK,
};
use crate::models::{
    AuthResponse, AuthResponseView, LoginRequest, RegisterRequest, User, UserView,
};
use crate::store::{StoreReply, StoreReplyView, StoreRequest, StoreRequestView};
use crate::text::same_text;
use crate::utils::email::{verification_mail, verification_mail_spec};

verus! {

/// How many characters a verification code has.
pub const CODE_LENGTH: usize = 6;

/// Whether `b` is an ASCII letter or digit.
pub open spec fn is_alphanumeric(b: u8) -> bool {
    ||| 0x30 <= b <= 0x39
    ||| 0x41 <= b <= 0x5a
    ||| 0x61 <= b <= 0x7a
}

/// Whether `c` is an ASCII letter or digit.
pub open spec fn is_code_char(c: char) -> bool {
    ||| '0' <= c <= '9'
    ||| 'A' <= c <= 'Z'
    ||| 'a' <= c <= 'z'
}

/// Whether `code` has the shape of a verification code: six ASCII letters
/// or digits.
pub open spec fn is_verification_code(code: Seq<char>) -> bool {
    &&& code.len() == CODE_LENGTH
    &&& forall|i: int| 0 <= i < code.len() ==> is_code_char(#[trigger] code[i])
}

/// Draws one byte from `rand::distributions::Alphanumeric` with the
/// thread's generator, `rand::thread_rng()`.
///
/// The distribution yields ASCII letters and digits only; which one is left
/// to chance. `thread_rng` stops the process where the system's source of
/// randomness cannot be read.
#[verifier::external_body]
fn sample_alphanumeric() -> (b: u8)
    ensures
        is_alphanumeric(b),
{
    rand::Rng::sample(&mut rand::thread_rng(), rand::distributions::Alphanumeric)
}

/// A fresh verification code: six random ASCII letters or digits.
pub fn generate_verification_code() -> (code: String)
    ensures
        is_verification_code(code@),
{
    let mut code = String::new();
    let mut i: usize = 0;
    while i < CODE_LENGTH
        invariant
            i <= CODE_LENGTH,
            code@.len() == i,
            forall|k: int| 0 <= k < code@.len() ==> is_code_char(#[trigger] code@[k]),
        decreases CODE_LENGTH - i,
    {
        let b = sample_alphanumeric();
        code.push(b as char);
        i += 1;
    }
    code
}

/// Where a registration stands.
#[derive(Debug, Clone, PartialEq, Eq)]
pub enum RegisterState {
    /// Nothing has happened yet. The code to issue has been drawn, and its
    /// expiry computed where it fits in 64 bits.
    Start { code: String, expires_at: Option<i64> },
    /// The email is being looked up.
    CheckingEmail { code: String, expires_at: Option<i64> },
    /// The account is being written, with this code.
    Inserting { code: String },
    /// The code is being mailed.
    Mailing,
    /// The client has been answered.
    Done,
}

/// The mathematical value of a [`RegisterState`].
pub enum RegisterStateView {
    Start { code: Seq<char>, expires_at: Option<i64> },
    CheckingEmail { code: Seq<char>, expires_at: Option<i64> },
    Inserting { code: Seq<char> },
    Mailing,
    Done,
}

impl View for RegisterState {
    type V = RegisterStateView;

    open spec fn view(&self) -> RegisterStateView {
        match self {
            RegisterState::Start { code, expires_at } => RegisterStateView::Start {
                code: code@,
                expires_at: *expires_at,
            },
            RegisterState::CheckingEmail { code, expires_at } => RegisterStateView::CheckingEmail {
                code: code@,
                expires_at: *expires_at,
            },
            RegisterState::Inserting { code } => RegisterStateView::Inserting { code: code@ },
            RegisterState::Mailing => RegisterStateView::Mailing,
            RegisterState::Done => RegisterStateView::Done,
        }
    }
}

impl RegisterStateView {
    /// The start of a registration that issues `code` at `now`: the code
    /// expires thirty minutes later.
    pub open spec fn issuing(code: Seq<char>, now: i64) -> RegisterStateView {
        RegisterStateView::Start { code, expires_at: expiry_after(now, CODE_TTL_SECONDS) }
    }
}

impl RegisterState {
    /// The start of a registration that issues `code` at `now`.
    pub fn issuing(code: String, now: i64) -> (state: RegisterState)
        ensures
            state@ == RegisterStateView::issuing(code@, now),
    {
        RegisterState::Start { code, expires_at: code_expiry(now) }
    }

    /// The start of a registration: draws a fresh code and reads the clock.
    pub fn begin() -> (state: RegisterState)
        ensures
            exists|code: Seq<char>, now: i64|
                is_verification_code(code) && state@ == #[trigger] RegisterStateView::issuing(
                    code,
                    now,
                ),
    {
        let code = generate_verification_code();
        RegisterState::issuing(code, unix_now())
    }
}

/// The refusal of a registration whose email already has an account.
pub open spec fn duplicate_account() -> ResponseView {
    ResponseView::rejected(Rejection::DuplicateAccount, "User with this email already exists"@)
}

/// The answer to a registration that went through.
pub open spec fn registered() -> ResponseView {
    ResponseView::message(
        STATUS_OK,
        "Registration successful. Please check your email for verification code."@,
    )
}

/// The answer to a registration whose code could not be mailed.
pub open spec fn mail_failed() -> ResponseView {
    ResponseView::rejected(Rejection::MailFailure, "Failed to send verification email"@)
}

/// `POST /auth/register`.
///
/// An email that already has an account is refused, whatever the username.
/// Otherwise an unverified account is written with the code and expiry the
/// registration started with, and the code is mailed. Where the mail cannot
/// be sent the registration fails, though the account stays written.
pub open spec fn register_spec(
    state: RegisterStateView,
    username: Seq<char>,
    email: Seq<char>,
    event: EventView,
) -> (RegisterStateView, ActionView) {
    match (state, event) {
        (RegisterStateView::Start { code, expires_at }, EventView::Begin) => (
            RegisterStateView::CheckingEmail { code, expires_at },
            ActionView::Query(StoreRequestView::FindUserByEmail { email }),
        ),
        (
            RegisterStateView::CheckingEmail { code, expires_at },
            EventView::Store(StoreReplyView::User(found)),
        ) => {
            if found is Some {
                (RegisterStateView::Done, ActionView::Reply(duplicate_account()))
            } else if expires_at is Some {
                (
                    RegisterStateView::Inserting { code },
                    ActionView::Query(
                        StoreRequestView::InsertUser {
                            username,
                            email,
                            verification_code: code,
                            expires_at: expires_at->0,
                        },
                    ),
                )
            } else {
                (RegisterStateView::Done, ActionView::Reply(internal_error()))
            }
        },
        (
            RegisterStateView::Inserting { code },
            EventView::Store(StoreReplyView::Written { rows_affected, last_insert_id }),
        ) => (RegisterStateView::Mailing, ActionView::SendMail(verification_mail_spec(email, code))),
        (RegisterStateView::Inserting { code }, _) => (
            RegisterStateView::Done,
            ActionView::Reply(
                ResponseView::rejected(Rejection::StoreFailure, "Failed to create user"@),
            ),
        ),
        (RegisterStateView::Mailing, EventView::MailSent) => (
            RegisterStateView::Done,
            ActionView::Reply(registered()),
        ),
        (RegisterStateView::Mailing, _) => (
            RegisterStateView::Done,
            ActionView::Reply(mail_failed()),
        ),
        _ => (RegisterStateView::Done, ActionView::Reply(internal_error())),
    }
}

fn register_done(response: Response) -> (r: (RegisterState, Action))
    ensures
        r.0@ == RegisterStateView::Done,
        r.1@ == ActionView::Reply(response@),
{
    (RegisterState::Done, Action::Reply(response))
}

/// `POST /auth/register`: one step of it.
pub fn register(state: RegisterState, request: &RegisterRequest, event: Event) -> (r: (
    RegisterState,
    Action,
))
    ensures
        (r.0@, r.1@) == register_spec(state@, request.username@, request.email@, event@),
{
    match (state, event) {
        (RegisterState::Start { code, expires_at }, Event::Begin) => (
            RegisterState::CheckingEmail { code, expires_at },
            Action::Query(StoreRequest::FindUserByEmail { email: request.email.clone() }),
        ),
        (
            RegisterState::CheckingEmail { code, expires_at },
            Event::Store(StoreReply::User(found)),
        ) => {
            if found.is_some() {
                register_done(
                    Response::rejected(
                        Rejection::DuplicateAccount,
                        "User with this email already exists",
                    ),
                )
            } else {
                match expires_at {
                    Some(expires_at) => (
                        RegisterState::Inserting { code: code.clone() },
                        Action::Query(
                            StoreRequest::InsertUser {
                                username: request.username.clone(),
                                email: request.email.clone(),
                                verification_code: code,
                                expires_at,
                            },
                        ),
                    ),
                    None => register_done(
                        Response::rejected(Rejection::StoreFailure, "Internal server error"),
                    ),
                }
            }
        },
        (
            RegisterState::Inserting { code },
            Event::Store(StoreReply::Written { rows_affected, last_insert_id }),
        ) => (
            RegisterState::Mailing,
            Action::SendMail(verification_mail(request.email.as_str(), code.as_str())),
        ),
        (RegisterState::Inserting { code }, _) => register_done(
            Response::rejected(Rejection::StoreFailure, "Failed to create user"),
        ),
        (RegisterState::Mailing, Event::MailSent) => register_done(
            Response::message(
                STATUS_OK,
                "Registration successful. Please check your email for verification code.",
            ),
        ),
        (RegisterState::Mailing, _) => register_done(
            Response::rejected(Rejection::MailFailure, "Failed to send verification email"),
        ),
        _ => register_done(Response::rejected(Rejection::StoreFailure, "Internal server error")),
    }
}

/// Where a login stands. `now` is the instant the login began, against
/// which the code's expiry is held and from which the token's is counted.
#[derive(Debug, Clone, PartialEq, Eq)]
pub enum LoginState {
    /// Nothing has happened yet.
    Start { now: i64 },
    /// The account is being looked up.
    FindingUser { now: i64 },
    /// The code matched; the account is being marked verified.
    Confirming { user: User, now: i64 },
    /// The client has been answered.
    Done,
}

/// The mathematical value of a [`LoginState`].
pub enum LoginStateView {
    Start { now: i64 },
    FindingUser { now: i64 },
    Confirming { user: UserView, now: i64 },
    Done,
}

impl View for LoginState {
    type V = LoginStateView;

    open spec fn view(&self) -> LoginStateView {
        match self {
            LoginState::Start { now } => LoginStateView::Start { now: *now },
            LoginState::FindingUser { now } => LoginStateView::FindingUser { now: *now },
            LoginState::Confirming { user, now } => LoginStateView::Confirming {
                user: user@,
                now: *now,
            },
            LoginState::Done => LoginStateView::Done,
        }
    }
}

impl LoginState {
    /// The start of a login at the instant `now`.
    pub fn at(now: i64) -> (state: LoginState)
        ensures
            state@ == (LoginStateView::Start { now }),
    {
        LoginState::Start { now }
    }

    /// The start of a login at the instant the clock shows.
    pub fn begin() -> (state: LoginState)
        ensures
            state@ is Start,
    {
        LoginState::at(unix_now())
    }
}

/// The one refusal of a login: unknown email, wrong code and expired code
/// are never told apart.
pub open spec fn invalid_credentials() -> ResponseView {
    ResponseView::rejected(Rejection::InvalidCredentials, "Invalid email or verification code"@)
}

/// The answer to a login whose token could not be minted, because its expiry
/// is negative or does not fit.
pub open spec fn token_failed() -> ResponseView {
    ResponseView::rejected(Rejection::TokenFailure, "Failed to create authentication token"@)
}

/// Whether the account that the store found for `email` lets `code` in at `now`.
pub open spec fn grants_login(
    found: Option<UserView>,
    email: Seq<char>,
    code: Seq<char>,
    now: i64,
) -> bool {
    found is Some && found->0.email == email && found->0.accepts_code(code, now)
}

/// `POST /auth/login`, with the signing `secret`.
///
/// The account is looked up by email. Unless it exists and its pending
/// code is `code`, with an expiry strictly after the instant the login
/// began, the login is refused as invalid credentials. Otherwise the
/// account is marked verified and its code cleared, and a token is minted
/// for it; the answer carries the token and the account, verified and
/// without its code. The token fails only where its expiry, a day after
/// the login began, is negative or does not fit.
pub open spec fn login_spec(
    state: LoginStateView,
    email: Seq<char>,
    code: Seq<char>,
    secret: Seq<char>,
    event: EventView,
) -> (LoginStateView, ActionView) {
    match (state, event) {
        (LoginStateView::Start { now }, EventView::Begin) => (
            LoginStateView::FindingUser { now },
            ActionView::Query(StoreRequestView::FindUserByEmail { email }),
        ),
        (LoginStateView::FindingUser { now }, EventView::Store(StoreReplyView::User(found))) => {
            if grants_login(found, email, code, now) {
                (
                    LoginStateView::Confirming { user: found->0, now },
                    ActionView::Query(StoreRequestView::ConfirmUser { id: found->0.id }),
                )
            } else {
                (LoginStateView::Done, ActionView::Reply(invalid_credentials()))
            }
        },
        (
            LoginStateView::Confirming { user, now },
            EventView::Store(StoreReplyView::Written { rows_affected, last_insert_id }),
        ) => {
            match minted_token(user.id, now, secret) {
                Some(token) => (
                    LoginStateView::Done,
                    ActionView::Reply(
                        ResponseView::ok(
                            BodyView::Auth(
                                AuthResponseView { token, user: user.confirmed().response() },
                            ),
                        ),
                    ),
                ),
                None => (LoginStateView::Done, ActionView::Reply(token_failed())),
            }
        },
        (LoginStateView::Confirming { user, now }, _) => (
            LoginStateView::Done,
            ActionView::Reply(
                ResponseView::rejected(Rejection::StoreFailure, "Failed to update user status"@),
            ),
        ),
        _ => (LoginStateView::Done, ActionView::Reply(internal_error())),
    }
}

fn login_done(response: Response) -> (r: (LoginState, Action))
    ensures
        r.0@ == LoginStateView::Done,
        r.1@ == ActionView::Reply(response@),
{
    (LoginState::Done, Action::Reply(response))
}

/// `POST /auth/login`: one step of it.
pub fn login(state: LoginState, request: &LoginRequest, config: &JwtConfig, event: Event) -> (r: (
    LoginState,
    Action,
))
    ensures
        (r.0@, r.1@) == login_spec(
            state@,
            request.email@,
            request.verification_code@,
            config.secret@,
            event@,
        ),
        r.1@.token_is_present(),
{
    match (state, event) {
        (LoginState::Start { now }, Event::Begin) => (
            LoginState::FindingUser { now },
            Action::Query(StoreRequest::FindUserByEmail { email: request.email.clone() }),
        ),
        (LoginState::FindingUser { now }, Event::Store(StoreReply::User(found))) => {
            match found {
                Some(user) => {
                    if same_text(&user.email, &request.email) && user.accepts_code(
                        &request.verification_code,
                        now,
                    ) {
                        let id = user.id;
                        (
                            LoginState::Confirming { user, now },
                            Action::Query(StoreRequest::ConfirmUser { id }),
                        )
                    } else {
                        login_done(
                            Response::rejected(
                                Rejection::InvalidCredentials,
                                "Invalid email or verification code",
                            ),
                        )
                    }
                },
                None => login_done(
                    Response::rejected(
                        Rejection::InvalidCredentials,
                        "Invalid email or verification code",
                    ),
                ),
            }
        },
        (
            LoginState::Confirming { user, now },
            Event::Store(StoreReply::Written { rows_affected, last_insert_id }),
        ) => {
            match mint_token(user.id, now, config) {
                Some(token) => login_done(
                    Response::ok(
                        Body::Auth(AuthResponse { token, user: user.confirm().into_response() }),
                    ),
                ),
                None => login_done(
                    Response::rejected(
                        Rejection::TokenFailure,
                        "Failed to create authentication token",
                    ),
                ),
            }
        },
        (LoginState::Confirming { user, now }, _) => login_done(
            Response::rejected(Rejection::StoreFailure, "Failed to update user status"),
        ),
        _ => login_done(Response::rejected(Rejection::StoreFailure, "Internal server error")),
    }
}

/// The answer for a caller whose account is gone.
pub open spec fn user_not_found() -> ResponseView {
    ResponseView::rejected(Rejection::NotFound, "User not found"@)
}

/// `GET /auth/me` by `caller`: the caller's account, without its code.
pub open spec fn me_spec(step: Step, caller: i64, event: EventView) -> (Step, ActionView) {
    match (step, event) {
        (Step::Start, EventView::Begin) => (
            Step::Looking,
            ActionView::Query(StoreRequestView::FindUserById { id: caller }),
        ),
        (Step::Looking, EventView::Store(StoreReplyView::User(found))) => {
            if found is Some && found->0.id == caller {
                (
                    Step::Done,
                    ActionView::Reply(ResponseView::ok(BodyView::User(found->0.response()))),
                )
            } else {
                (Step::Done, ActionView::Reply(user_not_found()))
            }
        },
        _ => (Step::Done, ActionView::Reply(internal_error())),
    }
}

/// `GET /auth/me` by `caller`: one step of it.
pub fn me(step: Step, caller: i64, event: Event) -> (r: (Step, Action))
    ensures
        (r.0, r.1@) == me_spec(step, caller, event@),
{
    match (step, event) {
        (Step::Start, Event::Begin) => (
            Step::Looking,
            Action::Query(StoreRequest::FindUserById { id: caller }),
        ),
        (Step::Looking, Event::Store(StoreReply::User(found))) => {
            match found {
                Some(user) => {
                    if user.id == caller {
                        (Step::Done, Action::Reply(Response::ok(Body::User(user.into_response()))))
                    } else {
                        (
                            Step::Done,
                            Action::Reply(Response::rejected(Rejection::NotFound, "User not found")),
                        )
                    }
                },
                None => (
                    Step::Done,
                    Action::Reply(Response::rejected(Rejection::NotFound, "User not found")),
                ),
            }
        },
        _ => (
            Step::Done,
            Action::Reply(Response::rejected(Rejection::StoreFailure, "Internal server error")),
        ),
    }
}

} // verus!
