use content_backend::api::ApiResult;
use content_backend::config::auth::JwtConfig;
use content_backend::config::Config;
use content_backend::handlers::Rejection;
use content_backend::middleware::Auth;
use content_backend::models::app::{App, AppQuery, UpdateAppRequest};
use content_backend::models::article::{
    valid_status, Article, CreateArticleRequest, UpdateArticleRequest, STATUS_DRAFT,
    STATUS_PUBLISHED,
};
use content_backend::models::{User, UserResponse};
use content_backend::utils::email::verification_mail;
use content_backend::utils::AppError;

fn pending_user() -> User {
    User {
        id: 7,
        username: "alice".to_string(),
        email: "a@x.com".to_string(),
        email_verified: 0,
        verification_code: Some("Ab3dE9".to_string()),
        verification_code_expires_at: Some(2800),
        created_at: 1000,
        updated_at: 1000,
    }
}

fn draft() -> Article {
    Article {
        id: 3,
        title: "T".to_string(),
        content: "C".to_string(),
        author_id: 7,
        status: STATUS_DRAFT,
        created_at: 10,
        updated_at: 10,
    }
}

#[test]
fn code_is_accepted_before_its_expiry() {
    let user = pending_user();
    assert!(user.accepts_code(&"Ab3dE9".to_string(), 1000));
    assert!(user.accepts_code(&"Ab3dE9".to_string(), 2799));
}

#[test]
fn code_is_refused_at_and_after_its_expiry() {
    let user = pending_user();
    assert!(!user.accepts_code(&"Ab3dE9".to_string(), 2800));
    assert!(!user.accepts_code(&"Ab3dE9".to_string(), 2801));
    assert!(!user.accepts_code(&"Ab3dE9".to_string(), i64::MAX));
}

#[test]
fn code_match_is_exact_and_case_sensitive() {
    let user = pending_user();
    assert!(!user.accepts_code(&"ab3de9".to_string(), 1000));
    assert!(!user.accepts_code(&"Ab3dE".to_string(), 1000));
    assert!(!user.accepts_code(&"Ab3dE9 ".to_string(), 1000));
    assert!(!user.accepts_code(&"".to_string(), 1000));
}

#[test]
fn account_without_code_accepts_nothing() {
    let user = pending_user().confirm();
    assert!(!user.accepts_code(&"Ab3dE9".to_string(), 1000));
    assert!(!user.accepts_code(&"".to_string(), 1000));
}

#[test]
fn confirm_verifies_and_clears_the_code() {
    let user = pending_user().confirm();
    assert_eq!(user.email_verified, 1);
    assert_eq!(user.verification_code, None);
    assert_eq!(user.verification_code_expires_at, None);
    assert_eq!(user.id, 7);
    assert_eq!(user.username, "alice");
    assert_eq!(user.email, "a@x.com");
    assert_eq!(user.created_at, 1000);
    assert_eq!(user.clone().confirm(), user);
}

#[test]
fn response_never_carries_the_code() {
    let response = pending_user().into_response();
    assert_eq!(
        response,
        UserResponse {
            id: 7,
            username: "alice".to_string(),
            email: "a@x.com".to_string(),
            email_verified: false,
            created_at: 1000,
            updated_at: 1000,
        }
    );
    assert!(pending_user().confirm().into_response().email_verified);
}

#[test]
fn duplicate_equals_what_it_copies() {
    assert_eq!(pending_user().duplicate(), pending_user());
    assert_eq!(draft().duplicate(), draft());
}

#[test]
fn draft_is_visible_to_its_author_only() {
    let article = draft();
    assert!(article.visible_to(7));
    assert!(!article.visible_to(8));
    assert!(!article.visible_to(0));
    assert!(article.owned_by(7));
    assert!(!article.owned_by(8));
}

#[test]
fn published_article_is_visible_to_anyone() {
    let mut article = draft();
    article.status = STATUS_PUBLISHED;
    assert!(article.visible_to(7));
    assert!(article.visible_to(8));
    assert!(!article.owned_by(8));
}

#[test]
fn unknown_status_is_treated_as_not_published() {
    let mut article = draft();
    article.status = 5;
    assert!(article.visible_to(7));
    assert!(!article.visible_to(8));
}

#[test]
fn patch_rewrites_only_supplied_fields() {
    let patch = UpdateArticleRequest { title: Some("New".to_string()), content: None, status: None };
    let patched = draft().patched(&patch, 99);
    assert_eq!(patched.title, "New");
    assert_eq!(patched.content, "C");
    assert_eq!(patched.status, STATUS_DRAFT);
    assert_eq!(patched.author_id, 7);
    assert_eq!(patched.id, 3);
    assert_eq!(patched.created_at, 10);
    assert_eq!(patched.updated_at, 99);

    let publish = UpdateArticleRequest { title: None, content: None, status: Some(STATUS_PUBLISHED) };
    let published = draft().patched(&publish, 100);
    assert_eq!(published.title, "T");
    assert_eq!(published.status, STATUS_PUBLISHED);
}

#[test]
fn empty_patch_is_recognised() {
    assert!(UpdateArticleRequest { title: None, content: None, status: None }.is_empty());
    assert!(!UpdateArticleRequest { title: Some("".to_string()), content: None, status: None }.is_empty());
    assert!(!UpdateArticleRequest { title: None, content: Some("c".to_string()), status: None }.is_empty());
    assert!(!UpdateArticleRequest { title: None, content: None, status: Some(1) }.is_empty());
}

#[test]
fn only_draft_and_published_are_statuses() {
    assert_eq!(STATUS_DRAFT, 1);
    assert_eq!(STATUS_PUBLISHED, 2);
    assert!(valid_status(1));
    assert!(valid_status(2));
    for status in [0i8, 3, 4, 5, -1, -2, i8::MAX, i8::MIN] {
        assert!(!valid_status(status));
    }
    assert!(UpdateArticleRequest { title: None, content: None, status: None }.status_is_valid());
    assert!(UpdateArticleRequest { title: None, content: None, status: Some(1) }.status_is_valid());
    assert!(UpdateArticleRequest { title: None, content: None, status: Some(2) }.status_is_valid());
    assert!(!UpdateArticleRequest { title: None, content: None, status: Some(5) }.status_is_valid());
    assert!(!UpdateArticleRequest { title: Some("t".to_string()), content: None, status: Some(0) }
        .status_is_valid());
}

#[test]
fn empty_app_patch_is_recognised() {
    assert!(UpdateAppRequest { name: None, description: None }.is_empty());
    assert!(!UpdateAppRequest { name: Some("".to_string()), description: None }.is_empty());
    assert!(!UpdateAppRequest { name: None, description: Some("d".to_string()) }.is_empty());
}

#[test]
fn new_article_defaults_to_draft() {
    let request = CreateArticleRequest { title: "t".to_string(), content: "c".to_string(), status: None };
    assert_eq!(request.effective_status(), STATUS_DRAFT);
    assert_eq!(STATUS_DRAFT, 1);
    let request = CreateArticleRequest { title: "t".to_string(), content: "c".to_string(), status: Some(2) };
    assert_eq!(request.effective_status(), 2);
}

fn query(page: Option<i64>, page_size: Option<i64>) -> AppQuery {
    AppQuery { keyword: None, identifier: None, creator_id: None, page, page_size }
}

#[test]
fn page_defaults_to_first_of_ten() {
    let q = query(None, None);
    assert_eq!(q.page(), 1);
    assert_eq!(q.page_size(), 10);
    assert_eq!(q.offset(), Some(0));
}

#[test]
fn offset_is_pages_before_times_page_size() {
    assert_eq!(query(Some(1), Some(10)).offset(), Some(0));
    assert_eq!(query(Some(2), Some(10)).offset(), Some(10));
    assert_eq!(query(Some(3), Some(25)).offset(), Some(50));
    assert_eq!(query(Some(5), None).offset(), Some(40));
    assert_eq!(query(Some(0), Some(10)).offset(), Some(-10));
    assert_eq!(query(Some(-1), Some(3)).offset(), Some(-6));
    assert_eq!(query(Some(7), Some(0)).offset(), Some(0));
}

#[test]
fn offset_that_does_not_fit_is_none() {
    assert_eq!(query(Some(i64::MAX), Some(2)).offset(), None);
    assert_eq!(query(Some(i64::MIN), Some(1)).offset(), None);
    assert_eq!(query(Some(i64::MIN), Some(0)).offset(), Some(0));
    assert_eq!(query(Some(3), Some(i64::MAX)).offset(), None);
    assert_eq!(query(Some(2), Some(i64::MAX)).offset(), Some(i64::MAX));
    assert_eq!(query(Some(0), Some(i64::MIN)).offset(), None);
}

#[test]
fn app_patch_records_the_updater() {
    let app = App {
        id: 1,
        name: "A".to_string(),
        description: "d".to_string(),
        identifier: "a1".to_string(),
        creator_id: 7,
        created_at: 5,
        updater_id: 7,
        updated_at: 5,
    };
    let patch = UpdateAppRequest { name: None, description: Some("e".to_string()) };
    let patched = app.patched(&patch, 9, 50);
    assert_eq!(patched.name, "A");
    assert_eq!(patched.description, "e");
    assert_eq!(patched.identifier, "a1");
    assert_eq!(patched.creator_id, 7);
    assert_eq!(patched.updater_id, 9);
    assert_eq!(patched.created_at, 5);
    assert_eq!(patched.updated_at, 50);
    let response = patched.into_response();
    assert_eq!(response.updater_id, 9);
    assert_eq!(response.description, "e");
}

#[test]
fn envelope_of_success_and_error() {
    let ok = ApiResult::success("ok");
    assert_eq!(ok.code, 0);
    assert_eq!(ok.msg, None);
    assert_eq!(ok.data, Some("ok"));
    let err: ApiResult<i32> = ApiResult::error("boom".to_string());
    assert_eq!(err.code, 1);
    assert_eq!(err.msg, Some("boom".to_string()));
    assert_eq!(err.data, None);
}

#[test]
fn config_needs_the_store_and_defaults_the_rest() {
    assert_eq!(Config::from_values(None, Some("h".to_string()), Some("1".to_string())), None);
    let config = Config::from_values(Some("mysql://db".to_string()), None, None).unwrap();
    assert_eq!(config.database_url, "mysql://db");
    assert_eq!(config.server_host, "127.0.0.1");
    assert_eq!(config.server_port, "8080");
    let config = Config::from_values(
        Some("mysql://db".to_string()),
        Some("0.0.0.0".to_string()),
        Some("9000".to_string()),
    )
    .unwrap();
    assert_eq!(config.server_host, "0.0.0.0");
    assert_eq!(config.server_port, "9000");
}

#[test]
fn signing_secret_has_a_development_default() {
    assert_eq!(JwtConfig::from_secret(Some("s3".to_string())).secret, "s3");
    assert_eq!(
        JwtConfig::from_secret(None).secret,
        "your-super-secret-and-ultra-long-secret-key"
    );
}

#[test]
fn errors_map_to_their_status() {
    assert_eq!(AppError::DatabaseError("x".to_string()).status(), 500);
    assert_eq!(AppError::ValidationError("x".to_string()).status(), 400);
    assert_eq!(AppError::NotFound("x".to_string()).status(), 404);
    assert_eq!(AppError::Unauthorized("x".to_string()).status(), 401);
}

#[test]
fn store_errors_never_show_their_text() {
    let response = AppError::DatabaseError("table users is on fire".to_string()).error_response();
    assert_eq!(response.status, 500);
    assert_eq!(response.error, "Internal server error");
    let response = AppError::ValidationError("bad email".to_string()).error_response();
    assert_eq!(response.status, 400);
    assert_eq!(response.error, "bad email");
    let response = AppError::NotFound("no such thing".to_string()).error_response();
    assert_eq!(response.status, 404);
    assert_eq!(response.error, "no such thing");
    let response = AppError::Unauthorized("who".to_string()).error_response();
    assert_eq!(response.status, 401);
    assert_eq!(response.error, "who");
}

#[test]
fn error_messages_name_their_kind() {
    assert_eq!(AppError::DatabaseError("x".to_string()).message(), "Database error: x");
    assert_eq!(AppError::ValidationError("x".to_string()).message(), "Validation error: x");
    assert_eq!(AppError::NotFound("x".to_string()).message(), "Not found: x");
    assert_eq!(AppError::Unauthorized("x".to_string()).message(), "Unauthorized: x");
}

#[test]
fn rejections_map_to_their_status() {
    assert_eq!(Rejection::DuplicateAccount.status(), 400);
    assert_eq!(Rejection::InvalidCredentials.status(), 400);
    assert_eq!(Rejection::NoFieldsToUpdate.status(), 400);
    assert_eq!(Rejection::InvalidStatus.status(), 400);
    assert_eq!(Rejection::DuplicateIdentifier.status(), 400);
    assert_eq!(Rejection::InvalidPage.status(), 400);
    assert_eq!(Rejection::NotFound.status(), 404);
    assert_eq!(Rejection::NotFoundOrForbidden.status(), 404);
    assert_eq!(Rejection::StoreFailure.status(), 500);
    assert_eq!(Rejection::MailFailure.status(), 500);
    assert_eq!(Rejection::TokenFailure.status(), 500);
}

#[test]
fn rejections_amount_to_errors_of_the_same_status() {
    let all = [
        Rejection::DuplicateAccount,
        Rejection::InvalidCredentials,
        Rejection::NoFieldsToUpdate,
        Rejection::InvalidStatus,
        Rejection::DuplicateIdentifier,
        Rejection::InvalidPage,
        Rejection::NotFound,
        Rejection::NotFoundOrForbidden,
        Rejection::StoreFailure,
        Rejection::MailFailure,
        Rejection::TokenFailure,
    ];
    for reason in all {
        assert_eq!(reason.into_error("m".to_string()).status(), reason.status());
    }
    assert_eq!(
        Rejection::DuplicateAccount.into_error("taken".to_string()),
        AppError::ValidationError("taken".to_string())
    );
    assert_eq!(
        Rejection::NotFoundOrForbidden.into_error("gone".to_string()),
        AppError::NotFound("gone".to_string())
    );
    assert_eq!(
        Rejection::MailFailure.into_error("smtp".to_string()).error_response().error,
        "Internal server error"
    );
}

#[test]
fn verification_mail_carries_the_code() {
    let mail = verification_mail("a@x.com", "Ab3dE9");
    assert_eq!(mail.to, "a@x.com");
    assert_eq!(mail.subject, "Your Verification Code");
    assert_eq!(mail.body, "Your verification code is: Ab3dE9");
}

#[test]
fn middleware_hands_the_service_through() {
    let auth = Auth::new();
    assert_eq!(auth, Auth);
    let wrapped = auth.new_transform(41u8);
    assert_eq!(wrapped.service, 41);
    assert_eq!(wrapped.into_inner(), 41);
}
