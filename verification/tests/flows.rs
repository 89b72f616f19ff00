use content_backend::backend::Endpoint;
use content_backend::config::auth::JwtConfig;
use content_backend::handlers::app::{create_app, delete_app, get_app, list_apps, update_app, ListAppsState};
use content_backend::handlers::article::{
    create_article, delete_article, get_article, keep_readable, list_articles, update_article,
};
use content_backend::handlers::auth::{login, me, register, LoginState, RegisterState};
use content_backend::handlers::{health_check, Action, Body, Event, Rejection, Response, Step};
use content_backend::models::app::{App, AppQuery, CreateAppRequest, UpdateAppRequest};
use content_backend::models::article::{Article, CreateArticleRequest, UpdateArticleRequest};
use content_backend::models::{LoginRequest, RegisterRequest, User};
use content_backend::store::{AppFilter, StoreReply, StoreRequest};
use content_backend::utils::email::Mail;

fn reply(reason: Rejection, message: &str) -> Action {
    Action::Reply(Response::rejected(reason, message))
}

fn write_done() -> Event {
    Event::Store(StoreReply::Written { rows_affected: 1, last_insert_id: 12 })
}

fn failed() -> Event {
    Event::Store(StoreReply::Failed)
}

fn register_request() -> RegisterRequest {
    RegisterRequest { username: "alice".to_string(), email: "a@x.com".to_string() }
}

fn login_request() -> LoginRequest {
    LoginRequest { email: "a@x.com".to_string(), verification_code: "C1c1C1".to_string() }
}

fn signing() -> JwtConfig {
    JwtConfig { secret: "k1".to_string() }
}

fn alice() -> User {
    User {
        id: 1,
        username: "alice".to_string(),
        email: "a@x.com".to_string(),
        email_verified: 0,
        verification_code: Some("C1c1C1".to_string()),
        verification_code_expires_at: Some(2800),
        created_at: 1000,
        updated_at: 1000,
    }
}

fn article(id: i64, author_id: i64, status: i8) -> Article {
    Article {
        id,
        title: format!("t{}", id),
        content: "c".to_string(),
        author_id,
        status,
        created_at: 5,
        updated_at: 5,
    }
}

fn app(id: i64, identifier: &str) -> App {
    App {
        id,
        name: "A".to_string(),
        description: "d".to_string(),
        identifier: identifier.to_string(),
        creator_id: 7,
        created_at: 5,
        updater_id: 7,
        updated_at: 5,
    }
}

#[test]
fn health_check_answers_ok() {
    let response = health_check();
    assert_eq!(response.status, 200);
    assert_eq!(response.body, Body::Text("OK".to_string()));
}

#[test]
fn registration_starts_with_a_code_and_its_expiry() {
    assert_eq!(
        RegisterState::issuing("C1c1C1".to_string(), 1000),
        RegisterState::Start { code: "C1c1C1".to_string(), expires_at: Some(2800) }
    );
    assert_eq!(
        RegisterState::issuing("C1c1C1".to_string(), i64::MAX),
        RegisterState::Start { code: "C1c1C1".to_string(), expires_at: None }
    );
    match RegisterState::begin() {
        RegisterState::Start { code, expires_at } => {
            assert_eq!(code.len(), 6);
            assert!(code.chars().all(|c| c.is_ascii_alphanumeric()));
            assert!(expires_at.unwrap() > 1_700_000_000);
        }
        other => panic!("unexpected state {:?}", other),
    }
}

#[test]
fn registration_walks_lookup_insert_mail() {
    let request = register_request();
    let state = RegisterState::issuing("C1c1C1".to_string(), 1000);
    let (state, action) = register(state, &request, Event::Begin);
    assert_eq!(action, Action::Query(StoreRequest::FindUserByEmail { email: "a@x.com".to_string() }));
    let (state, action) = register(state, &request, Event::Store(StoreReply::User(None)));
    assert_eq!(
        action,
        Action::Query(StoreRequest::InsertUser {
            username: "alice".to_string(),
            email: "a@x.com".to_string(),
            verification_code: "C1c1C1".to_string(),
            expires_at: 2800,
        })
    );
    let (state, action) = register(state, &request, write_done());
    assert_eq!(
        action,
        Action::SendMail(Mail {
            to: "a@x.com".to_string(),
            subject: "Your Verification Code".to_string(),
            body: "Your verification code is: C1c1C1".to_string(),
        })
    );
    let (state, action) = register(state, &request, Event::MailSent);
    assert_eq!(state, RegisterState::Done);
    assert_eq!(
        action,
        Action::Reply(Response::message(
            200,
            "Registration successful. Please check your email for verification code."
        ))
    );
}

#[test]
fn registration_refuses_a_known_email() {
    let request = register_request();
    let state = RegisterState::CheckingEmail { code: "C1c1C1".to_string(), expires_at: Some(2800) };
    let (state, action) = register(state, &request, Event::Store(StoreReply::User(Some(alice()))));
    assert_eq!(state, RegisterState::Done);
    assert_eq!(action, reply(Rejection::DuplicateAccount, "User with this email already exists"));
}

#[test]
fn registration_fails_where_store_or_mail_fail() {
    let request = register_request();
    let checking = RegisterState::CheckingEmail { code: "C1c1C1".to_string(), expires_at: Some(2800) };
    let (_, action) = register(checking, &request, failed());
    assert_eq!(action, reply(Rejection::StoreFailure, "Internal server error"));
    let inserting = RegisterState::Inserting { code: "C1c1C1".to_string() };
    let (_, action) = register(inserting, &request, failed());
    assert_eq!(action, reply(Rejection::StoreFailure, "Failed to create user"));
    let (_, action) = register(RegisterState::Mailing, &request, Event::MailFailed);
    assert_eq!(action, reply(Rejection::MailFailure, "Failed to send verification email"));
    let unexpired = RegisterState::CheckingEmail { code: "C1c1C1".to_string(), expires_at: None };
    let (_, action) = register(unexpired, &request, Event::Store(StoreReply::User(None)));
    assert_eq!(action, reply(Rejection::StoreFailure, "Internal server error"));
}

#[test]
fn finished_endpoint_answers_nothing_more() {
    let (state, action) = register(RegisterState::Done, &register_request(), Event::Begin);
    assert_eq!(state, RegisterState::Done);
    assert_eq!(action, reply(Rejection::StoreFailure, "Internal server error"));
    let (step, action) = get_article(Step::Done, 1, 1, Event::Begin);
    assert_eq!(step, Step::Done);
    assert_eq!(action, reply(Rejection::StoreFailure, "Internal server error"));
    let (step, action) = get_article(Step::Start, 1, 1, Event::MailSent);
    assert_eq!(step, Step::Done);
    assert_eq!(action, reply(Rejection::StoreFailure, "Internal server error"));
}

#[test]
fn login_walks_lookup_confirm_token() {
    let request = login_request();
    let state = LoginState::at(2000);
    assert_eq!(state, LoginState::Start { now: 2000 });
    let (state, action) = login(state, &request, &signing(), Event::Begin);
    assert_eq!(action, Action::Query(StoreRequest::FindUserByEmail { email: "a@x.com".to_string() }));
    let (state, action) = login(state, &request, &signing(), Event::Store(StoreReply::User(Some(alice()))));
    assert_eq!(state, LoginState::Confirming { user: alice(), now: 2000 });
    assert_eq!(action, Action::Query(StoreRequest::ConfirmUser { id: 1 }));
    let (state, action) = login(state, &request, &signing(), write_done());
    assert_eq!(state, LoginState::Done);
    match action {
        Action::Reply(Response { status, body: Body::Auth(auth) }) => {
            assert_eq!(status, 200);
            assert_eq!(auth.token.split('.').count(), 3);
            assert!(auth.user.email_verified);
            assert_eq!(auth.user.id, 1);
        }
        other => panic!("unexpected action {:?}", other),
    }
}

#[test]
fn login_begins_at_the_clock() {
    match LoginState::begin() {
        LoginState::Start { now } => assert!(now > 1_700_000_000),
        other => panic!("unexpected state {:?}", other),
    }
}

#[test]
fn login_refuses_wrong_expired_and_foreign_rows() {
    let request = login_request();
    let refused = reply(Rejection::InvalidCredentials, "Invalid email or verification code");
    let (_, action) = login(LoginState::FindingUser { now: 2000 }, &request, &signing(), Event::Store(StoreReply::User(None)));
    assert_eq!(action, refused);
    let (_, action) = login(LoginState::FindingUser { now: 2800 }, &request, &signing(), Event::Store(StoreReply::User(Some(alice()))));
    assert_eq!(action, refused);
    let mut other_code = alice();
    other_code.verification_code = Some("zzzzzz".to_string());
    let (_, action) = login(LoginState::FindingUser { now: 2000 }, &request, &signing(), Event::Store(StoreReply::User(Some(other_code))));
    assert_eq!(action, refused);
    let mut other_email = alice();
    other_email.email = "b@x.com".to_string();
    let (_, action) = login(LoginState::FindingUser { now: 2000 }, &request, &signing(), Event::Store(StoreReply::User(Some(other_email))));
    assert_eq!(action, refused);
    let (_, action) = login(LoginState::FindingUser { now: 2000 }, &request, &signing(), Event::Store(StoreReply::User(Some(alice().confirm()))));
    assert_eq!(action, refused);
}

#[test]
fn login_fails_where_store_or_token_fail() {
    let request = login_request();
    let (_, action) = login(LoginState::FindingUser { now: 2000 }, &request, &signing(), failed());
    assert_eq!(action, reply(Rejection::StoreFailure, "Internal server error"));
    let confirming = LoginState::Confirming { user: alice(), now: 2000 };
    let (_, action) = login(confirming, &request, &signing(), failed());
    assert_eq!(action, reply(Rejection::StoreFailure, "Failed to update user status"));
    let confirming = LoginState::Confirming { user: alice(), now: i64::MAX };
    let (_, action) = login(confirming, &request, &signing(), write_done());
    assert_eq!(action, reply(Rejection::TokenFailure, "Failed to create authentication token"));
}

#[test]
fn me_steps() {
    let (step, action) = me(Step::Start, 1, Event::Begin);
    assert_eq!(step, Step::Looking);
    assert_eq!(action, Action::Query(StoreRequest::FindUserById { id: 1 }));
    let (_, action) = me(Step::Looking, 1, Event::Store(StoreReply::User(Some(alice()))));
    assert_eq!(action, Action::Reply(Response::ok(Body::User(alice().into_response()))));
    let (_, action) = me(Step::Looking, 2, Event::Store(StoreReply::User(Some(alice()))));
    assert_eq!(action, reply(Rejection::NotFound, "User not found"));
    let (_, action) = me(Step::Looking, 1, Event::Store(StoreReply::User(None)));
    assert_eq!(action, reply(Rejection::NotFound, "User not found"));
    let (_, action) = me(Step::Looking, 1, failed());
    assert_eq!(action, reply(Rejection::StoreFailure, "Internal server error"));
}

#[test]
fn create_article_steps() {
    let request = CreateArticleRequest { title: "T".to_string(), content: "C".to_string(), status: None };
    let (step, action) = create_article(Step::Start, 7, &request, Event::Begin);
    assert_eq!(step, Step::Writing);
    assert_eq!(
        action,
        Action::Query(StoreRequest::InsertArticle {
            title: "T".to_string(),
            content: "C".to_string(),
            author_id: 7,
            status: 1,
        })
    );
    let (step, action) = create_article(Step::Writing, 7, &request, write_done());
    assert_eq!(step, Step::Fetching);
    assert_eq!(action, Action::Query(StoreRequest::FindArticle { id: 12 }));
    let (_, action) = create_article(Step::Fetching, 7, &request, Event::Store(StoreReply::Article(Some(article(12, 7, 1)))));
    assert_eq!(action, Action::Reply(Response::ok(Body::Article(article(12, 7, 1)))));
    let (_, action) = create_article(Step::Writing, 7, &request, failed());
    assert_eq!(action, reply(Rejection::StoreFailure, "Failed to create article"));
    let (_, action) = create_article(Step::Fetching, 7, &request, Event::Store(StoreReply::Article(None)));
    assert_eq!(action, reply(Rejection::StoreFailure, "Article created but failed to fetch it"));
    let huge = Event::Store(StoreReply::Written { rows_affected: 1, last_insert_id: u64::MAX });
    let (_, action) = create_article(Step::Writing, 7, &request, huge);
    assert_eq!(action, reply(Rejection::StoreFailure, "Article created but failed to fetch it"));
}

#[test]
fn get_article_applies_the_visibility_rule_to_what_the_store_returns() {
    let (step, action) = get_article(Step::Start, 8, 3, Event::Begin);
    assert_eq!(step, Step::Looking);
    assert_eq!(action, Action::Query(StoreRequest::FindArticle { id: 3 }));
    let not_found = reply(Rejection::NotFound, "Article not found");
    let (_, action) = get_article(Step::Looking, 8, 3, Event::Store(StoreReply::Article(Some(article(3, 7, 1)))));
    assert_eq!(action, not_found);
    let (_, action) = get_article(Step::Looking, 7, 3, Event::Store(StoreReply::Article(Some(article(3, 7, 1)))));
    assert_eq!(action, Action::Reply(Response::ok(Body::Article(article(3, 7, 1)))));
    let (_, action) = get_article(Step::Looking, 8, 3, Event::Store(StoreReply::Article(Some(article(3, 7, 2)))));
    assert_eq!(action, Action::Reply(Response::ok(Body::Article(article(3, 7, 2)))));
    let (_, action) = get_article(Step::Looking, 8, 3, Event::Store(StoreReply::Article(Some(article(4, 7, 2)))));
    assert_eq!(action, not_found);
    let (_, action) = get_article(Step::Looking, 8, 3, Event::Store(StoreReply::Article(None)));
    assert_eq!(action, not_found);
    let (_, action) = get_article(Step::Looking, 8, 3, failed());
    assert_eq!(action, reply(Rejection::StoreFailure, "Internal server error"));
}

#[test]
fn listing_drops_rows_the_caller_may_not_read() {
    let rows = vec![article(1, 7, 1), article(2, 8, 2), article(3, 8, 1), article(4, 7, 2)];
    assert_eq!(keep_readable(rows.clone(), 7), vec![article(1, 7, 1), article(2, 8, 2), article(4, 7, 2)]);
    assert_eq!(keep_readable(rows.clone(), 8), vec![article(2, 8, 2), article(3, 8, 1), article(4, 7, 2)]);
    assert_eq!(keep_readable(rows.clone(), 9), vec![article(2, 8, 2), article(4, 7, 2)]);
    assert_eq!(keep_readable(vec![], 9), vec![]);
    let (step, action) = list_articles(Step::Start, 9, Event::Begin);
    assert_eq!(step, Step::Looking);
    assert_eq!(action, Action::Query(StoreRequest::ListArticles { viewer: 9 }));
    let (_, action) = list_articles(Step::Looking, 9, Event::Store(StoreReply::Articles(rows)));
    assert_eq!(
        action,
        Action::Reply(Response::ok(Body::Articles(vec![article(2, 8, 2), article(4, 7, 2)])))
    );
    let (_, action) = list_articles(Step::Looking, 9, failed());
    assert_eq!(action, reply(Rejection::StoreFailure, "Internal server error"));
}

#[test]
fn update_article_checks_owner_then_fields() {
    let patch = UpdateArticleRequest { title: Some("n".to_string()), content: None, status: None };
    let empty = UpdateArticleRequest { title: None, content: None, status: None };
    let refused = reply(
        Rejection::NotFoundOrForbidden,
        "Article not found or you don't have permission to update it",
    );
    let found = || Event::Store(StoreReply::Article(Some(article(3, 7, 1))));
    let (step, action) = update_article(Step::Start, 7, 3, &patch, Event::Begin);
    assert_eq!(step, Step::Looking);
    assert_eq!(action, Action::Query(StoreRequest::FindArticle { id: 3 }));
    let (_, action) = update_article(Step::Looking, 8, 3, &patch, found());
    assert_eq!(action, refused);
    let (_, action) = update_article(Step::Looking, 8, 3, &empty, found());
    assert_eq!(action, refused);
    let (_, action) = update_article(Step::Looking, 7, 3, &patch, Event::Store(StoreReply::Article(None)));
    assert_eq!(action, refused);
    let (step, action) = update_article(Step::Looking, 7, 3, &empty, found());
    assert_eq!(step, Step::Done);
    assert_eq!(action, reply(Rejection::NoFieldsToUpdate, "No fields to update"));
    let (step, action) = update_article(Step::Looking, 7, 3, &patch, found());
    assert_eq!(step, Step::Writing);
    assert_eq!(
        action,
        Action::Query(StoreRequest::UpdateArticle { id: 3, author_id: 7, patch: patch.clone() })
    );
    let (step, action) = update_article(Step::Writing, 7, 3, &patch, write_done());
    assert_eq!(step, Step::Fetching);
    assert_eq!(action, Action::Query(StoreRequest::FindArticle { id: 3 }));
    let (_, action) = update_article(Step::Fetching, 7, 3, &patch, found());
    assert_eq!(action, Action::Reply(Response::ok(Body::Article(article(3, 7, 1)))));
}

#[test]
fn update_article_fails_where_the_store_fails() {
    let patch = UpdateArticleRequest { title: Some("n".to_string()), content: None, status: None };
    let (_, action) = update_article(Step::Looking, 7, 3, &patch, failed());
    assert_eq!(action, reply(Rejection::StoreFailure, "Internal server error"));
    let (_, action) = update_article(Step::Writing, 7, 3, &patch, failed());
    assert_eq!(action, reply(Rejection::StoreFailure, "Failed to update article"));
    let (_, action) = update_article(Step::Fetching, 7, 3, &patch, failed());
    assert_eq!(action, reply(Rejection::StoreFailure, "Article updated but failed to fetch it"));
    let (_, action) = update_article(Step::Fetching, 7, 3, &patch, Event::Store(StoreReply::Article(Some(article(3, 8, 1)))));
    assert_eq!(action, reply(Rejection::StoreFailure, "Article updated but failed to fetch it"));
}

#[test]
fn update_article_refuses_a_status_that_is_neither_draft_nor_published() {
    let refused = reply(Rejection::InvalidStatus, "Invalid status");
    for status in [0i8, 3, 5, -1, i8::MAX, i8::MIN] {
        let patch = UpdateArticleRequest { title: Some("n".to_string()), content: None, status: Some(status) };
        let (step, action) = update_article(Step::Start, 7, 3, &patch, Event::Begin);
        assert_eq!(step, Step::Done);
        assert_eq!(action, refused);
        let found = Event::Store(StoreReply::Article(Some(article(3, 7, 1))));
        let (step, action) = update_article(Step::Looking, 7, 3, &patch, found);
        assert_eq!(step, Step::Done);
        assert_eq!(action, refused);
    }
    for status in [1i8, 2] {
        let patch = UpdateArticleRequest { title: None, content: None, status: Some(status) };
        let (step, action) = update_article(Step::Start, 7, 3, &patch, Event::Begin);
        assert_eq!(step, Step::Looking);
        assert_eq!(action, Action::Query(StoreRequest::FindArticle { id: 3 }));
    }
}

#[test]
fn create_article_refuses_a_status_that_is_neither_draft_nor_published() {
    for status in [0i8, 3, 5, -2] {
        let request = CreateArticleRequest {
            title: "T".to_string(),
            content: "C".to_string(),
            status: Some(status),
        };
        let (step, action) = create_article(Step::Start, 7, &request, Event::Begin);
        assert_eq!(step, Step::Done);
        assert_eq!(action, reply(Rejection::InvalidStatus, "Invalid status"));
    }
    let request = CreateArticleRequest { title: "T".to_string(), content: "C".to_string(), status: Some(2) };
    let (step, action) = create_article(Step::Start, 7, &request, Event::Begin);
    assert_eq!(step, Step::Writing);
    assert_eq!(
        action,
        Action::Query(StoreRequest::InsertArticle {
            title: "T".to_string(),
            content: "C".to_string(),
            author_id: 7,
            status: 2,
        })
    );
}

#[test]
fn update_app_refuses_a_patch_without_fields() {
    let empty = UpdateAppRequest { name: None, description: None };
    let (step, action) = update_app(Step::Start, 9, 4, &empty, Event::Begin);
    assert_eq!(step, Step::Done);
    assert_eq!(action, reply(Rejection::NoFieldsToUpdate, "没有要更新的字段"));
    let description = UpdateAppRequest { name: None, description: Some("".to_string()) };
    let (step, action) = update_app(Step::Start, 9, 4, &description, Event::Begin);
    assert_eq!(step, Step::Writing);
    assert_eq!(
        action,
        Action::Query(StoreRequest::UpdateApp { id: 4, updater_id: 9, patch: description })
    );
}

#[test]
fn delete_article_steps() {
    let (step, action) = delete_article(Step::Start, 7, 3, Event::Begin);
    assert_eq!(step, Step::Writing);
    assert_eq!(action, Action::Query(StoreRequest::DeleteArticle { id: 3, author_id: 7 }));
    let (_, action) = delete_article(Step::Writing, 7, 3, write_done());
    assert_eq!(action, Action::Reply(Response::message(200, "Article deleted successfully")));
    let none = Event::Store(StoreReply::Written { rows_affected: 0, last_insert_id: 0 });
    let (_, action) = delete_article(Step::Writing, 7, 3, none);
    assert_eq!(
        action,
        reply(
            Rejection::NotFoundOrForbidden,
            "Article not found or you don't have permission to delete it"
        )
    );
    let (_, action) = delete_article(Step::Writing, 7, 3, failed());
    assert_eq!(action, reply(Rejection::StoreFailure, "Failed to delete article"));
}

#[test]
fn create_app_steps() {
    let request = CreateAppRequest { name: "A".to_string(), description: "d".to_string(), identifier: "a1".to_string() };
    let (step, action) = create_app(Step::Start, 7, &request, Event::Begin);
    assert_eq!(step, Step::Looking);
    assert_eq!(action, Action::Query(StoreRequest::FindAppByIdentifier { identifier: "a1".to_string() }));
    let (_, action) = create_app(Step::Looking, 7, &request, Event::Store(StoreReply::App(Some(app(1, "a1")))));
    assert_eq!(action, reply(Rejection::DuplicateIdentifier, "应用标识已存在"));
    let (step, action) = create_app(Step::Looking, 7, &request, Event::Store(StoreReply::App(None)));
    assert_eq!(step, Step::Writing);
    assert_eq!(
        action,
        Action::Query(StoreRequest::InsertApp {
            name: "A".to_string(),
            description: "d".to_string(),
            identifier: "a1".to_string(),
            creator_id: 7,
        })
    );
    let (_, action) = create_app(Step::Writing, 7, &request, write_done());
    assert_eq!(action, Action::Reply(Response::message(201, "应用创建成功")));
    let (_, action) = create_app(Step::Looking, 7, &request, failed());
    assert_eq!(action, reply(Rejection::StoreFailure, "检查应用标识失败"));
    let (_, action) = create_app(Step::Writing, 7, &request, failed());
    assert_eq!(action, reply(Rejection::StoreFailure, "创建应用失败"));
}

#[test]
fn update_delete_and_get_app_steps() {
    let patch = UpdateAppRequest { name: Some("B".to_string()), description: None };
    let (step, action) = update_app(Step::Start, 9, 4, &patch, Event::Begin);
    assert_eq!(step, Step::Writing);
    assert_eq!(action, Action::Query(StoreRequest::UpdateApp { id: 4, updater_id: 9, patch: patch.clone() }));
    let (_, action) = update_app(Step::Writing, 9, 4, &patch, write_done());
    assert_eq!(action, Action::Reply(Response::message(200, "应用更新成功")));
    let (_, action) = update_app(Step::Writing, 9, 4, &patch, failed());
    assert_eq!(action, reply(Rejection::StoreFailure, "更新应用失败"));

    let (_, action) = delete_app(Step::Start, 4, Event::Begin);
    assert_eq!(action, Action::Query(StoreRequest::DeleteApp { id: 4 }));
    let (_, action) = delete_app(Step::Writing, 4, write_done());
    assert_eq!(action, Action::Reply(Response::message(200, "应用删除成功")));
    let (_, action) = delete_app(Step::Writing, 4, failed());
    assert_eq!(action, reply(Rejection::StoreFailure, "删除应用失败"));

    let (_, action) = get_app(Step::Start, 4, Event::Begin);
    assert_eq!(action, Action::Query(StoreRequest::FindApp { id: 4 }));
    let (_, action) = get_app(Step::Looking, 4, Event::Store(StoreReply::App(Some(app(4, "a4")))));
    assert_eq!(action, Action::Reply(Response::ok(Body::App(app(4, "a4").into_response()))));
    let (_, action) = get_app(Step::Looking, 4, Event::Store(StoreReply::App(None)));
    assert_eq!(action, reply(Rejection::NotFound, "应用不存在"));
    let (_, action) = get_app(Step::Looking, 4, failed());
    assert_eq!(action, reply(Rejection::StoreFailure, "获取应用失败"));
}

#[test]
fn list_apps_steps() {
    let query = AppQuery {
        keyword: Some("blog".to_string()),
        identifier: None,
        creator_id: Some(7),
        page: Some(3),
        page_size: Some(25),
    };
    let filter = AppFilter { keyword: Some("blog".to_string()), identifier: None, creator_id: Some(7) };
    assert_eq!(query.filter(), filter);
    let (state, action) = list_apps(ListAppsState::Start, &query, Event::Begin);
    assert_eq!(state, ListAppsState::Listing);
    assert_eq!(action, Action::Query(StoreRequest::ListApps { filter: filter.clone(), limit: 25, offset: 50 }));
    let rows = vec![app(2, "b"), app(1, "a")];
    let (state, action) = list_apps(state, &query, Event::Store(StoreReply::Apps(rows.clone())));
    assert_eq!(state, ListAppsState::Counting { apps: rows });
    assert_eq!(action, Action::Query(StoreRequest::CountApps { filter }));
    let (state, action) = list_apps(state, &query, Event::Store(StoreReply::Count(52)));
    assert_eq!(state, ListAppsState::Done);
    match action {
        Action::Reply(Response { status, body: Body::Apps(list) }) => {
            assert_eq!(status, 200);
            assert_eq!(list.total, 52);
            assert_eq!(list.page, 3);
            assert_eq!(list.page_size, 25);
            assert_eq!(list.apps, vec![app(2, "b").into_response(), app(1, "a").into_response()]);
        }
        other => panic!("unexpected action {:?}", other),
    }
    let (_, action) = list_apps(ListAppsState::Listing, &query, failed());
    assert_eq!(action, reply(Rejection::StoreFailure, "获取应用列表失败"));
    let (_, action) = list_apps(ListAppsState::Counting { apps: vec![] }, &query, failed());
    assert_eq!(action, reply(Rejection::StoreFailure, "获取应用总数失败"));
}

#[test]
fn endpoint_steps_like_its_handler() {
    let endpoint = Endpoint::GetArticle { step: Step::Start, caller: 8, id: 3 };
    let (endpoint, action) = endpoint.step(Event::Begin);
    assert_eq!(endpoint, Endpoint::GetArticle { step: Step::Looking, caller: 8, id: 3 });
    assert_eq!(action, Action::Query(StoreRequest::FindArticle { id: 3 }));
    let (endpoint, action) = endpoint.step(Event::Store(StoreReply::Article(Some(article(3, 7, 1)))));
    assert_eq!(endpoint, Endpoint::GetArticle { step: Step::Done, caller: 8, id: 3 });
    assert_eq!(action, reply(Rejection::NotFound, "Article not found"));
}
