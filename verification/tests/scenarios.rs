use content_backend::backend::{Backend, Endpoint};
use content_backend::config::auth::{mint_token, JwtConfig};
use content_backend::handlers::app::ListAppsState;
use content_backend::handlers::auth::{LoginState, RegisterState};
use content_backend::handlers::{Body, Rejection, Response, Step};
use content_backend::models::app::{AppQuery, CreateAppRequest, UpdateAppRequest};
use content_backend::models::article::{Article, CreateArticleRequest, UpdateArticleRequest};
use content_backend::models::{LoginRequest, RegisterRequest, UserResponse};
use content_backend::utils::email::Mail;

const T: i64 = 1_700_000_000;

fn config() -> JwtConfig {
    JwtConfig { secret: "k1".to_string() }
}

fn register(backend: &mut Backend, username: &str, email: &str, code: &str, now: i64, mail_works: bool) -> Response {
    let endpoint = Endpoint::Register {
        state: RegisterState::issuing(code.to_string(), now),
        request: RegisterRequest { username: username.to_string(), email: email.to_string() },
    };
    backend.serve(endpoint, now, mail_works)
}

fn login(backend: &mut Backend, email: &str, code: &str, now: i64) -> Response {
    let endpoint = Endpoint::Login {
        state: LoginState::at(now),
        request: LoginRequest { email: email.to_string(), verification_code: code.to_string() },
        config: config(),
    };
    backend.serve(endpoint, now, true)
}

fn create_article(backend: &mut Backend, caller: i64, title: &str, status: Option<i8>, now: i64) -> Response {
    let endpoint = Endpoint::CreateArticle {
        step: Step::Start,
        caller,
        request: CreateArticleRequest { title: title.to_string(), content: "body".to_string(), status },
    };
    backend.serve(endpoint, now, true)
}

fn get_article(backend: &mut Backend, caller: i64, id: i64) -> Response {
    backend.serve(Endpoint::GetArticle { step: Step::Start, caller, id }, T, true)
}

fn update_article(backend: &mut Backend, caller: i64, id: i64, patch: UpdateArticleRequest, now: i64) -> Response {
    backend.serve(Endpoint::UpdateArticle { step: Step::Start, caller, id, patch }, now, true)
}

fn create_app(backend: &mut Backend, caller: i64, name: &str, identifier: &str, now: i64) -> Response {
    let endpoint = Endpoint::CreateApp {
        step: Step::Start,
        caller,
        request: CreateAppRequest {
            name: name.to_string(),
            description: "".to_string(),
            identifier: identifier.to_string(),
        },
    };
    backend.serve(endpoint, now, true)
}

fn list_apps(backend: &mut Backend, query: AppQuery) -> Response {
    backend.serve(Endpoint::ListApps { state: ListAppsState::Start, query }, T, true)
}

fn rejected(reason: Rejection, message: &str) -> Response {
    Response::rejected(reason, message)
}

fn article_of(response: Response) -> Article {
    match response.body {
        Body::Article(article) => article,
        other => panic!("unexpected body {:?}", other),
    }
}

fn titles_of(response: Response) -> Vec<String> {
    match response.body {
        Body::Articles(rows) => rows.into_iter().map(|a| a.title).collect(),
        other => panic!("unexpected body {:?}", other),
    }
}

fn backend_with_alice_and_bob() -> Backend {
    let mut backend = Backend::new();
    assert_eq!(register(&mut backend, "alice", "a@x.com", "C1c1C1", T, true).status, 200);
    assert_eq!(register(&mut backend, "bob", "b@x.com", "C2c2C2", T, true).status, 200);
    backend
}

#[test]
fn register_then_login_once() {
    let mut backend = Backend::new();
    let registered = register(&mut backend, "alice", "a@x.com", "C1c1C1", T, true);
    assert_eq!(
        registered,
        Response::message(200, "Registration successful. Please check your email for verification code.")
    );

    let first = login(&mut backend, "a@x.com", "C1c1C1", T + 60);
    assert_eq!(first.status, 200);
    match first.body {
        Body::Auth(auth) => {
            assert_eq!(auth.token, mint_token(1, T + 60, &config()).unwrap());
            assert_eq!(
                auth.user,
                UserResponse {
                    id: 1,
                    username: "alice".to_string(),
                    email: "a@x.com".to_string(),
                    email_verified: true,
                    created_at: T,
                    updated_at: T,
                }
            );
        }
        other => panic!("unexpected body {:?}", other),
    }

    let second = login(&mut backend, "a@x.com", "C1c1C1", T + 61);
    assert_eq!(second.status, 400);
    assert_eq!(second, rejected(Rejection::InvalidCredentials, "Invalid email or verification code"));
}

#[test]
fn registration_mails_the_code_once() {
    let mut backend = Backend::new();
    assert_eq!(backend.outbox, vec![]);
    register(&mut backend, "alice", "a@x.com", "C1c1C1", T, true);
    assert_eq!(
        backend.outbox,
        vec![Mail {
            to: "a@x.com".to_string(),
            subject: "Your Verification Code".to_string(),
            body: "Your verification code is: C1c1C1".to_string(),
        }]
    );
    register(&mut backend, "carol", "a@x.com", "C2c2C2", T + 1, true);
    assert_eq!(backend.outbox.len(), 1);
    register(&mut backend, "bob", "b@x.com", "C3c3C3", T + 2, false);
    assert_eq!(backend.outbox.len(), 1);
    login(&mut backend, "a@x.com", "C1c1C1", T + 3);
    create_article(&mut backend, 1, "t", None, T + 4);
    create_app(&mut backend, 1, "A", "a1", T + 5);
    assert_eq!(backend.outbox.len(), 1);
}

#[test]
fn mailed_code_logs_in() {
    let mut backend = Backend::new();
    let state = RegisterState::begin();
    let request = RegisterRequest { username: "alice".to_string(), email: "a@x.com".to_string() };
    let registered = backend.serve(Endpoint::Register { state, request }, T, true);
    assert_eq!(registered.status, 200);
    let body = backend.outbox[0].body.clone();
    let code = body.strip_prefix("Your verification code is: ").unwrap().to_string();
    assert_eq!(code.len(), 6);
    let now = std::time::SystemTime::now()
        .duration_since(std::time::UNIX_EPOCH)
        .unwrap()
        .as_secs() as i64;
    assert_eq!(login(&mut backend, "a@x.com", &code, now + 60).status, 200);
    assert_eq!(login(&mut backend, "a@x.com", &code, now + 61).status, 400);
}

#[test]
fn second_app_with_the_same_identifier_is_refused() {
    let mut backend = Backend::new();
    let first = create_app(&mut backend, 7, "A", "a1", T);
    assert_eq!(first, Response::message(201, "应用创建成功"));
    let before = backend.clone();
    let second = create_app(&mut backend, 7, "B", "a1", T + 1);
    assert_eq!(second.status, 400);
    assert_eq!(second, rejected(Rejection::DuplicateIdentifier, "应用标识已存在"));
    assert_eq!(backend, before);
    assert_eq!(create_app(&mut backend, 8, "B", "b1", T + 2).status, 201);
}

#[test]
fn registering_twice_with_one_email_is_a_duplicate() {
    let mut backend = Backend::new();
    assert_eq!(register(&mut backend, "alice", "a@x.com", "C1c1C1", T, true).status, 200);
    let before = backend.clone();
    let same_name = register(&mut backend, "alice", "a@x.com", "C2c2C2", T + 1, true);
    assert_eq!(same_name, rejected(Rejection::DuplicateAccount, "User with this email already exists"));
    let other_name = register(&mut backend, "carol", "a@x.com", "C3c3C3", T + 5000, true);
    assert_eq!(other_name, rejected(Rejection::DuplicateAccount, "User with this email already exists"));
    assert_eq!(other_name.status, 400);
    assert_eq!(backend, before);
}

#[test]
fn registering_after_a_failed_mail_is_still_a_duplicate() {
    let mut backend = Backend::new();
    let first = register(&mut backend, "alice", "a@x.com", "C1c1C1", T, false);
    assert_eq!(first, rejected(Rejection::MailFailure, "Failed to send verification email"));
    assert_eq!(first.status, 500);
    let second = register(&mut backend, "alice2", "a@x.com", "C2c2C2", T + 1, true);
    assert_eq!(second, rejected(Rejection::DuplicateAccount, "User with this email already exists"));
    assert_eq!(login(&mut backend, "a@x.com", "C1c1C1", T + 2).status, 200);
}

#[test]
fn registering_a_taken_username_fails_in_the_store() {
    let mut backend = Backend::new();
    assert_eq!(register(&mut backend, "alice", "a@x.com", "C1c1C1", T, true).status, 200);
    let taken = register(&mut backend, "alice", "other@x.com", "C2c2C2", T + 1, true);
    assert_eq!(taken, rejected(Rejection::StoreFailure, "Failed to create user"));
    assert_eq!(taken.status, 500);
    assert_eq!(register(&mut backend, "alice3", "other@x.com", "C3c3C3", T + 2, true).status, 200);
}

#[test]
fn expired_code_is_refused() {
    let mut backend = Backend::new();
    register(&mut backend, "alice", "a@x.com", "C1c1C1", T, true);
    let before = backend.clone();
    let at_expiry = login(&mut backend, "a@x.com", "C1c1C1", T + 1800);
    assert_eq!(at_expiry, rejected(Rejection::InvalidCredentials, "Invalid email or verification code"));
    let later = login(&mut backend, "a@x.com", "C1c1C1", T + 86400);
    assert_eq!(later, rejected(Rejection::InvalidCredentials, "Invalid email or verification code"));
    assert_eq!(backend, before);
    assert_eq!(login(&mut backend, "a@x.com", "C1c1C1", T + 1799).status, 200);
}

#[test]
fn wrong_code_and_unknown_email_look_the_same() {
    let mut backend = Backend::new();
    register(&mut backend, "alice", "a@x.com", "C1c1C1", T, true);
    let wrong_code = login(&mut backend, "a@x.com", "c1c1c1", T + 1);
    let unknown_email = login(&mut backend, "z@x.com", "C1c1C1", T + 1);
    let expired = login(&mut backend, "a@x.com", "C1c1C1", T + 1800);
    assert_eq!(wrong_code, rejected(Rejection::InvalidCredentials, "Invalid email or verification code"));
    assert_eq!(wrong_code, unknown_email);
    assert_eq!(wrong_code, expired);
}

#[test]
fn login_with_a_wrong_code_keeps_the_right_one_valid() {
    let mut backend = Backend::new();
    register(&mut backend, "alice", "a@x.com", "C1c1C1", T, true);
    assert_eq!(login(&mut backend, "a@x.com", "nope00", T + 1).status, 400);
    assert_eq!(login(&mut backend, "a@x.com", "C1c1C1", T + 2).status, 200);
}

#[test]
fn me_shows_the_account_without_its_code() {
    let mut backend = backend_with_alice_and_bob();
    let me = backend.serve(Endpoint::Me { step: Step::Start, caller: 2 }, T, true);
    assert_eq!(
        me,
        Response::ok(Body::User(UserResponse {
            id: 2,
            username: "bob".to_string(),
            email: "b@x.com".to_string(),
            email_verified: false,
            created_at: T,
            updated_at: T,
        }))
    );
    let gone = backend.serve(Endpoint::Me { step: Step::Start, caller: 9 }, T, true);
    assert_eq!(gone, rejected(Rejection::NotFound, "User not found"));
    assert_eq!(gone.status, 404);
}

#[test]
fn draft_is_hidden_from_everyone_but_its_author() {
    let mut backend = backend_with_alice_and_bob();
    let created = article_of(create_article(&mut backend, 1, "secret", None, T + 10));
    assert_eq!(created.id, 1);
    assert_eq!(created.status, 1);
    assert_eq!(created.author_id, 1);
    assert_eq!(created.created_at, T + 10);

    let by_author = get_article(&mut backend, 1, 1);
    assert_eq!(by_author.status, 200);
    assert_eq!(article_of(by_author), created);

    let by_other = get_article(&mut backend, 2, 1);
    assert_eq!(by_other.status, 404);
    assert_eq!(by_other, rejected(Rejection::NotFound, "Article not found"));
    assert_eq!(get_article(&mut backend, 2, 77), by_other);
}

#[test]
fn published_article_is_shown_to_anyone() {
    let mut backend = backend_with_alice_and_bob();
    let created = article_of(create_article(&mut backend, 1, "news", Some(2), T + 10));
    assert_eq!(article_of(get_article(&mut backend, 2, 1)), created);
    assert_eq!(article_of(get_article(&mut backend, 1, 1)), created);
    assert_eq!(article_of(get_article(&mut backend, 99, 1)), created);
}

#[test]
fn listing_shows_published_and_own_articles() {
    let mut backend = backend_with_alice_and_bob();
    create_article(&mut backend, 1, "alice draft", None, T + 10);
    create_article(&mut backend, 1, "alice public", Some(2), T + 11);
    create_article(&mut backend, 2, "bob draft", Some(1), T + 12);
    let for_alice = backend.serve(Endpoint::ListArticles { step: Step::Start, caller: 1 }, T, true);
    assert_eq!(for_alice.status, 200);
    assert_eq!(titles_of(for_alice), vec!["alice public", "alice draft"]);
    let for_bob = backend.serve(Endpoint::ListArticles { step: Step::Start, caller: 2 }, T, true);
    assert_eq!(titles_of(for_bob), vec!["bob draft", "alice public"]);
    let for_nobody = backend.serve(Endpoint::ListArticles { step: Step::Start, caller: 3 }, T, true);
    assert_eq!(titles_of(for_nobody), vec!["alice public"]);
}

#[test]
fn update_without_fields_is_refused_and_writes_nothing() {
    let mut backend = backend_with_alice_and_bob();
    let created = article_of(create_article(&mut backend, 1, "first", None, T + 10));
    let before = backend.clone();
    let empty = UpdateArticleRequest { title: None, content: None, status: None };
    let reply = update_article(&mut backend, 1, 1, empty, T + 500);
    assert_eq!(reply.status, 400);
    assert_eq!(reply, rejected(Rejection::NoFieldsToUpdate, "No fields to update"));
    assert_eq!(backend, before);
    let after = article_of(get_article(&mut backend, 1, 1));
    assert_eq!(after.updated_at, created.updated_at);
    assert_eq!(after, created);
}

#[test]
fn update_without_fields_by_a_stranger_is_not_found() {
    let mut backend = backend_with_alice_and_bob();
    create_article(&mut backend, 1, "first", Some(2), T + 10);
    let before = backend.clone();
    let empty = UpdateArticleRequest { title: None, content: None, status: None };
    let reply = update_article(&mut backend, 2, 1, empty, T + 500);
    assert_eq!(
        reply,
        rejected(
            Rejection::NotFoundOrForbidden,
            "Article not found or you don't have permission to update it"
        )
    );
    assert_eq!(backend, before);
}

#[test]
fn author_updates_the_supplied_fields() {
    let mut backend = backend_with_alice_and_bob();
    create_article(&mut backend, 1, "first", None, T + 10);
    let patch = UpdateArticleRequest { title: Some("second".to_string()), content: None, status: Some(2) };
    let updated = update_article(&mut backend, 1, 1, patch, T + 500);
    assert_eq!(updated.status, 200);
    assert_eq!(
        article_of(updated),
        Article {
            id: 1,
            title: "second".to_string(),
            content: "body".to_string(),
            author_id: 1,
            status: 2,
            created_at: T + 10,
            updated_at: T + 500,
        }
    );
    assert_eq!(get_article(&mut backend, 2, 1).status, 200);
}

#[test]
fn update_to_an_unknown_status_is_refused_and_writes_nothing() {
    let mut backend = backend_with_alice_and_bob();
    let created = article_of(create_article(&mut backend, 1, "first", None, T + 10));
    let before = backend.clone();
    for status in [0i8, 3, 5, -1] {
        let patch = UpdateArticleRequest { title: Some("x".to_string()), content: None, status: Some(status) };
        let by_author = update_article(&mut backend, 1, 1, patch.clone(), T + 500);
        assert_eq!(by_author.status, 400);
        assert_eq!(by_author, rejected(Rejection::InvalidStatus, "Invalid status"));
        let by_stranger = update_article(&mut backend, 2, 1, patch, T + 500);
        assert_eq!(by_stranger, rejected(Rejection::InvalidStatus, "Invalid status"));
    }
    assert_eq!(backend, before);
    let after = article_of(get_article(&mut backend, 1, 1));
    assert_eq!(after, created);
    assert_eq!(after.status, 1);
}

#[test]
fn article_with_an_unknown_status_is_not_created() {
    let mut backend = backend_with_alice_and_bob();
    let before = backend.clone();
    let reply = create_article(&mut backend, 1, "odd", Some(5), T + 10);
    assert_eq!(reply.status, 400);
    assert_eq!(reply, rejected(Rejection::InvalidStatus, "Invalid status"));
    assert_eq!(backend, before);
    assert_eq!(article_of(create_article(&mut backend, 1, "draft", Some(1), T + 11)).status, 1);
    assert_eq!(article_of(create_article(&mut backend, 1, "public", Some(2), T + 12)).status, 2);
    assert_eq!(article_of(create_article(&mut backend, 1, "default", None, T + 13)).status, 1);
}

#[test]
fn app_update_without_fields_is_refused_and_writes_nothing() {
    let mut backend = Backend::new();
    create_app(&mut backend, 7, "A", "a1", T);
    let before = backend.clone();
    let empty = UpdateAppRequest { name: None, description: None };
    let reply = backend.serve(
        Endpoint::UpdateApp { step: Step::Start, caller: 8, id: 1, patch: empty.clone() },
        T + 5,
        true,
    );
    assert_eq!(reply.status, 400);
    assert_eq!(reply, rejected(Rejection::NoFieldsToUpdate, "没有要更新的字段"));
    assert_eq!(backend, before);
    match backend.serve(Endpoint::GetApp { step: Step::Start, id: 1 }, T, true).body {
        Body::App(app) => {
            assert_eq!(app.updater_id, 7);
            assert_eq!(app.updated_at, T);
        }
        other => panic!("unexpected body {:?}", other),
    }
    let missing = backend.serve(
        Endpoint::UpdateApp { step: Step::Start, caller: 8, id: 99, patch: empty },
        T + 5,
        true,
    );
    assert_eq!(missing, rejected(Rejection::NoFieldsToUpdate, "没有要更新的字段"));
    assert_eq!(backend, before);
}

#[test]
fn login_answers_with_a_token_that_is_not_empty() {
    let mut backend = Backend::new();
    register(&mut backend, "alice", "a@x.com", "C1c1C1", T, true);
    match login(&mut backend, "a@x.com", "C1c1C1", T + 1).body {
        Body::Auth(auth) => {
            assert!(!auth.token.is_empty());
            assert_eq!(auth.token.split('.').count(), 3);
        }
        other => panic!("unexpected body {:?}", other),
    }
    let stored = backend.serve(Endpoint::Me { step: Step::Start, caller: 1 }, T, true);
    match stored.body {
        Body::User(user) => assert!(user.email_verified),
        other => panic!("unexpected body {:?}", other),
    }
}

#[test]
fn login_where_the_token_expiry_does_not_fit_fails_after_confirming() {
    let mut backend = Backend::new();
    let far = i64::MAX - 10_000;
    register(&mut backend, "alice", "a@x.com", "C1c1C1", far - 10, true);
    let reply = login(&mut backend, "a@x.com", "C1c1C1", far);
    assert_eq!(reply, rejected(Rejection::TokenFailure, "Failed to create authentication token"));
    assert_eq!(reply.status, 500);
}

#[test]
fn stranger_cannot_update_or_delete() {
    let mut backend = backend_with_alice_and_bob();
    create_article(&mut backend, 1, "first", Some(2), T + 10);
    let before = backend.clone();
    let patch = UpdateArticleRequest { title: Some("mine now".to_string()), content: None, status: None };
    let update = update_article(&mut backend, 2, 1, patch.clone(), T + 500);
    assert_eq!(update.status, 404);
    assert_eq!(update.rejection(), Some(Rejection::NotFoundOrForbidden));
    assert_eq!(update_article(&mut backend, 2, 50, patch, T + 500), update);
    let delete = backend.serve(Endpoint::DeleteArticle { step: Step::Start, caller: 2, id: 1 }, T, true);
    assert_eq!(
        delete,
        rejected(
            Rejection::NotFoundOrForbidden,
            "Article not found or you don't have permission to delete it"
        )
    );
    assert_eq!(backend, before);
}

#[test]
fn author_deletes_the_article() {
    let mut backend = backend_with_alice_and_bob();
    create_article(&mut backend, 1, "first", Some(2), T + 10);
    let deleted = backend.serve(Endpoint::DeleteArticle { step: Step::Start, caller: 1, id: 1 }, T, true);
    assert_eq!(deleted, Response::message(200, "Article deleted successfully"));
    assert_eq!(get_article(&mut backend, 1, 1).status, 404);
    let again = backend.serve(Endpoint::DeleteArticle { step: Step::Start, caller: 1, id: 1 }, T, true);
    assert_eq!(again.status, 404);
}

#[test]
fn article_by_an_unknown_author_fails_in_the_store() {
    let mut backend = Backend::new();
    let reply = create_article(&mut backend, 5, "orphan", None, T);
    assert_eq!(reply, rejected(Rejection::StoreFailure, "Failed to create article"));
    assert_eq!(reply.status, 500);
}

#[test]
fn apps_are_open_to_every_caller() {
    let mut backend = Backend::new();
    create_app(&mut backend, 7, "A", "a1", T);
    let patch = UpdateAppRequest { name: Some("A2".to_string()), description: None };
    let updated = backend.serve(
        Endpoint::UpdateApp { step: Step::Start, caller: 8, id: 1, patch },
        T + 5,
        true,
    );
    assert_eq!(updated, Response::message(200, "应用更新成功"));
    let shown = backend.serve(Endpoint::GetApp { step: Step::Start, id: 1 }, T, true);
    match shown.body {
        Body::App(app) => {
            assert_eq!(app.name, "A2");
            assert_eq!(app.identifier, "a1");
            assert_eq!(app.creator_id, 7);
            assert_eq!(app.updater_id, 8);
            assert_eq!(app.created_at, T);
            assert_eq!(app.updated_at, T + 5);
        }
        other => panic!("unexpected body {:?}", other),
    }
    let deleted = backend.serve(Endpoint::DeleteApp { step: Step::Start, id: 1 }, T, true);
    assert_eq!(deleted, Response::message(200, "应用删除成功"));
    let gone = backend.serve(Endpoint::GetApp { step: Step::Start, id: 1 }, T, true);
    assert_eq!(gone, rejected(Rejection::NotFound, "应用不存在"));
}

#[test]
fn apps_are_listed_in_pages_with_their_total() {
    let mut backend = Backend::new();
    for (i, name) in ["one", "two", "three", "four", "five"].iter().enumerate() {
        create_app(&mut backend, 7, name, name, T + i as i64);
    }
    let query = AppQuery { keyword: None, identifier: None, creator_id: None, page: Some(2), page_size: Some(2) };
    let page = list_apps(&mut backend, query);
    assert_eq!(page.status, 200);
    match page.body {
        Body::Apps(list) => {
            assert_eq!(list.total, 5);
            assert_eq!(list.page, 2);
            assert_eq!(list.page_size, 2);
            let names: Vec<String> = list.apps.into_iter().map(|a| a.name).collect();
            assert_eq!(names, vec!["three", "two"]);
        }
        other => panic!("unexpected body {:?}", other),
    }
    let query = AppQuery { keyword: Some("o".to_string()), identifier: None, creator_id: None, page: None, page_size: None };
    match list_apps(&mut backend, query).body {
        Body::Apps(list) => {
            assert_eq!(list.total, 3);
            assert_eq!(list.page, 1);
            assert_eq!(list.page_size, 10);
            let names: Vec<String> = list.apps.into_iter().map(|a| a.name).collect();
            assert_eq!(names, vec!["four", "two", "one"]);
        }
        other => panic!("unexpected body {:?}", other),
    }
}

#[test]
fn page_before_the_first_fails_in_the_store() {
    let mut backend = Backend::new();
    let query = AppQuery { keyword: None, identifier: None, creator_id: None, page: Some(0), page_size: Some(10) };
    let reply = list_apps(&mut backend, query);
    assert_eq!(reply, rejected(Rejection::StoreFailure, "获取应用列表失败"));
}

#[test]
fn page_that_does_not_fit_is_refused() {
    let mut backend = Backend::new();
    let query = AppQuery {
        keyword: None,
        identifier: None,
        creator_id: None,
        page: Some(i64::MAX),
        page_size: Some(i64::MAX),
    };
    let reply = list_apps(&mut backend, query);
    assert_eq!(reply, rejected(Rejection::InvalidPage, "分页参数无效"));
    assert_eq!(reply.status, 400);
}
