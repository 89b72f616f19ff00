//! What the backend asks of its relational store, and what the store answers.
//!
//! A [`StoreRequest`] names one parameterized statement; [`StoreRequest::statement`]
//! renders it. A [`StoreReply`] carries what running it gave. The caller of the
//! library performs the round-trip. [`model::StoreView`] says what each request
//! means, and [`memory::Store`] answers the requests in memory accordingly.

use vstd::prelude::*;
use vstd::string::StringExecFns;

use crate::models::app::{App, AppPatchView, AppView, UpdateAppRequest};
use crate::models::article::{Article, ArticlePatchView, ArticleView, UpdateArticleRequest};
use crate::models::{User, UserView};
use crate::sql::{push_value, SqlValue, SqlValueView, Statement, StatementView};

pub mod memory;
pub mod model;

verus! {

/// The optional filters of an application listing.
#[derive(Debug, Clone, PartialEq, Eq)]
pub struct AppFilter {
    pub keyword: Option<String>,
    pub identifier: Option<String>,
    pub creator_id: Option<i64>,
}

/// The mathematical value of an [`AppFilter`].
pub struct AppFilterView {
    pub keyword: Option<Seq<char>>,
    pub identifier: Option<Seq<char>>,
    pub creator_id: Option<i64>,
}

impl View for AppFilter {
    type V = AppFilterView;

    open spec fn view(&self) -> AppFilterView {
        AppFilterView {
            keyword: self.keyword.deep_view(),
            identifier: self.identifier.deep_view(),
            creator_id: self.creator_id,
        }
    }
}

/// One round-trip to the store.
#[derive(Debug, Clone, PartialEq, Eq)]
pub enum StoreRequest {
    /// The account with this email, if any.
    FindUserByEmail { email: String },
    /// The account with this id, if any.
    FindUserById { id: i64 },
    /// A new unverified account with a pending code.
    InsertUser { username: String, email: String, verification_code: String, expires_at: i64 },
    /// Mark the account verified and clear its pending code.
    ConfirmUser { id: i64 },
    /// A new article.
    InsertArticle { title: String, content: String, author_id: i64, status: i8 },
    /// The article with this id, if any.
    FindArticle { id: i64 },
    /// The articles that `viewer` may read, newest first.
    ListArticles { viewer: i64 },
    /// Rewrite the supplied fields of the article, if `author_id` wrote it.
    UpdateArticle { id: i64, author_id: i64, patch: UpdateArticleRequest },
    /// Remove the article, if `author_id` wrote it.
    DeleteArticle { id: i64, author_id: i64 },
    /// The application with this identifier, if any.
    FindAppByIdentifier { identifier: String },
    /// A new application.
    InsertApp { name: String, description: String, identifier: String, creator_id: i64 },
    /// Rewrite the supplied fields of the application and record who did.
    UpdateApp { id: i64, updater_id: i64, patch: UpdateAppRequest },
    /// Remove the application.
    DeleteApp { id: i64 },
    /// The application with this id, if any.
    FindApp { id: i64 },
    /// One page of the applications that match, newest first.
    ListApps { filter: AppFilter, limit: i64, offset: i64 },
    /// How many applications match.
    CountApps { filter: AppFilter },
}

/// The mathematical value of a [`StoreRequest`].
pub enum StoreRequestView {
    FindUserByEmail { email: Seq<char> },
    FindUserById { id: i64 },
    InsertUser {
        username: Seq<char>,
        email: Seq<char>,
        verification_code: Seq<char>,
        expires_at: i64,
    },
    ConfirmUser { id: i64 },
    InsertArticle { title: Seq<char>, content: Seq<char>, author_id: i64, status: i8 },
    FindArticle { id: i64 },
    ListArticles { viewer: i64 },
    UpdateArticle { id: i64, author_id: i64, patch: ArticlePatchView },
    DeleteArticle { id: i64, author_id: i64 },
    FindAppByIdentifier { identifier: Seq<char> },
    InsertApp { name: Seq<char>, description: Seq<char>, identifier: Seq<char>, creator_id: i64 },
    UpdateApp { id: i64, updater_id: i64, patch: AppPatchView },
    DeleteApp { id: i64 },
    FindApp { id: i64 },
    ListApps { filter: AppFilterView, limit: i64, offset: i64 },
    CountApps { filter: AppFilterView },
}

impl View for StoreRequest {
    type V = StoreRequestView;

    open spec fn view(&self) -> StoreRequestView {
        match self {
            StoreRequest::FindUserByEmail { email } => StoreRequestView::FindUserByEmail {
                email: email@,
            },
            StoreRequest::FindUserById { id } => StoreRequestView::FindUserById { id: *id },
            StoreRequest::InsertUser {
                username,
                email,
                verification_code,
                expires_at,
            } => StoreRequestView::InsertUser {
                username: username@,
                email: email@,
                verification_code: verification_code@,
                expires_at: *expires_at,
            },
            StoreRequest::ConfirmUser { id } => StoreRequestView::ConfirmUser { id: *id },
            StoreRequest::InsertArticle {
                title,
                content,
                author_id,
                status,
            } => StoreRequestView::InsertArticle {
                title: title@,
                content: content@,
                author_id: *author_id,
                status: *status,
            },
            StoreRequest::FindArticle { id } => StoreRequestView::FindArticle { id: *id },
            StoreRequest::ListArticles { viewer } => StoreRequestView::ListArticles {
                viewer: *viewer,
            },
            StoreRequest::UpdateArticle { id, author_id, patch } => StoreRequestView::UpdateArticle {
                id: *id,
                author_id: *author_id,
                patch: patch@,
            },
            StoreRequest::DeleteArticle { id, author_id } => StoreRequestView::DeleteArticle {
                id: *id,
                author_id: *author_id,
            },
            StoreRequest::FindAppByIdentifier {
                identifier,
            } => StoreRequestView::FindAppByIdentifier { identifier: identifier@ },
            StoreRequest::InsertApp {
                name,
                description,
                identifier,
                creator_id,
            } => StoreRequestView::InsertApp {
                name: name@,
                description: description@,
                identifier: identifier@,
                creator_id: *creator_id,
            },
            StoreRequest::UpdateApp { id, updater_id, patch } => StoreRequestView::UpdateApp {
                id: *id,
                updater_id: *updater_id,
                patch: patch@,
            },
            StoreRequest::DeleteApp { id } => StoreRequestView::DeleteApp { id: *id },
            StoreRequest::FindApp { id } => StoreRequestView::FindApp { id: *id },
            StoreRequest::ListApps { filter, limit, offset } => StoreRequestView::ListApps {
                filter: filter@,
                limit: *limit,
                offset: *offset,
            },
            StoreRequest::CountApps { filter } => StoreRequestView::CountApps { filter: filter@ },
        }
    }
}

/// What the store answered.
#[derive(Debug, Clone, PartialEq, Eq)]
pub enum StoreReply {
    /// The store reported an error.
    Failed,
    /// The account that was looked up, if it exists.
    User(Option<User>),
    /// The article that was looked up, if it exists.
    Article(Option<Article>),
    /// The articles that were listed.
    Articles(Vec<Article>),
    /// The application that was looked up, if it exists.
    App(Option<App>),
    /// The applications that were listed.
    Apps(Vec<App>),
    /// The number of rows that were counted.
    Count(i64),
    /// A write went through: how many rows it touched, and the id it generated.
    Written { rows_affected: u64, last_insert_id: u64 },
}

/// The mathematical value of a [`StoreReply`].
pub enum StoreReplyView {
    Failed,
    User(Option<UserView>),
    Article(Option<ArticleView>),
    Articles(Seq<ArticleView>),
    App(Option<AppView>),
    Apps(Seq<AppView>),
    Count(i64),
    Written { rows_affected: u64, last_insert_id: u64 },
}

impl View for StoreReply {
    type V = StoreReplyView;

    open spec fn view(&self) -> StoreReplyView {
        match self {
            StoreReply::Failed => StoreReplyView::Failed,
            StoreReply::User(user) => StoreReplyView::User(user.deep_view()),
            StoreReply::Article(article) => StoreReplyView::Article(article.deep_view()),
            StoreReply::Articles(articles) => StoreReplyView::Articles(articles.deep_view()),
            StoreReply::App(app) => StoreReplyView::App(app.deep_view()),
            StoreReply::Apps(apps) => StoreReplyView::Apps(apps.deep_view()),
            StoreReply::Count(n) => StoreReplyView::Count(*n),
            StoreReply::Written { rows_affected, last_insert_id } => StoreReplyView::Written {
                rows_affected: *rows_affected,
                last_insert_id: *last_insert_id,
            },
        }
    }
}

/// The `SET` assignments of an article patch, one per supplied field.
pub open spec fn article_assignments(patch: ArticlePatchView) -> Seq<Seq<char>> {
    (if patch.title is Some { seq!["title = ?"@] } else { Seq::empty() })
        + (if patch.content is Some { seq!["content = ?"@] } else { Seq::empty() })
        + (if patch.status is Some { seq!["status = ?"@] } else { Seq::empty() })
}

/// The values bound to the assignments of an article patch, in the same order.
pub open spec fn article_patch_params(patch: ArticlePatchView) -> Seq<SqlValueView> {
    (if patch.title is Some { seq![SqlValueView::Text(patch.title->0)] } else { Seq::empty() })
        + (if patch.content is Some {
            seq![SqlValueView::Text(patch.content->0)]
        } else {
            Seq::empty()
        })
        + (if patch.status is Some {
            seq![SqlValueView::Int(patch.status->0 as i64)]
        } else {
            Seq::empty()
        })
}

/// The further `SET` assignments of an application patch, after the updater's.
pub open spec fn app_assignments(patch: AppPatchView) -> Seq<char> {
    (if patch.name is Some { ", name = ?"@ } else { Seq::empty() })
        + (if patch.description is Some { ", description = ?"@ } else { Seq::empty() })
}

/// The values bound to the assignments of an application patch.
pub open spec fn app_patch_params(patch: AppPatchView) -> Seq<SqlValueView> {
    (if patch.name is Some { seq![SqlValueView::Text(patch.name->0)] } else { Seq::empty() })
        + (if patch.description is Some {
            seq![SqlValueView::Text(patch.description->0)]
        } else {
            Seq::empty()
        })
}

/// The pattern that matches every text in which `keyword` occurs.
pub open spec fn keyword_pattern(keyword: Seq<char>) -> Seq<char> {
    "%"@ + keyword + "%"@
}

/// The conditions that the filters of a listing add to its `WHERE` clause.
pub open spec fn filter_clause(filter: AppFilterView) -> Seq<char> {
    (if filter.keyword is Some { " AND name LIKE ?"@ } else { Seq::empty() })
        + (if filter.identifier is Some { " AND identifier = ?"@ } else { Seq::empty() })
        + (if filter.creator_id is Some { " AND creator_id = ?"@ } else { Seq::empty() })
}

/// The values bound to the conditions of [`filter_clause`], in the same order.
pub open spec fn filter_params(filter: AppFilterView) -> Seq<SqlValueView> {
    (if filter.keyword is Some {
        seq![SqlValueView::Text(keyword_pattern(filter.keyword->0))]
    } else {
        Seq::empty()
    }) + (if filter.identifier is Some {
        seq![SqlValueView::Text(filter.identifier->0)]
    } else {
        Seq::empty()
    }) + (if filter.creator_id is Some {
        seq![SqlValueView::Int(filter.creator_id->0)]
    } else {
        Seq::empty()
    })
}

impl StoreRequestView {
    /// The statement that performs the request.
    pub open spec fn statement(self) -> StatementView {
        match self {
            StoreRequestView::FindUserByEmail { email } => StatementView {
                text: "SELECT * FROM users WHERE email = ?"@,
                params: seq![SqlValueView::Text(email)],
            },
            StoreRequestView::FindUserById { id } => StatementView {
                text: "SELECT * FROM users WHERE id = ?"@,
                params: seq![SqlValueView::Int(id)],
            },
            StoreRequestView::InsertUser {
                username,
                email,
                verification_code,
                expires_at,
            } => StatementView {
                text: "INSERT INTO users (username, email, email_verified, verification_code, verification_code_expires_at) VALUES (?, ?, ?, ?, ?)"@,
                params: seq![
                    SqlValueView::Text(username),
                    SqlValueView::Text(email),
                    SqlValueView::Int(0),
                    SqlValueView::Text(verification_code),
                    SqlValueView::Instant(expires_at),
                ],
            },
            StoreRequestView::ConfirmUser { id } => StatementView {
                text: "UPDATE users SET email_verified = ?, verification_code = NULL, verification_code_expires_at = NULL WHERE id = ?"@,
                params: seq![SqlValueView::Int(1), SqlValueView::Int(id)],
            },
            StoreRequestView::InsertArticle { title, content, author_id, status } => StatementView {
                text: "INSERT INTO articles (title, content, author_id, status) VALUES (?, ?, ?, ?)"@,
                params: seq![
                    SqlValueView::Text(title),
                    SqlValueView::Text(content),
                    SqlValueView::Int(author_id),
                    SqlValueView::Int(status as i64),
                ],
            },
            StoreRequestView::FindArticle { id } => StatementView {
                text: "SELECT * FROM articles WHERE id = ?"@,
                params: seq![SqlValueView::Int(id)],
            },
            StoreRequestView::ListArticles { viewer } => StatementView {
                text: "SELECT * FROM articles WHERE status = 2 OR author_id = ? ORDER BY created_at DESC"@,
                params: seq![SqlValueView::Int(viewer)],
            },
            StoreRequestView::UpdateArticle { id, author_id, patch } => StatementView {
                text: "UPDATE articles SET "@ + crate::sql::joined(
                    article_assignments(patch),
                    ", "@,
                ) + " WHERE id = ? AND author_id = ?"@,
                params: article_patch_params(patch) + seq![
                    SqlValueView::Int(id),
                    SqlValueView::Int(author_id),
                ],
            },
            StoreRequestView::DeleteArticle { id, author_id } => StatementView {
                text: "DELETE FROM articles WHERE id = ? AND author_id = ?"@,
                params: seq![SqlValueView::Int(id), SqlValueView::Int(author_id)],
            },
            StoreRequestView::FindAppByIdentifier { identifier } => StatementView {
                text: "SELECT * FROM apps WHERE identifier = ?"@,
                params: seq![SqlValueView::Text(identifier)],
            },
            StoreRequestView::InsertApp { name, description, identifier, creator_id } => StatementView {
                text: "INSERT INTO apps (name, description, identifier, creator_id, updater_id) VALUES (?, ?, ?, ?, ?)"@,
                params: seq![
                    SqlValueView::Text(name),
                    SqlValueView::Text(description),
                    SqlValueView::Text(identifier),
                    SqlValueView::Int(creator_id),
                    SqlValueView::Int(creator_id),
                ],
            },
            StoreRequestView::UpdateApp { id, updater_id, patch } => StatementView {
                text: "UPDATE apps SET updater_id = ?"@ + app_assignments(patch) + " WHERE id = ?"@,
                params: seq![SqlValueView::Int(updater_id)] + app_patch_params(patch) + seq![
                    SqlValueView::Int(id),
                ],
            },
            StoreRequestView::DeleteApp { id } => StatementView {
                text: "DELETE FROM apps WHERE id = ?"@,
                params: seq![SqlValueView::Int(id)],
            },
            StoreRequestView::FindApp { id } => StatementView {
                text: "SELECT * FROM apps WHERE id = ?"@,
                params: seq![SqlValueView::Int(id)],
            },
            StoreRequestView::ListApps { filter, limit, offset } => StatementView {
                text: "SELECT * FROM apps WHERE 1=1"@ + filter_clause(filter)
                    + " ORDER BY created_at DESC LIMIT ? OFFSET ?"@,
                params: filter_params(filter) + seq![
                    SqlValueView::Int(limit),
                    SqlValueView::Int(offset),
                ],
            },
            StoreRequestView::CountApps { filter } => StatementView {
                text: "SELECT COUNT(*) as count FROM apps WHERE 1=1"@ + filter_clause(filter),
                params: filter_params(filter),
            },
        }
    }
}

fn fixed_statement(text: &str, params: Vec<SqlValue>) -> (r: Statement)
    ensures
        r@ == (StatementView { text: text@, params: params.deep_view() }),
{
    Statement { text: String::from_str(text), params }
}

fn render_filter(filter: &AppFilter, text: &mut String, params: &mut Vec<SqlValue>)
    ensures
        final(text)@ == old(text)@ + filter_clause(filter@),
        final(params).deep_view() == old(params).deep_view() + filter_params(filter@),
{
    if let Some(keyword) = &filter.keyword {
        text.append(" AND name LIKE ?");
        let mut pattern = String::from_str("%");
        pattern.append(keyword.as_str());
        pattern.append("%");
        push_value(params, SqlValue::Text(pattern));
    }
    if let Some(identifier) = &filter.identifier {
        text.append(" AND identifier = ?");
        push_value(params, SqlValue::Text(identifier.clone()));
    }
    if let Some(creator_id) = filter.creator_id {
        text.append(" AND creator_id = ?");
        push_value(params, SqlValue::Int(creator_id));
    }
}

fn render_article_patch(patch: &UpdateArticleRequest, params: &mut Vec<SqlValue>) -> (set: String)
    ensures
        set@ == crate::sql::joined(article_assignments(patch@), ", "@),
        final(params).deep_view() == old(params).deep_view() + article_patch_params(patch@),
{
    let mut parts: Vec<&str> = Vec::new();
    if let Some(title) = &patch.title {
        parts.push("title = ?");
        push_value(params, SqlValue::Text(title.clone()));
    }
    if let Some(content) = &patch.content {
        parts.push("content = ?");
        push_value(params, SqlValue::Text(content.clone()));
    }
    if let Some(status) = patch.status {
        parts.push("status = ?");
        push_value(params, SqlValue::Int(status as i64));
    }
    assert(crate::sql::slices_view(parts@) =~= article_assignments(patch@));
    crate::sql::join(&parts, ", ")
}

impl StoreRequest {
    /// Renders the request as the statement that performs it.
    pub fn statement(&self) -> (r: Statement)
        ensures
            r@ == self@.statement(),
    {
        match self {
            StoreRequest::FindUserByEmail { email } => {
                let mut params: Vec<SqlValue> = Vec::new();
                push_value(&mut params, SqlValue::Text(email.clone()));
                assert(params.deep_view() =~= self@.statement().params);
                fixed_statement("SELECT * FROM users WHERE email = ?", params)
            },
            StoreRequest::FindUserById { id } => {
                let mut params: Vec<SqlValue> = Vec::new();
                push_value(&mut params, SqlValue::Int(*id));
                assert(params.deep_view() =~= self@.statement().params);
                fixed_statement("SELECT * FROM users WHERE id = ?", params)
            },
            StoreRequest::InsertUser { username, email, verification_code, expires_at } => {
                let mut params: Vec<SqlValue> = Vec::new();
                push_value(&mut params, SqlValue::Text(username.clone()));
                push_value(&mut params, SqlValue::Text(email.clone()));
                push_value(&mut params, SqlValue::Int(0));
                push_value(&mut params, SqlValue::Text(verification_code.clone()));
                push_value(&mut params, SqlValue::Instant(*expires_at));
                assert(params.deep_view() =~= self@.statement().params);
                fixed_statement(
                    "INSERT INTO users (username, email, email_verified, verification_code, verification_code_expires_at) VALUES (?, ?, ?, ?, ?)",
                    params,
                )
            },
            StoreRequest::ConfirmUser { id } => {
                let mut params: Vec<SqlValue> = Vec::new();
                push_value(&mut params, SqlValue::Int(1));
                push_value(&mut params, SqlValue::Int(*id));
                assert(params.deep_view() =~= self@.statement().params);
                fixed_statement(
                    "UPDATE users SET email_verified = ?, verification_code = NULL, verification_code_expires_at = NULL WHERE id = ?",
                    params,
                )
            },
            StoreRequest::InsertArticle { title, content, author_id, status } => {
                let mut params: Vec<SqlValue> = Vec::new();
                push_value(&mut params, SqlValue::Text(title.clone()));
                push_value(&mut params, SqlValue::Text(content.clone()));
                push_value(&mut params, SqlValue::Int(*author_id));
                push_value(&mut params, SqlValue::Int(*status as i64));
                assert(params.deep_view() =~= self@.statement().params);
                fixed_statement(
                    "INSERT INTO articles (title, content, author_id, status) VALUES (?, ?, ?, ?)",
                    params,
                )
            },
            StoreRequest::FindArticle { id } => {
                let mut params: Vec<SqlValue> = Vec::new();
                push_value(&mut params, SqlValue::Int(*id));
                assert(params.deep_view() =~= self@.statement().params);
                fixed_statement("SELECT * FROM articles WHERE id = ?", params)
            },
            StoreRequest::ListArticles { viewer } => {
                let mut params: Vec<SqlValue> = Vec::new();
                push_value(&mut params, SqlValue::Int(*viewer));
                assert(params.deep_view() =~= self@.statement().params);
                fixed_statement(
                    "SELECT * FROM articles WHERE status = 2 OR author_id = ? ORDER BY created_at DESC",
                    params,
                )
            },
            StoreRequest::UpdateArticle { id, author_id, patch } => {
                let mut params: Vec<SqlValue> = Vec::new();
                let set = render_article_patch(patch, &mut params);
                push_value(&mut params, SqlValue::Int(*id));
                push_value(&mut params, SqlValue::Int(*author_id));
                let mut text = String::from_str("UPDATE articles SET ");
                text.append(set.as_str());
                text.append(" WHERE id = ? AND author_id = ?");
                assert(params.deep_view() =~= self@.statement().params);
                Statement { text, params }
            },
            StoreRequest::DeleteArticle { id, author_id } => {
                let mut params: Vec<SqlValue> = Vec::new();
                push_value(&mut params, SqlValue::Int(*id));
                push_value(&mut params, SqlValue::Int(*author_id));
                assert(params.deep_view() =~= self@.statement().params);
                fixed_statement("DELETE FROM articles WHERE id = ? AND author_id = ?", params)
            },
            StoreRequest::FindAppByIdentifier { identifier } => {
                let mut params: Vec<SqlValue> = Vec::new();
                push_value(&mut params, SqlValue::Text(identifier.clone()));
                assert(params.deep_view() =~= self@.statement().params);
                fixed_statement("SELECT * FROM apps WHERE identifier = ?", params)
            },
            StoreRequest::InsertApp { name, description, identifier, creator_id } => {
                let mut params: Vec<SqlValue> = Vec::new();
                push_value(&mut params, SqlValue::Text(name.clone()));
                push_value(&mut params, SqlValue::Text(description.clone()));
                push_value(&mut params, SqlValue::Text(identifier.clone()));
                push_value(&mut params, SqlValue::Int(*creator_id));
                push_value(&mut params, SqlValue::Int(*creator_id));
                assert(params.deep_view() =~= self@.statement().params);
                fixed_statement(
                    "INSERT INTO apps (name, description, identifier, creator_id, updater_id) VALUES (?, ?, ?, ?, ?)",
                    params,
                )
            },
            StoreRequest::UpdateApp { id, updater_id, patch } => {
                let mut text = String::from_str("UPDATE apps SET updater_id = ?");
                let mut params: Vec<SqlValue> = Vec::new();
                push_value(&mut params, SqlValue::Int(*updater_id));
                if let Some(name) = &patch.name {
                    text.append(", name = ?");
                    push_value(&mut params, SqlValue::Text(name.clone()));
                }
                if let Some(description) = &patch.description {
                    text.append(", description = ?");
                    push_value(&mut params, SqlValue::Text(description.clone()));
                }
                text.append(" WHERE id = ?");
                push_value(&mut params, SqlValue::Int(*id));
                assert(text@ =~= self@.statement().text);
                assert(params.deep_view() =~= self@.statement().params);
                Statement { text, params }
            },
            StoreRequest::DeleteApp { id } => {
                let mut params: Vec<SqlValue> = Vec::new();
                push_value(&mut params, SqlValue::Int(*id));
                assert(params.deep_view() =~= self@.statement().params);
                fixed_statement("DELETE FROM apps WHERE id = ?", params)
            },
            StoreRequest::FindApp { id } => {
                let mut params: Vec<SqlValue> = Vec::new();
                push_value(&mut params, SqlValue::Int(*id));
                assert(params.deep_view() =~= self@.statement().params);
                fixed_statement("SELECT * FROM apps WHERE id = ?", params)
            },
            StoreRequest::ListApps { filter, limit, offset } => {
                let mut text = String::from_str("SELECT * FROM apps WHERE 1=1");
                let mut params: Vec<SqlValue> = Vec::new();
                render_filter(filter, &mut text, &mut params);
                text.append(" ORDER BY created_at DESC LIMIT ? OFFSET ?");
                push_value(&mut params, SqlValue::Int(*limit));
                push_value(&mut params, SqlValue::Int(*offset));
                assert(params.deep_view() =~= self@.statement().params);
                Statement { text, params }
            },
            StoreRequest::CountApps { filter } => {
                let mut text = String::from_str("SELECT COUNT(*) as count FROM apps WHERE 1=1");
                let mut params: Vec<SqlValue> = Vec::new();
                render_filter(filter, &mut text, &mut params);
                Statement { text, params }
            },
        }
    }
}

} // verus!
