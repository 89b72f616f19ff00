//! The article endpoints: create, read, list, update, delete.
//!
//! Published articles are readable by anyone, drafts by their author alone.
//! Only the author may change or remove an article; to anyone else it is as
//! if the article did not exist.

use vstd::prelude::*;

use crate::handlers::{
    done, finish, internal_error, Action, ActionView, Body, BodyView, Event, EventView, Rejection,
    Response, ResponseView, Step,
};
use crate::models::article::{
    is_status, valid_status, Article, ArticlePatchView, ArticleView, CreateArticleRequest,
    UpdateArticleRequest, STATUS_DRAFT,
};
use crate::store::{StoreReply, StoreReplyView, StoreRequest, StoreRequestView};

verus! {

/// The refusal of an update by anyone but the author of an existing article.
pub open spec fn update_refused() -> ResponseView {
    ResponseView::rejected(
        Rejection::NotFoundOrForbidden,
        "Article not found or you don't have permission to update it"@,
    )
}

/// The refusal of a removal by anyone but the author of an existing article.
pub open spec fn delete_refused() -> ResponseView {
    ResponseView::rejected(
        Rejection::NotFoundOrForbidden,
        "Article not found or you don't have permission to delete it"@,
    )
}

/// The answer for an article that is absent or hidden from the caller.
pub open spec fn article_not_found() -> ResponseView {
    ResponseView::rejected(Rejection::NotFound, "Article not found"@)
}

/// The refusal of a status that is neither draft nor published.
pub open spec fn invalid_status() -> ResponseView {
    ResponseView::rejected(Rejection::InvalidStatus, "Invalid status"@)
}

/// The refusal of an update that names no field.
pub open spec fn no_fields_to_update() -> ResponseView {
    ResponseView::rejected(Rejection::NoFieldsToUpdate, "No fields to update"@)
}

/// `PUT /articles/{id}` by `caller`.
///
/// A status that is neither draft nor published is refused before the
/// store is asked anything. Then the article is looked up. Unless it exists
/// and `caller` wrote it, the update is refused as not found or forbidden.
/// A patch that names no field is then refused, before anything is
/// written. Otherwise the supplied fields are written and the article is
/// read back.
pub open spec fn update_article_spec(
    step: Step,
    caller: i64,
    id: i64,
    patch: ArticlePatchView,
    event: EventView,
) -> (Step, ActionView) {
    match (step, event) {
        (Step::Start, EventView::Begin) => {
            if patch.status_is_valid() {
                (Step::Looking, ActionView::Query(StoreRequestView::FindArticle { id }))
            } else {
                finish(invalid_status())
            }
        },
        (Step::Looking, EventView::Store(StoreReplyView::Article(found))) => {
            if !(found is Some && found->0.id == id && found->0.owned_by(caller)) {
                finish(update_refused())
            } else if patch.is_empty() {
                finish(no_fields_to_update())
            } else if !patch.status_is_valid() {
                finish(invalid_status())
            } else {
                (
                    Step::Writing,
                    ActionView::Query(
                        StoreRequestView::UpdateArticle { id, author_id: caller, patch },
                    ),
                )
            }
        },
        (Step::Looking, _) => finish(internal_error()),
        (Step::Writing, EventView::Store(StoreReplyView::Written { rows_affected, last_insert_id })) => (
            Step::Fetching,
            ActionView::Query(StoreRequestView::FindArticle { id }),
        ),
        (Step::Writing, _) => finish(
            ResponseView::rejected(Rejection::StoreFailure, "Failed to update article"@),
        ),
        (Step::Fetching, EventView::Store(StoreReplyView::Article(Some(article)))) => {
            if article.id == id && article.owned_by(caller) {
                finish(ResponseView::ok(BodyView::Article(article)))
            } else {
                finish(
                    ResponseView::rejected(
                        Rejection::StoreFailure,
                        "Article updated but failed to fetch it"@,
                    ),
                )
            }
        },
        (Step::Fetching, _) => finish(
            ResponseView::rejected(
                Rejection::StoreFailure,
                "Article updated but failed to fetch it"@,
            ),
        ),
        _ => finish(internal_error()),
    }
}

/// `PUT /articles/{id}` by `caller`: one step of it.
pub fn update_article(
    step: Step,
    caller: i64,
    id: i64,
    patch: &UpdateArticleRequest,
    event: Event,
) -> (r: (Step, Action))
    ensures
        (r.0, r.1@) == update_article_spec(step, caller, id, patch@, event@),
{
    match (step, event) {
        (Step::Start, Event::Begin) => {
            if patch.status_is_valid() {
                (Step::Looking, Action::Query(StoreRequest::FindArticle { id }))
            } else {
                done(Response::rejected(Rejection::InvalidStatus, "Invalid status"))
            }
        },
        (Step::Looking, Event::Store(StoreReply::Article(found))) => {
            let owned = match &found {
                Some(article) => article.id == id && article.owned_by(caller),
                None => false,
            };
            if !owned {
                done(
                    Response::rejected(
                        Rejection::NotFoundOrForbidden,
                        "Article not found or you don't have permission to update it",
                    ),
                )
            } else if patch.is_empty() {
                done(Response::rejected(Rejection::NoFieldsToUpdate, "No fields to update"))
            } else if !patch.status_is_valid() {
                done(Response::rejected(Rejection::InvalidStatus, "Invalid status"))
            } else {
                let patch = UpdateArticleRequest {
                    title: patch.title.clone(),
                    content: patch.content.clone(),
                    status: patch.status,
                };
                (
                    Step::Writing,
                    Action::Query(StoreRequest::UpdateArticle { id, author_id: caller, patch }),
                )
            }
        },
        (Step::Looking, _) => done(
            Response::rejected(Rejection::StoreFailure, "Internal server error"),
        ),
        (Step::Writing, Event::Store(StoreReply::Written { rows_affected, last_insert_id })) => (
            Step::Fetching,
            Action::Query(StoreRequest::FindArticle { id }),
        ),
        (Step::Writing, _) => done(
            Response::rejected(Rejection::StoreFailure, "Failed to update article"),
        ),
        (Step::Fetching, Event::Store(StoreReply::Article(Some(article)))) => {
            if article.id == id && article.owned_by(caller) {
                done(Response::ok(Body::Article(article)))
            } else {
                done(
                    Response::rejected(
                        Rejection::StoreFailure,
                        "Article updated but failed to fetch it",
                    ),
                )
            }
        },
        (Step::Fetching, _) => done(
            Response::rejected(Rejection::StoreFailure, "Article updated but failed to fetch it"),
        ),
        _ => done(Response::rejected(Rejection::StoreFailure, "Internal server error")),
    }
}

/// `POST /articles` by `caller`.
///
/// A status that is neither draft nor published is refused before the
/// store is asked anything. Otherwise the article is inserted with `caller`
/// as its author and, where the request names no status, as a draft; then
/// it is read back.
pub open spec fn create_article_spec(
    step: Step,
    caller: i64,
    title: Seq<char>,
    content: Seq<char>,
    status: Option<i8>,
    event: EventView,
) -> (Step, ActionView) {
    match (step, event) {
        (Step::Start, EventView::Begin) => {
            let status = if status is Some { status->0 } else { STATUS_DRAFT };
            if is_status(status) {
                (
                    Step::Writing,
                    ActionView::Query(
                        StoreRequestView::InsertArticle { title, content, author_id: caller, status },
                    ),
                )
            } else {
                finish(invalid_status())
            }
        },
        (Step::Writing, EventView::Store(StoreReplyView::Written { rows_affected, last_insert_id })) => {
            if last_insert_id <= i64::MAX {
                (
                    Step::Fetching,
                    ActionView::Query(StoreRequestView::FindArticle { id: last_insert_id as i64 }),
                )
            } else {
                finish(
                    ResponseView::rejected(
                        Rejection::StoreFailure,
                        "Article created but failed to fetch it"@,
                    ),
                )
            }
        },
        (Step::Writing, _) => finish(
            ResponseView::rejected(Rejection::StoreFailure, "Failed to create article"@),
        ),
        (Step::Fetching, EventView::Store(StoreReplyView::Article(Some(article)))) => finish(
            ResponseView::ok(BodyView::Article(article)),
        ),
        (Step::Fetching, _) => finish(
            ResponseView::rejected(
                Rejection::StoreFailure,
                "Article created but failed to fetch it"@,
            ),
        ),
        _ => finish(internal_error()),
    }
}

/// `POST /articles` by `caller`: one step of it.
pub fn create_article(step: Step, caller: i64, request: &CreateArticleRequest, event: Event) -> (r:
    (Step, Action))
    ensures
        (r.0, r.1@) == create_article_spec(
            step,
            caller,
            request.title@,
            request.content@,
            request.status,
            event@,
        ),
{
    match (step, event) {
        (Step::Start, Event::Begin) => {
            let status = request.effective_status();
            if valid_status(status) {
                (
                    Step::Writing,
                    Action::Query(
                        StoreRequest::InsertArticle {
                            title: request.title.clone(),
                            content: request.content.clone(),
                            author_id: caller,
                            status,
                        },
                    ),
                )
            } else {
                done(Response::rejected(Rejection::InvalidStatus, "Invalid status"))
            }
        },
        (Step::Writing, Event::Store(StoreReply::Written { rows_affected, last_insert_id })) => {
            if last_insert_id <= i64::MAX as u64 {
                (
                    Step::Fetching,
                    Action::Query(StoreRequest::FindArticle { id: last_insert_id as i64 }),
                )
            } else {
                done(
                    Response::rejected(
                        Rejection::StoreFailure,
                        "Article created but failed to fetch it",
                    ),
                )
            }
        },
        (Step::Writing, _) => done(
            Response::rejected(Rejection::StoreFailure, "Failed to create article"),
        ),
        (Step::Fetching, Event::Store(StoreReply::Article(Some(article)))) => done(
            Response::ok(Body::Article(article)),
        ),
        (Step::Fetching, _) => done(
            Response::rejected(Rejection::StoreFailure, "Article created but failed to fetch it"),
        ),
        _ => done(Response::rejected(Rejection::StoreFailure, "Internal server error")),
    }
}

/// `GET /articles/{id}` by `caller`.
///
/// The article is shown where it exists and `caller` may read it; in every
/// other case the answer is that it was not found.
pub open spec fn get_article_spec(step: Step, caller: i64, id: i64, event: EventView) -> (
    Step,
    ActionView,
) {
    match (step, event) {
        (Step::Start, EventView::Begin) => (
            Step::Looking,
            ActionView::Query(StoreRequestView::FindArticle { id }),
        ),
        (Step::Looking, EventView::Store(StoreReplyView::Article(found))) => {
            if found is Some && found->0.id == id && found->0.visible_to(caller) {
                finish(ResponseView::ok(BodyView::Article(found->0)))
            } else {
                finish(article_not_found())
            }
        },
        _ => finish(internal_error()),
    }
}

/// `GET /articles/{id}` by `caller`: one step of it.
pub fn get_article(step: Step, caller: i64, id: i64, event: Event) -> (r: (Step, Action))
    ensures
        (r.0, r.1@) == get_article_spec(step, caller, id, event@),
{
    match (step, event) {
        (Step::Start, Event::Begin) => (
            Step::Looking,
            Action::Query(StoreRequest::FindArticle { id }),
        ),
        (Step::Looking, Event::Store(StoreReply::Article(found))) => {
            match found {
                Some(article) => {
                    if article.id == id && article.visible_to(caller) {
                        done(Response::ok(Body::Article(article)))
                    } else {
                        done(Response::rejected(Rejection::NotFound, "Article not found"))
                    }
                },
                None => done(Response::rejected(Rejection::NotFound, "Article not found")),
            }
        },
        _ => done(Response::rejected(Rejection::StoreFailure, "Internal server error")),
    }
}

/// Of `rows`, those that `caller` may read, in the same order.
pub open spec fn readable(rows: Seq<ArticleView>, caller: i64) -> Seq<ArticleView> {
    rows.filter(|a: ArticleView| a.visible_to(caller))
}

/// Keeps of `rows` those that `caller` may read.
pub fn keep_readable(rows: Vec<Article>, caller: i64) -> (out: Vec<Article>)
    ensures
        out.deep_view() == readable(rows.deep_view(), caller),
{
    let ghost wanted = |a: ArticleView| a.visible_to(caller);
    let ghost all = rows.deep_view();
    let mut out: Vec<Article> = Vec::new();
    let mut i: usize = 0;
    proof {
        reveal(Seq::filter);
    }
    while i < rows.len()
        invariant
            i <= rows.len(),
            all == rows.deep_view(),
            wanted == |a: ArticleView| a.visible_to(caller),
            out.deep_view() == all.take(i as int).filter(wanted),
        decreases rows.len() - i,
    {
        proof {
            all.take(i as int).lemma_filter_push(all[i as int], wanted);
            assert(all.take(i + 1) =~= all.take(i as int).push(all[i as int]));
        }
        if rows[i].visible_to(caller) {
            out.push(rows[i].duplicate());
        }
        i += 1;
    }
    assert(all.take(rows.len() as int) =~= all);
    out
}

/// `GET /articles` by `caller`.
///
/// The store is asked for what `caller` may read; whatever it answers, only
/// rows that `caller` may read are shown.
pub open spec fn list_articles_spec(step: Step, caller: i64, event: EventView) -> (
    Step,
    ActionView,
) {
    match (step, event) {
        (Step::Start, EventView::Begin) => (
            Step::Looking,
            ActionView::Query(StoreRequestView::ListArticles { viewer: caller }),
        ),
        (Step::Looking, EventView::Store(StoreReplyView::Articles(rows))) => finish(
            ResponseView::ok(BodyView::Articles(readable(rows, caller))),
        ),
        _ => finish(internal_error()),
    }
}

/// `GET /articles` by `caller`: one step of it.
pub fn list_articles(step: Step, caller: i64, event: Event) -> (r: (Step, Action))
    ensures
        (r.0, r.1@) == list_articles_spec(step, caller, event@),
{
    match (step, event) {
        (Step::Start, Event::Begin) => (
            Step::Looking,
            Action::Query(StoreRequest::ListArticles { viewer: caller }),
        ),
        (Step::Looking, Event::Store(StoreReply::Articles(rows))) => done(
            Response::ok(Body::Articles(keep_readable(rows, caller))),
        ),
        _ => done(Response::rejected(Rejection::StoreFailure, "Internal server error")),
    }
}

/// `DELETE /articles/{id}` by `caller`.
///
/// The store removes the article only if `caller` wrote it. Where no row
/// went, the removal is refused as not found or forbidden.
pub open spec fn delete_article_spec(step: Step, caller: i64, id: i64, event: EventView) -> (
    Step,
    ActionView,
) {
    match (step, event) {
        (Step::Start, EventView::Begin) => (
            Step::Writing,
            ActionView::Query(StoreRequestView::DeleteArticle { id, author_id: caller }),
        ),
        (Step::Writing, EventView::Store(StoreReplyView::Written { rows_affected, last_insert_id })) => {
            if rows_affected > 0 {
                finish(
                    ResponseView::message(
                        crate::handlers::STATUS_OK,
                        "Article deleted successfully"@,
                    ),
                )
            } else {
                finish(delete_refused())
            }
        },
        (Step::Writing, _) => finish(
            ResponseView::rejected(Rejection::StoreFailure, "Failed to delete article"@),
        ),
        _ => finish(internal_error()),
    }
}

/// `DELETE /articles/{id}` by `caller`: one step of it.
pub fn delete_article(step: Step, caller: i64, id: i64, event: Event) -> (r: (Step, Action))
    ensures
        (r.0, r.1@) == delete_article_spec(step, caller, id, event@),
{
    match (step, event) {
        (Step::Start, Event::Begin) => (
            Step::Writing,
            Action::Query(StoreRequest::DeleteArticle { id, author_id: caller }),
        ),
        (Step::Writing, Event::Store(StoreReply::Written { rows_affected, last_insert_id })) => {
            if rows_affected > 0 {
                done(Response::message(crate::handlers::STATUS_OK, "Article deleted successfully"))
            } else {
                done(
                    Response::rejected(
                        Rejection::NotFoundOrForbidden,
                        "Article not found or you don't have permission to delete it",
                    ),
                )
            }
        },
        (Step::Writing, _) => done(
            Response::rejected(Rejection::StoreFailure, "Failed to delete article"),
        ),
        _ => done(Response::rejected(Rejection::StoreFailure, "Internal server error")),
    }
}

} // verus!
