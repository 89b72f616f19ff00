//! What the store holds and what each request does to it, as mathematics.
//!
//! [`StoreView`] is the value of a store: its rows and the ids it hands out
//! next. [`StoreView::execute`] says what a request leaves in the store and
//! what it answers. Rows of articles and applications are kept newest first.

use vstd::prelude::*;

use crate::models::app::AppView;
use crate::models::article::{is_status, ArticleView};
use crate::models::UserView;
use crate::store::{AppFilterView, StoreReplyView, StoreRequestView};

verus! {

/// Whether `i` is the first position in `rows` whose row is `wanted`.
pub open spec fn is_first<T>(rows: Seq<T>, wanted: spec_fn(T) -> bool, i: int) -> bool {
    &&& 0 <= i < rows.len()
    &&& wanted(rows[i])
    &&& forall|j: int| 0 <= j < i ==> !wanted(#[trigger] rows[j])
}

/// The first position in `rows` whose row is `wanted`, if there is one.
pub open spec fn first_index<T>(rows: Seq<T>, wanted: spec_fn(T) -> bool) -> Option<int> {
    if exists|i: int| is_first(rows, wanted, i) {
        Some(choose|i: int| is_first(rows, wanted, i))
    } else {
        None
    }
}

/// The first row in `rows` that is `wanted`, if there is one.
pub open spec fn first_row<T>(rows: Seq<T>, wanted: spec_fn(T) -> bool) -> Option<T> {
    match first_index(rows, wanted) {
        Some(i) => Some(rows[i]),
        None => None,
    }
}

/// A first wanted position is the first wanted position.
pub proof fn lemma_first_index_found<T>(rows: Seq<T>, wanted: spec_fn(T) -> bool, i: int)
    requires
        is_first(rows, wanted, i),
    ensures
        first_index(rows, wanted) == Some(i),
{
}

/// Where no row is wanted, no first wanted position is found.
pub proof fn lemma_first_index_absent<T>(rows: Seq<T>, wanted: spec_fn(T) -> bool)
    requires
        forall|j: int| 0 <= j < rows.len() ==> !wanted(#[trigger] rows[j]),
    ensures
        first_index(rows, wanted) is None,
{
}

/// Whether `needle` occurs in `text` as a run of neighbouring characters.
pub open spec fn occurs_in(needle: Seq<char>, text: Seq<char>) -> bool {
    exists|i: int| occurs_at(needle, text, i)
}

/// Whether `needle` occurs in `text` starting at position `i`.
pub open spec fn occurs_at(needle: Seq<char>, text: Seq<char>, i: int) -> bool {
    &&& 0 <= i
    &&& i + needle.len() <= text.len()
    &&& text.subrange(i, i + needle.len()) == needle
}

impl AppFilterView {
    /// Whether `app` passes every filter that is set: the keyword occurs in
    /// its name, the identifier is its own, the creator made it.
    pub open spec fn matches(self, app: AppView) -> bool {
        &&& self.keyword is Some ==> occurs_in(self.keyword->0, app.name)
        &&& self.identifier is Some ==> app.identifier == self.identifier->0
        &&& self.creator_id is Some ==> app.creator_id == self.creator_id->0
    }
}

/// The rows `offset .. offset + limit` of `rows`, as far as they exist.
pub open spec fn page_of<T>(rows: Seq<T>, limit: i64, offset: i64) -> Seq<T>
    recommends
        0 <= limit,
        0 <= offset,
{
    let from = if offset <= rows.len() { offset as int } else { rows.len() as int };
    let to = if from + limit <= rows.len() { from + limit } else { rows.len() as int };
    rows.subrange(from, to)
}

/// Whether the instants that `created` reads off `rows` never rise from one
/// row to the next: the newest row comes first.
pub open spec fn newest_first<T>(rows: Seq<T>, created: spec_fn(T) -> i64) -> bool {
    forall|i: int, j: int|
        0 <= i < j < rows.len() ==> created(#[trigger] rows[i]) >= created(#[trigger] rows[j])
}

/// Whether no row of `rows` was created after `now`.
pub open spec fn none_after<T>(rows: Seq<T>, created: spec_fn(T) -> i64, now: i64) -> bool {
    forall|i: int| 0 <= i < rows.len() ==> created(#[trigger] rows[i]) <= now
}

/// Keeping only the wanted rows leaves the newest first.
pub proof fn lemma_filter_keeps_newest_first<T>(
    rows: Seq<T>,
    created: spec_fn(T) -> i64,
    wanted: spec_fn(T) -> bool,
)
    requires
        newest_first(rows, created),
    ensures
        newest_first(rows.filter(wanted), created),
    decreases rows.len(),
{
    reveal(Seq::filter);
    if rows.len() > 0 {
        let before = rows.drop_last();
        lemma_filter_keeps_newest_first(before, created, wanted);
        let kept = before.filter(wanted);
        assert forall|i: int| 0 <= i < kept.len() implies created(#[trigger] kept[i]) >= created(
            rows.last(),
        ) by {
            before.lemma_filter_contains_rev(wanted, kept[i]);
            let k = choose|k: int| 0 <= k < before.len() && before[k] == kept[i];
            assert(rows[k] == kept[i]);
        }
    }
}

/// The mathematical value of a [`Store`]: its rows and the ids it hands out next.
pub struct StoreView {
    pub users: Seq<UserView>,
    pub articles: Seq<ArticleView>,
    pub apps: Seq<AppView>,
    pub next_user_id: i64,
    pub next_article_id: i64,
    pub next_app_id: i64,
}

impl StoreView {
    /// A store without rows.
    pub open spec fn empty() -> StoreView {
        StoreView {
            users: Seq::empty(),
            articles: Seq::empty(),
            apps: Seq::empty(),
            next_user_id: 1,
            next_article_id: 1,
            next_app_id: 1,
        }
    }

    /// Ids are positive, below the next one and never shared; emails,
    /// usernames and application identifiers are never shared; users are
    /// well formed; every article is a draft or published.
    pub open spec fn well_formed(self) -> bool {
        &&& self.next_user_id >= 1
        &&& self.next_article_id >= 1
        &&& self.next_app_id >= 1
        &&& forall|i: int|
            0 <= i < self.users.len() ==> {
                &&& (#[trigger] self.users[i]).well_formed()
                &&& 1 <= self.users[i].id < self.next_user_id
            }
        &&& forall|i: int, j: int|
            0 <= i < j < self.users.len() ==> {
                &&& (#[trigger] self.users[i]).id != (#[trigger] self.users[j]).id
                &&& self.users[i].email != self.users[j].email
                &&& self.users[i].username != self.users[j].username
            }
        &&& forall|i: int|
            0 <= i < self.articles.len() ==> {
                &&& 1 <= (#[trigger] self.articles[i]).id < self.next_article_id
                &&& is_status(self.articles[i].status)
            }
        &&& forall|i: int, j: int|
            0 <= i < j < self.articles.len() ==> (#[trigger] self.articles[i]).id != (
            #[trigger] self.articles[j]).id
        &&& forall|i: int|
            0 <= i < self.apps.len() ==> 1 <= (#[trigger] self.apps[i]).id < self.next_app_id
        &&& forall|i: int, j: int|
            0 <= i < j < self.apps.len() ==> {
                &&& (#[trigger] self.apps[i]).id != (#[trigger] self.apps[j]).id
                &&& self.apps[i].identifier != self.apps[j].identifier
            }
    }

    /// The position of the account with this email.
    pub open spec fn user_index_by_email(self, email: Seq<char>) -> Option<int> {
        first_index(self.users, |u: UserView| u.email == email)
    }

    /// The account with this email.
    pub open spec fn user_by_email(self, email: Seq<char>) -> Option<UserView> {
        first_row(self.users, |u: UserView| u.email == email)
    }

    /// The position of the account with this username.
    pub open spec fn user_index_by_username(self, username: Seq<char>) -> Option<int> {
        first_index(self.users, |u: UserView| u.username == username)
    }

    /// The position of the account with this id.
    pub open spec fn user_index(self, id: i64) -> Option<int> {
        first_index(self.users, |u: UserView| u.id == id)
    }

    /// The account with this id.
    pub open spec fn user(self, id: i64) -> Option<UserView> {
        first_row(self.users, |u: UserView| u.id == id)
    }

    /// The position of the article with this id.
    pub open spec fn article_index(self, id: i64) -> Option<int> {
        first_index(self.articles, |a: ArticleView| a.id == id)
    }

    /// The article with this id.
    pub open spec fn article(self, id: i64) -> Option<ArticleView> {
        first_row(self.articles, |a: ArticleView| a.id == id)
    }

    /// The position of the application with this id.
    pub open spec fn app_index(self, id: i64) -> Option<int> {
        first_index(self.apps, |a: AppView| a.id == id)
    }

    /// The application with this id.
    pub open spec fn app(self, id: i64) -> Option<AppView> {
        first_row(self.apps, |a: AppView| a.id == id)
    }

    /// The position of the application with this identifier.
    pub open spec fn app_index_by_identifier(self, identifier: Seq<char>) -> Option<int> {
        first_index(self.apps, |a: AppView| a.identifier == identifier)
    }

    /// The application with this identifier.
    pub open spec fn app_by_identifier(self, identifier: Seq<char>) -> Option<AppView> {
        first_row(self.apps, |a: AppView| a.identifier == identifier)
    }

    /// Whether articles and applications stand newest first, and none was
    /// created after `now`: so it is where the clock never runs backwards.
    pub open spec fn chronological(self, now: i64) -> bool {
        &&& newest_first(self.articles, |a: ArticleView| a.created_at)
        &&& none_after(self.articles, |a: ArticleView| a.created_at, now)
        &&& newest_first(self.apps, |a: AppView| a.created_at)
        &&& none_after(self.apps, |a: AppView| a.created_at, now)
    }

    /// The articles that `viewer` may read, newest first.
    pub open spec fn visible_articles(self, viewer: i64) -> Seq<ArticleView> {
        self.articles.filter(|a: ArticleView| a.visible_to(viewer))
    }

    /// The applications that pass `filter`, newest first.
    pub open spec fn matching_apps(self, filter: AppFilterView) -> Seq<AppView> {
        self.apps.filter(|a: AppView| filter.matches(a))
    }

    /// What `request`, run at `now`, leaves in the store and what it answers.
    ///
    /// A write that would break a uniqueness or reference rule, store a
    /// status that is neither draft nor published, run out of ids, or that
    /// names no field to set fails and changes nothing.
    pub open spec fn execute(self, request: StoreRequestView, now: i64) -> (
        StoreView,
        StoreReplyView,
    ) {
        match request {
            StoreRequestView::FindUserByEmail { email } => (
                self,
                StoreReplyView::User(self.user_by_email(email)),
            ),
            StoreRequestView::FindUserById { id } => (self, StoreReplyView::User(self.user(id))),
            StoreRequestView::InsertUser { username, email, verification_code, expires_at } => {
                if self.user_index_by_email(email) is Some || self.user_index_by_username(
                    username,
                ) is Some || self.next_user_id == i64::MAX {
                    (self, StoreReplyView::Failed)
                } else {
                    let user = UserView {
                        id: self.next_user_id,
                        username,
                        email,
                        email_verified: 0,
                        verification_code: Some(verification_code),
                        verification_code_expires_at: Some(expires_at),
                        created_at: now,
                        updated_at: now,
                    };
                    (
                        StoreView {
                            users: self.users.push(user),
                            next_user_id: (self.next_user_id + 1) as i64,
                            ..self
                        },
                        StoreReplyView::Written {
                            rows_affected: 1,
                            last_insert_id: self.next_user_id as u64,
                        },
                    )
                }
            },
            StoreRequestView::ConfirmUser { id } => {
                match self.user_index(id) {
                    Some(i) => (
                        StoreView {
                            users: self.users.update(
                                i,
                                UserView { updated_at: now, ..self.users[i].confirmed() },
                            ),
                            ..self
                        },
                        StoreReplyView::Written { rows_affected: 1, last_insert_id: 0 },
                    ),
                    None => (self, StoreReplyView::Written { rows_affected: 0, last_insert_id: 0 }),
                }
            },
            StoreRequestView::InsertArticle { title, content, author_id, status } => {
                if !is_status(status) || self.user_index(author_id) is None
                    || self.next_article_id == i64::MAX {
                    (self, StoreReplyView::Failed)
                } else {
                    let article = ArticleView {
                        id: self.next_article_id,
                        title,
                        content,
                        author_id,
                        status,
                        created_at: now,
                        updated_at: now,
                    };
                    (
                        StoreView {
                            articles: seq![article] + self.articles,
                            next_article_id: (self.next_article_id + 1) as i64,
                            ..self
                        },
                        StoreReplyView::Written {
                            rows_affected: 1,
                            last_insert_id: self.next_article_id as u64,
                        },
                    )
                }
            },
            StoreRequestView::FindArticle { id } => (
                self,
                StoreReplyView::Article(self.article(id)),
            ),
            StoreRequestView::ListArticles { viewer } => (
                self,
                StoreReplyView::Articles(self.visible_articles(viewer)),
            ),
            StoreRequestView::UpdateArticle { id, author_id, patch } => {
                if patch.is_empty() || !patch.status_is_valid() {
                    (self, StoreReplyView::Failed)
                } else {
                    match self.article_index(id) {
                        Some(i) => if self.articles[i].owned_by(author_id) {
                            (
                                StoreView {
                                    articles: self.articles.update(
                                        i,
                                        self.articles[i].patched(patch, now),
                                    ),
                                    ..self
                                },
                                StoreReplyView::Written { rows_affected: 1, last_insert_id: 0 },
                            )
                        } else {
                            (self, StoreReplyView::Written { rows_affected: 0, last_insert_id: 0 })
                        },
                        None => (
                            self,
                            StoreReplyView::Written { rows_affected: 0, last_insert_id: 0 },
                        ),
                    }
                }
            },
            StoreRequestView::DeleteArticle { id, author_id } => {
                match self.article_index(id) {
                    Some(i) => if self.articles[i].owned_by(author_id) {
                        (
                            StoreView { articles: self.articles.remove(i), ..self },
                            StoreReplyView::Written { rows_affected: 1, last_insert_id: 0 },
                        )
                    } else {
                        (self, StoreReplyView::Written { rows_affected: 0, last_insert_id: 0 })
                    },
                    None => (self, StoreReplyView::Written { rows_affected: 0, last_insert_id: 0 }),
                }
            },
            StoreRequestView::FindAppByIdentifier { identifier } => (
                self,
                StoreReplyView::App(self.app_by_identifier(identifier)),
            ),
            StoreRequestView::InsertApp { name, description, identifier, creator_id } => {
                if self.app_index_by_identifier(identifier) is Some || self.next_app_id
                    == i64::MAX {
                    (self, StoreReplyView::Failed)
                } else {
                    let app = AppView {
                        id: self.next_app_id,
                        name,
                        description,
                        identifier,
                        creator_id,
                        created_at: now,
                        updater_id: creator_id,
                        updated_at: now,
                    };
                    (
                        StoreView {
                            apps: seq![app] + self.apps,
                            next_app_id: (self.next_app_id + 1) as i64,
                            ..self
                        },
                        StoreReplyView::Written {
                            rows_affected: 1,
                            last_insert_id: self.next_app_id as u64,
                        },
                    )
                }
            },
            StoreRequestView::UpdateApp { id, updater_id, patch } => {
                match self.app_index(id) {
                    Some(i) => (
                        StoreView {
                            apps: self.apps.update(i, self.apps[i].patched(patch, updater_id, now)),
                            ..self
                        },
                        StoreReplyView::Written { rows_affected: 1, last_insert_id: 0 },
                    ),
                    None => (self, StoreReplyView::Written { rows_affected: 0, last_insert_id: 0 }),
                }
            },
            StoreRequestView::DeleteApp { id } => {
                match self.app_index(id) {
                    Some(i) => (
                        StoreView { apps: self.apps.remove(i), ..self },
                        StoreReplyView::Written { rows_affected: 1, last_insert_id: 0 },
                    ),
                    None => (self, StoreReplyView::Written { rows_affected: 0, last_insert_id: 0 }),
                }
            },
            StoreRequestView::FindApp { id } => (self, StoreReplyView::App(self.app(id))),
            StoreRequestView::ListApps { filter, limit, offset } => {
                if limit < 0 || offset < 0 {
                    (self, StoreReplyView::Failed)
                } else {
                    (
                        self,
                        StoreReplyView::Apps(page_of(self.matching_apps(filter), limit, offset)),
                    )
                }
            },
            StoreRequestView::CountApps { filter } => {
                if self.matching_apps(filter).len() > i64::MAX {
                    (self, StoreReplyView::Failed)
                } else {
                    (self, StoreReplyView::Count(self.matching_apps(filter).len() as i64))
                }
            },
        }
    }
}

/// A position without a wanted row before it and with a wanted row at it exists
/// as soon as any wanted row does.
pub proof fn lemma_first_exists<T>(rows: Seq<T>, wanted: spec_fn(T) -> bool, j: int)
    requires
        0 <= j < rows.len(),
        wanted(rows[j]),
    ensures
        first_index(rows, wanted) is Some,
        first_index(rows, wanted)->0 <= j,
        is_first(rows, wanted, first_index(rows, wanted)->0),
    decreases j,
{
    if forall|k: int| 0 <= k < j ==> !wanted(#[trigger] rows[k]) {
        lemma_first_index_found(rows, wanted, j);
    } else {
        let k = choose|k: int| 0 <= k < j && wanted(#[trigger] rows[k]);
        lemma_first_exists(rows, wanted, k);
    }
}

/// Where no first wanted row is found, no row is wanted.
pub proof fn lemma_first_index_none<T>(rows: Seq<T>, wanted: spec_fn(T) -> bool)
    requires
        first_index(rows, wanted) is None,
    ensures
        forall|j: int| 0 <= j < rows.len() ==> !wanted(#[trigger] rows[j]),
{
    assert forall|j: int| 0 <= j < rows.len() implies !wanted(#[trigger] rows[j]) by {
        if wanted(rows[j]) {
            lemma_first_exists(rows, wanted, j);
        }
    }
}

/// What a found position says of the row there.
pub proof fn lemma_first_index_some<T>(rows: Seq<T>, wanted: spec_fn(T) -> bool)
    requires
        first_index(rows, wanted) is Some,
    ensures
        is_first(rows, wanted, first_index(rows, wanted)->0),
{
}

/// Every request leaves a well-formed store well formed.
pub proof fn law_execute_keeps_well_formed(store: StoreView, request: StoreRequestView, now: i64)
    requires
        store.well_formed(),
    ensures
        store.execute(request, now).0.well_formed(),
{
    match request {
        StoreRequestView::InsertUser { username, email, verification_code, expires_at } => {
            if store.user_index_by_email(email) is None {
                lemma_first_index_none(store.users, |u: UserView| u.email == email);
            }
            if store.user_index_by_username(username) is None {
                lemma_first_index_none(store.users, |u: UserView| u.username == username);
            }
        },
        StoreRequestView::ConfirmUser { id } => {
            if store.user_index(id) is Some {
                lemma_first_index_some(store.users, |u: UserView| u.id == id);
            }
        },
        StoreRequestView::UpdateArticle { id, author_id, patch } => {
            if store.article_index(id) is Some {
                lemma_first_index_some(store.articles, |a: ArticleView| a.id == id);
            }
        },
        StoreRequestView::DeleteArticle { id, author_id } => {
            if store.article_index(id) is Some {
                lemma_first_index_some(store.articles, |a: ArticleView| a.id == id);
            }
        },
        StoreRequestView::InsertApp { name, description, identifier, creator_id } => {
            if store.app_index_by_identifier(identifier) is None {
                lemma_first_index_none(store.apps, |a: AppView| a.identifier == identifier);
            }
        },
        StoreRequestView::UpdateApp { id, updater_id, patch } => {
            if store.app_index(id) is Some {
                lemma_first_index_some(store.apps, |a: AppView| a.id == id);
            }
        },
        StoreRequestView::DeleteApp { id } => {
            if store.app_index(id) is Some {
                lemma_first_index_some(store.apps, |a: AppView| a.id == id);
            }
        },
        _ => {},
    }
}

/// Where the clock never runs backwards, rows stay newest first: a store
/// that is chronological at `now` is so after any request run at `now`,
/// and what it lists comes newest first.
pub proof fn law_rows_stay_newest_first(store: StoreView, request: StoreRequestView, now: i64)
    requires
        store.chronological(now),
    ensures
        store.execute(request, now).0.chronological(now),
        store.execute(request, now).1 matches StoreReplyView::Articles(rows) ==> newest_first(
            rows,
            |a: ArticleView| a.created_at,
        ),
        store.execute(request, now).1 matches StoreReplyView::Apps(rows) ==> newest_first(
            rows,
            |a: AppView| a.created_at,
        ),
{
    match request {
        StoreRequestView::UpdateArticle { id, author_id, patch } => {
            if store.article_index(id) is Some {
                lemma_first_index_some(store.articles, |a: ArticleView| a.id == id);
            }
        },
        StoreRequestView::DeleteArticle { id, author_id } => {
            if store.article_index(id) is Some {
                lemma_first_index_some(store.articles, |a: ArticleView| a.id == id);
            }
        },
        StoreRequestView::ListArticles { viewer } => {
            lemma_filter_keeps_newest_first(
                store.articles,
                |a: ArticleView| a.created_at,
                |a: ArticleView| a.visible_to(viewer),
            );
        },
        StoreRequestView::UpdateApp { id, updater_id, patch } => {
            if store.app_index(id) is Some {
                lemma_first_index_some(store.apps, |a: AppView| a.id == id);
            }
        },
        StoreRequestView::DeleteApp { id } => {
            if store.app_index(id) is Some {
                lemma_first_index_some(store.apps, |a: AppView| a.id == id);
            }
        },
        StoreRequestView::ListApps { filter, limit, offset } => {
            lemma_filter_keeps_newest_first(
                store.apps,
                |a: AppView| a.created_at,
                |a: AppView| filter.matches(a),
            );
        },
        _ => {},
    }
}

} // verus!
