//! A store that answers requests in memory.
//!
//! [`Store::execute`] computes exactly what [`StoreView::execute`] says.

use vstd::prelude::*;

use crate::models::app::{App, AppView};
use crate::models::article::{valid_status, Article, ArticleView};
use crate::models::{User, UserView};
use crate::store::model::{
    law_execute_keeps_well_formed, lemma_first_index_absent, lemma_first_index_found,
    occurs_at, occurs_in, page_of, StoreView,
};
use crate::store::{AppFilter, StoreReply, StoreRequest, StoreRequestView};
use crate::text::same_text;

verus! {

/// Whether `needle` occurs in `text` starting at character `i`.
fn found_at(needle: &str, text: &str, i: usize) -> (r: bool)
    requires
        i + needle@.len() <= text@.len(),
    ensures
        r == occurs_at(needle@, text@, i as int),
{
    let m = needle.unicode_len();
    let n = text.unicode_len();
    let mut j: usize = 0;
    while j < m
        invariant
            j <= m,
            m == needle@.len(),
            n == text@.len(),
            i + m <= n,
            forall|k: int| 0 <= k < j ==> text@[i + k] == needle@[k],
        decreases m - j,
    {
        if text.get_char(i + j) != needle.get_char(j) {
            return false;
        }
        j += 1;
    }
    assert(text@.subrange(i as int, i + m) =~= needle@);
    true
}

/// Whether `needle` occurs somewhere in `text`.
pub fn contains_text(needle: &str, text: &str) -> (r: bool)
    ensures
        r == occurs_in(needle@, text@),
{
    let n = text.unicode_len();
    let m = needle.unicode_len();
    if m > n {
        return false;
    }
    let last = n - m;
    let mut i: usize = 0;
    while i < last
        invariant
            last == n - m,
            n == text@.len(),
            m == needle@.len(),
            i <= last,
            forall|k: int| 0 <= k < i ==> !occurs_at(needle@, text@, k),
        decreases last - i,
    {
        if found_at(needle, text, i) {
            return true;
        }
        i += 1;
    }
    found_at(needle, text, last)
}

impl AppFilter {
    /// Whether `app` passes every filter that is set.
    pub fn matches(&self, app: &App) -> (r: bool)
        ensures
            r == self@.matches(app@),
    {
        let by_keyword = match &self.keyword {
            Some(keyword) => contains_text(keyword.as_str(), app.name.as_str()),
            None => true,
        };
        let by_identifier = match &self.identifier {
            Some(identifier) => same_text(&app.identifier, identifier),
            None => true,
        };
        let by_creator = match self.creator_id {
            Some(creator_id) => app.creator_id == creator_id,
            None => true,
        };
        by_keyword && by_identifier && by_creator
    }
}

/// A store that keeps its rows in memory.
#[derive(Debug, Clone, PartialEq, Eq)]
pub struct Store {
    users: Vec<User>,
    articles: Vec<Article>,
    apps: Vec<App>,
    next_user_id: i64,
    next_article_id: i64,
    next_app_id: i64,
}

impl View for Store {
    type V = StoreView;

    closed spec fn view(&self) -> StoreView {
        StoreView {
            users: self.users.deep_view(),
            articles: self.articles.deep_view(),
            apps: self.apps.deep_view(),
            next_user_id: self.next_user_id,
            next_article_id: self.next_article_id,
            next_app_id: self.next_app_id,
        }
    }
}

impl Store {
    /// Whether the rows obey the store's uniqueness and id rules.
    pub open spec fn well_formed(&self) -> bool {
        self@.well_formed()
    }

    /// A store without rows.
    pub fn new() -> (store: Store)
        ensures
            store@ == StoreView::empty(),
            store.well_formed(),
    {
        let store = Store {
            users: Vec::new(),
            articles: Vec::new(),
            apps: Vec::new(),
            next_user_id: 1,
            next_article_id: 1,
            next_app_id: 1,
        };
        assert(store.users.deep_view() =~= Seq::empty());
        assert(store.articles.deep_view() =~= Seq::empty());
        assert(store.apps.deep_view() =~= Seq::empty());
        store
    }

    fn find_user_by_email(&self, email: &String) -> (r: Option<usize>)
        ensures
            r is Some == self@.user_index_by_email(email@) is Some,
            r matches Some(i) ==> i < self.users.len() && self@.user_index_by_email(email@) == Some(
                i as int,
            ),
    {
        let ghost wanted = |u: UserView| u.email == email@;
        let mut i: usize = 0;
        while i < self.users.len()
            invariant
                i <= self.users.len(),
                wanted == |u: UserView| u.email == email@,
                forall|j: int| 0 <= j < i ==> !wanted(#[trigger] self@.users[j]),
            decreases self.users.len() - i,
        {
            if same_text(&self.users[i].email, email) {
                proof {
                    lemma_first_index_found(self@.users, wanted, i as int);
                }
                return Some(i);
            }
            i += 1;
        }
        proof {
            lemma_first_index_absent(self@.users, wanted);
        }
        None
    }

    fn find_user_by_username(&self, username: &String) -> (r: Option<usize>)
        ensures
            r is Some == self@.user_index_by_username(username@) is Some,
            r matches Some(i) ==> i < self.users.len() && self@.user_index_by_username(username@)
                == Some(i as int),
    {
        let ghost wanted = |u: UserView| u.username == username@;
        let mut i: usize = 0;
        while i < self.users.len()
            invariant
                i <= self.users.len(),
                wanted == |u: UserView| u.username == username@,
                forall|j: int| 0 <= j < i ==> !wanted(#[trigger] self@.users[j]),
            decreases self.users.len() - i,
        {
            if same_text(&self.users[i].username, username) {
                proof {
                    lemma_first_index_found(self@.users, wanted, i as int);
                }
                return Some(i);
            }
            i += 1;
        }
        proof {
            lemma_first_index_absent(self@.users, wanted);
        }
        None
    }

    fn find_user(&self, id: i64) -> (r: Option<usize>)
        ensures
            r is Some == self@.user_index(id) is Some,
            r matches Some(i) ==> i < self.users.len() && self@.user_index(id) == Some(i as int),
    {
        let ghost wanted = |u: UserView| u.id == id;
        let mut i: usize = 0;
        while i < self.users.len()
            invariant
                i <= self.users.len(),
                wanted == |u: UserView| u.id == id,
                forall|j: int| 0 <= j < i ==> !wanted(#[trigger] self@.users[j]),
            decreases self.users.len() - i,
        {
            if self.users[i].id == id {
                proof {
                    lemma_first_index_found(self@.users, wanted, i as int);
                }
                return Some(i);
            }
            i += 1;
        }
        proof {
            lemma_first_index_absent(self@.users, wanted);
        }
        None
    }

    fn find_article(&self, id: i64) -> (r: Option<usize>)
        ensures
            r is Some == self@.article_index(id) is Some,
            r matches Some(i) ==> i < self.articles.len() && self@.article_index(id) == Some(
                i as int,
            ),
    {
        let ghost wanted = |a: ArticleView| a.id == id;
        let mut i: usize = 0;
        while i < self.articles.len()
            invariant
                i <= self.articles.len(),
                wanted == |a: ArticleView| a.id == id,
                forall|j: int| 0 <= j < i ==> !wanted(#[trigger] self@.articles[j]),
            decreases self.articles.len() - i,
        {
            if self.articles[i].id == id {
                proof {
                    lemma_first_index_found(self@.articles, wanted, i as int);
                }
                return Some(i);
            }
            i += 1;
        }
        proof {
            lemma_first_index_absent(self@.articles, wanted);
        }
        None
    }

    fn find_app(&self, id: i64) -> (r: Option<usize>)
        ensures
            r is Some == self@.app_index(id) is Some,
            r matches Some(i) ==> i < self.apps.len() && self@.app_index(id) == Some(i as int),
    {
        let ghost wanted = |a: AppView| a.id == id;
        let mut i: usize = 0;
        while i < self.apps.len()
            invariant
                i <= self.apps.len(),
                wanted == |a: AppView| a.id == id,
                forall|j: int| 0 <= j < i ==> !wanted(#[trigger] self@.apps[j]),
            decreases self.apps.len() - i,
        {
            if self.apps[i].id == id {
                proof {
                    lemma_first_index_found(self@.apps, wanted, i as int);
                }
                return Some(i);
            }
            i += 1;
        }
        proof {
            lemma_first_index_absent(self@.apps, wanted);
        }
        None
    }

    fn find_app_by_identifier(&self, identifier: &String) -> (r: Option<usize>)
        ensures
            r is Some == self@.app_index_by_identifier(identifier@) is Some,
            r matches Some(i) ==> i < self.apps.len() && self@.app_index_by_identifier(
                identifier@,
            ) == Some(i as int),
    {
        let ghost wanted = |a: AppView| a.identifier == identifier@;
        let mut i: usize = 0;
        while i < self.apps.len()
            invariant
                i <= self.apps.len(),
                wanted == |a: AppView| a.identifier == identifier@,
                forall|j: int| 0 <= j < i ==> !wanted(#[trigger] self@.apps[j]),
            decreases self.apps.len() - i,
        {
            if same_text(&self.apps[i].identifier, identifier) {
                proof {
                    lemma_first_index_found(self@.apps, wanted, i as int);
                }
                return Some(i);
            }
            i += 1;
        }
        proof {
            lemma_first_index_absent(self@.apps, wanted);
        }
        None
    }
}

impl Store {
    fn visible_articles(&self, viewer: i64) -> (out: Vec<Article>)
        ensures
            out.deep_view() == self@.visible_articles(viewer),
    {
        let ghost wanted = |a: ArticleView| a.visible_to(viewer);
        let mut out: Vec<Article> = Vec::new();
        let mut i: usize = 0;
        proof {
            reveal(Seq::filter);
        }
        while i < self.articles.len()
            invariant
                i <= self.articles.len(),
                wanted == |a: ArticleView| a.visible_to(viewer),
                out.deep_view() == self@.articles.take(i as int).filter(wanted),
            decreases self.articles.len() - i,
        {
            proof {
                self@.articles.take(i as int).lemma_filter_push(self@.articles[i as int], wanted);
                assert(self@.articles.take(i + 1) =~= self@.articles.take(i as int).push(
                    self@.articles[i as int],
                ));
            }
            if self.articles[i].visible_to(viewer) {
                let ghost before = out.deep_view();
                out.push(self.articles[i].duplicate());
            }
            i += 1;
        }
        assert(self@.articles.take(self.articles.len() as int) =~= self@.articles);
        out
    }

    fn matching_apps(&self, filter: &AppFilter) -> (out: Vec<App>)
        ensures
            out.deep_view() == self@.matching_apps(filter@),
    {
        let ghost wanted = |a: AppView| filter@.matches(a);
        let mut out: Vec<App> = Vec::new();
        let mut i: usize = 0;
        proof {
            reveal(Seq::filter);
        }
        while i < self.apps.len()
            invariant
                i <= self.apps.len(),
                wanted == |a: AppView| filter@.matches(a),
                out.deep_view() == self@.apps.take(i as int).filter(wanted),
            decreases self.apps.len() - i,
        {
            proof {
                self@.apps.take(i as int).lemma_filter_push(self@.apps[i as int], wanted);
                assert(self@.apps.take(i + 1) =~= self@.apps.take(i as int).push(
                    self@.apps[i as int],
                ));
            }
            if filter.matches(&self.apps[i]) {
                let ghost before = out.deep_view();
                out.push(self.apps[i].duplicate());
            }
            i += 1;
        }
        assert(self@.apps.take(self.apps.len() as int) =~= self@.apps);
        out
    }
}

/// The rows `offset .. offset + limit` of `rows`, as far as they exist.
fn page_of_apps(rows: &Vec<App>, limit: i64, offset: i64) -> (out: Vec<App>)
    requires
        0 <= limit,
        0 <= offset,
    ensures
        out.deep_view() == page_of(rows.deep_view(), limit, offset),
{
    let len = rows.len();
    let from: usize = if (offset as u64) <= (len as u64) {
        offset as usize
    } else {
        len
    };
    let to: usize = if (limit as u64) <= ((len - from) as u64) {
        from + (limit as usize)
    } else {
        len
    };
    let mut out: Vec<App> = Vec::new();
    let mut i: usize = from;
    while i < to
        invariant
            from <= i <= to <= rows.len(),
            out.deep_view() == rows.deep_view().subrange(from as int, i as int),
        decreases to - i,
    {
        let ghost before = out.deep_view();
        out.push(rows[i].duplicate());
        assert(out.deep_view() =~= before.push(rows[i as int]@));
        i += 1;
    }
    out
}

impl Store {
    fn insert_user(
        &mut self,
        username: &String,
        email: &String,
        verification_code: &String,
        expires_at: i64,
        now: i64,
    ) -> (reply: StoreReply)
        requires
            old(self).well_formed(),
        ensures
            (final(self)@, reply@) == old(self)@.execute(
                StoreRequestView::InsertUser {
                    username: username@,
                    email: email@,
                    verification_code: verification_code@,
                    expires_at,
                },
                now,
            ),
    {
        if self.find_user_by_email(email).is_some() || self.find_user_by_username(
            username,
        ).is_some() || self.next_user_id == i64::MAX {
            return StoreReply::Failed;
        }
        let id = self.next_user_id;
        let user = User {
            id,
            username: username.clone(),
            email: email.clone(),
            email_verified: 0,
            verification_code: Some(verification_code.clone()),
            verification_code_expires_at: Some(expires_at),
            created_at: now,
            updated_at: now,
        };
        self.users.push(user);
        self.next_user_id = id + 1;
        assert(self@.users =~= old(self)@.users.push(user@));
        StoreReply::Written { rows_affected: 1, last_insert_id: id as u64 }
    }

    fn confirm_user(&mut self, id: i64, now: i64) -> (reply: StoreReply)
        ensures
            (final(self)@, reply@) == old(self)@.execute(StoreRequestView::ConfirmUser { id }, now),
    {
        match self.find_user(id) {
            Some(i) => {
                let mut user = self.users[i].duplicate().confirm();
                user.updated_at = now;
                self.users.set(i, user);
                assert(self@.users =~= old(self)@.users.update(i as int, user@));
                StoreReply::Written { rows_affected: 1, last_insert_id: 0 }
            },
            None => StoreReply::Written { rows_affected: 0, last_insert_id: 0 },
        }
    }

    fn insert_article(
        &mut self,
        title: &String,
        content: &String,
        author_id: i64,
        status: i8,
        now: i64,
    ) -> (reply: StoreReply)
        requires
            old(self).well_formed(),
        ensures
            (final(self)@, reply@) == old(self)@.execute(
                StoreRequestView::InsertArticle {
                    title: title@,
                    content: content@,
                    author_id,
                    status,
                },
                now,
            ),
    {
        if !valid_status(status) || self.find_user(author_id).is_none() || self.next_article_id
            == i64::MAX {
            return StoreReply::Failed;
        }
        let id = self.next_article_id;
        let article = Article {
            id,
            title: title.clone(),
            content: content.clone(),
            author_id,
            status,
            created_at: now,
            updated_at: now,
        };
        self.articles.insert(0, article);
        self.next_article_id = id + 1;
        assert(self@.articles =~= seq![article@] + old(self)@.articles);
        StoreReply::Written { rows_affected: 1, last_insert_id: id as u64 }
    }

    fn update_article(
        &mut self,
        id: i64,
        author_id: i64,
        patch: &crate::models::article::UpdateArticleRequest,
        now: i64,
    ) -> (reply: StoreReply)
        ensures
            (final(self)@, reply@) == old(self)@.execute(
                StoreRequestView::UpdateArticle { id, author_id, patch: patch@ },
                now,
            ),
    {
        if patch.is_empty() || !patch.status_is_valid() {
            return StoreReply::Failed;
        }
        match self.find_article(id) {
            Some(i) => {
                if self.articles[i].owned_by(author_id) {
                    let article = self.articles[i].patched(patch, now);
                    self.articles.set(i, article);
                    assert(self@.articles =~= old(self)@.articles.update(i as int, article@));
                    StoreReply::Written { rows_affected: 1, last_insert_id: 0 }
                } else {
                    StoreReply::Written { rows_affected: 0, last_insert_id: 0 }
                }
            },
            None => StoreReply::Written { rows_affected: 0, last_insert_id: 0 },
        }
    }

    fn delete_article(&mut self, id: i64, author_id: i64, now: i64) -> (reply: StoreReply)
        ensures
            (final(self)@, reply@) == old(self)@.execute(
                StoreRequestView::DeleteArticle { id, author_id },
                now,
            ),
    {
        match self.find_article(id) {
            Some(i) => {
                if self.articles[i].owned_by(author_id) {
                    let _ = self.articles.remove(i);
                    assert(self@.articles =~= old(self)@.articles.remove(i as int));
                    StoreReply::Written { rows_affected: 1, last_insert_id: 0 }
                } else {
                    StoreReply::Written { rows_affected: 0, last_insert_id: 0 }
                }
            },
            None => StoreReply::Written { rows_affected: 0, last_insert_id: 0 },
        }
    }

    fn insert_app(
        &mut self,
        name: &String,
        description: &String,
        identifier: &String,
        creator_id: i64,
        now: i64,
    ) -> (reply: StoreReply)
        requires
            old(self).well_formed(),
        ensures
            (final(self)@, reply@) == old(self)@.execute(
                StoreRequestView::InsertApp {
                    name: name@,
                    description: description@,
                    identifier: identifier@,
                    creator_id,
                },
                now,
            ),
    {
        if self.find_app_by_identifier(identifier).is_some() || self.next_app_id == i64::MAX {
            return StoreReply::Failed;
        }
        let id = self.next_app_id;
        let app = App {
            id,
            name: name.clone(),
            description: description.clone(),
            identifier: identifier.clone(),
            creator_id,
            created_at: now,
            updater_id: creator_id,
            updated_at: now,
        };
        self.apps.insert(0, app);
        self.next_app_id = id + 1;
        assert(self@.apps =~= seq![app@] + old(self)@.apps);
        StoreReply::Written { rows_affected: 1, last_insert_id: id as u64 }
    }

    fn update_app(
        &mut self,
        id: i64,
        updater_id: i64,
        patch: &crate::models::app::UpdateAppRequest,
        now: i64,
    ) -> (reply: StoreReply)
        ensures
            (final(self)@, reply@) == old(self)@.execute(
                StoreRequestView::UpdateApp { id, updater_id, patch: patch@ },
                now,
            ),
    {
        match self.find_app(id) {
            Some(i) => {
                let app = self.apps[i].patched(patch, updater_id, now);
                self.apps.set(i, app);
                assert(self@.apps =~= old(self)@.apps.update(i as int, app@));
                StoreReply::Written { rows_affected: 1, last_insert_id: 0 }
            },
            None => StoreReply::Written { rows_affected: 0, last_insert_id: 0 },
        }
    }

    fn delete_app(&mut self, id: i64, now: i64) -> (reply: StoreReply)
        ensures
            (final(self)@, reply@) == old(self)@.execute(StoreRequestView::DeleteApp { id }, now),
    {
        match self.find_app(id) {
            Some(i) => {
                let _ = self.apps.remove(i);
                assert(self@.apps =~= old(self)@.apps.remove(i as int));
                StoreReply::Written { rows_affected: 1, last_insert_id: 0 }
            },
            None => StoreReply::Written { rows_affected: 0, last_insert_id: 0 },
        }
    }

    /// Runs `request` at the instant `now` and answers it.
    pub fn execute(&mut self, request: &StoreRequest, now: i64) -> (reply: StoreReply)
        requires
            old(self).well_formed(),
        ensures
            final(self).well_formed(),
            (final(self)@, reply@) == old(self)@.execute(request@, now),
    {
        proof {
            law_execute_keeps_well_formed(self@, request@, now);
        }
        match request {
            StoreRequest::FindUserByEmail { email } => match self.find_user_by_email(email) {
                Some(i) => StoreReply::User(Some(self.users[i].duplicate())),
                None => StoreReply::User(None),
            },
            StoreRequest::FindUserById { id } => match self.find_user(*id) {
                Some(i) => StoreReply::User(Some(self.users[i].duplicate())),
                None => StoreReply::User(None),
            },
            StoreRequest::InsertUser {
                username,
                email,
                verification_code,
                expires_at,
            } => self.insert_user(username, email, verification_code, *expires_at, now),
            StoreRequest::ConfirmUser { id } => self.confirm_user(*id, now),
            StoreRequest::InsertArticle {
                title,
                content,
                author_id,
                status,
            } => self.insert_article(title, content, *author_id, *status, now),
            StoreRequest::FindArticle { id } => match self.find_article(*id) {
                Some(i) => StoreReply::Article(Some(self.articles[i].duplicate())),
                None => StoreReply::Article(None),
            },
            StoreRequest::ListArticles { viewer } => StoreReply::Articles(
                self.visible_articles(*viewer),
            ),
            StoreRequest::UpdateArticle { id, author_id, patch } => self.update_article(
                *id,
                *author_id,
                patch,
                now,
            ),
            StoreRequest::DeleteArticle { id, author_id } => self.delete_article(
                *id,
                *author_id,
                now,
            ),
            StoreRequest::FindAppByIdentifier {
                identifier,
            } => match self.find_app_by_identifier(identifier) {
                Some(i) => StoreReply::App(Some(self.apps[i].duplicate())),
                None => StoreReply::App(None),
            },
            StoreRequest::InsertApp {
                name,
                description,
                identifier,
                creator_id,
            } => self.insert_app(name, description, identifier, *creator_id, now),
            StoreRequest::UpdateApp { id, updater_id, patch } => self.update_app(
                *id,
                *updater_id,
                patch,
                now,
            ),
            StoreRequest::DeleteApp { id } => self.delete_app(*id, now),
            StoreRequest::FindApp { id } => match self.find_app(*id) {
                Some(i) => StoreReply::App(Some(self.apps[i].duplicate())),
                None => StoreReply::App(None),
            },
            StoreRequest::ListApps { filter, limit, offset } => {
                if *limit < 0 || *offset < 0 {
                    StoreReply::Failed
                } else {
                    let matching = self.matching_apps(filter);
                    StoreReply::Apps(page_of_apps(&matching, *limit, *offset))
                }
            },
            StoreRequest::CountApps { filter } => {
                let matching = self.matching_apps(filter);
                if matching.len() as u64 > i64::MAX as u64 {
                    StoreReply::Failed
                } else {
                    StoreReply::Count(matching.len() as i64)
                }
            },
        }
    }
}

} // verus!
