//! Articles and the rules on who may read and change them.

use vstd::prelude::*;

verus! {

/// Status of an article that only its author may read.
pub const STATUS_DRAFT: i8 = 1;

/// Status of an article that anyone may read.
pub const STATUS_PUBLISHED: i8 = 2;

/// Whether `status` is one an article can have: draft or published.
pub open spec fn is_status(status: i8) -> bool {
    status == STATUS_DRAFT || status == STATUS_PUBLISHED
}

/// Whether `status` is one an article can have: draft or published.
pub fn valid_status(status: i8) -> (r: bool)
    ensures
        r == is_status(status),
{
    status == STATUS_DRAFT || status == STATUS_PUBLISHED
}

/// A stored article. Instants are seconds since the Unix epoch.
#[derive(Debug, Clone, PartialEq, Eq)]
pub struct Article {
    pub id: i64,
    pub title: String,
    pub content: String,
    pub author_id: i64,
    pub status: i8,
    pub created_at: i64,
    pub updated_at: i64,
}

/// The mathematical value of an [`Article`].
pub struct ArticleView {
    pub id: i64,
    pub title: Seq<char>,
    pub content: Seq<char>,
    pub author_id: i64,
    pub status: i8,
    pub created_at: i64,
    pub updated_at: i64,
}

impl View for Article {
    type V = ArticleView;

    open spec fn view(&self) -> ArticleView {
        ArticleView {
            id: self.id,
            title: self.title@,
            content: self.content@,
            author_id: self.author_id,
            status: self.status,
            created_at: self.created_at,
            updated_at: self.updated_at,
        }
    }
}

impl DeepView for Article {
    type V = ArticleView;

    open spec fn deep_view(&self) -> ArticleView {
        self.view()
    }
}

impl ArticleView {
    /// Only the author owns an article.
    pub open spec fn owned_by(self, caller: i64) -> bool {
        self.author_id == caller
    }

    /// Published articles are readable by anyone, all others by their author alone.
    pub open spec fn visible_to(self, caller: i64) -> bool {
        self.status == STATUS_PUBLISHED || self.owned_by(caller)
    }

    /// The article after `patch` was written at `now`: supplied fields are
    /// replaced, the rest stays, and the author never changes.
    pub open spec fn patched(self, patch: ArticlePatchView, now: i64) -> ArticleView {
        ArticleView {
            title: if patch.title is Some { patch.title->0 } else { self.title },
            content: if patch.content is Some { patch.content->0 } else { self.content },
            status: if patch.status is Some { patch.status->0 } else { self.status },
            updated_at: now,
            ..self
        }
    }
}

impl Article {
    /// Whether `caller` is the author.
    pub fn owned_by(&self, caller: i64) -> (r: bool)
        ensures
            r == self@.owned_by(caller),
    {
        self.author_id == caller
    }

    /// Whether `caller` may read the article.
    pub fn visible_to(&self, caller: i64) -> (r: bool)
        ensures
            r == self@.visible_to(caller),
    {
        self.status == STATUS_PUBLISHED || self.author_id == caller
    }

    /// The article after `patch` was written at `now`.
    pub fn patched(&self, patch: &UpdateArticleRequest, now: i64) -> (r: Article)
        ensures
            r@ == self@.patched(patch@, now),
    {
        Article {
            id: self.id,
            title: match &patch.title {
                Some(title) => title.clone(),
                None => self.title.clone(),
            },
            content: match &patch.content {
                Some(content) => content.clone(),
                None => self.content.clone(),
            },
            author_id: self.author_id,
            status: match patch.status {
                Some(status) => status,
                None => self.status,
            },
            created_at: self.created_at,
            updated_at: now,
        }
    }

    /// A copy of the article.
    pub fn duplicate(&self) -> (r: Article)
        ensures
            r == *self,
    {
        Article {
            id: self.id,
            title: self.title.clone(),
            content: self.content.clone(),
            author_id: self.author_id,
            status: self.status,
            created_at: self.created_at,
            updated_at: self.updated_at,
        }
    }
}

/// Body of `POST /articles`. A missing status means draft.
#[derive(Debug, Clone, PartialEq, Eq)]
pub struct CreateArticleRequest {
    pub title: String,
    pub content: String,
    pub status: Option<i8>,
}

impl CreateArticleRequest {
    /// The status the new article gets: the one asked for, else draft.
    pub fn effective_status(&self) -> (r: i8)
        ensures
            r == (if self.status is Some { self.status->0 } else { STATUS_DRAFT }),
    {
        match self.status {
            Some(status) => status,
            None => STATUS_DRAFT,
        }
    }
}

/// Body of `PUT /articles/{id}`: only the supplied fields are rewritten.
#[derive(Debug, Clone, PartialEq, Eq)]
pub struct UpdateArticleRequest {
    pub title: Option<String>,
    pub content: Option<String>,
    pub status: Option<i8>,
}

/// The mathematical value of an [`UpdateArticleRequest`].
pub struct ArticlePatchView {
    pub title: Option<Seq<char>>,
    pub content: Option<Seq<char>>,
    pub status: Option<i8>,
}

impl ArticlePatchView {
    /// Whether the patch names no field at all.
    pub open spec fn is_empty(self) -> bool {
        self.title is None && self.content is None && self.status is None
    }

    /// Whether the status the patch names, if it names one, is draft or published.
    pub open spec fn status_is_valid(self) -> bool {
        self.status is Some ==> is_status(self.status->0)
    }
}

impl View for UpdateArticleRequest {
    type V = ArticlePatchView;

    open spec fn view(&self) -> ArticlePatchView {
        ArticlePatchView {
            title: self.title.deep_view(),
            content: self.content.deep_view(),
            status: self.status,
        }
    }
}

impl UpdateArticleRequest {
    /// Whether the request names no field at all.
    pub fn is_empty(&self) -> (r: bool)
        ensures
            r == self@.is_empty(),
    {
        self.title.is_none() && self.content.is_none() && self.status.is_none()
    }

    /// Whether the status the request names, if it names one, is draft or published.
    pub fn status_is_valid(&self) -> (r: bool)
        ensures
            r == self@.status_is_valid(),
    {
        match self.status {
            Some(status) => valid_status(status),
            None => true,
        }
    }
}

/// A non-author never sees a draft, and the author sees the article whatever its status.
pub proof fn law_draft_visibility(article: ArticleView, caller: i64)
    ensures
        article.visible_to(article.author_id),
        article.status == STATUS_DRAFT && caller != article.author_id ==> !article.visible_to(
            caller,
        ),
{
}

/// Writing a patch never changes who owns the article, nor its id.
pub proof fn law_patch_keeps_owner(article: ArticleView, patch: ArticlePatchView, now: i64)
    ensures
        article.patched(patch, now).author_id == article.author_id,
        article.patched(patch, now).id == article.id,
        article.patched(patch, now).created_at == article.created_at,
{
}

/// Writing a patch with a valid status leaves a draft or published article
/// draft or published.
pub proof fn law_patch_keeps_status_valid(article: ArticleView, patch: ArticlePatchView, now: i64)
    requires
        is_status(article.status),
        patch.status_is_valid(),
    ensures
        is_status(article.patched(patch, now).status),
{
}

} // verus!
