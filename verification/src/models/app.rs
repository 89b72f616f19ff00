//! Applications, their list query and its pagination.

use vstd::prelude::*;

verus! {

/// The page a list request gets when it names none.
pub const DEFAULT_PAGE: i64 = 1;

/// The page size a list request gets when it names none.
pub const DEFAULT_PAGE_SIZE: i64 = 10;

/// A stored application. Instants are seconds since the Unix epoch.
#[derive(Debug, Clone, PartialEq, Eq)]
pub struct App {
    pub id: i64,
    pub name: String,
    pub description: String,
    pub identifier: String,
    pub creator_id: i64,
    pub created_at: i64,
    pub updater_id: i64,
    pub updated_at: i64,
}

/// The mathematical value of an [`App`] and of an [`AppResponse`].
pub struct AppView {
    pub id: i64,
    pub name: Seq<char>,
    pub description: Seq<char>,
    pub identifier: Seq<char>,
    pub creator_id: i64,
    pub created_at: i64,
    pub updater_id: i64,
    pub updated_at: i64,
}

impl View for App {
    type V = AppView;

    open spec fn view(&self) -> AppView {
        AppView {
            id: self.id,
            name: self.name@,
            description: self.description@,
            identifier: self.identifier@,
            creator_id: self.creator_id,
            created_at: self.created_at,
            updater_id: self.updater_id,
            updated_at: self.updated_at,
        }
    }
}

impl DeepView for App {
    type V = AppView;

    open spec fn deep_view(&self) -> AppView {
        self.view()
    }
}

impl AppView {
    /// The application after `patch` was written by `updater` at `now`.
    pub open spec fn patched(self, patch: AppPatchView, updater: i64, now: i64) -> AppView {
        AppView {
            name: if patch.name is Some { patch.name->0 } else { self.name },
            description: if patch.description is Some {
                patch.description->0
            } else {
                self.description
            },
            updater_id: updater,
            updated_at: now,
            ..self
        }
    }
}

impl App {
    /// The outward form of the application.
    pub fn into_response(self) -> (r: AppResponse)
        ensures
            r@ == self@,
    {
        AppResponse {
            id: self.id,
            name: self.name,
            description: self.description,
            identifier: self.identifier,
            creator_id: self.creator_id,
            created_at: self.created_at,
            updater_id: self.updater_id,
            updated_at: self.updated_at,
        }
    }

    /// The application after `patch` was written by `updater` at `now`.
    pub fn patched(&self, patch: &UpdateAppRequest, updater: i64, now: i64) -> (r: App)
        ensures
            r@ == self@.patched(patch@, updater, now),
    {
        App {
            id: self.id,
            name: match &patch.name {
                Some(name) => name.clone(),
                None => self.name.clone(),
            },
            description: match &patch.description {
                Some(description) => description.clone(),
                None => self.description.clone(),
            },
            identifier: self.identifier.clone(),
            creator_id: self.creator_id,
            created_at: self.created_at,
            updater_id: updater,
            updated_at: now,
        }
    }

    /// A copy of the application.
    pub fn duplicate(&self) -> (r: App)
        ensures
            r == *self,
    {
        App {
            id: self.id,
            name: self.name.clone(),
            description: self.description.clone(),
            identifier: self.identifier.clone(),
            creator_id: self.creator_id,
            created_at: self.created_at,
            updater_id: self.updater_id,
            updated_at: self.updated_at,
        }
    }
}

/// Body of `POST /apps`.
#[derive(Debug, Clone, PartialEq, Eq)]
pub struct CreateAppRequest {
    pub name: String,
    pub description: String,
    pub identifier: String,
}

/// Body of `PUT /apps/{id}`: only the supplied fields are rewritten.
#[derive(Debug, Clone, PartialEq, Eq)]
pub struct UpdateAppRequest {
    pub name: Option<String>,
    pub description: Option<String>,
}

/// The mathematical value of an [`UpdateAppRequest`].
pub struct AppPatchView {
    pub name: Option<Seq<char>>,
    pub description: Option<Seq<char>>,
}

impl AppPatchView {
    /// Whether the patch names no field at all.
    pub open spec fn is_empty(self) -> bool {
        self.name is None && self.description is None
    }
}

impl UpdateAppRequest {
    /// Whether the request names no field at all.
    pub fn is_empty(&self) -> (r: bool)
        ensures
            r == self@.is_empty(),
    {
        self.name.is_none() && self.description.is_none()
    }
}

impl View for UpdateAppRequest {
    type V = AppPatchView;

    open spec fn view(&self) -> AppPatchView {
        AppPatchView { name: self.name.deep_view(), description: self.description.deep_view() }
    }
}

/// Query string of `GET /apps`.
#[derive(Debug, Clone, PartialEq, Eq)]
pub struct AppQuery {
    pub keyword: Option<String>,
    pub identifier: Option<String>,
    pub creator_id: Option<i64>,
    pub page: Option<i64>,
    pub page_size: Option<i64>,
}

/// The row offset of `page` at `page_size` rows a page: `(page - 1) * page_size`.
pub open spec fn page_offset(page: i64, page_size: i64) -> int {
    (page - 1) * page_size
}

impl AppQuery {
    /// The page asked for, else the first.
    pub open spec fn spec_page(&self) -> i64 {
        if self.page is Some {
            self.page->0
        } else {
            DEFAULT_PAGE
        }
    }

    /// The page size asked for, else ten.
    pub open spec fn spec_page_size(&self) -> i64 {
        if self.page_size is Some {
            self.page_size->0
        } else {
            DEFAULT_PAGE_SIZE
        }
    }

    /// The page asked for, else the first.
    #[verifier::when_used_as_spec(spec_page)]
    pub fn page(&self) -> (r: i64)
        ensures
            r == self.spec_page(),
    {
        match self.page {
            Some(page) => page,
            None => DEFAULT_PAGE,
        }
    }

    /// The page size asked for, else ten.
    #[verifier::when_used_as_spec(spec_page_size)]
    pub fn page_size(&self) -> (r: i64)
        ensures
            r == self.spec_page_size(),
    {
        match self.page_size {
            Some(size) => size,
            None => DEFAULT_PAGE_SIZE,
        }
    }

    /// The row offset of the page asked for, where it fits in 64 bits.
    pub fn offset(&self) -> (r: Option<i64>)
        ensures
            r == (if i64::MIN <= page_offset(self.page(), self.page_size()) <= i64::MAX {
                Some(page_offset(self.page(), self.page_size()) as i64)
            } else {
                None
            }),
    {
        match self.page().checked_sub(1) {
            Some(before) => before.checked_mul(self.page_size()),
            None => {
                if self.page_size() == 0 {
                    Some(0)
                } else {
                    assert((i64::MIN - 1) * self.page_size() < i64::MIN || (i64::MIN - 1)
                        * self.page_size() > i64::MAX) by (nonlinear_arith)
                        requires
                            self.page_size() != 0,
                    ;
                    None
                }
            },
        }
    }
}

/// The outward form of an application.
#[derive(Debug, Clone, PartialEq, Eq)]
pub struct AppResponse {
    pub id: i64,
    pub name: String,
    pub description: String,
    pub identifier: String,
    pub creator_id: i64,
    pub created_at: i64,
    pub updater_id: i64,
    pub updated_at: i64,
}

impl View for AppResponse {
    type V = AppView;

    open spec fn view(&self) -> AppView {
        AppView {
            id: self.id,
            name: self.name@,
            description: self.description@,
            identifier: self.identifier@,
            creator_id: self.creator_id,
            created_at: self.created_at,
            updater_id: self.updater_id,
            updated_at: self.updated_at,
        }
    }
}

impl DeepView for AppResponse {
    type V = AppView;

    open spec fn deep_view(&self) -> AppView {
        self.view()
    }
}

/// One page of applications, with the number of all that match.
#[derive(Debug, Clone, PartialEq, Eq)]
pub struct AppListResponse {
    pub apps: Vec<AppResponse>,
    pub total: i64,
    pub page: i64,
    pub page_size: i64,
}

/// The mathematical value of an [`AppListResponse`].
pub struct AppListView {
    pub apps: Seq<AppView>,
    pub total: i64,
    pub page: i64,
    pub page_size: i64,
}

impl View for AppListResponse {
    type V = AppListView;

    open spec fn view(&self) -> AppListView {
        AppListView {
            apps: self.apps.deep_view(),
            total: self.total,
            page: self.page,
            page_size: self.page_size,
        }
    }
}

} // verus!
