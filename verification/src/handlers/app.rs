//! The application endpoints: create, update, delete, list, read.
//!
//! An application's identifier is unique. Any authenticated caller may read,
//! change or remove any application; who created it and who changed it last
//! is recorded, not enforced.

use vstd::prelude::*;

use crate::handlers::{
    done, finish, internal_error, Action, ActionView, Body, BodyView, Event, EventView, Rejection, Response,
    ResponseView, Step, STATUS_CREATED, STATUS_OK,
};
use crate::models::app::{
    page_offset, App, AppListResponse, AppListView, AppPatchView, AppQuery, AppResponse, AppView,
    CreateAppRequest, UpdateAppRequest,
};
use crate::store::{
    AppFilter, AppFilterView, StoreReply, StoreReplyView, StoreRequest, StoreRequestView,
};

verus! {

/// The refusal of an application whose identifier is taken.
pub open spec fn duplicate_identifier() -> ResponseView {
    ResponseView::rejected(Rejection::DuplicateIdentifier, "应用标识已存在"@)
}

/// `POST /apps` by `caller`.
///
/// The identifier is looked up first; where an application has it already
/// the request is refused. Otherwise the application is written with
/// `caller` as its creator and last updater.
pub open spec fn create_app_spec(
    step: Step,
    caller: i64,
    name: Seq<char>,
    description: Seq<char>,
    identifier: Seq<char>,
    event: EventView,
) -> (Step, ActionView) {
    match (step, event) {
        (Step::Start, EventView::Begin) => (
            Step::Looking,
            ActionView::Query(StoreRequestView::FindAppByIdentifier { identifier }),
        ),
        (Step::Looking, EventView::Store(StoreReplyView::App(found))) => {
            if found is Some {
                finish(duplicate_identifier())
            } else {
                (
                    Step::Writing,
                    ActionView::Query(
                        StoreRequestView::InsertApp {
                            name,
                            description,
                            identifier,
                            creator_id: caller,
                        },
                    ),
                )
            }
        },
        (Step::Looking, _) => finish(
            ResponseView::rejected(Rejection::StoreFailure, "检查应用标识失败"@),
        ),
        (Step::Writing, EventView::Store(StoreReplyView::Written { rows_affected, last_insert_id })) => finish(
            ResponseView::message(STATUS_CREATED, "应用创建成功"@),
        ),
        (Step::Writing, _) => finish(ResponseView::rejected(Rejection::StoreFailure, "创建应用失败"@)),
        _ => finish(internal_error()),
    }
}

/// `POST /apps` by `caller`: one step of it.
pub fn create_app(step: Step, caller: i64, request: &CreateAppRequest, event: Event) -> (r: (
    Step,
    Action,
))
    ensures
        (r.0, r.1@) == create_app_spec(
            step,
            caller,
            request.name@,
            request.description@,
            request.identifier@,
            event@,
        ),
{
    match (step, event) {
        (Step::Start, Event::Begin) => (
            Step::Looking,
            Action::Query(
                StoreRequest::FindAppByIdentifier { identifier: request.identifier.clone() },
            ),
        ),
        (Step::Looking, Event::Store(StoreReply::App(found))) => {
            if found.is_some() {
                done(Response::rejected(Rejection::DuplicateIdentifier, "应用标识已存在"))
            } else {
                (
                    Step::Writing,
                    Action::Query(
                        StoreRequest::InsertApp {
                            name: request.name.clone(),
                            description: request.description.clone(),
                            identifier: request.identifier.clone(),
                            creator_id: caller,
                        },
                    ),
                )
            }
        },
        (Step::Looking, _) => done(Response::rejected(Rejection::StoreFailure, "检查应用标识失败")),
        (Step::Writing, Event::Store(StoreReply::Written { rows_affected, last_insert_id })) => done(
            Response::message(STATUS_CREATED, "应用创建成功"),
        ),
        (Step::Writing, _) => done(Response::rejected(Rejection::StoreFailure, "创建应用失败")),
        _ => done(Response::rejected(Rejection::StoreFailure, "Internal server error")),
    }
}

/// The refusal of an update that names no field.
pub open spec fn no_app_fields_to_update() -> ResponseView {
    ResponseView::rejected(Rejection::NoFieldsToUpdate, "没有要更新的字段"@)
}

/// `PUT /apps/{id}` by `caller`.
///
/// A patch that names no field is refused, and the store is asked for
/// nothing. Otherwise the supplied fields are written and `caller` is
/// recorded as the last updater, whoever created the application.
pub open spec fn update_app_spec(
    step: Step,
    caller: i64,
    id: i64,
    patch: AppPatchView,
    event: EventView,
) -> (Step, ActionView) {
    match (step, event) {
        (Step::Start, EventView::Begin) => {
            if patch.is_empty() {
                finish(no_app_fields_to_update())
            } else {
                (
                    Step::Writing,
                    ActionView::Query(
                        StoreRequestView::UpdateApp { id, updater_id: caller, patch },
                    ),
                )
            }
        },
        (Step::Writing, EventView::Store(StoreReplyView::Written { rows_affected, last_insert_id })) => finish(
            ResponseView::message(STATUS_OK, "应用更新成功"@),
        ),
        (Step::Writing, _) => finish(ResponseView::rejected(Rejection::StoreFailure, "更新应用失败"@)),
        _ => finish(internal_error()),
    }
}

/// `PUT /apps/{id}` by `caller`: one step of it.
pub fn update_app(step: Step, caller: i64, id: i64, patch: &UpdateAppRequest, event: Event) -> (r:
    (Step, Action))
    ensures
        (r.0, r.1@) == update_app_spec(step, caller, id, patch@, event@),
{
    match (step, event) {
        (Step::Start, Event::Begin) => {
            if patch.is_empty() {
                done(Response::rejected(Rejection::NoFieldsToUpdate, "没有要更新的字段"))
            } else {
                let patch = UpdateAppRequest {
                    name: patch.name.clone(),
                    description: patch.description.clone(),
                };
                (
                    Step::Writing,
                    Action::Query(StoreRequest::UpdateApp { id, updater_id: caller, patch }),
                )
            }
        },
        (Step::Writing, Event::Store(StoreReply::Written { rows_affected, last_insert_id })) => done(
            Response::message(STATUS_OK, "应用更新成功"),
        ),
        (Step::Writing, _) => done(Response::rejected(Rejection::StoreFailure, "更新应用失败")),
        _ => done(Response::rejected(Rejection::StoreFailure, "Internal server error")),
    }
}

/// `DELETE /apps/{id}`: the application is removed, whoever asks.
pub open spec fn delete_app_spec(step: Step, id: i64, event: EventView) -> (Step, ActionView) {
    match (step, event) {
        (Step::Start, EventView::Begin) => (
            Step::Writing,
            ActionView::Query(StoreRequestView::DeleteApp { id }),
        ),
        (Step::Writing, EventView::Store(StoreReplyView::Written { rows_affected, last_insert_id })) => finish(
            ResponseView::message(STATUS_OK, "应用删除成功"@),
        ),
        (Step::Writing, _) => finish(ResponseView::rejected(Rejection::StoreFailure, "删除应用失败"@)),
        _ => finish(internal_error()),
    }
}

/// `DELETE /apps/{id}`: one step of it.
pub fn delete_app(step: Step, id: i64, event: Event) -> (r: (Step, Action))
    ensures
        (r.0, r.1@) == delete_app_spec(step, id, event@),
{
    match (step, event) {
        (Step::Start, Event::Begin) => (
            Step::Writing,
            Action::Query(StoreRequest::DeleteApp { id }),
        ),
        (Step::Writing, Event::Store(StoreReply::Written { rows_affected, last_insert_id })) => done(
            Response::message(STATUS_OK, "应用删除成功"),
        ),
        (Step::Writing, _) => done(Response::rejected(Rejection::StoreFailure, "删除应用失败")),
        _ => done(Response::rejected(Rejection::StoreFailure, "Internal server error")),
    }
}

/// The answer for an application that does not exist.
pub open spec fn app_not_found() -> ResponseView {
    ResponseView::rejected(Rejection::NotFound, "应用不存在"@)
}

/// `GET /apps/{id}`: the application, where it exists.
pub open spec fn get_app_spec(step: Step, id: i64, event: EventView) -> (Step, ActionView) {
    match (step, event) {
        (Step::Start, EventView::Begin) => (
            Step::Looking,
            ActionView::Query(StoreRequestView::FindApp { id }),
        ),
        (Step::Looking, EventView::Store(StoreReplyView::App(found))) => {
            if found is Some {
                finish(ResponseView::ok(BodyView::App(found->0)))
            } else {
                finish(app_not_found())
            }
        },
        (Step::Looking, _) => finish(ResponseView::rejected(Rejection::StoreFailure, "获取应用失败"@)),
        _ => finish(internal_error()),
    }
}

/// `GET /apps/{id}`: one step of it.
pub fn get_app(step: Step, id: i64, event: Event) -> (r: (Step, Action))
    ensures
        (r.0, r.1@) == get_app_spec(step, id, event@),
{
    match (step, event) {
        (Step::Start, Event::Begin) => (Step::Looking, Action::Query(StoreRequest::FindApp { id })),
        (Step::Looking, Event::Store(StoreReply::App(found))) => {
            match found {
                Some(app) => done(Response::ok(Body::App(app.into_response()))),
                None => done(Response::rejected(Rejection::NotFound, "应用不存在")),
            }
        },
        (Step::Looking, _) => done(Response::rejected(Rejection::StoreFailure, "获取应用失败")),
        _ => done(Response::rejected(Rejection::StoreFailure, "Internal server error")),
    }
}

impl AppQuery {
    /// The filters of the query.
    pub open spec fn filter_view(&self) -> AppFilterView {
        AppFilterView {
            keyword: self.keyword.deep_view(),
            identifier: self.identifier.deep_view(),
            creator_id: self.creator_id,
        }
    }

    /// The filters of the query.
    pub fn filter(&self) -> (r: AppFilter)
        ensures
            r@ == self.filter_view(),
    {
        AppFilter {
            keyword: self.keyword.clone(),
            identifier: self.identifier.clone(),
            creator_id: self.creator_id,
        }
    }
}

/// Where a listing of applications stands.
#[derive(Debug, Clone, PartialEq, Eq)]
pub enum ListAppsState {
    /// Nothing has happened yet.
    Start,
    /// The page is being read.
    Listing,
    /// The page is here; the matching rows are being counted.
    Counting { apps: Vec<App> },
    /// The client has been answered.
    Done,
}

/// The mathematical value of a [`ListAppsState`].
pub enum ListAppsStateView {
    Start,
    Listing,
    Counting { apps: Seq<AppView> },
    Done,
}

impl View for ListAppsState {
    type V = ListAppsStateView;

    open spec fn view(&self) -> ListAppsStateView {
        match self {
            ListAppsState::Start => ListAppsStateView::Start,
            ListAppsState::Listing => ListAppsStateView::Listing,
            ListAppsState::Counting { apps } => ListAppsStateView::Counting {
                apps: apps.deep_view(),
            },
            ListAppsState::Done => ListAppsStateView::Done,
        }
    }
}

/// The refusal of a page whose row offset does not fit in 64 bits.
pub open spec fn invalid_page() -> ResponseView {
    ResponseView::rejected(Rejection::InvalidPage, "分页参数无效"@)
}

/// `GET /apps`.
///
/// The page defaults to the first and the page size to ten. The store is
/// asked for `page_size` rows from the offset `(page - 1) * page_size` among
/// the applications that pass the filters, then for how many pass them. The
/// answer carries the rows, that number, the page and the page size.
pub open spec fn list_apps_spec(
    state: ListAppsStateView,
    filter: AppFilterView,
    page: i64,
    page_size: i64,
    event: EventView,
) -> (ListAppsStateView, ActionView) {
    match (state, event) {
        (ListAppsStateView::Start, EventView::Begin) => {
            if i64::MIN <= page_offset(page, page_size) <= i64::MAX {
                (
                    ListAppsStateView::Listing,
                    ActionView::Query(
                        StoreRequestView::ListApps {
                            filter,
                            limit: page_size,
                            offset: page_offset(page, page_size) as i64,
                        },
                    ),
                )
            } else {
                (ListAppsStateView::Done, ActionView::Reply(invalid_page()))
            }
        },
        (ListAppsStateView::Listing, EventView::Store(StoreReplyView::Apps(apps))) => (
            ListAppsStateView::Counting { apps },
            ActionView::Query(StoreRequestView::CountApps { filter }),
        ),
        (ListAppsStateView::Listing, _) => (
            ListAppsStateView::Done,
            ActionView::Reply(ResponseView::rejected(Rejection::StoreFailure, "获取应用列表失败"@)),
        ),
        (ListAppsStateView::Counting { apps }, EventView::Store(StoreReplyView::Count(total))) => (
            ListAppsStateView::Done,
            ActionView::Reply(
                ResponseView::ok(BodyView::Apps(AppListView { apps, total, page, page_size })),
            ),
        ),
        (ListAppsStateView::Counting { apps }, _) => (
            ListAppsStateView::Done,
            ActionView::Reply(ResponseView::rejected(Rejection::StoreFailure, "获取应用总数失败"@)),
        ),
        _ => (ListAppsStateView::Done, ActionView::Reply(internal_error())),
    }
}

fn listing_done(response: Response) -> (r: (ListAppsState, Action))
    ensures
        r.0@ == ListAppsStateView::Done,
        r.1@ == ActionView::Reply(response@),
{
    (ListAppsState::Done, Action::Reply(response))
}

/// The outward forms of `apps`, in the same order.
pub fn into_responses(apps: Vec<App>) -> (out: Vec<AppResponse>)
    ensures
        out.deep_view() == apps.deep_view(),
{
    let mut out: Vec<AppResponse> = Vec::new();
    let mut i: usize = 0;
    while i < apps.len()
        invariant
            i <= apps.len(),
            out.len() == i,
            forall|k: int| 0 <= k < i ==> out[k]@ == apps[k]@,
        decreases apps.len() - i,
    {
        out.push(apps[i].duplicate().into_response());
        i += 1;
    }
    out
}

/// `GET /apps`: one step of it.
pub fn list_apps(state: ListAppsState, query: &AppQuery, event: Event) -> (r: (
    ListAppsState,
    Action,
))
    ensures
        (r.0@, r.1@) == list_apps_spec(
            state@,
            query.filter_view(),
            query.page(),
            query.page_size(),
            event@,
        ),
{
    match (state, event) {
        (ListAppsState::Start, Event::Begin) => {
            match query.offset() {
                Some(offset) => (
                    ListAppsState::Listing,
                    Action::Query(
                        StoreRequest::ListApps {
                            filter: query.filter(),
                            limit: query.page_size(),
                            offset,
                        },
                    ),
                ),
                None => listing_done(Response::rejected(Rejection::InvalidPage, "分页参数无效")),
            }
        },
        (ListAppsState::Listing, Event::Store(StoreReply::Apps(apps))) => (
            ListAppsState::Counting { apps },
            Action::Query(StoreRequest::CountApps { filter: query.filter() }),
        ),
        (ListAppsState::Listing, _) => listing_done(
            Response::rejected(Rejection::StoreFailure, "获取应用列表失败"),
        ),
        (ListAppsState::Counting { apps }, Event::Store(StoreReply::Count(total))) => listing_done(
            Response::ok(
                Body::Apps(
                    AppListResponse {
                        apps: into_responses(apps),
                        total,
                        page: query.page(),
                        page_size: query.page_size(),
                    },
                ),
            ),
        ),
        (ListAppsState::Counting { apps }, _) => listing_done(
            Response::rejected(Rejection::StoreFailure, "获取应用总数失败"),
        ),
        _ => listing_done(Response::rejected(Rejection::StoreFailure, "Internal server error")),
    }
}

} // verus!
