//! The endpoints as one machine, and a backend that drives them against
//! the in-memory store.
//!
//! [`Endpoint`] holds a request in flight. [`run`] says what serving it to
//! the end does to a store and what the client is answered; [`Backend::serve`]
//! computes exactly that.

use vstd::prelude::*;

use crate::config::auth::JwtConfig;
use crate::handlers::app::{
    create_app, create_app_spec, delete_app, delete_app_spec, get_app, get_app_spec, list_apps,
    list_apps_spec, update_app, update_app_spec, ListAppsState, ListAppsStateView,
};
use crate::handlers::article::{
    create_article, create_article_spec, delete_article, delete_article_spec, get_article,
    get_article_spec, list_articles, list_articles_spec, update_article, update_article_spec,
};
use crate::handlers::auth::{
    login, login_spec, me, me_spec, register, register_spec, LoginState, LoginStateView,
    RegisterState, RegisterStateView,
};
use crate::handlers::{
    internal_error, Action, ActionView, Event, EventView, Rejection, Response, ResponseView, Step,
};
use crate::models::app::{AppPatchView, AppQuery, CreateAppRequest, UpdateAppRequest};
use crate::models::article::{ArticlePatchView, CreateArticleRequest, UpdateArticleRequest};
use crate::models::{LoginRequest, RegisterRequest};
use crate::store::memory::Store;
use crate::store::model::StoreView;
use crate::store::AppFilterView;
use crate::utils::email::{Mail, MailView};

verus! {

/// A request in flight: which endpoint serves it, what was asked, who
/// asked, and where the endpoint stands.
#[derive(Debug, Clone, PartialEq, Eq)]
pub enum Endpoint {
    Register { state: RegisterState, request: RegisterRequest },
    Login { state: LoginState, request: LoginRequest, config: JwtConfig },
    Me { step: Step, caller: i64 },
    CreateArticle { step: Step, caller: i64, request: CreateArticleRequest },
    GetArticle { step: Step, caller: i64, id: i64 },
    ListArticles { step: Step, caller: i64 },
    UpdateArticle { step: Step, caller: i64, id: i64, patch: UpdateArticleRequest },
    DeleteArticle { step: Step, caller: i64, id: i64 },
    CreateApp { step: Step, caller: i64, request: CreateAppRequest },
    UpdateApp { step: Step, caller: i64, id: i64, patch: UpdateAppRequest },
    DeleteApp { step: Step, id: i64 },
    ListApps { state: ListAppsState, query: AppQuery },
    GetApp { step: Step, id: i64 },
}

/// The mathematical value of an [`Endpoint`].
pub enum EndpointView {
    Register { state: RegisterStateView, username: Seq<char>, email: Seq<char> },
    Login { state: LoginStateView, email: Seq<char>, code: Seq<char>, secret: Seq<char> },
    Me { step: Step, caller: i64 },
    CreateArticle {
        step: Step,
        caller: i64,
        title: Seq<char>,
        content: Seq<char>,
        status: Option<i8>,
    },
    GetArticle { step: Step, caller: i64, id: i64 },
    ListArticles { step: Step, caller: i64 },
    UpdateArticle { step: Step, caller: i64, id: i64, patch: ArticlePatchView },
    DeleteArticle { step: Step, caller: i64, id: i64 },
    CreateApp {
        step: Step,
        caller: i64,
        name: Seq<char>,
        description: Seq<char>,
        identifier: Seq<char>,
    },
    UpdateApp { step: Step, caller: i64, id: i64, patch: AppPatchView },
    DeleteApp { step: Step, id: i64 },
    ListApps { state: ListAppsStateView, filter: AppFilterView, page: i64, page_size: i64 },
    GetApp { step: Step, id: i64 },
}

impl View for Endpoint {
    type V = EndpointView;

    open spec fn view(&self) -> EndpointView {
        match self {
            Endpoint::Register { state, request } => EndpointView::Register {
                state: state@,
                username: request.username@,
                email: request.email@,
            },
            Endpoint::Login { state, request, config } => EndpointView::Login {
                state: state@,
                email: request.email@,
                code: request.verification_code@,
                secret: config.secret@,
            },
            Endpoint::Me { step, caller } => EndpointView::Me { step: *step, caller: *caller },
            Endpoint::CreateArticle { step, caller, request } => EndpointView::CreateArticle {
                step: *step,
                caller: *caller,
                title: request.title@,
                content: request.content@,
                status: request.status,
            },
            Endpoint::GetArticle { step, caller, id } => EndpointView::GetArticle {
                step: *step,
                caller: *caller,
                id: *id,
            },
            Endpoint::ListArticles { step, caller } => EndpointView::ListArticles {
                step: *step,
                caller: *caller,
            },
            Endpoint::UpdateArticle { step, caller, id, patch } => EndpointView::UpdateArticle {
                step: *step,
                caller: *caller,
                id: *id,
                patch: patch@,
            },
            Endpoint::DeleteArticle { step, caller, id } => EndpointView::DeleteArticle {
                step: *step,
                caller: *caller,
                id: *id,
            },
            Endpoint::CreateApp { step, caller, request } => EndpointView::CreateApp {
                step: *step,
                caller: *caller,
                name: request.name@,
                description: request.description@,
                identifier: request.identifier@,
            },
            Endpoint::UpdateApp { step, caller, id, patch } => EndpointView::UpdateApp {
                step: *step,
                caller: *caller,
                id: *id,
                patch: patch@,
            },
            Endpoint::DeleteApp { step, id } => EndpointView::DeleteApp { step: *step, id: *id },
            Endpoint::ListApps { state, query } => EndpointView::ListApps {
                state: state@,
                filter: query.filter_view(),
                page: query.page(),
                page_size: query.page_size(),
            },
            Endpoint::GetApp { step, id } => EndpointView::GetApp { step: *step, id: *id },
        }
    }
}

impl EndpointView {
    /// One step of the endpoint: where it stands after `event`, and what it
    /// asks for next.
    pub open spec fn step(self, event: EventView) -> (EndpointView, ActionView) {
        match self {
            EndpointView::Register { state, username, email } => {
                let (state, action) = register_spec(state, username, email, event);
                (EndpointView::Register { state, username, email }, action)
            },
            EndpointView::Login { state, email, code, secret } => {
                let (state, action) = login_spec(state, email, code, secret, event);
                (EndpointView::Login { state, email, code, secret }, action)
            },
            EndpointView::Me { step, caller } => {
                let (step, action) = me_spec(step, caller, event);
                (EndpointView::Me { step, caller }, action)
            },
            EndpointView::CreateArticle { step, caller, title, content, status } => {
                let (step, action) = create_article_spec(
                    step,
                    caller,
                    title,
                    content,
                    status,
                    event,
                );
                (EndpointView::CreateArticle { step, caller, title, content, status }, action)
            },
            EndpointView::GetArticle { step, caller, id } => {
                let (step, action) = get_article_spec(step, caller, id, event);
                (EndpointView::GetArticle { step, caller, id }, action)
            },
            EndpointView::ListArticles { step, caller } => {
                let (step, action) = list_articles_spec(step, caller, event);
                (EndpointView::ListArticles { step, caller }, action)
            },
            EndpointView::UpdateArticle { step, caller, id, patch } => {
                let (step, action) = update_article_spec(step, caller, id, patch, event);
                (EndpointView::UpdateArticle { step, caller, id, patch }, action)
            },
            EndpointView::DeleteArticle { step, caller, id } => {
                let (step, action) = delete_article_spec(step, caller, id, event);
                (EndpointView::DeleteArticle { step, caller, id }, action)
            },
            EndpointView::CreateApp { step, caller, name, description, identifier } => {
                let (step, action) = create_app_spec(
                    step,
                    caller,
                    name,
                    description,
                    identifier,
                    event,
                );
                (EndpointView::CreateApp { step, caller, name, description, identifier }, action)
            },
            EndpointView::UpdateApp { step, caller, id, patch } => {
                let (step, action) = update_app_spec(step, caller, id, patch, event);
                (EndpointView::UpdateApp { step, caller, id, patch }, action)
            },
            EndpointView::DeleteApp { step, id } => {
                let (step, action) = delete_app_spec(step, id, event);
                (EndpointView::DeleteApp { step, id }, action)
            },
            EndpointView::ListApps { state, filter, page, page_size } => {
                let (state, action) = list_apps_spec(state, filter, page, page_size, event);
                (EndpointView::ListApps { state, filter, page, page_size }, action)
            },
            EndpointView::GetApp { step, id } => {
                let (step, action) = get_app_spec(step, id, event);
                (EndpointView::GetApp { step, id }, action)
            },
        }
    }
}

impl Endpoint {
    /// One step of the endpoint.
    pub fn step(self, event: Event) -> (r: (Endpoint, Action))
        ensures
            (r.0@, r.1@) == self@.step(event@),
            r.1@.token_is_present(),
    {
        match self {
            Endpoint::Register { state, request } => {
                let (state, action) = register(state, &request, event);
                (Endpoint::Register { state, request }, action)
            },
            Endpoint::Login { state, request, config } => {
                let (state, action) = login(state, &request, &config, event);
                (Endpoint::Login { state, request, config }, action)
            },
            Endpoint::Me { step, caller } => {
                let (step, action) = me(step, caller, event);
                (Endpoint::Me { step, caller }, action)
            },
            Endpoint::CreateArticle { step, caller, request } => {
                let (step, action) = create_article(step, caller, &request, event);
                (Endpoint::CreateArticle { step, caller, request }, action)
            },
            Endpoint::GetArticle { step, caller, id } => {
                let (step, action) = get_article(step, caller, id, event);
                (Endpoint::GetArticle { step, caller, id }, action)
            },
            Endpoint::ListArticles { step, caller } => {
                let (step, action) = list_articles(step, caller, event);
                (Endpoint::ListArticles { step, caller }, action)
            },
            Endpoint::UpdateArticle { step, caller, id, patch } => {
                let (step, action) = update_article(step, caller, id, &patch, event);
                (Endpoint::UpdateArticle { step, caller, id, patch }, action)
            },
            Endpoint::DeleteArticle { step, caller, id } => {
                let (step, action) = delete_article(step, caller, id, event);
                (Endpoint::DeleteArticle { step, caller, id }, action)
            },
            Endpoint::CreateApp { step, caller, request } => {
                let (step, action) = create_app(step, caller, &request, event);
                (Endpoint::CreateApp { step, caller, request }, action)
            },
            Endpoint::UpdateApp { step, caller, id, patch } => {
                let (step, action) = update_app(step, caller, id, &patch, event);
                (Endpoint::UpdateApp { step, caller, id, patch }, action)
            },
            Endpoint::DeleteApp { step, id } => {
                let (step, action) = delete_app(step, id, event);
                (Endpoint::DeleteApp { step, id }, action)
            },
            Endpoint::ListApps { state, query } => {
                let (state, action) = list_apps(state, &query, event);
                (Endpoint::ListApps { state, query }, action)
            },
            Endpoint::GetApp { step, id } => {
                let (step, action) = get_app(step, id, event);
                (Endpoint::GetApp { step, id }, action)
            },
        }
    }
}

/// More steps than any endpoint takes.
pub const MAX_STEPS: u8 = 8;

/// What serving `endpoint` from `event` on does to `store` and answers,
/// within `fuel` steps: every store request is run at `now`, and every mail
/// goes out if and only if `mail_works`.
pub open spec fn run(
    endpoint: EndpointView,
    store: StoreView,
    event: EventView,
    now: i64,
    mail_works: bool,
    fuel: nat,
) -> (StoreView, ResponseView)
    decreases fuel,
{
    if fuel == 0 {
        (store, internal_error())
    } else {
        let (next, action) = endpoint.step(event);
        match action {
            ActionView::Reply(response) => (store, response),
            ActionView::Query(request) => {
                let (after, reply) = store.execute(request, now);
                run(next, after, EventView::Store(reply), now, mail_works, (fuel - 1) as nat)
            },
            ActionView::SendMail(_) => run(
                next,
                store,
                if mail_works { EventView::MailSent } else { EventView::MailFailed },
                now,
                mail_works,
                (fuel - 1) as nat,
            ),
        }
    }
}

/// What serving `endpoint` from its beginning does to `store` and answers.
pub open spec fn serve(endpoint: EndpointView, store: StoreView, now: i64, mail_works: bool) -> (
    StoreView,
    ResponseView,
) {
    run(endpoint, store, EventView::Begin, now, mail_works, MAX_STEPS as nat)
}

/// The mails that go out while `endpoint` is served from `event` on, in
/// order: each mail the endpoint asks for, if `mail_works`.
pub open spec fn run_mails(
    endpoint: EndpointView,
    store: StoreView,
    event: EventView,
    now: i64,
    mail_works: bool,
    fuel: nat,
) -> Seq<MailView>
    decreases fuel,
{
    if fuel == 0 {
        Seq::empty()
    } else {
        let (next, action) = endpoint.step(event);
        match action {
            ActionView::Reply(_) => Seq::empty(),
            ActionView::Query(request) => {
                let (after, reply) = store.execute(request, now);
                run_mails(next, after, EventView::Store(reply), now, mail_works, (fuel - 1) as nat)
            },
            ActionView::SendMail(mail) => if mail_works {
                seq![mail] + run_mails(
                    next,
                    store,
                    EventView::MailSent,
                    now,
                    mail_works,
                    (fuel - 1) as nat,
                )
            } else {
                run_mails(next, store, EventView::MailFailed, now, mail_works, (fuel - 1) as nat)
            },
        }
    }
}

/// The mails that go out while `endpoint` is served from its beginning.
pub open spec fn mails(endpoint: EndpointView, store: StoreView, now: i64, mail_works: bool) -> Seq<
    MailView,
> {
    run_mails(endpoint, store, EventView::Begin, now, mail_works, MAX_STEPS as nat)
}

/// A backend whose store lives in memory and whose mail is kept in an outbox.
#[derive(Debug, Clone, PartialEq, Eq)]
pub struct Backend {
    pub store: Store,
    pub outbox: Vec<Mail>,
}

impl Backend {
    /// A backend with an empty store and an empty outbox.
    pub fn new() -> (backend: Backend)
        ensures
            backend.store@ == StoreView::empty(),
            backend.store.well_formed(),
            backend.outbox@ == Seq::<Mail>::empty(),
    {
        Backend { store: Store::new(), outbox: Vec::new() }
    }

    fn drive(&mut self, endpoint: Endpoint, event: Event, now: i64, mail_works: bool, fuel: u8) -> (r:
        Response)
        requires
            old(self).store.well_formed(),
        ensures
            final(self).store.well_formed(),
            (final(self).store@, r@) == run(
                endpoint@,
                old(self).store@,
                event@,
                now,
                mail_works,
                fuel as nat,
            ),
            final(self).outbox.deep_view() == old(self).outbox.deep_view() + run_mails(
                endpoint@,
                old(self).store@,
                event@,
                now,
                mail_works,
                fuel as nat,
            ),
            r@.token_is_present(),
        decreases fuel,
    {
        if fuel == 0 {
            return Response::rejected(Rejection::StoreFailure, "Internal server error");
        }
        let (next, action) = endpoint.step(event);
        match action {
            Action::Reply(response) => response,
            Action::Query(request) => {
                let reply = self.store.execute(&request, now);
                self.drive(next, Event::Store(reply), now, mail_works, fuel - 1)
            },
            Action::SendMail(mail) => {
                if mail_works {
                    self.outbox.push(mail);
                    self.drive(next, Event::MailSent, now, mail_works, fuel - 1)
                } else {
                    self.drive(next, Event::MailFailed, now, mail_works, fuel - 1)
                }
            },
        }
    }

    /// Serves `endpoint` from its beginning to its reply. Every store
    /// request is run at `now`; every mail goes to the outbox if
    /// `mail_works`, and fails if not.
    pub fn serve(&mut self, endpoint: Endpoint, now: i64, mail_works: bool) -> (r: Response)
        requires
            old(self).store.well_formed(),
        ensures
            final(self).store.well_formed(),
            (final(self).store@, r@) == serve(endpoint@, old(self).store@, now, mail_works),
            final(self).outbox.deep_view() == old(self).outbox.deep_view() + mails(
                endpoint@,
                old(self).store@,
                now,
                mail_works,
            ),
            r@.token_is_present(),
    {
        self.drive(endpoint, Event::Begin, now, mail_works, MAX_STEPS)
    }
}

} // verus!
