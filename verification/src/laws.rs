//! What holds of the backend as a whole, proved of every store, every
//! request and every instant.

use vstd::prelude::*;

use crate::backend::{mails, run, run_mails, serve, EndpointView, MAX_STEPS};
use crate::clock::{expiry_after, CODE_TTL_SECONDS};
use crate::config::auth::{minted_token, signed_token, ClaimsView};
use crate::handlers::app::{
    create_app_spec, delete_app_spec, duplicate_identifier, get_app_spec, list_apps_spec,
    no_app_fields_to_update, update_app_spec, ListAppsStateView,
};
use crate::handlers::article::{
    article_not_found, create_article_spec, delete_article_spec, get_article_spec,
    invalid_status, list_articles_spec, no_fields_to_update, update_article_spec, update_refused,
};
use crate::models::app::AppPatchView;
use crate::handlers::auth::{
    duplicate_account, invalid_credentials, login_spec, mail_failed, me_spec, register_spec,
    registered, token_failed, LoginStateView, RegisterStateView,
};
use crate::handlers::{
    internal_error, ActionView, BodyView, EventView, Rejection, ResponseView, Step, STATUS_OK,
};
use crate::models::article::{is_status, ArticlePatchView, ArticleView, STATUS_PUBLISHED};
use crate::models::{AuthResponseView, UserView};
use crate::store::model::{
    is_first, law_execute_keeps_well_formed, law_rows_stay_newest_first,
    lemma_filter_keeps_newest_first, lemma_first_exists, lemma_first_index_found,
    lemma_first_index_none, lemma_first_index_some, newest_first, StoreView,
};
use crate::store::StoreRequestView;
use crate::utils::email::{verification_mail_spec, MailView};

verus! {

/// A registration of `username` and `email` that issues `code` at `issued_at`.
pub open spec fn registration(
    username: Seq<char>,
    email: Seq<char>,
    code: Seq<char>,
    issued_at: i64,
) -> EndpointView {
    EndpointView::Register { state: RegisterStateView::issuing(code, issued_at), username, email }
}

/// A login with `email` and `code` that begins at `now`.
pub open spec fn login_attempt(
    email: Seq<char>,
    code: Seq<char>,
    secret: Seq<char>,
    now: i64,
) -> EndpointView {
    EndpointView::Login { state: LoginStateView::Start { now }, email, code, secret }
}

/// How far a step is from the end.
pub open spec fn step_rank(step: Step) -> nat {
    match step {
        Step::Start => 4,
        Step::Looking => 3,
        Step::Writing => 2,
        Step::Fetching => 1,
        Step::Done => 0,
    }
}

/// How far a registration is from its end.
pub open spec fn register_rank(state: RegisterStateView) -> nat {
    match state {
        RegisterStateView::Start { code, expires_at } => 4,
        RegisterStateView::CheckingEmail { code, expires_at } => 3,
        RegisterStateView::Inserting { code } => 2,
        RegisterStateView::Mailing => 1,
        RegisterStateView::Done => 0,
    }
}

/// How far a login is from its end.
pub open spec fn login_rank(state: LoginStateView) -> nat {
    match state {
        LoginStateView::Start { now } => 3,
        LoginStateView::FindingUser { now } => 2,
        LoginStateView::Confirming { user, now } => 1,
        LoginStateView::Done => 0,
    }
}

/// How far a listing of applications is from its end.
pub open spec fn listing_rank(state: ListAppsStateView) -> nat {
    match state {
        ListAppsStateView::Start => 3,
        ListAppsStateView::Listing => 2,
        ListAppsStateView::Counting { apps } => 1,
        ListAppsStateView::Done => 0,
    }
}

/// How many more actions an endpoint can ask for before it must reply.
pub open spec fn steps_left(endpoint: EndpointView) -> nat {
    match endpoint {
        EndpointView::Register { state, username, email } => register_rank(state),
        EndpointView::Login { state, email, code, secret } => login_rank(state),
        EndpointView::ListApps { state, filter, page, page_size } => listing_rank(state),
        EndpointView::Me { step, caller } => step_rank(step),
        EndpointView::CreateArticle { step, caller, title, content, status } => step_rank(step),
        EndpointView::GetArticle { step, caller, id } => step_rank(step),
        EndpointView::ListArticles { step, caller } => step_rank(step),
        EndpointView::UpdateArticle { step, caller, id, patch } => step_rank(step),
        EndpointView::DeleteArticle { step, caller, id } => step_rank(step),
        EndpointView::CreateApp { step, caller, name, description, identifier } => step_rank(
            step,
        ),
        EndpointView::UpdateApp { step, caller, id, patch } => step_rank(step),
        EndpointView::DeleteApp { step, id } => step_rank(step),
        EndpointView::GetApp { step, id } => step_rank(step),
    }
}

/// Whether a step that led to `next` with `action` replied or came closer
/// to the end than `rank`.
pub open spec fn advanced(rank: nat, next: nat, action: ActionView) -> bool {
    action is Reply || next < rank
}

/// Whether a step advanced without asking for a mail.
pub open spec fn advanced_quietly(rank: nat, next: nat, action: ActionView) -> bool {
    advanced(rank, next, action) && !(action is SendMail)
}

/// The account endpoints advance with every step.
proof fn lemma_account_steps_advance(event: EventView)
    ensures
        forall|state: RegisterStateView, username: Seq<char>, email: Seq<char>|
            advanced(
                register_rank(state),
                register_rank((#[trigger] register_spec(state, username, email, event)).0),
                register_spec(state, username, email, event).1,
            ),
        forall|state: LoginStateView, email: Seq<char>, code: Seq<char>, secret: Seq<char>|
            advanced_quietly(
                login_rank(state),
                login_rank((#[trigger] login_spec(state, email, code, secret, event)).0),
                login_spec(state, email, code, secret, event).1,
            ),
        forall|step: Step, caller: i64|
            advanced_quietly(
                step_rank(step),
                step_rank((#[trigger] me_spec(step, caller, event)).0),
                me_spec(step, caller, event).1,
            ),
{
}

/// The article endpoints advance with every step.
proof fn lemma_article_steps_advance(event: EventView)
    ensures
        forall|step: Step, caller: i64, title: Seq<char>, content: Seq<char>, status: Option<i8>|
            advanced_quietly(
                step_rank(step),
                step_rank(
                    (#[trigger] create_article_spec(step, caller, title, content, status, event)).0,
                ),
                create_article_spec(step, caller, title, content, status, event).1,
            ),
        forall|step: Step, caller: i64, id: i64|
            advanced_quietly(
                step_rank(step),
                step_rank((#[trigger] get_article_spec(step, caller, id, event)).0),
                get_article_spec(step, caller, id, event).1,
            ),
        forall|step: Step, caller: i64|
            advanced_quietly(
                step_rank(step),
                step_rank((#[trigger] list_articles_spec(step, caller, event)).0),
                list_articles_spec(step, caller, event).1,
            ),
        forall|step: Step, caller: i64, id: i64, patch: ArticlePatchView|
            advanced_quietly(
                step_rank(step),
                step_rank((#[trigger] update_article_spec(step, caller, id, patch, event)).0),
                update_article_spec(step, caller, id, patch, event).1,
            ),
        forall|step: Step, caller: i64, id: i64|
            advanced_quietly(
                step_rank(step),
                step_rank((#[trigger] delete_article_spec(step, caller, id, event)).0),
                delete_article_spec(step, caller, id, event).1,
            ),
{
}

/// The application endpoints advance with every step.
proof fn lemma_app_steps_advance(event: EventView)
    ensures
        forall|
            step: Step,
            caller: i64,
            name: Seq<char>,
            description: Seq<char>,
            identifier: Seq<char>,
        |
            advanced_quietly(
                step_rank(step),
                step_rank(
                    (#[trigger] create_app_spec(step, caller, name, description, identifier, event)).0,
                ),
                create_app_spec(step, caller, name, description, identifier, event).1,
            ),
        forall|step: Step, caller: i64, id: i64, patch: AppPatchView|
            advanced_quietly(
                step_rank(step),
                step_rank((#[trigger] update_app_spec(step, caller, id, patch, event)).0),
                update_app_spec(step, caller, id, patch, event).1,
            ),
        forall|step: Step, id: i64|
            advanced_quietly(
                step_rank(step),
                step_rank((#[trigger] delete_app_spec(step, id, event)).0),
                delete_app_spec(step, id, event).1,
            ),
        forall|step: Step, id: i64|
            advanced_quietly(
                step_rank(step),
                step_rank((#[trigger] get_app_spec(step, id, event)).0),
                get_app_spec(step, id, event).1,
            ),
        forall|
            state: ListAppsStateView,
            filter: crate::store::AppFilterView,
            page: i64,
            page_size: i64,
        |
            advanced_quietly(
                listing_rank(state),
                listing_rank((#[trigger] list_apps_spec(state, filter, page, page_size, event)).0),
                list_apps_spec(state, filter, page, page_size, event).1,
            ),
{
}

/// Every step of every endpoint either replies or brings it closer to its
/// reply, and no endpoint is ever further from it than the steps allowed.
pub proof fn law_every_step_makes_progress(endpoint: EndpointView, event: EventView)
    ensures
        advanced(
            steps_left(endpoint),
            steps_left(endpoint.step(event).0),
            endpoint.step(event).1,
        ),
        steps_left(endpoint) < MAX_STEPS,
{
    lemma_account_steps_advance(event);
    lemma_article_steps_advance(event);
    lemma_app_steps_advance(event);
}

/// Only a registration sends mail: serving any other endpoint sends none.
pub proof fn law_only_registration_sends_mail(
    endpoint: EndpointView,
    store: StoreView,
    event: EventView,
    now: i64,
    mail_works: bool,
    fuel: nat,
)
    requires
        !(endpoint is Register),
    ensures
        run_mails(endpoint, store, event, now, mail_works, fuel) == Seq::<MailView>::empty(),
    decreases fuel,
{
    if fuel > 0 {
        lemma_account_steps_advance(event);
        lemma_article_steps_advance(event);
        lemma_app_steps_advance(event);
        let (next, action) = endpoint.step(event);
        match action {
            ActionView::Query(request) => {
                let (after, reply) = store.execute(request, now);
                law_only_registration_sends_mail(
                    next,
                    after,
                    EventView::Store(reply),
                    now,
                    mail_works,
                    (fuel - 1) as nat,
                );
            },
            _ => {},
        }
    }
}

/// Every request is answered by its endpoint: serving never runs out of
/// steps, so allowing more of them changes nothing.
pub proof fn law_every_request_is_answered(
    endpoint: EndpointView,
    store: StoreView,
    event: EventView,
    now: i64,
    mail_works: bool,
    fuel: nat,
)
    requires
        fuel > steps_left(endpoint),
    ensures
        run(endpoint, store, event, now, mail_works, fuel) == run(
            endpoint,
            store,
            event,
            now,
            mail_works,
            steps_left(endpoint) + 1,
        ),
    decreases fuel,
{
    law_every_step_makes_progress(endpoint, event);
    let (next, action) = endpoint.step(event);
    match action {
        ActionView::Reply(_) => {},
        ActionView::Query(request) => {
            let (after, reply) = store.execute(request, now);
            law_every_request_is_answered(
                next,
                after,
                EventView::Store(reply),
                now,
                mail_works,
                (fuel - 1) as nat,
            );
            law_every_request_is_answered(
                next,
                after,
                EventView::Store(reply),
                now,
                mail_works,
                steps_left(endpoint),
            );
        },
        ActionView::SendMail(_) => {
            let mailed = if mail_works { EventView::MailSent } else { EventView::MailFailed };
            law_every_request_is_answered(next, store, mailed, now, mail_works, (fuel - 1) as nat);
            law_every_request_is_answered(next, store, mailed, now, mail_works, steps_left(endpoint));
        },
    }
}

/// Serving a request leaves a well-formed store well formed.
pub proof fn law_serving_keeps_store_well_formed(
    endpoint: EndpointView,
    store: StoreView,
    event: EventView,
    now: i64,
    mail_works: bool,
    fuel: nat,
)
    requires
        store.well_formed(),
    ensures
        run(endpoint, store, event, now, mail_works, fuel).0.well_formed(),
    decreases fuel,
{
    if fuel > 0 {
        let (next, action) = endpoint.step(event);
        match action {
            ActionView::Reply(_) => {},
            ActionView::Query(request) => {
                law_execute_keeps_well_formed(store, request, now);
                let (after, reply) = store.execute(request, now);
                law_serving_keeps_store_well_formed(
                    next,
                    after,
                    EventView::Store(reply),
                    now,
                    mail_works,
                    (fuel - 1) as nat,
                );
            },
            ActionView::SendMail(_) => {
                law_serving_keeps_store_well_formed(
                    next,
                    store,
                    if mail_works { EventView::MailSent } else { EventView::MailFailed },
                    now,
                    mail_works,
                    (fuel - 1) as nat,
                );
            },
        }
    }
}

/// What a registration does: it is refused as a duplicate where the email
/// has an account, fails where the store refuses the new account, and
/// otherwise writes an unverified account with the issued code, then
/// answers by whether the mail went out.
pub open spec fn registration_outcome(
    store: StoreView,
    username: Seq<char>,
    email: Seq<char>,
    code: Seq<char>,
    issued_at: i64,
    now: i64,
    mail_works: bool,
) -> (StoreView, ResponseView) {
    if store.user_by_email(email) is Some {
        (store, duplicate_account())
    } else if expiry_after(issued_at, CODE_TTL_SECONDS) is None {
        (store, internal_error())
    } else {
        let (after, reply) = store.execute(
            StoreRequestView::InsertUser {
                username,
                email,
                verification_code: code,
                expires_at: expiry_after(issued_at, CODE_TTL_SECONDS)->0,
            },
            now,
        );
        if reply is Written {
            (after, if mail_works { registered() } else { mail_failed() })
        } else {
            (after, ResponseView::rejected(Rejection::StoreFailure, "Failed to create user"@))
        }
    }
}

/// Serving a registration to its end gives [`registration_outcome`].
pub proof fn law_registration_outcome(
    store: StoreView,
    username: Seq<char>,
    email: Seq<char>,
    code: Seq<char>,
    issued_at: i64,
    now: i64,
    mail_works: bool,
)
    ensures
        serve(registration(username, email, code, issued_at), store, now, mail_works)
            == registration_outcome(store, username, email, code, issued_at, now, mail_works),
{
    let e0 = registration(username, email, code, issued_at);
    let (e1, a1) = e0.step(EventView::Begin);
    let (s1, r1) = store.execute(a1->Query_0, now);
    assert(serve(e0, store, now, mail_works) == run(
        e1,
        s1,
        EventView::Store(r1),
        now,
        mail_works,
        7,
    ));
    let (e2, a2) = e1.step(EventView::Store(r1));
    if a2 is Query {
        let (s2, r2) = s1.execute(a2->Query_0, now);
        assert(run(e1, s1, EventView::Store(r1), now, mail_works, 7) == run(
            e2,
            s2,
            EventView::Store(r2),
            now,
            mail_works,
            6,
        ));
        let (e3, a3) = e2.step(EventView::Store(r2));
        if a3 is SendMail {
            let mailed = if mail_works { EventView::MailSent } else { EventView::MailFailed };
            assert(run(e2, s2, EventView::Store(r2), now, mail_works, 6) == run(
                e3,
                s2,
                mailed,
                now,
                mail_works,
                5,
            ));
        }
    }
}

/// A registration sends one mail, to the registered address and with the
/// issued code, exactly when it answers with success; in every other case
/// it sends none.
pub proof fn law_registration_mails_its_code(
    store: StoreView,
    username: Seq<char>,
    email: Seq<char>,
    code: Seq<char>,
    issued_at: i64,
    now: i64,
    mail_works: bool,
)
    ensures
        mails(registration(username, email, code, issued_at), store, now, mail_works) == if serve(
            registration(username, email, code, issued_at),
            store,
            now,
            mail_works,
        ).1 == registered() {
            seq![verification_mail_spec(email, code)]
        } else {
            Seq::<MailView>::empty()
        },
{
    law_registration_outcome(store, username, email, code, issued_at, now, mail_works);
    let e0 = registration(username, email, code, issued_at);
    let (e1, a1) = e0.step(EventView::Begin);
    let (s1, r1) = store.execute(a1->Query_0, now);
    assert(mails(e0, store, now, mail_works) == run_mails(
        e1,
        s1,
        EventView::Store(r1),
        now,
        mail_works,
        7,
    ));
    let (e2, a2) = e1.step(EventView::Store(r1));
    if a2 is Query {
        let (s2, r2) = s1.execute(a2->Query_0, now);
        assert(run_mails(e1, s1, EventView::Store(r1), now, mail_works, 7) == run_mails(
            e2,
            s2,
            EventView::Store(r2),
            now,
            mail_works,
            6,
        ));
        let (e3, a3) = e2.step(EventView::Store(r2));
        if a3 is SendMail {
            let mailed = if mail_works { EventView::MailSent } else { EventView::MailFailed };
            assert(run_mails(e3, s2, mailed, now, mail_works, 5) == Seq::<MailView>::empty());
        }
    }
}

/// Registering twice with the same email: once an account with that email
/// is in the store, every further registration with it is refused as a
/// duplicate, whatever the username, and writes nothing.
pub proof fn law_second_registration_is_duplicate(
    store: StoreView,
    email: Seq<char>,
    first_username: Seq<char>,
    first_code: Seq<char>,
    first_issued_at: i64,
    first_now: i64,
    first_mail_works: bool,
    second_username: Seq<char>,
    second_code: Seq<char>,
    second_issued_at: i64,
    second_now: i64,
    second_mail_works: bool,
)
    requires
        serve(
            registration(first_username, email, first_code, first_issued_at),
            store,
            first_now,
            first_mail_works,
        ).1.rejection() != Some(Rejection::StoreFailure),
    ensures
        ({
            let after = serve(
                registration(first_username, email, first_code, first_issued_at),
                store,
                first_now,
                first_mail_works,
            ).0;
            serve(
                registration(second_username, email, second_code, second_issued_at),
                after,
                second_now,
                second_mail_works,
            ) == (after, duplicate_account())
        }),
{
    law_registration_outcome(
        store,
        first_username,
        email,
        first_code,
        first_issued_at,
        first_now,
        first_mail_works,
    );
    let after = serve(
        registration(first_username, email, first_code, first_issued_at),
        store,
        first_now,
        first_mail_works,
    ).0;
    law_registration_outcome(
        after,
        second_username,
        email,
        second_code,
        second_issued_at,
        second_now,
        second_mail_works,
    );
    if store.user_by_email(email) is None {
        let wanted = |u: UserView| u.email == email;
        lemma_first_exists(after.users, wanted, store.users.len() as int);
    }
}

/// What a login does: unless the account with that email exists and its
/// pending code is the submitted one and has not expired when the login
/// begins, it is refused and writes nothing. Otherwise the account is
/// marked verified and its code cleared, and the answer carries the minted
/// token and the verified account.
pub open spec fn login_outcome(
    store: StoreView,
    email: Seq<char>,
    code: Seq<char>,
    secret: Seq<char>,
    began_at: i64,
    now: i64,
) -> (StoreView, ResponseView) {
    let found = store.user_by_email(email);
    if found is Some && found->0.accepts_code(code, began_at) {
        let user = found->0;
        (
            store.execute(StoreRequestView::ConfirmUser { id: user.id }, now).0,
            match minted_token(user.id, began_at, secret) {
                Some(token) => ResponseView::ok(
                    BodyView::Auth(AuthResponseView { token, user: user.confirmed().response() }),
                ),
                None => token_failed(),
            },
        )
    } else {
        (store, invalid_credentials())
    }
}

/// Serving a login to its end gives [`login_outcome`].
pub proof fn law_login_outcome(
    store: StoreView,
    email: Seq<char>,
    code: Seq<char>,
    secret: Seq<char>,
    began_at: i64,
    now: i64,
    mail_works: bool,
)
    ensures
        serve(login_attempt(email, code, secret, began_at), store, now, mail_works)
            == login_outcome(store, email, code, secret, began_at, now),
{
    let e0 = login_attempt(email, code, secret, began_at);
    let (e1, a1) = e0.step(EventView::Begin);
    let (s1, r1) = store.execute(a1->Query_0, now);
    assert(serve(e0, store, now, mail_works) == run(
        e1,
        s1,
        EventView::Store(r1),
        now,
        mail_works,
        7,
    ));
    if store.user_by_email(email) is Some {
        lemma_first_index_some(store.users, |u: UserView| u.email == email);
    }
    let (e2, a2) = e1.step(EventView::Store(r1));
    if a2 is Query {
        let (s2, r2) = s1.execute(a2->Query_0, now);
        assert(run(e1, s1, EventView::Store(r1), now, mail_works, 7) == run(
            e2,
            s2,
            EventView::Store(r2),
            now,
            mail_works,
            6,
        ));
    }
}

/// Whether `response` is what a registration answers once it has written
/// the account: success, or the failure to mail the code.
pub open spec fn account_written(response: ResponseView) -> bool {
    response == registered() || response == mail_failed()
}

/// The account that a registration into `store` writes.
pub open spec fn registered_user(
    store: StoreView,
    username: Seq<char>,
    email: Seq<char>,
    code: Seq<char>,
    issued_at: i64,
    now: i64,
) -> UserView {
    UserView {
        id: store.next_user_id,
        username,
        email,
        email_verified: 0,
        verification_code: Some(code),
        verification_code_expires_at: expiry_after(issued_at, CODE_TTL_SECONDS),
        created_at: now,
        updated_at: now,
    }
}

/// After a registration that wrote the account, the store holds that
/// account under its email and under its id, and its code expires thirty
/// minutes after it was issued.
pub proof fn law_registration_writes_account(
    store: StoreView,
    username: Seq<char>,
    email: Seq<char>,
    code: Seq<char>,
    issued_at: i64,
    now: i64,
    mail_works: bool,
)
    requires
        store.well_formed(),
        account_written(
            serve(registration(username, email, code, issued_at), store, now, mail_works).1,
        ),
    ensures
        ({
            let after = serve(
                registration(username, email, code, issued_at),
                store,
                now,
                mail_works,
            ).0;
            let user = registered_user(store, username, email, code, issued_at, now);
            &&& after.well_formed()
            &&& after.users == store.users.push(user)
            &&& after.user_by_email(email) == Some(user)
            &&& after.user_index_by_email(email) == Some(store.users.len() as int)
            &&& after.user_index(user.id) == Some(store.users.len() as int)
            &&& user.verification_code_expires_at == Some((issued_at + CODE_TTL_SECONDS) as i64)
        }),
{
    law_registration_outcome(store, username, email, code, issued_at, now, mail_works);
    law_serving_keeps_store_well_formed(
        registration(username, email, code, issued_at),
        store,
        EventView::Begin,
        now,
        mail_works,
        MAX_STEPS as nat,
    );
    let after = serve(registration(username, email, code, issued_at), store, now, mail_works).0;
    let by_email = |u: UserView| u.email == email;
    let by_id = |u: UserView| u.id == store.next_user_id;
    let n = store.users.len() as int;
    lemma_first_index_none(store.users, by_email);
    lemma_first_index_found(after.users, by_email, n);
    lemma_first_index_found(after.users, by_id, n);
}

/// What a login with the pending, unexpired code of an account does: the
/// account is marked verified and its code and expiry are cleared, and the
/// answer is a success that carries the signed token and the account,
/// verified and without its code. Only where the token's expiry, a day
/// after the login began, is negative or does not fit is the answer the
/// failure to mint the token.
pub proof fn law_matching_code_logs_in(
    store: StoreView,
    email: Seq<char>,
    code: Seq<char>,
    secret: Seq<char>,
    began_at: i64,
    now: i64,
    mail_works: bool,
)
    requires
        store.well_formed(),
        store.user_by_email(email) is Some,
        store.user_by_email(email)->0.accepts_code(code, began_at),
    ensures
        ({
            let user = store.user_by_email(email)->0;
            let served = serve(login_attempt(email, code, secret, began_at), store, now, mail_works);
            let after = served.0.user_by_email(email);
            &&& served.1 == match ClaimsView::for_user(user.id, began_at) {
                Some(claims) => ResponseView::ok(
                    BodyView::Auth(
                        AuthResponseView {
                            token: signed_token(claims.sub, claims.exp, secret),
                            user: user.confirmed().response(),
                        },
                    ),
                ),
                None => token_failed(),
            }
            &&& ClaimsView::for_user(user.id, began_at) is Some ==> served.1.status == STATUS_OK
            &&& after == Some(UserView { updated_at: now, ..user.confirmed() })
            &&& after->0.verification_code is None
            &&& after->0.verification_code_expires_at is None
            &&& after->0.is_verified()
        }),
{
    law_login_outcome(store, email, code, secret, began_at, now, mail_works);
    let by_email = |u: UserView| u.email == email;
    lemma_first_index_some(store.users, by_email);
    let i = store.user_index_by_email(email)->0;
    let user = store.users[i];
    let by_id = |u: UserView| u.id == user.id;
    assert(is_first(store.users, by_id, i));
    lemma_first_index_found(store.users, by_id, i);
    let after = serve(login_attempt(email, code, secret, began_at), store, now, mail_works).0;
    assert(is_first(after.users, by_email, i));
    lemma_first_index_found(after.users, by_email, i);
}

/// A freshly issued code, submitted before it expires, logs in exactly
/// once: the first login marks the account verified, clears its code and
/// answers with the signed token and the verified account (the token fails
/// only where its expiry is negative or does not fit), and every later
/// login with the same code is refused as invalid credentials.
pub proof fn law_fresh_code_logs_in_once(
    store: StoreView,
    username: Seq<char>,
    email: Seq<char>,
    code: Seq<char>,
    secret: Seq<char>,
    issued_at: i64,
    registered_at: i64,
    mail_works: bool,
    first_began_at: i64,
    first_now: i64,
    second_began_at: i64,
    second_now: i64,
)
    requires
        store.well_formed(),
        account_written(
            serve(registration(username, email, code, issued_at), store, registered_at, mail_works).1,
        ),
        first_began_at < issued_at + CODE_TTL_SECONDS,
    ensures
        ({
            let registered = serve(
                registration(username, email, code, issued_at),
                store,
                registered_at,
                mail_works,
            ).0;
            let user = registered_user(store, username, email, code, issued_at, registered_at);
            let first = serve(
                login_attempt(email, code, secret, first_began_at),
                registered,
                first_now,
                mail_works,
            );
            let second = serve(
                login_attempt(email, code, secret, second_began_at),
                first.0,
                second_now,
                mail_works,
            );
            &&& first.1 == match minted_token(user.id, first_began_at, secret) {
                Some(token) => ResponseView::ok(
                    BodyView::Auth(AuthResponseView { token, user: user.confirmed().response() }),
                ),
                None => token_failed(),
            }
            &&& ClaimsView::for_user(user.id, first_began_at) is Some ==> first.1.status
                == STATUS_OK && first.1.body is Auth
            &&& user.confirmed().response().email_verified
            &&& first.0.user_by_email(email) == Some(
                UserView { updated_at: first_now, ..user.confirmed() },
            )
            &&& second == (first.0, invalid_credentials())
        }),
{
    law_registration_writes_account(store, username, email, code, issued_at, registered_at, mail_works);
    let registered = serve(
        registration(username, email, code, issued_at),
        store,
        registered_at,
        mail_works,
    ).0;
    law_login_outcome(registered, email, code, secret, first_began_at, first_now, mail_works);
    let first = serve(
        login_attempt(email, code, secret, first_began_at),
        registered,
        first_now,
        mail_works,
    );
    let n = store.users.len() as int;
    let by_email = |u: UserView| u.email == email;
    assert(is_first(first.0.users, by_email, n)) by {
        lemma_first_index_some(registered.users, by_email);
    }
    lemma_first_index_found(first.0.users, by_email, n);
    law_login_outcome(first.0, email, code, secret, second_began_at, second_now, mail_works);
}

/// A code submitted at or after its expiry, thirty minutes after it was
/// issued, is refused as invalid credentials even though it is the right
/// code, and nothing is written.
pub proof fn law_expired_code_is_refused(
    store: StoreView,
    username: Seq<char>,
    email: Seq<char>,
    code: Seq<char>,
    secret: Seq<char>,
    issued_at: i64,
    registered_at: i64,
    mail_works: bool,
    began_at: i64,
    now: i64,
)
    requires
        store.well_formed(),
        account_written(
            serve(registration(username, email, code, issued_at), store, registered_at, mail_works).1,
        ),
        began_at >= issued_at + CODE_TTL_SECONDS,
    ensures
        ({
            let registered = serve(
                registration(username, email, code, issued_at),
                store,
                registered_at,
                mail_works,
            ).0;
            serve(login_attempt(email, code, secret, began_at), registered, now, mail_works) == (
                registered,
                invalid_credentials(),
            )
        }),
{
    law_registration_writes_account(store, username, email, code, issued_at, registered_at, mail_works);
    let registered = serve(
        registration(username, email, code, issued_at),
        store,
        registered_at,
        mail_works,
    ).0;
    law_login_outcome(registered, email, code, secret, began_at, now, mail_works);
}

/// Reading an article: it is shown exactly where it exists and the caller
/// may read it, and reading writes nothing. So a draft is never shown to
/// anyone but its author, and the author is shown the article whatever its
/// status.
pub proof fn law_drafts_are_hidden_from_others(
    store: StoreView,
    caller: i64,
    id: i64,
    now: i64,
    mail_works: bool,
)
    ensures
        ({
            let found = store.article(id);
            let served = serve(
                EndpointView::GetArticle { step: Step::Start, caller, id },
                store,
                now,
                mail_works,
            );
            &&& served.0 == store
            &&& served.1 == if found is Some && found->0.visible_to(caller) {
                ResponseView::ok(BodyView::Article(found->0))
            } else {
                article_not_found()
            }
            &&& found is Some && found->0.status != STATUS_PUBLISHED && found->0.author_id
                != caller ==> served.1 == article_not_found()
            &&& found is Some && found->0.author_id == caller ==> served.1 == ResponseView::ok(
                BodyView::Article(found->0),
            )
        }),
{
    let e0 = EndpointView::GetArticle { step: Step::Start, caller, id };
    let (e1, a1) = e0.step(EventView::Begin);
    let (s1, r1) = store.execute(a1->Query_0, now);
    assert(serve(e0, store, now, mail_works) == run(
        e1,
        s1,
        EventView::Store(r1),
        now,
        mail_works,
        7,
    ));
    if store.article(id) is Some {
        lemma_first_index_some(store.articles, |a: ArticleView| a.id == id);
    }
}

/// Listing articles shows only what the caller may read, and writes nothing.
pub proof fn law_listing_shows_only_readable(
    store: StoreView,
    caller: i64,
    now: i64,
    mail_works: bool,
)
    ensures
        ({
            let served = serve(
                EndpointView::ListArticles { step: Step::Start, caller },
                store,
                now,
                mail_works,
            );
            &&& served.0 == store
            &&& served.1.body is Articles
            &&& forall|i: int|
                0 <= i < served.1.body->Articles_0.len() ==> (
                #[trigger] served.1.body->Articles_0[i]).visible_to(caller)
        }),
{
    let e0 = EndpointView::ListArticles { step: Step::Start, caller };
    let (e1, a1) = e0.step(EventView::Begin);
    let (s1, r1) = store.execute(a1->Query_0, now);
    assert(serve(e0, store, now, mail_works) == run(
        e1,
        s1,
        EventView::Store(r1),
        now,
        mail_works,
        7,
    ));
    let wanted = |a: ArticleView| a.visible_to(caller);
    let rows = store.visible_articles(caller);
    let shown = rows.filter(wanted);
    assert forall|i: int| 0 <= i < shown.len() implies (#[trigger] shown[i]).visible_to(
        caller,
    ) by {
        rows.lemma_filter_pred(wanted, i);
    }
}

/// Where the clock never runs backwards, articles are listed newest first.
pub proof fn law_articles_are_listed_newest_first(
    store: StoreView,
    caller: i64,
    now: i64,
    mail_works: bool,
)
    requires
        store.chronological(now),
    ensures
        newest_first(
            serve(
                EndpointView::ListArticles { step: Step::Start, caller },
                store,
                now,
                mail_works,
            ).1.body->Articles_0,
            |a: ArticleView| a.created_at,
        ),
{
    let e0 = EndpointView::ListArticles { step: Step::Start, caller };
    let (e1, a1) = e0.step(EventView::Begin);
    let (s1, r1) = store.execute(a1->Query_0, now);
    assert(serve(e0, store, now, mail_works) == run(
        e1,
        s1,
        EventView::Store(r1),
        now,
        mail_works,
        7,
    ));
    law_rows_stay_newest_first(store, a1->Query_0, now);
    lemma_filter_keeps_newest_first(
        store.visible_articles(caller),
        |a: ArticleView| a.created_at,
        |a: ArticleView| a.visible_to(caller),
    );
}

/// An update that names no field writes nothing, whoever sends it: the
/// store, and with it every `updated_at`, stays as it was. The author of
/// the article is told that there are no fields to update; anyone else, and
/// anyone asking for an article that does not exist, is told that it was
/// not found or is not theirs.
pub proof fn law_empty_update_writes_nothing(
    store: StoreView,
    caller: i64,
    id: i64,
    patch: ArticlePatchView,
    now: i64,
    mail_works: bool,
)
    requires
        patch.is_empty(),
    ensures
        ({
            let found = store.article(id);
            serve(
                EndpointView::UpdateArticle { step: Step::Start, caller, id, patch },
                store,
                now,
                mail_works,
            ) == (
                store,
                if found is Some && found->0.owned_by(caller) {
                    no_fields_to_update()
                } else {
                    update_refused()
                },
            )
        }),
{
    let e0 = EndpointView::UpdateArticle { step: Step::Start, caller, id, patch };
    let (e1, a1) = e0.step(EventView::Begin);
    let (s1, r1) = store.execute(a1->Query_0, now);
    assert(serve(e0, store, now, mail_works) == run(
        e1,
        s1,
        EventView::Store(r1),
        now,
        mail_works,
        7,
    ));
    if store.article(id) is Some {
        lemma_first_index_some(store.articles, |a: ArticleView| a.id == id);
    }
}

/// An update that names a status other than draft or published writes
/// nothing and is refused as an invalid status, whoever sends it and
/// whatever else it names.
pub proof fn law_invalid_status_is_not_written(
    store: StoreView,
    caller: i64,
    id: i64,
    patch: ArticlePatchView,
    now: i64,
    mail_works: bool,
)
    requires
        !patch.status_is_valid(),
    ensures
        serve(
            EndpointView::UpdateArticle { step: Step::Start, caller, id, patch },
            store,
            now,
            mail_works,
        ) == (store, invalid_status()),
{
}

/// An article whose status would be neither draft nor published is not
/// created: nothing is written and the request is refused as an invalid
/// status.
pub proof fn law_invalid_status_is_not_created(
    store: StoreView,
    caller: i64,
    title: Seq<char>,
    content: Seq<char>,
    status: i8,
    now: i64,
    mail_works: bool,
)
    requires
        !is_status(status),
    ensures
        serve(
            EndpointView::CreateArticle {
                step: Step::Start,
                caller,
                title,
                content,
                status: Some(status),
            },
            store,
            now,
            mail_works,
        ) == (store, invalid_status()),
{
}

/// Every article is a draft or published, and stays so: whatever request
/// is served, with whatever status in it, every article in the store
/// afterwards is a draft or published.
pub proof fn law_articles_stay_draft_or_published(
    endpoint: EndpointView,
    store: StoreView,
    now: i64,
    mail_works: bool,
)
    requires
        store.well_formed(),
    ensures
        forall|i: int|
            0 <= i < serve(endpoint, store, now, mail_works).0.articles.len() ==> is_status(
                (#[trigger] serve(endpoint, store, now, mail_works).0.articles[i]).status,
            ),
{
    law_serving_keeps_store_well_formed(
        endpoint,
        store,
        EventView::Begin,
        now,
        mail_works,
        MAX_STEPS as nat,
    );
}

/// An update by anyone but the author writes nothing. It is refused as not
/// found or forbidden, unless it names a status that is neither draft nor
/// published, which is refused as such.
pub proof fn law_only_author_updates(
    store: StoreView,
    caller: i64,
    id: i64,
    patch: ArticlePatchView,
    now: i64,
    mail_works: bool,
)
    requires
        store.article(id) is None || !store.article(id)->0.owned_by(caller),
    ensures
        serve(
            EndpointView::UpdateArticle { step: Step::Start, caller, id, patch },
            store,
            now,
            mail_works,
        ) == (store, if patch.status_is_valid() { update_refused() } else { invalid_status() }),
{
    let e0 = EndpointView::UpdateArticle { step: Step::Start, caller, id, patch };
    let (e1, a1) = e0.step(EventView::Begin);
    let (s1, r1) = store.execute(a1->Query_0, now);
    assert(patch.status_is_valid() ==> serve(e0, store, now, mail_works) == run(
        e1,
        s1,
        EventView::Store(r1),
        now,
        mail_works,
        7,
    ));
    if store.article(id) is Some {
        lemma_first_index_some(store.articles, |a: ArticleView| a.id == id);
    }
}

/// A removal by anyone but the author writes nothing and is refused as not
/// found or forbidden.
pub proof fn law_only_author_deletes(
    store: StoreView,
    caller: i64,
    id: i64,
    now: i64,
    mail_works: bool,
)
    requires
        store.article(id) is None || !store.article(id)->0.owned_by(caller),
    ensures
        serve(
            EndpointView::DeleteArticle { step: Step::Start, caller, id },
            store,
            now,
            mail_works,
        ) == (store, crate::handlers::article::delete_refused()),
{
    let e0 = EndpointView::DeleteArticle { step: Step::Start, caller, id };
    let (e1, a1) = e0.step(EventView::Begin);
    let (s1, r1) = store.execute(a1->Query_0, now);
    assert(serve(e0, store, now, mail_works) == run(
        e1,
        s1,
        EventView::Store(r1),
        now,
        mail_works,
        7,
    ));
}

/// An update of an application that names no field writes nothing,
/// whoever sends it and whether or not the application exists: the store,
/// and with it the recorded updater and every `updated_at`, stays as it
/// was, and the request is refused for want of fields.
pub proof fn law_empty_app_update_writes_nothing(
    store: StoreView,
    caller: i64,
    id: i64,
    patch: AppPatchView,
    now: i64,
    mail_works: bool,
)
    requires
        patch.is_empty(),
    ensures
        serve(
            EndpointView::UpdateApp { step: Step::Start, caller, id, patch },
            store,
            now,
            mail_works,
        ) == (store, no_app_fields_to_update()),
{
}

/// The creation of an application named `name` with `identifier` by `caller`.
pub open spec fn app_creation(
    caller: i64,
    name: Seq<char>,
    description: Seq<char>,
    identifier: Seq<char>,
) -> EndpointView {
    EndpointView::CreateApp { step: Step::Start, caller, name, description, identifier }
}

/// What creating an application does: it is refused as a duplicate where
/// the identifier is taken, and otherwise the application is written.
pub open spec fn app_creation_outcome(
    store: StoreView,
    caller: i64,
    name: Seq<char>,
    description: Seq<char>,
    identifier: Seq<char>,
    now: i64,
) -> (StoreView, ResponseView) {
    if store.app_by_identifier(identifier) is Some {
        (store, duplicate_identifier())
    } else {
        let (after, reply) = store.execute(
            StoreRequestView::InsertApp { name, description, identifier, creator_id: caller },
            now,
        );
        if reply is Written {
            (after, ResponseView::message(crate::handlers::STATUS_CREATED, "应用创建成功"@))
        } else {
            (after, ResponseView::rejected(Rejection::StoreFailure, "创建应用失败"@))
        }
    }
}

/// Serving the creation of an application gives [`app_creation_outcome`].
pub proof fn law_app_creation_outcome(
    store: StoreView,
    caller: i64,
    name: Seq<char>,
    description: Seq<char>,
    identifier: Seq<char>,
    now: i64,
    mail_works: bool,
)
    ensures
        serve(app_creation(caller, name, description, identifier), store, now, mail_works)
            == app_creation_outcome(store, caller, name, description, identifier, now),
{
    let e0 = app_creation(caller, name, description, identifier);
    let (e1, a1) = e0.step(EventView::Begin);
    let (s1, r1) = store.execute(a1->Query_0, now);
    assert(serve(e0, store, now, mail_works) == run(
        e1,
        s1,
        EventView::Store(r1),
        now,
        mail_works,
        7,
    ));
    let (e2, a2) = e1.step(EventView::Store(r1));
    if a2 is Query {
        let (s2, r2) = s1.execute(a2->Query_0, now);
        assert(run(e1, s1, EventView::Store(r1), now, mail_works, 7) == run(
            e2,
            s2,
            EventView::Store(r2),
            now,
            mail_works,
            6,
        ));
    }
}

/// Once an application with an identifier is in the store, every further
/// creation with that identifier is refused as a duplicate, whatever its
/// name and whoever asks, and writes nothing.
pub proof fn law_second_app_is_duplicate(
    store: StoreView,
    identifier: Seq<char>,
    first_caller: i64,
    first_name: Seq<char>,
    first_description: Seq<char>,
    first_now: i64,
    second_caller: i64,
    second_name: Seq<char>,
    second_description: Seq<char>,
    second_now: i64,
    mail_works: bool,
)
    requires
        serve(
            app_creation(first_caller, first_name, first_description, identifier),
            store,
            first_now,
            mail_works,
        ).1.rejection() != Some(Rejection::StoreFailure),
    ensures
        ({
            let after = serve(
                app_creation(first_caller, first_name, first_description, identifier),
                store,
                first_now,
                mail_works,
            ).0;
            serve(
                app_creation(second_caller, second_name, second_description, identifier),
                after,
                second_now,
                mail_works,
            ) == (after, duplicate_identifier())
        }),
{
    law_app_creation_outcome(
        store,
        first_caller,
        first_name,
        first_description,
        identifier,
        first_now,
        mail_works,
    );
    let after = serve(
        app_creation(first_caller, first_name, first_description, identifier),
        store,
        first_now,
        mail_works,
    ).0;
    law_app_creation_outcome(
        after,
        second_caller,
        second_name,
        second_description,
        identifier,
        second_now,
        mail_works,
    );
    if store.app_by_identifier(identifier) is None {
        let wanted = |a: crate::models::app::AppView| a.identifier == identifier;
        lemma_first_exists(after.apps, wanted, 0);
    }
}

/// No request ever removes an account, changes its id, or takes back its
/// verification: once verified, an account stays verified.
pub proof fn law_verification_is_monotonic(store: StoreView, request: StoreRequestView, now: i64)
    ensures
        ({
            let after = store.execute(request, now).0;
            &&& after.users.len() >= store.users.len()
            &&& forall|i: int|
                0 <= i < store.users.len() ==> {
                    &&& (#[trigger] after.users[i]).id == store.users[i].id
                    &&& after.users[i].email == store.users[i].email
                    &&& store.users[i].is_verified() ==> after.users[i].is_verified()
                }
        }),
{
    match request {
        StoreRequestView::ConfirmUser { id } => {
            if store.user_index(id) is Some {
                lemma_first_index_some(store.users, |u: UserView| u.id == id);
            }
        },
        _ => {},
    }
}

/// A pending code and its expiry come and go together: every request
/// leaves every account either with both or with neither.
pub proof fn law_code_comes_with_expiry(store: StoreView, request: StoreRequestView, now: i64)
    requires
        store.well_formed(),
    ensures
        ({
            let after = store.execute(request, now).0;
            forall|i: int|
                0 <= i < after.users.len() ==> ((#[trigger] after.users[i]).verification_code
                    is Some <==> after.users[i].verification_code_expires_at is Some)
        }),
{
    law_execute_keeps_well_formed(store, request, now);
}

/// An article's author and creation instant never change: whatever a
/// request does, an article that is in the store before and after it has
/// the author and the creation instant it had.
pub proof fn law_author_never_changes(
    store: StoreView,
    request: StoreRequestView,
    now: i64,
    id: i64,
)
    requires
        store.well_formed(),
        store.article(id) is Some,
        store.execute(request, now).0.article(id) is Some,
    ensures
        store.execute(request, now).0.article(id)->0.author_id == store.article(id)->0.author_id,
        store.execute(request, now).0.article(id)->0.created_at == store.article(id)->0.created_at,
{
    let after = store.execute(request, now).0;
    let wanted = |a: ArticleView| a.id == id;
    lemma_first_index_some(store.articles, wanted);
    lemma_first_index_some(after.articles, wanted);
    match request {
        StoreRequestView::UpdateArticle { id: target, author_id, patch } => {
            if store.article_index(target) is Some {
                lemma_first_index_some(store.articles, |a: ArticleView| a.id == target);
            }
        },
        StoreRequestView::DeleteArticle { id: target, author_id } => {
            if store.article_index(target) is Some {
                lemma_first_index_some(store.articles, |a: ArticleView| a.id == target);
            }
        },
        _ => {},
    }
}

} // verus!
