//! The operations that the HTTP boundary offers, each as a function of the
//! shared state: the authorization gate first, then the work.
//!
//! The boundary reads the request, hands over the raw `Authorization` header
//! and the parsed body, and turns the typed result into a response.
//! Operations that stamp what they make with the time take it as an argument:
//! the boundary reads the clock once for each request.

use vstd::prelude::*;
use crate::authorizer::{authorized, authorizer, header_bytes};
use crate::clock::{format_rfc3339, rfc3339_text, Instant};
use crate::dispatch::{dispatched, events_after, is_dispatch, DispatchResult};
use crate::errors::{ApiError, ErrorKind, Success};
use crate::event_store::EventStore;
use crate::grant::{check_grant_form, check_grant_header, grant_outcome, FormField};
use crate::models::{
    ObjectOperation, ObjectOperationView, ObjectTypes, OpenADREvent, OpenADREventView, Operation,
    Operations, OperationsView, Subscription, SubscriptionView,
};
use crate::registry::{
    deleted, lists, lookup, replace_result, replaced, upsert_result, upserted,
    SubscriptionRegistry,
};
use crate::storage::AppState;
use crate::synthesizer::{
    create_test_oadr_event, synthesized, EventParameters, EventParametersView,
};

verus! {

/// Whether `header` presents the token of `state`.
pub open spec fn allowed(state: &AppState, header: Option<&[u8]>) -> bool {
    authorized(state.secrets.dummy_token@, header_bytes(header))
}

/// What every gated operation answers to a caller who is not allowed.
pub open spec fn denied<T>() -> Result<T, ApiError> {
    Err(ApiError::InvalidCredentials)
}

/// Answers a liveness check.
pub fn get_ping() -> (answer: &'static str)
    ensures
        answer@ == "pong"@,
{
    "pong"
}

/// Whether `result` answers a request for a token that ended as `outcome`: the
/// configured token where it passed, else the failure.
pub open spec fn is_token_reply(
    result: Result<String, ApiError>,
    outcome: Result<(), ApiError>,
    token: Seq<char>,
) -> bool {
    match outcome {
        Ok(()) => result matches Ok(issued) && issued@ == token,
        Err(error) => result matches Err(e) && e == error,
    }
}

/// Issues the configured token to a caller who presents the configured header
/// and a grant form with `grant_type=client_credentials` and a `scope`, and
/// nothing else.
pub fn post_auth(
    state: &AppState,
    authorization: Option<&[u8]>,
    fields: &Vec<FormField>,
) -> (result: Result<String, ApiError>)
    ensures
        is_token_reply(
            result,
            grant_outcome(
                state.secrets.basic_auth_header@,
                header_bytes(authorization),
                fields.deep_view(),
            ),
            state.secrets.dummy_token@,
        ),
{
    match check_grant_header(&state.secrets, authorization) {
        Ok(()) => {},
        Err(error) => {
            return Err(error);
        },
    }
    match check_grant_form(fields) {
        Ok(()) => {},
        Err(error) => {
            return Err(error);
        },
    }
    Ok(state.secrets.dummy_token.clone())
}

/// Empties the event store.
pub fn post_clear_events(state: &mut AppState, authorization: Option<&[u8]>) -> (result: Result<
    Success,
    ApiError,
>)
    ensures
        final(state).subscriptions == old(state).subscriptions,
        final(state).secrets == old(state).secrets,
        allowed(old(state), authorization) ==> result == Ok::<Success, ApiError>(Success::Done),
        allowed(old(state), authorization) ==> final(state).event_storage@ == EventStore::cleared(
            old(state).event_storage@,
        ),
        !allowed(old(state), authorization) ==> result == denied::<Success>(),
        !allowed(old(state), authorization) ==> final(state).event_storage@ == old(
            state,
        ).event_storage@,
{
    if !authorizer(&state.secrets, authorization) {
        return Err(ApiError::InvalidCredentials);
    }
    state.event_storage.clear();
    Ok(Success::Done)
}

/// Whether `result` hands out exactly `events`.
pub open spec fn is_events_reply(
    result: Result<Vec<OpenADREvent>, ApiError>,
    events: Seq<OpenADREventView>,
) -> bool {
    result matches Ok(copies) && copies.deep_view() == events
}

/// Hands out a copy of the events, oldest first.
pub fn get_events(state: &AppState, authorization: Option<&[u8]>) -> (result: Result<
    Vec<OpenADREvent>,
    ApiError,
>)
    ensures
        allowed(state, authorization) ==> is_events_reply(
            result,
            EventStore::snapshot_of(state.event_storage@),
        ),
        !allowed(state, authorization) ==> result == denied::<Vec<OpenADREvent>>(),
{
    if !authorizer(&state.secrets, authorization) {
        return Err(ApiError::InvalidCredentials);
    }
    Ok(state.event_storage.snapshot())
}

/// The events after an event for `p` was asked for at `now`, and how the call
/// ends: the synthesized event is appended, or synthesis fails and nothing
/// changes.
pub open spec fn polled_event_made(
    before: Seq<OpenADREventView>,
    after: Seq<OpenADREventView>,
    result: Result<Success, ApiError>,
    p: EventParametersView,
    now: Instant,
) -> bool {
    match synthesized(p, now) {
        Ok(event) => {
            &&& result == Ok::<Success, ApiError>(Success::Created)
            &&& after == before.push(event)
        },
        Err(error) => {
            &&& result == Err::<Success, ApiError>(error)
            &&& after == before
        },
    }
}

/// Synthesizes an event as of `now` and appends it to the store.
pub fn generate_polled_event(store: &mut EventStore, body: EventParameters, now: Instant) -> (result:
    Result<Success, ApiError>)
    ensures
        polled_event_made(old(store)@, final(store)@, result, body@, now),
{
    match create_test_oadr_event(body, now) {
        Ok(event) => {
            store.append(event);
            Ok(Success::Created)
        },
        Err(error) => Err(error),
    }
}

/// Synthesizes an event as of `now`, the current time, and appends it to the
/// store, for pollers to find.
pub fn post_generate_polled_event(
    state: &mut AppState,
    authorization: Option<&[u8]>,
    body: EventParameters,
    now: Instant,
) -> (result: Result<Success, ApiError>)
    ensures
        final(state).subscriptions == old(state).subscriptions,
        final(state).secrets == old(state).secrets,
        !allowed(old(state), authorization) ==> result == denied::<Success>(),
        !allowed(old(state), authorization) ==> final(state).event_storage@ == old(
            state,
        ).event_storage@,
        allowed(old(state), authorization) ==> polled_event_made(
            old(state).event_storage@,
            final(state).event_storage@,
            result,
            body@,
            now,
        ),
        allowed(old(state), authorization) && !body@.valid() ==> result == Err::<Success, ApiError>(
            ApiError::InvalidParameters,
        ),
        result is Err ==> final(state).event_storage@ == old(state).event_storage@,
{
    if !authorizer(&state.secrets, authorization) {
        return Err(ApiError::InvalidCredentials);
    }
    generate_polled_event(&mut state.event_storage, body, now)
}

/// The subscription that stands in for one made by hand: it is kept under
/// `test` and asks for events to be posted to `callback_url`.
pub open spec fn initial_subscription_model(
    callback_url: Seq<char>,
    created: Seq<char>,
) -> SubscriptionView {
    SubscriptionView {
        id: Some("test"@),
        created_date_time: Some(created),
        modification_date_time: Some(created),
        object_type: Some(ObjectTypes::SUBSCRIPTION),
        client_name: "testing_oadr3_VEN"@,
        program_id: "test_program"@,
        object_operations: seq![
            ObjectOperationView {
                object_type: seq![ObjectTypes::EVENT],
                operations: OperationsView { operations: seq![Operation::POST] },
                callback_url: callback_url,
                bearer_token: ""@,
            },
        ],
        targets: None,
    }
}

/// Builds the initial subscription, stamped with `created`.
pub fn initial_subscription(callback_url: String, created: String) -> (subscription: Subscription)
    ensures
        subscription@ == initial_subscription_model(callback_url@, created@),
{
    let operation = ObjectOperation {
        object_type: vec![ObjectTypes::EVENT],
        operations: Operations { operations: vec![Operation::POST] },
        callback_url: callback_url,
        bearer_token: String::from_str(""),
    };
    let object_operations = vec![operation];
    let modified = created.clone();
    proof {
        let model = initial_subscription_model(callback_url@, created@);
        assert(operation.object_type.deep_view() =~= seq![ObjectTypes::EVENT]);
        assert(operation.operations.operations.deep_view() =~= seq![Operation::POST]);
        assert(object_operations.deep_view() =~= model.object_operations);
    }
    Subscription {
        id: Some(String::from_str("test")),
        created_date_time: Some(created),
        modification_date_time: Some(modified),
        object_type: Some(ObjectTypes::SUBSCRIPTION),
        client_name: String::from_str("testing_oadr3_VEN"),
        program_id: String::from_str("test_program"),
        object_operations: object_operations,
        targets: None,
    }
}

/// The registry after the initial subscription was asked for at `now`, and how
/// the call ends: the subscription is under `test`, in place of what was there,
/// or `now` cannot be written as a timestamp and nothing changes.
pub open spec fn initial_subscription_made(
    before: Map<Seq<char>, SubscriptionView>,
    after: Map<Seq<char>, SubscriptionView>,
    result: Result<Success, ApiError>,
    callback_url: Seq<char>,
    now: Instant,
) -> bool {
    match rfc3339_text(now) {
        Some(created) => {
            &&& result == Ok::<Success, ApiError>(Success::Created)
            &&& after == before.insert("test"@, initial_subscription_model(callback_url, created))
        },
        None => {
            &&& result == Err::<Success, ApiError>(ApiError::TimeOutOfRange)
            &&& after == before
        },
    }
}

/// Puts the initial subscription, stamped with `now`, into the registry.
pub fn generate_initial_subscription(
    registry: &mut SubscriptionRegistry,
    callback_url: String,
    now: Instant,
) -> (result: Result<Success, ApiError>)
    requires
        old(registry).wf(),
    ensures
        final(registry).wf(),
        initial_subscription_made(old(registry)@, final(registry)@, result, callback_url@, now),
{
    let created = match format_rfc3339(now) {
        Some(text) => text,
        None => {
            return Err(ApiError::TimeOutOfRange);
        },
    };
    let subscription = initial_subscription(callback_url, created);
    match registry.upsert(subscription) {
        Ok(()) => Ok(Success::Created),
        Err(error) => Err(error),
    }
}

/// Puts the initial subscription into the registry, stamped with `now`, the
/// current time, as an operator would by hand.
pub fn post_generate_initial_subscription(
    state: &mut AppState,
    authorization: Option<&[u8]>,
    callback_url: String,
    now: Instant,
) -> (result: Result<Success, ApiError>)
    requires
        old(state).wf(),
    ensures
        final(state).wf(),
        final(state).event_storage == old(state).event_storage,
        final(state).secrets == old(state).secrets,
        !allowed(old(state), authorization) ==> result == denied::<Success>(),
        !allowed(old(state), authorization) ==> final(state).subscriptions@ == old(
            state,
        ).subscriptions@,
        allowed(old(state), authorization) ==> initial_subscription_made(
            old(state).subscriptions@,
            final(state).subscriptions@,
            result,
            callback_url@,
            now,
        ),
        result is Err ==> final(state).subscriptions@ == old(state).subscriptions@,
{
    if !authorizer(&state.secrets, authorization) {
        return Err(ApiError::InvalidCredentials);
    }
    generate_initial_subscription(&mut state.subscriptions, callback_url, now)
}

/// How storing a subscription ends for the caller.
pub open spec fn stored_reply(outcome: Result<(), ApiError>) -> Result<Success, ApiError> {
    match outcome {
        Ok(()) => Ok(Success::Done),
        Err(error) => Err(error),
    }
}

/// Creates the subscription, or puts it in place of the one with the same
/// identifier. Whoever is allowed may overwrite any subscription.
pub fn post_subscription(
    state: &mut AppState,
    authorization: Option<&[u8]>,
    subscription: Subscription,
) -> (result: Result<Success, ApiError>)
    requires
        old(state).wf(),
    ensures
        final(state).wf(),
        final(state).event_storage == old(state).event_storage,
        final(state).secrets == old(state).secrets,
        !allowed(old(state), authorization) ==> result == denied::<Success>(),
        !allowed(old(state), authorization) ==> final(state).subscriptions@ == old(
            state,
        ).subscriptions@,
        allowed(old(state), authorization) ==> result == stored_reply(
            upsert_result(subscription@),
        ),
        allowed(old(state), authorization) ==> final(state).subscriptions@ == upserted(
            old(state).subscriptions@,
            subscription@,
        ),
{
    if !authorizer(&state.secrets, authorization) {
        return Err(ApiError::InvalidCredentials);
    }
    match state.subscriptions.upsert(subscription) {
        Ok(()) => Ok(Success::Done),
        Err(error) => Err(error),
    }
}

/// Whether `result` hands out each entry of `entries` once, in any order.
pub open spec fn is_listing_reply(
    result: Result<Vec<Subscription>, ApiError>,
    entries: Map<Seq<char>, SubscriptionView>,
) -> bool {
    result matches Ok(listing) && lists(listing.deep_view(), entries)
}

/// Hands out copies of all subscriptions, each once, in no particular order.
pub fn get_subscriptions(state: &AppState, authorization: Option<&[u8]>) -> (result: Result<
    Vec<Subscription>,
    ApiError,
>)
    requires
        state.wf(),
    ensures
        allowed(state, authorization) ==> is_listing_reply(result, state.subscriptions@),
        !allowed(state, authorization) ==> result == denied::<Vec<Subscription>>(),
{
    if !authorizer(&state.secrets, authorization) {
        return Err(ApiError::InvalidCredentials);
    }
    Ok(state.subscriptions.list())
}

/// Whether `result` answers a lookup that found `found`.
pub open spec fn is_lookup_reply(
    result: Result<Subscription, ApiError>,
    found: Option<SubscriptionView>,
) -> bool {
    match found {
        Some(subscription) => result matches Ok(copy) && copy@ == subscription,
        None => result matches Err(error) && error == ApiError::SubscriptionNotFound,
    }
}

/// Hands out a copy of the subscription under `subscription_id`.
pub fn get_subscription(
    state: &AppState,
    authorization: Option<&[u8]>,
    subscription_id: &str,
) -> (result: Result<Subscription, ApiError>)
    requires
        state.wf(),
    ensures
        allowed(state, authorization) ==> is_lookup_reply(
            result,
            lookup(state.subscriptions@, subscription_id@),
        ),
        !allowed(state, authorization) ==> result == denied::<Subscription>(),
{
    if !authorizer(&state.secrets, authorization) {
        return Err(ApiError::InvalidCredentials);
    }
    match state.subscriptions.get(subscription_id) {
        Some(subscription) => Ok(subscription),
        None => Err(ApiError::SubscriptionNotFound),
    }
}

/// How deleting under `id` ends for the caller: there must be an entry.
pub open spec fn delete_reply(entries: Map<Seq<char>, SubscriptionView>, id: Seq<char>) -> Result<
    Success,
    ApiError,
> {
    if entries.dom().contains(id) {
        Ok(Success::Done)
    } else {
        Err(ApiError::SubscriptionNotFound)
    }
}

/// Deleting under an identifier that is not there fails as not-found and
/// changes nothing; deleting under one that is there works, and a lookup then
/// finds nothing.
pub proof fn lemma_delete(entries: Map<Seq<char>, SubscriptionView>, id: Seq<char>)
    ensures
        !entries.dom().contains(id) ==> delete_reply(entries, id) == Err::<Success, ApiError>(
            ApiError::SubscriptionNotFound,
        ),
        !entries.dom().contains(id) ==> deleted(entries, id) == entries,
        ApiError::SubscriptionNotFound.spec_kind() == ErrorKind::NotFoundError,
        entries.dom().contains(id) ==> delete_reply(entries, id) == Ok::<Success, ApiError>(
            Success::Done,
        ),
        lookup(deleted(entries, id), id) is None,
{
    if !entries.dom().contains(id) {
        assert(entries.remove(id) =~= entries);
    }
}

/// Deletes the subscription under `subscription_id`. Whoever is allowed may
/// delete any subscription.
pub fn delete_subscription(
    state: &mut AppState,
    authorization: Option<&[u8]>,
    subscription_id: &str,
) -> (result: Result<Success, ApiError>)
    requires
        old(state).wf(),
    ensures
        final(state).wf(),
        final(state).event_storage == old(state).event_storage,
        final(state).secrets == old(state).secrets,
        !allowed(old(state), authorization) ==> result == denied::<Success>(),
        allowed(old(state), authorization) ==> result == delete_reply(
            old(state).subscriptions@,
            subscription_id@,
        ),
        allowed(old(state), authorization) ==> final(state).subscriptions@ == deleted(
            old(state).subscriptions@,
            subscription_id@,
        ),
        result is Err ==> final(state).subscriptions@ == old(state).subscriptions@,
{
    if !authorizer(&state.secrets, authorization) {
        return Err(ApiError::InvalidCredentials);
    }
    if state.subscriptions.delete(subscription_id) {
        Ok(Success::Done)
    } else {
        assert(state.subscriptions@ =~= old(state).subscriptions@);
        Err(ApiError::SubscriptionNotFound)
    }
}

/// Puts `subscription` in place of the one under `subscription_id`, which must
/// be there and be the identifier that the subscription carries.
pub fn put_subscription(
    state: &mut AppState,
    authorization: Option<&[u8]>,
    subscription_id: &str,
    subscription: Subscription,
) -> (result: Result<Success, ApiError>)
    requires
        old(state).wf(),
    ensures
        final(state).wf(),
        final(state).event_storage == old(state).event_storage,
        final(state).secrets == old(state).secrets,
        !allowed(old(state), authorization) ==> result == denied::<Success>(),
        allowed(old(state), authorization) ==> result == stored_reply(
            replace_result(old(state).subscriptions@, subscription_id@, subscription@),
        ),
        allowed(old(state), authorization) ==> final(state).subscriptions@ == replaced(
            old(state).subscriptions@,
            subscription_id@,
            subscription@,
        ),
        result is Err ==> final(state).subscriptions@ == old(state).subscriptions@,
{
    if !authorizer(&state.secrets, authorization) {
        return Err(ApiError::InvalidCredentials);
    }
    match state.subscriptions.replace(subscription_id, subscription) {
        Ok(()) => Ok(Success::Done),
        Err(error) => Err(error),
    }
}

/// The events after a trigger at `now`, and how the call ends: as
/// [`dispatched`] says.
pub open spec fn triggered(
    entries: Map<Seq<char>, SubscriptionView>,
    before: Seq<OpenADREventView>,
    after: Seq<OpenADREventView>,
    result: Result<DispatchResult, ApiError>,
    id: Seq<char>,
    p: EventParametersView,
    now: Instant,
) -> bool {
    &&& is_dispatch(result, dispatched(entries, id, p, now))
    &&& after == events_after(before, dispatched(entries, id, p, now))
}

/// Triggers the subscription under `subscription_id` as of `now`, the current
/// time: an event is synthesized and stored, and comes back with the
/// deliveries to attempt. How the deliveries end has no bearing on the result.
pub fn post_trigger_subscription_event(
    state: &mut AppState,
    authorization: Option<&[u8]>,
    subscription_id: &str,
    body: EventParameters,
    now: Instant,
) -> (result: Result<DispatchResult, ApiError>)
    requires
        old(state).wf(),
    ensures
        final(state).wf(),
        final(state).subscriptions == old(state).subscriptions,
        final(state).secrets == old(state).secrets,
        !allowed(old(state), authorization) ==> result == denied::<DispatchResult>(),
        allowed(old(state), authorization) ==> triggered(
            old(state).subscriptions@,
            old(state).event_storage@,
            final(state).event_storage@,
            result,
            subscription_id@,
            body@,
            now,
        ),
        allowed(old(state), authorization) && !old(state).subscriptions@.dom().contains(
            subscription_id@,
        ) ==> result == Err::<DispatchResult, ApiError>(ApiError::SubscriptionNotFound),
        allowed(old(state), authorization) && old(state).subscriptions@.dom().contains(
            subscription_id@,
        ) && !body@.valid() ==> result == Err::<DispatchResult, ApiError>(
            ApiError::InvalidParameters,
        ),
        result is Err ==> final(state).event_storage@ == old(state).event_storage@,
        result matches Ok(dispatch) ==> final(state).event_storage@ == old(
            state,
        ).event_storage@.push(dispatch.event@),
{
    if !authorizer(&state.secrets, authorization) {
        return Err(ApiError::InvalidCredentials);
    }
    crate::dispatch::trigger(
        &state.subscriptions,
        &mut state.event_storage,
        subscription_id,
        body,
        now,
    )
}

} // verus!
