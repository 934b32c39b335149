//! The dispatch engine: on a trigger it synthesizes an event, stores it, and
//! says to which callbacks the event is to be posted. Posting itself is left
//! to the caller, who attempts each delivery once and ignores how it ends.

use vstd::prelude::*;
use crate::clock::Instant;
use crate::errors::{ApiError, ErrorKind};
use crate::event_store::EventStore;
use crate::models::{
    ObjectOperation, ObjectOperationView, ObjectTypes, OpenADREvent, OpenADREventView,
    SubscriptionView,
};
use crate::registry::SubscriptionRegistry;
use crate::synthesizer::{
    create_test_oadr_event, synthesized, EventParameters, EventParametersView,
};

verus! {

/// One outbound call: a POST of the event to `callback_url`, presenting
/// `bearer_token`.
#[derive(Debug, PartialEq, Eq)]
pub struct Delivery {
    pub callback_url: String,
    pub bearer_token: String,
}

/// The mathematical value of a [`Delivery`].
pub struct DeliveryView {
    pub callback_url: Seq<char>,
    pub bearer_token: Seq<char>,
}

impl DeepView for Delivery {
    type V = DeliveryView;

    open spec fn deep_view(&self) -> DeliveryView {
        DeliveryView { callback_url: self.callback_url@, bearer_token: self.bearer_token@ }
    }
}

impl View for Delivery {
    type V = DeliveryView;

    open spec fn view(&self) -> DeliveryView {
        self.deep_view()
    }
}

/// What a trigger that worked hands back: the event that was stored, and the
/// deliveries to attempt, in the order of the subscription's entries.
#[derive(Debug, PartialEq, Eq)]
pub struct DispatchResult {
    pub event: OpenADREvent,
    pub deliveries: Vec<Delivery>,
}

/// The mathematical value of a [`DispatchResult`].
pub struct DispatchResultView {
    pub event: OpenADREventView,
    pub deliveries: Seq<DeliveryView>,
}

impl DeepView for DispatchResult {
    type V = DispatchResultView;

    open spec fn deep_view(&self) -> DispatchResultView {
        DispatchResultView { event: self.event@, deliveries: self.deliveries.deep_view() }
    }
}

impl View for DispatchResult {
    type V = DispatchResultView;

    open spec fn view(&self) -> DispatchResultView {
        self.deep_view()
    }
}

/// Whether an entry asks for events.
pub open spec fn wants_events(operation: ObjectOperationView) -> bool {
    operation.object_type.contains(ObjectTypes::EVENT)
}

/// The delivery that an entry asks for.
pub open spec fn delivery_of(operation: ObjectOperationView) -> DeliveryView {
    DeliveryView { callback_url: operation.callback_url, bearer_token: operation.bearer_token }
}

/// The deliveries for a list of entries: one for each entry that asks for
/// events, in the order of the entries.
pub open spec fn deliveries_for(operations: Seq<ObjectOperationView>) -> Seq<DeliveryView>
    decreases operations.len(),
{
    if operations.len() == 0 {
        Seq::empty()
    } else if wants_events(operations.last()) {
        deliveries_for(operations.drop_last()).push(delivery_of(operations.last()))
    } else {
        deliveries_for(operations.drop_last())
    }
}

/// What a trigger at `now` comes to: not-found where no subscription is kept
/// under `id`; else what synthesis fails with; else the event, with the
/// deliveries for the subscription's entries.
pub open spec fn dispatched(
    entries: Map<Seq<char>, SubscriptionView>,
    id: Seq<char>,
    p: EventParametersView,
    now: Instant,
) -> Result<DispatchResultView, ApiError> {
    if !entries.dom().contains(id) {
        Err(ApiError::SubscriptionNotFound)
    } else {
        match synthesized(p, now) {
            Ok(event) => Ok(
                DispatchResultView {
                    event: event,
                    deliveries: deliveries_for(entries[id].object_operations),
                },
            ),
            Err(error) => Err(error),
        }
    }
}

/// The events after a trigger with the given outcome: the new event is at the
/// end where the trigger worked, and nothing has changed where it failed.
pub open spec fn events_after(
    events: Seq<OpenADREventView>,
    outcome: Result<DispatchResultView, ApiError>,
) -> Seq<OpenADREventView> {
    match outcome {
        Ok(dispatch) => events.push(dispatch.event),
        Err(_) => events,
    }
}

/// Whether `result` is `outcome`, by its view.
pub open spec fn is_dispatch(
    result: Result<DispatchResult, ApiError>,
    outcome: Result<DispatchResultView, ApiError>,
) -> bool {
    match outcome {
        Ok(model) => result matches Ok(dispatch) && dispatch@ == model,
        Err(error) => result matches Err(e) && e == error,
    }
}

/// A trigger for a subscription that is there, with a length, limit or lead
/// time below one, fails as a validation error whatever the time, and leaves
/// the events as they were.
pub proof fn lemma_invalid_parameters_store_nothing(
    entries: Map<Seq<char>, SubscriptionView>,
    events: Seq<OpenADREventView>,
    id: Seq<char>,
    p: EventParametersView,
    now: Instant,
)
    requires
        entries.dom().contains(id),
        p.length < 1 || p.limit_kw < 1 || p.minutes_in_future < 1,
    ensures
        dispatched(entries, id, p, now) == Err::<DispatchResultView, ApiError>(
            ApiError::InvalidParameters,
        ),
        ApiError::InvalidParameters.spec_kind() == ErrorKind::ValidationError,
        events_after(events, dispatched(entries, id, p, now)) == events,
{
}

/// A trigger for an identifier under which nothing is kept fails as not-found,
/// whatever the parameters and the time, and leaves the events as they were.
pub proof fn lemma_unknown_subscription_stores_nothing(
    entries: Map<Seq<char>, SubscriptionView>,
    events: Seq<OpenADREventView>,
    id: Seq<char>,
    p: EventParametersView,
    now: Instant,
)
    requires
        !entries.dom().contains(id),
    ensures
        dispatched(entries, id, p, now) == Err::<DispatchResultView, ApiError>(
            ApiError::SubscriptionNotFound,
        ),
        ApiError::SubscriptionNotFound.spec_kind() == ErrorKind::NotFoundError,
        events_after(events, dispatched(entries, id, p, now)) == events,
{
}

/// A trigger that works stores exactly one event: the one it hands back.
pub proof fn lemma_trigger_stores_its_event(
    entries: Map<Seq<char>, SubscriptionView>,
    events: Seq<OpenADREventView>,
    id: Seq<char>,
    p: EventParametersView,
    now: Instant,
)
    requires
        dispatched(entries, id, p, now) is Ok,
    ensures
        events_after(events, dispatched(entries, id, p, now)).len() == events.len() + 1,
        events_after(events, dispatched(entries, id, p, now)).last() == dispatched(
            entries,
            id,
            p,
            now,
        )->Ok_0.event,
        events_after(events, dispatched(entries, id, p, now)).drop_last() == events,
{
    let event = dispatched(entries, id, p, now)->Ok_0.event;
    assert(events.push(event).drop_last() =~= events);
}

impl ObjectOperation {
    /// Whether the entry names `kind` among its object types.
    pub fn applies_to(&self, kind: ObjectTypes) -> (named: bool)
        ensures
            named == self@.object_type.contains(kind),
    {
        let mut i: usize = 0;
        while i < self.object_type.len()
            invariant
                i <= self.object_type@.len(),
                forall|j: int| 0 <= j < i ==> self.object_type@[j] != kind,
            decreases self.object_type@.len() - i,
        {
            if self.object_type[i] == kind {
                assert(self@.object_type[i as int] == kind);
                return true;
            }
            i = i + 1;
        }
        assert forall|j: int| 0 <= j < self@.object_type.len() implies self@.object_type[j]
            != kind by {
            assert(self@.object_type[j] == self.object_type@[j]);
        }
        false
    }
}

/// The deliveries that the entries ask for, in their order.
pub fn plan_deliveries(operations: &Vec<ObjectOperation>) -> (deliveries: Vec<Delivery>)
    ensures
        deliveries.deep_view() == deliveries_for(operations.deep_view()),
{
    let mut deliveries: Vec<Delivery> = Vec::new();
    let mut i: usize = 0;
    let ghost all = operations.deep_view();
    assert(all.take(0) =~= Seq::<ObjectOperationView>::empty());
    while i < operations.len()
        invariant
            i <= operations@.len(),
            all == operations.deep_view(),
            deliveries.deep_view() == deliveries_for(all.take(i as int)),
        decreases operations@.len() - i,
    {
        let operation = &operations[i];
        let ghost before = deliveries.deep_view();
        proof {
            assert(all.take(i + 1).drop_last() =~= all.take(i as int));
            assert(all.take(i + 1).last() == operation@);
        }
        if operation.applies_to(ObjectTypes::EVENT) {
            let delivery = Delivery {
                callback_url: operation.callback_url.clone(),
                bearer_token: operation.bearer_token.clone(),
            };
            deliveries.push(delivery);
            assert(deliveries.deep_view() =~= before.push(delivery_of(operation@)));
        }
        i = i + 1;
    }
    assert(all.take(i as int) =~= all);
    deliveries
}

/// Triggers the subscription under `subscription_id` as of `now`.
///
/// Fails with `SubscriptionNotFound` where there is no such subscription, and
/// else with what synthesis fails with; the store is then as it was. Where it
/// works the event is at the end of the store and comes back with one delivery
/// for each entry of the subscription that asks for events.
pub fn trigger(
    registry: &SubscriptionRegistry,
    store: &mut EventStore,
    subscription_id: &str,
    params: EventParameters,
    now: Instant,
) -> (result: Result<DispatchResult, ApiError>)
    requires
        registry.wf(),
    ensures
        is_dispatch(result, dispatched(registry@, subscription_id@, params@, now)),
        final(store)@ == events_after(
            old(store)@,
            dispatched(registry@, subscription_id@, params@, now),
        ),
        result is Err ==> final(store)@ == old(store)@,
        !registry@.dom().contains(subscription_id@) ==> result == Err::<DispatchResult, ApiError>(
            ApiError::SubscriptionNotFound,
        ),
        registry@.dom().contains(subscription_id@) && !params@.valid() ==> result == Err::<
            DispatchResult,
            ApiError,
        >(ApiError::InvalidParameters),
        result matches Ok(dispatch) ==> final(store)@.len() == old(store)@.len() + 1
            && final(store)@.last() == dispatch.event@,
{
    let subscription = match registry.get(subscription_id) {
        Some(subscription) => subscription,
        None => {
            return Err(ApiError::SubscriptionNotFound);
        },
    };
    let event = match create_test_oadr_event(params, now) {
        Ok(event) => event,
        Err(error) => {
            return Err(error);
        },
    };
    store.append(event.clone());
    let deliveries = plan_deliveries(&subscription.object_operations);
    Ok(DispatchResult { event: event, deliveries: deliveries })
}

} // verus!
