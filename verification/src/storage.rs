//! The state that the operations share, and how it starts out.

use vstd::prelude::*;
use crate::authorizer::Secrets;
use crate::event_store::EventStore;
use crate::models::{
    EventPayloadDescriptor, EventPayloadDescriptorView, Interval, IntervalPeriod,
    IntervalPeriodView, IntervalView, ObjectTypes, OpenADREvent, OpenADREventView,
    PayloadDescriptorType, ReportDescriptor, ReportDescriptorView, SubscriptionView, Values,
    ValuesMap, ValuesMapView, ValuesView,
};
use crate::registry::SubscriptionRegistry;

verus! {

/// The shared state: events, subscriptions and configuration.
pub struct AppState {
    /// The events that pollers see.
    pub event_storage: EventStore,
    /// The subscriptions, by identifier.
    pub subscriptions: SubscriptionRegistry,
    /// The configured credentials.
    pub secrets: Secrets,
}

impl AppState {
    /// The registry keeps every subscription under its own identifier.
    pub open spec fn wf(&self) -> bool {
        self.subscriptions.wf()
    }
}

/// The event that a fresh store is seeded with, for pollers to check their
/// reading of the schema against.
pub open spec fn dummy_event_model() -> OpenADREventView {
    OpenADREventView {
        id: Some("dummyTest"@),
        created_date_time: Some("2024-03-06T10:55:26.543Z"@),
        modification_date_time: Some("2024-03-06T10:55:26.543Z"@),
        object_type: Some(ObjectTypes::EVENT),
        program_id: "1"@,
        event_name: Some("activationRequest"@),
        priority: None,
        targets: Some(
            seq![
                ValuesMapView { kind: "RESOURCE_NAME"@, values: seq![ValuesView::String("DUMMY"@)] },
                ValuesMapView { kind: "ORGANIZATION_ID"@, values: seq![ValuesView::String("123"@)] },
            ],
        ),
        report_descriptors: Some(Seq::<ReportDescriptorView>::empty()),
        payload_descriptors: Some(
            seq![
                EventPayloadDescriptorView {
                    object_type: Some(PayloadDescriptorType::EVENT),
                    payload_type: "IMPORT_CAPACITY_LIMIT"@,
                    units: Some("KW"@),
                    currency: None,
                },
            ],
        ),
        interval_period: Some(
            IntervalPeriodView {
                start: "2024-09-04T10:30:30.000Z"@,
                duration: Some("PT2M"@),
                randomize_start: Some("PT0S"@),
            },
        ),
        intervals: seq![
            IntervalView {
                id: 0,
                interval_period: None,
                payloads: seq![
                    ValuesMapView {
                        kind: "IMPORT_CAPACITY_LIMIT"@,
                        values: seq![ValuesView::Integer(30)],
                    },
                ],
            },
        ],
    }
}

/// Starts the state: no event, no subscription, the given configuration.
pub fn init_storage(secrets: Secrets) -> (state: AppState)
    ensures
        state.wf(),
        state.event_storage@ == Seq::<OpenADREventView>::empty(),
        state.subscriptions@ == (Map::<Seq<char>, SubscriptionView>::empty()),
        state.secrets == secrets,
{
    AppState {
        event_storage: EventStore::new(),
        subscriptions: SubscriptionRegistry::new(),
        secrets: secrets,
    }
}

/// Builds the seed event.
pub fn dummy_event() -> (event: OpenADREvent)
    ensures
        event@ == dummy_event_model(),
{
    let resource = ValuesMap {
        kind: String::from_str("RESOURCE_NAME"),
        values: vec![Values::String(String::from_str("DUMMY"))],
    };
    let organization = ValuesMap {
        kind: String::from_str("ORGANIZATION_ID"),
        values: vec![Values::String(String::from_str("123"))],
    };
    let targets = vec![resource, organization];
    let descriptor = EventPayloadDescriptor {
        object_type: Some(PayloadDescriptorType::EVENT),
        payload_type: String::from_str("IMPORT_CAPACITY_LIMIT"),
        units: Some(String::from_str("KW")),
        currency: None,
    };
    let payload_descriptors = vec![descriptor];
    let payload = ValuesMap {
        kind: String::from_str("IMPORT_CAPACITY_LIMIT"),
        values: vec![Values::Integer(30)],
    };
    let interval = Interval { id: 0, interval_period: None, payloads: vec![payload] };
    let intervals = vec![interval];
    let report_descriptors: Vec<ReportDescriptor> = Vec::new();
    proof {
        let model = dummy_event_model();
        assert(resource.values.deep_view() =~= seq![ValuesView::String("DUMMY"@)]);
        assert(organization.values.deep_view() =~= seq![ValuesView::String("123"@)]);
        assert(targets.deep_view() =~= model.targets->0);
        assert(payload_descriptors.deep_view() =~= model.payload_descriptors->0);
        assert(payload.values.deep_view() =~= seq![ValuesView::Integer(30)]);
        assert(interval.payloads.deep_view() =~= model.intervals[0].payloads);
        assert(intervals.deep_view() =~= model.intervals);
        assert(report_descriptors.deep_view() =~= Seq::<ReportDescriptorView>::empty());
    }
    OpenADREvent {
        id: Some(String::from_str("dummyTest")),
        created_date_time: Some(String::from_str("2024-03-06T10:55:26.543Z")),
        modification_date_time: Some(String::from_str("2024-03-06T10:55:26.543Z")),
        object_type: Some(ObjectTypes::EVENT),
        program_id: String::from_str("1"),
        event_name: Some(String::from_str("activationRequest")),
        priority: None,
        targets: Some(targets),
        report_descriptors: Some(report_descriptors),
        payload_descriptors: Some(payload_descriptors),
        interval_period: Some(
            IntervalPeriod {
                start: String::from_str("2024-09-04T10:30:30.000Z"),
                duration: Some(String::from_str("PT2M")),
                randomize_start: Some(String::from_str("PT0S")),
            },
        ),
        intervals: intervals,
    }
}

/// Appends the seed event to the event store. Nothing else changes.
pub fn dummy_event_to_storage(state: &mut AppState)
    ensures
        final(state).event_storage@ == old(state).event_storage@.push(dummy_event_model()),
        final(state).subscriptions == old(state).subscriptions,
        final(state).secrets == old(state).secrets,
{
    state.event_storage.append(dummy_event());
}

} // verus!
