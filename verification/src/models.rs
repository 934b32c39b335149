//! The wire-level data model: events, subscriptions and their parts, each with
//! the mathematical value that contracts speak of.
//!
//! Every type has a `deep_view` that replaces strings by `Seq<char>` and
//! vectors by `Seq`, and `@` is the same value. `Clone` is written by hand so
//! that a copy is known to have the same view as its source.

use vstd::prelude::*;

verus! {

/// Kinds of object that an operation entry or a discriminator can name.
#[allow(non_camel_case_types)]
#[derive(Debug, PartialEq, Eq, Clone, Copy, Structural)]
pub enum ObjectTypes {
    PROGRAM,
    EVENT,
    REPORT,
    SUBSCRIPTION,
    VEN,
    RESOURCE,
}

impl ObjectTypes {
    /// The upper-case name that stands for this kind on the wire.
    pub open spec fn name(self) -> Seq<char> {
        match self {
            ObjectTypes::PROGRAM => "PROGRAM"@,
            ObjectTypes::EVENT => "EVENT"@,
            ObjectTypes::REPORT => "REPORT"@,
            ObjectTypes::SUBSCRIPTION => "SUBSCRIPTION"@,
            ObjectTypes::VEN => "VEN"@,
            ObjectTypes::RESOURCE => "RESOURCE"@,
        }
    }

    pub fn as_str(&self) -> (s: &'static str)
        ensures
            s@ == self.name(),
    {
        match self {
            ObjectTypes::PROGRAM => "PROGRAM",
            ObjectTypes::EVENT => "EVENT",
            ObjectTypes::REPORT => "REPORT",
            ObjectTypes::SUBSCRIPTION => "SUBSCRIPTION",
            ObjectTypes::VEN => "VEN",
            ObjectTypes::RESOURCE => "RESOURCE",
        }
    }
}

impl DeepView for ObjectTypes {
    type V = ObjectTypes;

    open spec fn deep_view(&self) -> ObjectTypes {
        *self
    }
}

/// Discriminator of a payload descriptor.
#[allow(non_camel_case_types)]
#[derive(Debug, PartialEq, Eq, Clone, Copy, Structural)]
pub enum PayloadDescriptorType {
    EVENT,
    REPORT,
}

impl DeepView for PayloadDescriptorType {
    type V = PayloadDescriptorType;

    open spec fn deep_view(&self) -> PayloadDescriptorType {
        *self
    }
}

/// Verbs that a subscription entry reacts to. They are informational: the
/// delivery verb is not checked against them.
#[allow(non_camel_case_types)]
#[derive(Debug, PartialEq, Eq, Clone, Copy, Structural)]
pub enum Operation {
    GET,
    POST,
    PUT,
    DELETE,
}

impl DeepView for Operation {
    type V = Operation;

    open spec fn deep_view(&self) -> Operation {
        *self
    }
}

/// A scalar carried in a value list: exactly one of text, integer or boolean.
#[derive(Debug, PartialEq, Eq)]
pub enum Values {
    String(String),
    Integer(i64),
    Boolean(bool),
}

/// The mathematical value of a [`Values`].
pub enum ValuesView {
    String(Seq<char>),
    Integer(i64),
    Boolean(bool),
}

impl DeepView for Values {
    type V = ValuesView;

    open spec fn deep_view(&self) -> ValuesView {
        match self {
            Values::String(s) => ValuesView::String(s@),
            Values::Integer(i) => ValuesView::Integer(*i),
            Values::Boolean(b) => ValuesView::Boolean(*b),
        }
    }
}

impl View for Values {
    type V = ValuesView;

    open spec fn view(&self) -> ValuesView {
        self.deep_view()
    }
}

impl Clone for Values {
    fn clone(&self) -> (res: Self)
        ensures
            res@ == self@,
    {
        match self {
            Values::String(s) => Values::String(s.clone()),
            Values::Integer(i) => Values::Integer(*i),
            Values::Boolean(b) => Values::Boolean(*b),
        }
    }
}

/// A typed key with its list of scalar values.
#[derive(Debug, PartialEq, Eq)]
pub struct ValuesMap {
    /// What the values mean, such as `RESOURCE_NAME`.
    pub kind: String,
    /// The values themselves.
    pub values: Vec<Values>,
}

/// The mathematical value of [`ValuesMap`].
pub struct ValuesMapView {
    pub kind: Seq<char>,
    pub values: Seq<ValuesView>,
}

impl DeepView for ValuesMap {
    type V = ValuesMapView;

    open spec fn deep_view(&self) -> ValuesMapView {
        ValuesMapView {
            kind: self.kind.deep_view(),
            values: self.values.deep_view(),
        }
    }
}

impl View for ValuesMap {
    type V = ValuesMapView;

    open spec fn view(&self) -> ValuesMapView {
        self.deep_view()
    }
}

impl Clone for ValuesMap {
    fn clone(&self) -> (res: Self)
        ensures
            res@ == self@,
    {
        ValuesMap {
            kind: self.kind.clone(),
            values: self.values.clone(),
        }
    }
}

/// When an interval starts and how long it lasts.
#[derive(Debug, PartialEq, Eq)]
pub struct IntervalPeriod {
    /// Start instant, ISO 8601.
    pub start: String,
    /// Length, as an ISO 8601 duration.
    pub duration: Option<String>,
    /// Range by which a client may shift the start, as an ISO 8601 duration.
    pub randomize_start: Option<String>,
}

/// The mathematical value of [`IntervalPeriod`].
pub struct IntervalPeriodView {
    pub start: Seq<char>,
    pub duration: Option<Seq<char>>,
    pub randomize_start: Option<Seq<char>>,
}

impl DeepView for IntervalPeriod {
    type V = IntervalPeriodView;

    open spec fn deep_view(&self) -> IntervalPeriodView {
        IntervalPeriodView {
            start: self.start.deep_view(),
            duration: self.duration.deep_view(),
            randomize_start: self.randomize_start.deep_view(),
        }
    }
}

impl View for IntervalPeriod {
    type V = IntervalPeriodView;

    open spec fn view(&self) -> IntervalPeriodView {
        self.deep_view()
    }
}

impl Clone for IntervalPeriod {
    fn clone(&self) -> (res: Self)
        ensures
            res@ == self@,
    {
        IntervalPeriod {
            start: self.start.clone(),
            duration: self.duration.clone(),
            randomize_start: self.randomize_start.clone(),
        }
    }
}

/// One interval of an event, with the payload it carries.
#[derive(Debug, PartialEq, Eq)]
pub struct Interval {
    /// Position of the interval within its event.
    pub id: i64,
    /// Overrides the period of the event for this interval.
    pub interval_period: Option<IntervalPeriod>,
    /// The payload, one entry per payload type.
    pub payloads: Vec<ValuesMap>,
}

/// The mathematical value of [`Interval`].
pub struct IntervalView {
    pub id: i64,
    pub interval_period: Option<IntervalPeriodView>,
    pub payloads: Seq<ValuesMapView>,
}

impl DeepView for Interval {
    type V = IntervalView;

    open spec fn deep_view(&self) -> IntervalView {
        IntervalView {
            id: self.id,
            interval_period: self.interval_period.deep_view(),
            payloads: self.payloads.deep_view(),
        }
    }
}

impl View for Interval {
    type V = IntervalView;

    open spec fn view(&self) -> IntervalView {
        self.deep_view()
    }
}

impl Clone for Interval {
    fn clone(&self) -> (res: Self)
        ensures
            res@ == self@,
    {
        Interval {
            id: self.id,
            interval_period: self.interval_period.clone(),
            payloads: self.payloads.clone(),
        }
    }
}

/// Says how a payload type of an event is to be read.
#[derive(Debug, PartialEq, Eq)]
pub struct EventPayloadDescriptor {
    /// Discriminator; an event carries event descriptors.
    pub object_type: Option<PayloadDescriptorType>,
    /// The payload type described, such as `PRICE`.
    pub payload_type: String,
    /// Unit of measure.
    pub units: Option<String>,
    /// Currency of the payload, such as `USD`.
    pub currency: Option<String>,
}

/// The mathematical value of [`EventPayloadDescriptor`].
pub struct EventPayloadDescriptorView {
    pub object_type: Option<PayloadDescriptorType>,
    pub payload_type: Seq<char>,
    pub units: Option<Seq<char>>,
    pub currency: Option<Seq<char>>,
}

impl DeepView for EventPayloadDescriptor {
    type V = EventPayloadDescriptorView;

    open spec fn deep_view(&self) -> EventPayloadDescriptorView {
        EventPayloadDescriptorView {
            object_type: self.object_type,
            payload_type: self.payload_type.deep_view(),
            units: self.units.deep_view(),
            currency: self.currency.deep_view(),
        }
    }
}

impl View for EventPayloadDescriptor {
    type V = EventPayloadDescriptorView;

    open spec fn view(&self) -> EventPayloadDescriptorView {
        self.deep_view()
    }
}

impl Clone for EventPayloadDescriptor {
    fn clone(&self) -> (res: Self)
        ensures
            res@ == self@,
    {
        EventPayloadDescriptor {
            object_type: self.object_type,
            payload_type: self.payload_type.clone(),
            units: self.units.clone(),
            currency: self.currency.clone(),
        }
    }
}

/// Asks a client for a report. It is carried through untouched.
#[derive(Debug, PartialEq, Eq)]
pub struct ReportDescriptor {
    /// The payload type to report, such as `USAGE`.
    pub payload_type: String,
    /// How the reading is taken, such as `DIRECT_READ`.
    pub reading_type: Option<String>,
    /// Unit of measure.
    pub units: Option<String>,
    /// What the report is about.
    pub targets: Option<Vec<ValuesMap>>,
    /// Whether one report sums up all targets.
    pub aggregate: Option<bool>,
    /// Interval on which to report; -1 for the end of the last one.
    pub start_interval: Option<i64>,
    /// Number of intervals to report on; -1 for all.
    pub num_intervals: Option<i64>,
    /// Whether the report looks back from the start interval.
    pub historical: Option<bool>,
    /// Intervals between two reports; -1 for the number of intervals.
    pub frequency: Option<i64>,
    /// How often to repeat the report; -1 for ever.
    pub repeat: Option<i64>,
}

/// The mathematical value of [`ReportDescriptor`].
pub struct ReportDescriptorView {
    pub payload_type: Seq<char>,
    pub reading_type: Option<Seq<char>>,
    pub units: Option<Seq<char>>,
    pub targets: Option<Seq<ValuesMapView>>,
    pub aggregate: Option<bool>,
    pub start_interval: Option<i64>,
    pub num_intervals: Option<i64>,
    pub historical: Option<bool>,
    pub frequency: Option<i64>,
    pub repeat: Option<i64>,
}

impl DeepView for ReportDescriptor {
    type V = ReportDescriptorView;

    open spec fn deep_view(&self) -> ReportDescriptorView {
        ReportDescriptorView {
            payload_type: self.payload_type.deep_view(),
            reading_type: self.reading_type.deep_view(),
            units: self.units.deep_view(),
            targets: self.targets.deep_view(),
            aggregate: self.aggregate,
            start_interval: self.start_interval,
            num_intervals: self.num_intervals,
            historical: self.historical,
            frequency: self.frequency,
            repeat: self.repeat,
        }
    }
}

impl View for ReportDescriptor {
    type V = ReportDescriptorView;

    open spec fn view(&self) -> ReportDescriptorView {
        self.deep_view()
    }
}

impl Clone for ReportDescriptor {
    fn clone(&self) -> (res: Self)
        ensures
            res@ == self@,
    {
        ReportDescriptor {
            payload_type: self.payload_type.clone(),
            reading_type: self.reading_type.clone(),
            units: self.units.clone(),
            targets: self.targets.clone(),
            aggregate: self.aggregate,
            start_interval: self.start_interval,
            num_intervals: self.num_intervals,
            historical: self.historical,
            frequency: self.frequency,
            repeat: self.repeat,
        }
    }
}

/// One demand-response event.
#[derive(Debug, PartialEq, Eq)]
pub struct OpenADREvent {
    /// Identifier given by the server.
    pub id: Option<String>,
    /// Set by the server on creation.
    pub created_date_time: Option<String>,
    /// Set by the server on modification.
    pub modification_date_time: Option<String>,
    /// Discriminator; `EVENT` here.
    pub object_type: Option<ObjectTypes>,
    /// The program that the event belongs to.
    pub program_id: String,
    /// Name for people to read.
    pub event_name: Option<String>,
    /// A lower number is a higher priority.
    pub priority: Option<i64>,
    /// Whom the event is for.
    pub targets: Option<Vec<ValuesMap>>,
    /// Reports asked for along with the event.
    pub report_descriptors: Option<Vec<ReportDescriptor>>,
    /// How to read the payloads.
    pub payload_descriptors: Option<Vec<EventPayloadDescriptor>>,
    /// Period that holds for every interval without one of its own.
    pub interval_period: Option<IntervalPeriod>,
    /// The intervals, in order. Never absent, possibly empty.
    pub intervals: Vec<Interval>,
}

/// The mathematical value of [`OpenADREvent`].
pub struct OpenADREventView {
    pub id: Option<Seq<char>>,
    pub created_date_time: Option<Seq<char>>,
    pub modification_date_time: Option<Seq<char>>,
    pub object_type: Option<ObjectTypes>,
    pub program_id: Seq<char>,
    pub event_name: Option<Seq<char>>,
    pub priority: Option<i64>,
    pub targets: Option<Seq<ValuesMapView>>,
    pub report_descriptors: Option<Seq<ReportDescriptorView>>,
    pub payload_descriptors: Option<Seq<EventPayloadDescriptorView>>,
    pub interval_period: Option<IntervalPeriodView>,
    pub intervals: Seq<IntervalView>,
}

impl DeepView for OpenADREvent {
    type V = OpenADREventView;

    open spec fn deep_view(&self) -> OpenADREventView {
        OpenADREventView {
            id: self.id.deep_view(),
            created_date_time: self.created_date_time.deep_view(),
            modification_date_time: self.modification_date_time.deep_view(),
            object_type: self.object_type,
            program_id: self.program_id.deep_view(),
            event_name: self.event_name.deep_view(),
            priority: self.priority,
            targets: self.targets.deep_view(),
            report_descriptors: self.report_descriptors.deep_view(),
            payload_descriptors: self.payload_descriptors.deep_view(),
            interval_period: self.interval_period.deep_view(),
            intervals: self.intervals.deep_view(),
        }
    }
}

impl View for OpenADREvent {
    type V = OpenADREventView;

    open spec fn view(&self) -> OpenADREventView {
        self.deep_view()
    }
}

impl Clone for OpenADREvent {
    fn clone(&self) -> (res: Self)
        ensures
            res@ == self@,
    {
        OpenADREvent {
            id: self.id.clone(),
            created_date_time: self.created_date_time.clone(),
            modification_date_time: self.modification_date_time.clone(),
            object_type: self.object_type,
            program_id: self.program_id.clone(),
            event_name: self.event_name.clone(),
            priority: self.priority,
            targets: self.targets.clone(),
            report_descriptors: self.report_descriptors.clone(),
            payload_descriptors: self.payload_descriptors.clone(),
            interval_period: self.interval_period.clone(),
            intervals: self.intervals.clone(),
        }
    }
}

/// The verbs of one subscription entry.
#[derive(Debug, PartialEq, Eq)]
pub struct Operations {
    /// The verbs.
    pub operations: Vec<Operation>,
}

/// The mathematical value of [`Operations`].
pub struct OperationsView {
    pub operations: Seq<Operation>,
}

impl DeepView for Operations {
    type V = OperationsView;

    open spec fn deep_view(&self) -> OperationsView {
        OperationsView {
            operations: self.operations.deep_view(),
        }
    }
}

impl View for Operations {
    type V = OperationsView;

    open spec fn view(&self) -> OperationsView {
        self.deep_view()
    }
}

impl Clone for Operations {
    fn clone(&self) -> (res: Self)
        ensures
            res@ == self@,
    {
        Operations {
            operations: self.operations.clone(),
        }
    }
}

/// One callback target of a subscription.
#[derive(Debug, PartialEq, Eq)]
pub struct ObjectOperation {
    /// Kinds of object that are sent to the callback.
    pub object_type: Vec<ObjectTypes>,
    /// Verbs that the entry reacts to.
    pub operations: Operations,
    /// Where to send.
    pub callback_url: String,
    /// Token to present when sending.
    pub bearer_token: String,
}

/// The mathematical value of [`ObjectOperation`].
pub struct ObjectOperationView {
    pub object_type: Seq<ObjectTypes>,
    pub operations: OperationsView,
    pub callback_url: Seq<char>,
    pub bearer_token: Seq<char>,
}

impl DeepView for ObjectOperation {
    type V = ObjectOperationView;

    open spec fn deep_view(&self) -> ObjectOperationView {
        ObjectOperationView {
            object_type: self.object_type.deep_view(),
            operations: self.operations.deep_view(),
            callback_url: self.callback_url.deep_view(),
            bearer_token: self.bearer_token.deep_view(),
        }
    }
}

impl View for ObjectOperation {
    type V = ObjectOperationView;

    open spec fn view(&self) -> ObjectOperationView {
        self.deep_view()
    }
}

impl Clone for ObjectOperation {
    fn clone(&self) -> (res: Self)
        ensures
            res@ == self@,
    {
        ObjectOperation {
            object_type: self.object_type.clone(),
            operations: self.operations.clone(),
            callback_url: self.callback_url.clone(),
            bearer_token: self.bearer_token.clone(),
        }
    }
}

/// A webhook registration, kept under its identifier.
#[derive(Debug, PartialEq, Eq)]
pub struct Subscription {
    /// Identifier; the key under which the registry holds the subscription.
    pub id: Option<String>,
    /// Set by the server on creation.
    pub created_date_time: Option<String>,
    /// Set by the server on modification.
    pub modification_date_time: Option<String>,
    /// Discriminator; `SUBSCRIPTION` here.
    pub object_type: Option<ObjectTypes>,
    /// Name of the subscribing client.
    pub client_name: String,
    /// The program subscribed to.
    pub program_id: String,
    /// The callback targets.
    pub object_operations: Vec<ObjectOperation>,
    /// Narrows what the subscription is about.
    pub targets: Option<Vec<ValuesMap>>,
}

/// The mathematical value of [`Subscription`].
pub struct SubscriptionView {
    pub id: Option<Seq<char>>,
    pub created_date_time: Option<Seq<char>>,
    pub modification_date_time: Option<Seq<char>>,
    pub object_type: Option<ObjectTypes>,
    pub client_name: Seq<char>,
    pub program_id: Seq<char>,
    pub object_operations: Seq<ObjectOperationView>,
    pub targets: Option<Seq<ValuesMapView>>,
}

impl DeepView for Subscription {
    type V = SubscriptionView;

    open spec fn deep_view(&self) -> SubscriptionView {
        SubscriptionView {
            id: self.id.deep_view(),
            created_date_time: self.created_date_time.deep_view(),
            modification_date_time: self.modification_date_time.deep_view(),
            object_type: self.object_type,
            client_name: self.client_name.deep_view(),
            program_id: self.program_id.deep_view(),
            object_operations: self.object_operations.deep_view(),
            targets: self.targets.deep_view(),
        }
    }
}

impl View for Subscription {
    type V = SubscriptionView;

    open spec fn view(&self) -> SubscriptionView {
        self.deep_view()
    }
}

impl Clone for Subscription {
    fn clone(&self) -> (res: Self)
        ensures
            res@ == self@,
    {
        Subscription {
            id: self.id.clone(),
            created_date_time: self.created_date_time.clone(),
            modification_date_time: self.modification_date_time.clone(),
            object_type: self.object_type,
            client_name: self.client_name.clone(),
            program_id: self.program_id.clone(),
            object_operations: self.object_operations.clone(),
            targets: self.targets.clone(),
        }
    }
}

} // verus!
