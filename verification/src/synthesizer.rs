//! The event synthesizer: builds one well-formed event from a handful of
//! parameters and the current time. The time is an argument: whoever calls
//! reads the clock.

use vstd::prelude::*;
use crate::clock::{add_minutes, format_rfc3339, plus_minutes, rfc3339_text, Instant};
use crate::errors::{ApiError, ErrorKind};
use crate::models::{
    EventPayloadDescriptor, EventPayloadDescriptorView, Interval, IntervalPeriod,
    IntervalPeriodView, IntervalView, ObjectTypes, OpenADREvent, OpenADREventView,
    PayloadDescriptorType, ReportDescriptor, ReportDescriptorView, Values, ValuesMap,
    ValuesMapView, ValuesView,
};
use crate::text::{append_decimal, decimal};

verus! {

/// What a caller chooses of a synthesized event.
#[derive(Debug, PartialEq, Eq)]
pub struct EventParameters {
    /// Name of the event; the identifier is made by the server.
    pub event_name: String,
    /// Name of the resource that the event is for.
    pub oadr_resource_name: String,
    /// Length of the event in minutes.
    pub length: i32,
    /// Power limit during the event in kW.
    pub limit_kw: i64,
    /// The event starts this many minutes from now.
    pub minutes_in_future: i32,
}

/// The mathematical value of [`EventParameters`].
pub struct EventParametersView {
    pub event_name: Seq<char>,
    pub oadr_resource_name: Seq<char>,
    pub length: i32,
    pub limit_kw: i64,
    pub minutes_in_future: i32,
}

impl EventParametersView {
    /// Length, limit and lead time are each at least one.
    pub open spec fn valid(self) -> bool {
        self.length >= 1 && self.limit_kw >= 1 && self.minutes_in_future >= 1
    }
}

impl DeepView for EventParameters {
    type V = EventParametersView;

    open spec fn deep_view(&self) -> EventParametersView {
        EventParametersView {
            event_name: self.event_name@,
            oadr_resource_name: self.oadr_resource_name@,
            length: self.length,
            limit_kw: self.limit_kw,
            minutes_in_future: self.minutes_in_future,
        }
    }
}

impl View for EventParameters {
    type V = EventParametersView;

    open spec fn view(&self) -> EventParametersView {
        self.deep_view()
    }
}

impl Clone for EventParameters {
    fn clone(&self) -> (res: Self)
        ensures
            res@ == self@,
    {
        EventParameters {
            event_name: self.event_name.clone(),
            oadr_resource_name: self.oadr_resource_name.clone(),
            length: self.length,
            limit_kw: self.limit_kw,
            minutes_in_future: self.minutes_in_future,
        }
    }
}

impl EventParameters {
    /// Whether length, limit and lead time are each at least one.
    pub fn is_valid(&self) -> (ok: bool)
        ensures
            ok == self@.valid(),
    {
        self.length >= 1 && self.limit_kw >= 1 && self.minutes_in_future >= 1
    }
}

/// Identifier of an event made at `unix_seconds`.
pub open spec fn event_id(unix_seconds: i64) -> Seq<char> {
    "test_event_"@ + decimal(unix_seconds as int)
}

/// ISO 8601 duration of `length` minutes.
pub open spec fn duration_text(length: i32) -> Seq<char> {
    "PT"@ + decimal(length as int) + "M"@
}

/// The two targets of a synthesized event: the resource, then the organisation.
pub open spec fn event_targets(resource_name: Seq<char>) -> Seq<ValuesMapView> {
    seq![
        ValuesMapView { kind: "RESOURCE_NAME"@, values: seq![ValuesView::String(resource_name)] },
        ValuesMapView { kind: "ORGANIZATION_ID"@, values: seq![ValuesView::String("TestVTN"@)] },
    ]
}

/// The descriptor of the one payload type that a synthesized event carries.
pub open spec fn capacity_limit_descriptor() -> EventPayloadDescriptorView {
    EventPayloadDescriptorView {
        object_type: Some(PayloadDescriptorType::EVENT),
        payload_type: "IMPORT_CAPACITY_LIMIT"@,
        units: Some("KW"@),
        currency: None,
    }
}

/// The single interval of a synthesized event, which carries the limit.
pub open spec fn capacity_limit_interval(limit_kw: i64) -> IntervalView {
    IntervalView {
        id: 0,
        interval_period: None,
        payloads: seq![
            ValuesMapView {
                kind: "IMPORT_CAPACITY_LIMIT"@,
                values: seq![ValuesView::Integer(limit_kw)],
            },
        ],
    }
}

/// The event that is synthesized from `p` at `unix_seconds`, given the texts of
/// the current time and of the start.
pub open spec fn event_model(
    p: EventParametersView,
    unix_seconds: i64,
    created: Seq<char>,
    start: Seq<char>,
) -> OpenADREventView {
    OpenADREventView {
        id: Some(event_id(unix_seconds)),
        created_date_time: Some(created),
        modification_date_time: Some(created),
        object_type: Some(ObjectTypes::EVENT),
        program_id: "1"@,
        event_name: Some(p.event_name),
        priority: None,
        targets: Some(event_targets(p.oadr_resource_name)),
        report_descriptors: Some(Seq::<ReportDescriptorView>::empty()),
        payload_descriptors: Some(seq![capacity_limit_descriptor()]),
        interval_period: Some(
            IntervalPeriodView {
                start: start,
                duration: Some(duration_text(p.length)),
                randomize_start: Some("PT0S"@),
            },
        ),
        intervals: seq![capacity_limit_interval(p.limit_kw)],
    }
}

/// What synthesis at `now` comes to: a rejection of parameters below one, a
/// failure where `now` or the start cannot be written as a timestamp, or else
/// the event.
pub open spec fn synthesized(p: EventParametersView, now: Instant) -> Result<
    OpenADREventView,
    ApiError,
> {
    if !p.valid() {
        Err(ApiError::InvalidParameters)
    } else {
        match (rfc3339_text(now), plus_minutes(now, p.minutes_in_future)) {
            (Some(created), Some(start)) => match rfc3339_text(start) {
                Some(start_text) => Ok(event_model(p, now.seconds, created, start_text)),
                None => Err(ApiError::TimeOutOfRange),
            },
            _ => Err(ApiError::TimeOutOfRange),
        }
    }
}

/// Whatever the parameters and the clock's texts, the event built from them
/// carries the limit as the first value of its first interval's first payload,
/// and the resource name as the first value of its first target.
pub proof fn lemma_event_carries_limit_and_resource(
    p: EventParametersView,
    unix_seconds: i64,
    created: Seq<char>,
    start: Seq<char>,
)
    ensures
        event_model(p, unix_seconds, created, start).intervals[0].payloads[0].values[0]
            == ValuesView::Integer(p.limit_kw),
        event_model(p, unix_seconds, created, start).targets->0[0].values[0] == ValuesView::String(
            p.oadr_resource_name,
        ),
{
}

/// Whatever the time, an event that is synthesized from parameters of at least
/// one carries the limit as the first value of its first interval's first
/// payload, and the resource name as the first value of its first target.
pub proof fn lemma_synthesized_carries_limit_and_resource(p: EventParametersView, now: Instant)
    requires
        p.valid(),
    ensures
        synthesized(p, now) matches Ok(event) ==> event.intervals[0].payloads[0].values[0]
            == ValuesView::Integer(p.limit_kw) && event.targets->0[0].values[0]
            == ValuesView::String(p.oadr_resource_name),
        synthesized(p, now) matches Err(error) ==> error == ApiError::TimeOutOfRange,
{
}

/// Whatever the time, synthesis from a length, limit or lead time below one
/// fails as a validation error.
pub proof fn lemma_parameters_below_one_are_rejected(p: EventParametersView, now: Instant)
    requires
        p.length < 1 || p.limit_kw < 1 || p.minutes_in_future < 1,
    ensures
        synthesized(p, now) == Err::<OpenADREventView, ApiError>(ApiError::InvalidParameters),
        ApiError::InvalidParameters.spec_kind() == ErrorKind::ValidationError,
{
}

/// Whether `result` is `outcome`, event for event by its view.
pub open spec fn is_outcome(
    result: Result<OpenADREvent, ApiError>,
    outcome: Result<OpenADREventView, ApiError>,
) -> bool {
    match outcome {
        Ok(model) => result matches Ok(event) && event@ == model,
        Err(error) => result matches Err(e) && e == error,
    }
}

/// Builds the event from the parameters and from what the clock gave: the
/// seconds since the epoch and the texts of the current time and of the start.
/// Nothing is checked here.
pub fn event_from_parts(
    body: EventParameters,
    unix_seconds: i64,
    created: String,
    start: String,
) -> (event: OpenADREvent)
    ensures
        event@ == event_model(body@, unix_seconds, created@, start@),
{
    let mut id = String::from_str("test_event_");
    append_decimal(&mut id, unix_seconds);
    let mut duration = String::from_str("PT");
    append_decimal(&mut duration, body.length as i64);
    duration.append("M");
    let resource = ValuesMap {
        kind: String::from_str("RESOURCE_NAME"),
        values: vec![Values::String(body.oadr_resource_name)],
    };
    let organization = ValuesMap {
        kind: String::from_str("ORGANIZATION_ID"),
        values: vec![Values::String(String::from_str("TestVTN"))],
    };
    let targets = vec![resource, organization];
    let descriptor = EventPayloadDescriptor {
        object_type: Some(PayloadDescriptorType::EVENT),
        payload_type: String::from_str("IMPORT_CAPACITY_LIMIT"),
        units: Some(String::from_str("KW")),
        currency: None,
    };
    let payload_descriptors = vec![descriptor];
    let payload = ValuesMap {
        kind: String::from_str("IMPORT_CAPACITY_LIMIT"),
        values: vec![Values::Integer(body.limit_kw)],
    };
    let interval = Interval { id: 0, interval_period: None, payloads: vec![payload] };
    let intervals = vec![interval];
    let report_descriptors: Vec<ReportDescriptor> = Vec::new();
    let modified = created.clone();
    proof {
        assert(resource.values.deep_view() =~= seq![ValuesView::String(body.oadr_resource_name@)]);
        assert(organization.values.deep_view() =~= seq![ValuesView::String("TestVTN"@)]);
        assert(targets.deep_view() =~= event_targets(body.oadr_resource_name@));
        assert(payload_descriptors.deep_view() =~= seq![capacity_limit_descriptor()]);
        assert(payload.values.deep_view() =~= seq![ValuesView::Integer(body.limit_kw)]);
        assert(interval.payloads.deep_view() =~= capacity_limit_interval(body.limit_kw).payloads);
        assert(intervals.deep_view() =~= seq![capacity_limit_interval(body.limit_kw)]);
        assert(report_descriptors.deep_view() =~= Seq::<ReportDescriptorView>::empty());
    }
    OpenADREvent {
        id: Some(id),
        created_date_time: Some(created),
        modification_date_time: Some(modified),
        object_type: Some(ObjectTypes::EVENT),
        program_id: String::from_str("1"),
        event_name: Some(body.event_name),
        priority: None,
        targets: Some(targets),
        report_descriptors: Some(report_descriptors),
        payload_descriptors: Some(payload_descriptors),
        interval_period: Some(
            IntervalPeriod {
                start: start,
                duration: Some(duration),
                randomize_start: Some(String::from_str("PT0S")),
            },
        ),
        intervals: intervals,
    }
}

/// Synthesizes the event for `body` as of `now`, the current time as the
/// caller read it.
///
/// Fails with `InvalidParameters` where length, limit or lead time is below
/// one, and with `TimeOutOfRange` where `now` or the start cannot be written as
/// a timestamp. The start is `now` moved by the lead time.
pub fn create_test_oadr_event(body: EventParameters, now: Instant) -> (result: Result<
    OpenADREvent,
    ApiError,
>)
    ensures
        is_outcome(result, synthesized(body@, now)),
        !body@.valid() ==> result == Err::<OpenADREvent, ApiError>(ApiError::InvalidParameters),
        result matches Ok(event) ==> ({
            &&& body@.valid()
            &&& event@.intervals[0].payloads[0].values[0] == ValuesView::Integer(body.limit_kw)
            &&& event@.targets->0[0].values[0] == ValuesView::String(body.oadr_resource_name@)
            &&& event@.program_id == "1"@
            &&& now.nanos < 1_000_000_000 ==> Some(event@.interval_period->0.start)
                == rfc3339_text(
                Instant {
                    seconds: (now.seconds + 60 * body.minutes_in_future) as i64,
                    nanos: now.nanos,
                },
            )
        }),
{
    if !body.is_valid() {
        return Err(ApiError::InvalidParameters);
    }
    let created = match format_rfc3339(now) {
        Some(text) => text,
        None => {
            return Err(ApiError::TimeOutOfRange);
        },
    };
    let start = match add_minutes(now, body.minutes_in_future) {
        Some(start) => start,
        None => {
            return Err(ApiError::TimeOutOfRange);
        },
    };
    let start_text = match format_rfc3339(start) {
        Some(text) => text,
        None => {
            return Err(ApiError::TimeOutOfRange);
        },
    };
    Ok(event_from_parts(body, now.seconds, created, start_text))
}

} // verus!
