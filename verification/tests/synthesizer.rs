use vtn_mock::clock::Instant;
use vtn_mock::errors::{ApiError, ErrorKind};
use vtn_mock::models::{ObjectTypes, PayloadDescriptorType, Values};
use vtn_mock::synthesizer::{create_test_oadr_event, event_from_parts, EventParameters};

fn synth_params(length: i32, limit_kw: i64, minutes_in_future: i32) -> EventParameters {
    EventParameters {
        event_name: "test_event".to_string(),
        oadr_resource_name: "resource".to_string(),
        length,
        limit_kw,
        minutes_in_future,
    }
}

/// The current time, read as the server reads it.
fn synth_now() -> Instant {
    let now = chrono::Utc::now();
    Instant::new(now.timestamp(), now.timestamp_subsec_nanos())
}

#[test]
fn test_create_test_oadr_event() {
    let params = EventParameters {
        event_name: "test_event".to_string(),
        oadr_resource_name: "resource".to_string(),
        length: 60,
        limit_kw: 100,
        minutes_in_future: 5,
    };

    let event = create_test_oadr_event(params, synth_now()).unwrap();

    assert_eq!(event.program_id, "1");
    assert_eq!(event.event_name, Some("test_event".to_string()));
    assert_eq!(
        event.targets.unwrap()[0].values[0],
        Values::String("resource".to_string())
    );
    assert_eq!(
        event.payload_descriptors.clone().unwrap()[0].payload_type,
        "IMPORT_CAPACITY_LIMIT"
    );
    assert_eq!(
        event.payload_descriptors.unwrap()[0].units,
        Some("KW".to_string())
    );
    assert_eq!(
        event.intervals[0].payloads[0].values[0],
        Values::Integer(100)
    );
}

#[test]
fn created_event_is_stamped_with_the_time_given() {
    let clock = chrono::Utc::now();
    let now = Instant::new(clock.timestamp(), clock.timestamp_subsec_nanos());
    let event = create_test_oadr_event(synth_params(15, 7, 1), now).unwrap();
    assert_eq!(event.id, Some(format!("test_event_{}", clock.timestamp())));
    assert_eq!(event.created_date_time, Some(clock.to_rfc3339()));
    assert_eq!(event.modification_date_time, Some(clock.to_rfc3339()));
    let start = clock + chrono::TimeDelta::minutes(1);
    assert_eq!(event.interval_period.unwrap().start, start.to_rfc3339());
}

#[test]
fn event_from_parts_fills_every_field() {
    let event = event_from_parts(
        synth_params(60, 100, 5),
        1_700_000_000,
        "2023-11-14T22:13:20+00:00".to_string(),
        "2023-11-14T22:18:20+00:00".to_string(),
    );
    assert_eq!(event.id, Some("test_event_1700000000".to_string()));
    assert_eq!(event.created_date_time, Some("2023-11-14T22:13:20+00:00".to_string()));
    assert_eq!(event.modification_date_time, Some("2023-11-14T22:13:20+00:00".to_string()));
    assert_eq!(event.object_type, Some(ObjectTypes::EVENT));
    assert_eq!(event.program_id, "1");
    assert_eq!(event.event_name, Some("test_event".to_string()));
    assert_eq!(event.priority, None);

    let targets = event.targets.unwrap();
    assert_eq!(targets.len(), 2);
    assert_eq!(targets[0].kind, "RESOURCE_NAME");
    assert_eq!(targets[0].values, vec![Values::String("resource".to_string())]);
    assert_eq!(targets[1].kind, "ORGANIZATION_ID");
    assert_eq!(targets[1].values, vec![Values::String("TestVTN".to_string())]);

    assert_eq!(event.report_descriptors, Some(vec![]));

    let descriptors = event.payload_descriptors.unwrap();
    assert_eq!(descriptors.len(), 1);
    assert_eq!(descriptors[0].object_type, Some(PayloadDescriptorType::EVENT));
    assert_eq!(descriptors[0].payload_type, "IMPORT_CAPACITY_LIMIT");
    assert_eq!(descriptors[0].units, Some("KW".to_string()));
    assert_eq!(descriptors[0].currency, None);

    let period = event.interval_period.unwrap();
    assert_eq!(period.start, "2023-11-14T22:18:20+00:00");
    assert_eq!(period.duration, Some("PT60M".to_string()));
    assert_eq!(period.randomize_start, Some("PT0S".to_string()));

    assert_eq!(event.intervals.len(), 1);
    assert_eq!(event.intervals[0].id, 0);
    assert_eq!(event.intervals[0].interval_period, None);
    assert_eq!(event.intervals[0].payloads.len(), 1);
    assert_eq!(event.intervals[0].payloads[0].kind, "IMPORT_CAPACITY_LIMIT");
    assert_eq!(event.intervals[0].payloads[0].values, vec![Values::Integer(100)]);
}

#[test]
fn event_identifier_renders_the_seconds_in_decimal() {
    let id_at = |seconds: i64| {
        event_from_parts(synth_params(1, 1, 1), seconds, String::new(), String::new()).id.unwrap()
    };
    assert_eq!(id_at(0), "test_event_0");
    assert_eq!(id_at(7), "test_event_7");
    assert_eq!(id_at(10), "test_event_10");
    assert_eq!(id_at(1_234_567_890), "test_event_1234567890");
    assert_eq!(id_at(-5), "test_event_-5");
    assert_eq!(id_at(-120), "test_event_-120");
    assert_eq!(id_at(i64::MAX), "test_event_9223372036854775807");
    assert_eq!(id_at(i64::MIN), "test_event_-9223372036854775808");
}

#[test]
fn event_duration_renders_the_length_in_minutes() {
    let duration_of = |length: i32| {
        event_from_parts(synth_params(length, 1, 1), 0, String::new(), String::new())
            .interval_period
            .unwrap()
            .duration
            .unwrap()
    };
    assert_eq!(duration_of(1), "PT1M");
    assert_eq!(duration_of(2), "PT2M");
    assert_eq!(duration_of(90), "PT90M");
    assert_eq!(duration_of(1440), "PT1440M");
    assert_eq!(duration_of(i32::MAX), "PT2147483647M");
}

#[test]
fn synthesize_writes_the_timestamps_of_the_given_instant() {
    let event = create_test_oadr_event(synth_params(60, 100, 5), Instant::new(0, 0)).unwrap();
    assert_eq!(event.id, Some("test_event_0".to_string()));
    assert_eq!(event.created_date_time, Some("1970-01-01T00:00:00+00:00".to_string()));
    assert_eq!(event.modification_date_time, Some("1970-01-01T00:00:00+00:00".to_string()));
    assert_eq!(event.interval_period.unwrap().start, "1970-01-01T00:05:00+00:00");
    assert_eq!(event.intervals[0].payloads[0].values[0], Values::Integer(100));
}

#[test]
fn synthesize_keeps_the_fraction_of_the_second() {
    let event = create_test_oadr_event(synth_params(30, 12, 90), Instant::new(1_700_000_000, 500_000_000))
        .unwrap();
    assert_eq!(event.id, Some("test_event_1700000000".to_string()));
    assert_eq!(event.created_date_time, Some("2023-11-14T22:13:20.500+00:00".to_string()));
    assert_eq!(event.interval_period.unwrap().start, "2023-11-14T23:43:20.500+00:00");
}

#[test]
fn synthesize_moves_the_start_across_midnight() {
    let event = create_test_oadr_event(synth_params(1, 1, 1440), Instant::new(86_399, 0)).unwrap();
    assert_eq!(event.created_date_time, Some("1970-01-01T23:59:59+00:00".to_string()));
    assert_eq!(event.interval_period.unwrap().start, "1970-01-02T23:59:59+00:00");
}

#[test]
fn synthesize_rejects_parameters_below_one() {
    let now = Instant::new(1_700_000_000, 0);
    for (length, limit_kw, minutes) in [
        (0, 100, 5),
        (60, 0, 5),
        (60, 100, 0),
        (-1, 100, 5),
        (60, -1, 5),
        (60, 100, -1),
        (0, 0, 0),
        (i32::MIN, i64::MIN, i32::MIN),
    ] {
        let result = create_test_oadr_event(synth_params(length, limit_kw, minutes), now);
        assert_eq!(result, Err(ApiError::InvalidParameters));
        assert_eq!(result.unwrap_err().kind(), ErrorKind::ValidationError);
    }
}

#[test]
fn synthesize_accepts_parameters_of_one() {
    let event = create_test_oadr_event(synth_params(1, 1, 1), Instant::new(0, 0)).unwrap();
    assert_eq!(event.intervals[0].payloads[0].values[0], Values::Integer(1));
    let period = event.interval_period.unwrap();
    assert_eq!(period.duration, Some("PT1M".to_string()));
    assert_eq!(period.start, "1970-01-01T00:01:00+00:00");
}

#[test]
fn synthesize_fails_where_the_current_time_cannot_be_written() {
    let result = create_test_oadr_event(synth_params(60, 100, 5), Instant::new(i64::MAX, 0));
    assert_eq!(result, Err(ApiError::TimeOutOfRange));
    let result = create_test_oadr_event(synth_params(60, 100, 5), Instant::new(i64::MIN, 0));
    assert_eq!(result, Err(ApiError::TimeOutOfRange));
    let result = create_test_oadr_event(synth_params(60, 100, 5), Instant::new(0, 2_000_000_000));
    assert_eq!(result, Err(ApiError::TimeOutOfRange));
}

#[test]
fn synthesize_fails_where_the_start_cannot_be_written() {
    // One minute before the last instant that a timestamp can be written for.
    let now = Instant::new(8_210_266_876_799 - 60, 0);
    let event = create_test_oadr_event(synth_params(60, 100, 1), now).unwrap();
    assert_eq!(event.created_date_time, Some("+262142-12-31T23:58:59+00:00".to_string()));
    assert_eq!(event.interval_period.unwrap().start, "+262142-12-31T23:59:59+00:00");
    let result = create_test_oadr_event(synth_params(60, 100, 600_000), now);
    assert_eq!(result, Err(ApiError::TimeOutOfRange));
    assert_eq!(result.unwrap_err().kind(), ErrorKind::InternalError);
}

#[test]
fn validity_of_parameters() {
    assert!(synth_params(1, 1, 1).is_valid());
    assert!(synth_params(60, 100, 5).is_valid());
    assert!(!synth_params(0, 1, 1).is_valid());
    assert!(!synth_params(1, 0, 1).is_valid());
    assert!(!synth_params(1, 1, 0).is_valid());
    let copy = synth_params(3, 4, 5).clone();
    assert_eq!(copy, synth_params(3, 4, 5));
}
