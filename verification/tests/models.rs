use vtn_mock::models::{
    EventPayloadDescriptor, Interval, IntervalPeriod, ObjectOperation, ObjectTypes, OpenADREvent,
    Operation, Operations, PayloadDescriptorType, ReportDescriptor, Subscription, Values,
    ValuesMap,
};
use vtn_mock::storage::dummy_event;
use vtn_mock::text::{append_decimal, append_digits, bytes_equal, str_equal};

fn full_event() -> OpenADREvent {
    OpenADREvent {
        id: Some("id".to_string()),
        created_date_time: Some("created".to_string()),
        modification_date_time: Some("modified".to_string()),
        object_type: Some(ObjectTypes::EVENT),
        program_id: "program".to_string(),
        event_name: Some("name".to_string()),
        priority: Some(3),
        targets: Some(vec![ValuesMap {
            kind: "GROUP".to_string(),
            values: vec![
                Values::String("a".to_string()),
                Values::Integer(-7),
                Values::Boolean(true),
            ],
        }]),
        report_descriptors: Some(vec![ReportDescriptor {
            payload_type: "USAGE".to_string(),
            reading_type: Some("DIRECT_READ".to_string()),
            units: Some("KWH".to_string()),
            targets: Some(vec![ValuesMap { kind: "k".to_string(), values: vec![] }]),
            aggregate: Some(false),
            start_interval: Some(-1),
            num_intervals: Some(2),
            historical: Some(true),
            frequency: Some(4),
            repeat: Some(5),
        }]),
        payload_descriptors: Some(vec![EventPayloadDescriptor {
            object_type: Some(PayloadDescriptorType::REPORT),
            payload_type: "PRICE".to_string(),
            units: Some("KWH".to_string()),
            currency: Some("USD".to_string()),
        }]),
        interval_period: Some(IntervalPeriod {
            start: "start".to_string(),
            duration: Some("PT1H".to_string()),
            randomize_start: None,
        }),
        intervals: vec![
            Interval {
                id: 0,
                interval_period: Some(IntervalPeriod {
                    start: "s".to_string(),
                    duration: None,
                    randomize_start: Some("PT5M".to_string()),
                }),
                payloads: vec![ValuesMap {
                    kind: "PRICE".to_string(),
                    values: vec![Values::Integer(1)],
                }],
            },
            Interval { id: 1, interval_period: None, payloads: vec![] },
        ],
    }
}

#[test]
fn object_type_names() {
    assert_eq!(ObjectTypes::PROGRAM.as_str(), "PROGRAM");
    assert_eq!(ObjectTypes::EVENT.as_str(), "EVENT");
    assert_eq!(ObjectTypes::REPORT.as_str(), "REPORT");
    assert_eq!(ObjectTypes::SUBSCRIPTION.as_str(), "SUBSCRIPTION");
    assert_eq!(ObjectTypes::VEN.as_str(), "VEN");
    assert_eq!(ObjectTypes::RESOURCE.as_str(), "RESOURCE");
}

#[test]
fn copy_of_an_event_is_equal() {
    let event = full_event();
    assert_eq!(event.clone(), event);
    let seed = dummy_event();
    assert_eq!(seed.clone(), seed);
    assert_ne!(seed, event);
}

#[test]
fn copy_of_an_event_is_independent() {
    let event = full_event();
    let mut copy = event.clone();
    copy.intervals[0].payloads[0].values[0] = Values::Integer(2);
    assert_eq!(event.intervals[0].payloads[0].values[0], Values::Integer(1));
    assert_ne!(copy, event);
}

#[test]
fn copy_of_a_subscription_is_equal() {
    let subscription = Subscription {
        id: Some("id".to_string()),
        created_date_time: Some("created".to_string()),
        modification_date_time: None,
        object_type: Some(ObjectTypes::SUBSCRIPTION),
        client_name: "client".to_string(),
        program_id: "program".to_string(),
        object_operations: vec![
            ObjectOperation {
                object_type: vec![ObjectTypes::EVENT, ObjectTypes::REPORT],
                operations: Operations {
                    operations: vec![
                        Operation::GET,
                        Operation::POST,
                        Operation::PUT,
                        Operation::DELETE,
                    ],
                },
                callback_url: "http://x/cb".to_string(),
                bearer_token: "t".to_string(),
            },
            ObjectOperation {
                object_type: vec![],
                operations: Operations { operations: vec![] },
                callback_url: String::new(),
                bearer_token: String::new(),
            },
        ],
        targets: Some(vec![ValuesMap {
            kind: "VEN_NAME".to_string(),
            values: vec![Values::String("ven".to_string())],
        }]),
    };
    assert_eq!(subscription.clone(), subscription);
}

#[test]
fn copy_of_each_scalar() {
    for value in [
        Values::String("text".to_string()),
        Values::String(String::new()),
        Values::Integer(0),
        Values::Integer(i64::MIN),
        Values::Boolean(true),
        Values::Boolean(false),
    ] {
        assert_eq!(value.clone(), value);
    }
    assert_ne!(Values::Integer(1), Values::Boolean(true));
    assert_ne!(Values::String("1".to_string()), Values::Integer(1));
}

#[test]
fn digits_are_appended() {
    let mut out = "n=".to_string();
    append_digits(&mut out, 0);
    assert_eq!(out, "n=0");
    append_digits(&mut out, 9);
    append_digits(&mut out, 10);
    append_digits(&mut out, 12_345);
    assert_eq!(out, "n=091012345");
    let mut out = String::new();
    append_digits(&mut out, u64::MAX);
    assert_eq!(out, "18446744073709551615");
}

#[test]
fn decimal_is_appended() {
    for n in [0i64, 1, 9, 10, 99, 100, 101, 1_000_000, -1, -10, -999, i64::MAX, i64::MIN] {
        let mut out = String::new();
        append_decimal(&mut out, n);
        assert_eq!(out, n.to_string());
    }
    let mut out = "PT".to_string();
    append_decimal(&mut out, 60);
    out.push('M');
    assert_eq!(out, "PT60M");
}

#[test]
fn bytes_are_compared_one_by_one() {
    assert!(bytes_equal(&[], &[]));
    assert!(bytes_equal(&[1, 2, 3], &[1, 2, 3]));
    assert!(!bytes_equal(&[1, 2, 3], &[1, 2, 4]));
    assert!(!bytes_equal(&[0, 2, 3], &[1, 2, 3]));
    assert!(!bytes_equal(&[1, 2, 3], &[1, 2]));
    assert!(!bytes_equal(&[1, 2], &[1, 2, 3]));
    assert!(!bytes_equal(&[], &[0]));
}

#[test]
fn texts_are_compared_as_a_whole() {
    assert!(str_equal("", ""));
    assert!(str_equal("scope", "scope"));
    assert!(!str_equal("scope", "scopes"));
    assert!(!str_equal("scope", "Scope"));
    assert!(!str_equal("scope", ""));
    assert!(str_equal("größe", "größe"));
    assert!(!str_equal("größe", "grosse"));
}
