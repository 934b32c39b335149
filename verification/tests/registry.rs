use vtn_mock::errors::{ApiError, ErrorKind};
use vtn_mock::models::{ObjectOperation, ObjectTypes, Operation, Operations, Subscription};
use vtn_mock::registry::SubscriptionRegistry;

fn reg_subscription(id: Option<&str>, client: &str) -> Subscription {
    Subscription {
        id: id.map(|id| id.to_string()),
        created_date_time: None,
        modification_date_time: None,
        object_type: Some(ObjectTypes::SUBSCRIPTION),
        client_name: client.to_string(),
        program_id: "program".to_string(),
        object_operations: vec![ObjectOperation {
            object_type: vec![ObjectTypes::EVENT],
            operations: Operations { operations: vec![Operation::POST] },
            callback_url: "http://x/cb".to_string(),
            bearer_token: "t".to_string(),
        }],
        targets: None,
    }
}

#[test]
fn new_registry_is_empty() {
    let registry = SubscriptionRegistry::new();
    assert_eq!(registry.list().len(), 0);
    assert_eq!(registry.list(), vec![]);
    assert_eq!(registry.get("test"), None);
    assert!(!registry.contains("test"));
}

#[test]
fn upsert_then_get() {
    let mut registry = SubscriptionRegistry::new();
    assert_eq!(registry.upsert(reg_subscription(Some("test"), "first")), Ok(()));
    assert_eq!(registry.get("test"), Some(reg_subscription(Some("test"), "first")));
    assert!(registry.contains("test"));
    assert_eq!(registry.list().len(), 1);
    assert_eq!(registry.get("other"), None);
    assert_eq!(registry.get("tes"), None);
    assert_eq!(registry.get("test "), None);
    assert_eq!(registry.get("Test"), None);
}

#[test]
fn upsert_without_id_fails_and_changes_nothing() {
    let mut registry = SubscriptionRegistry::new();
    registry.upsert(reg_subscription(Some("a"), "first")).unwrap();
    let result = registry.upsert(reg_subscription(None, "second"));
    assert_eq!(result, Err(ApiError::MissingSubscriptionId));
    assert_eq!(result.unwrap_err().kind(), ErrorKind::ValidationError);
    assert_eq!(registry.list().len(), 1);
    assert_eq!(registry.list(), vec![reg_subscription(Some("a"), "first")]);
}

#[test]
fn second_upsert_wins() {
    let mut registry = SubscriptionRegistry::new();
    registry.upsert(reg_subscription(Some("test"), "first")).unwrap();
    registry.upsert(reg_subscription(Some("test"), "second")).unwrap();
    assert_eq!(registry.get("test"), Some(reg_subscription(Some("test"), "second")));
    assert_eq!(registry.list().len(), 1);
}

#[test]
fn upsert_with_an_empty_id() {
    let mut registry = SubscriptionRegistry::new();
    assert_eq!(registry.upsert(reg_subscription(Some(""), "empty")), Ok(()));
    assert_eq!(registry.get(""), Some(reg_subscription(Some(""), "empty")));
}

#[test]
fn get_hands_out_a_copy() {
    let mut registry = SubscriptionRegistry::new();
    registry.upsert(reg_subscription(Some("test"), "first")).unwrap();
    let mut copy = registry.get("test").unwrap();
    copy.client_name = "changed".to_string();
    assert_eq!(registry.get("test"), Some(reg_subscription(Some("test"), "first")));
}

#[test]
fn list_holds_every_entry_once() {
    let mut registry = SubscriptionRegistry::new();
    for i in 0..50 {
        let id = format!("id{}", i);
        registry.upsert(reg_subscription(Some(&id), "first")).unwrap();
    }
    for i in 0..50 {
        let id = format!("id{}", i);
        registry.upsert(reg_subscription(Some(&id), &format!("client{}", i))).unwrap();
    }
    assert_eq!(registry.list().len(), 50);
    let mut listing = registry.list();
    assert_eq!(listing.len(), 50);
    listing.sort_by_key(|s| s.client_name.clone());
    let mut expected: Vec<Subscription> = (0..50)
        .map(|i| reg_subscription(Some(&format!("id{}", i)), &format!("client{}", i)))
        .collect();
    expected.sort_by_key(|s| s.client_name.clone());
    assert_eq!(listing, expected);
}

#[test]
fn delete_known_and_unknown() {
    let mut registry = SubscriptionRegistry::new();
    registry.upsert(reg_subscription(Some("a"), "first")).unwrap();
    registry.upsert(reg_subscription(Some("b"), "second")).unwrap();
    assert!(!registry.delete("c"));
    assert_eq!(registry.list().len(), 2);
    assert!(registry.delete("a"));
    assert_eq!(registry.get("a"), None);
    assert_eq!(registry.get("b"), Some(reg_subscription(Some("b"), "second")));
    assert_eq!(registry.list(), vec![reg_subscription(Some("b"), "second")]);
    assert!(!registry.delete("a"));
    assert!(registry.delete("b"));
    assert_eq!(registry.list().len(), 0);
}

#[test]
fn upsert_after_delete() {
    let mut registry = SubscriptionRegistry::new();
    registry.upsert(reg_subscription(Some("a"), "first")).unwrap();
    assert!(registry.delete("a"));
    registry.upsert(reg_subscription(Some("a"), "again")).unwrap();
    assert_eq!(registry.get("a"), Some(reg_subscription(Some("a"), "again")));
}

#[test]
fn replace_with_another_id_is_a_conflict() {
    let mut registry = SubscriptionRegistry::new();
    registry.upsert(reg_subscription(Some("a"), "first")).unwrap();
    let result = registry.replace("a", reg_subscription(Some("b"), "second"));
    assert_eq!(result, Err(ApiError::SubscriptionIdMismatch));
    assert_eq!(result.unwrap_err().kind(), ErrorKind::ConflictError);
    let result = registry.replace("a", reg_subscription(None, "second"));
    assert_eq!(result, Err(ApiError::SubscriptionIdMismatch));
    assert_eq!(registry.list(), vec![reg_subscription(Some("a"), "first")]);
}

#[test]
fn replace_of_an_unknown_id_is_not_found() {
    let mut registry = SubscriptionRegistry::new();
    registry.upsert(reg_subscription(Some("a"), "first")).unwrap();
    let result = registry.replace("b", reg_subscription(Some("b"), "second"));
    assert_eq!(result, Err(ApiError::SubscriptionNotFound));
    assert_eq!(result.unwrap_err().kind(), ErrorKind::NotFoundError);
    assert_eq!(registry.list(), vec![reg_subscription(Some("a"), "first")]);
}

#[test]
fn replace_checks_the_body_before_the_registry() {
    let mut registry = SubscriptionRegistry::new();
    let result = registry.replace("a", reg_subscription(Some("b"), "second"));
    assert_eq!(result, Err(ApiError::SubscriptionIdMismatch));
    assert_eq!(registry.list().len(), 0);
}

#[test]
fn replace_of_a_known_id() {
    let mut registry = SubscriptionRegistry::new();
    registry.upsert(reg_subscription(Some("a"), "first")).unwrap();
    registry.upsert(reg_subscription(Some("b"), "other")).unwrap();
    assert_eq!(registry.replace("a", reg_subscription(Some("a"), "second")), Ok(()));
    assert_eq!(registry.get("a"), Some(reg_subscription(Some("a"), "second")));
    assert_eq!(registry.get("b"), Some(reg_subscription(Some("b"), "other")));
    assert_eq!(registry.list().len(), 2);
}

#[test]
fn identifiers_beyond_ascii() {
    let mut registry = SubscriptionRegistry::new();
    registry.upsert(reg_subscription(Some("zähler"), "first")).unwrap();
    assert!(registry.contains("zähler"));
    assert!(!registry.contains("zahler"));
    assert_eq!(registry.replace("zähler", reg_subscription(Some("zähler"), "second")), Ok(()));
    assert_eq!(
        registry.replace("zähler", reg_subscription(Some("zahler"), "third")),
        Err(ApiError::SubscriptionIdMismatch)
    );
    assert!(registry.delete("zähler"));
}
