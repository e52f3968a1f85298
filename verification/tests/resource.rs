use fibonacci_server::resource::create_resource;
use fibonacci_server::resource::merge_detected;
use opentelemetry::Key;
use opentelemetry::KeyValue;
use opentelemetry::Value;
use opentelemetry_sdk::Resource;

fn resource(pairs: &[(&'static str, &'static str)]) -> Resource {
    Resource::new(pairs.iter().map(|(key, value)| KeyValue::new(*key, *value)))
}

fn text(resource: &Resource, key: &'static str) -> Option<String> {
    resource.get(Key::new(key)).map(|value: Value| value.to_string())
}

#[test]
fn merge_keeps_every_key() {
    let merged = merge_detected(
        &resource(&[("a", "1")]),
        &resource(&[("b", "2")]),
        &resource(&[("c", "3")]),
    );
    assert_eq!(merged.len(), 3);
    assert_eq!(text(&merged, "a"), Some("1".to_string()));
    assert_eq!(text(&merged, "b"), Some("2".to_string()));
    assert_eq!(text(&merged, "c"), Some("3".to_string()));
    assert_eq!(text(&merged, "d"), None);
}

#[test]
fn later_source_wins() {
    let merged = merge_detected(
        &resource(&[("k", "first"), ("only.first", "x")]),
        &resource(&[("k", "second"), ("j", "second")]),
        &resource(&[("j", "third")]),
    );
    assert_eq!(text(&merged, "k"), Some("second".to_string()));
    assert_eq!(text(&merged, "j"), Some("third".to_string()));
    assert_eq!(text(&merged, "only.first"), Some("x".to_string()));
    assert_eq!(merged.len(), 3);
}

#[test]
fn later_source_wins_with_an_empty_value() {
    let merged = merge_detected(&resource(&[("k", "v")]), &resource(&[("k", "")]), &resource(&[]));
    assert_eq!(text(&merged, "k"), Some(String::new()));
}

#[test]
fn disjoint_sources_merge_in_any_order() {
    let a = resource(&[("a", "1"), ("aa", "11")]);
    let b = resource(&[("b", "2")]);
    let c = resource(&[("c", "3")]);
    let one = merge_detected(&a, &b, &c);
    assert_eq!(one, merge_detected(&c, &b, &a));
    assert_eq!(one, merge_detected(&b, &a, &c));
    assert_eq!(one, merge_detected(&b, &c, &a));
}

#[test]
fn overlapping_sources_depend_on_the_order() {
    let a = resource(&[("k", "a")]);
    let b = resource(&[("k", "b")]);
    let none = resource(&[]);
    assert_eq!(text(&merge_detected(&a, &b, &none), "k"), Some("b".to_string()));
    assert_eq!(text(&merge_detected(&b, &a, &none), "k"), Some("a".to_string()));
}

#[test]
fn merging_is_associative() {
    let a = resource(&[("k", "a"), ("x", "a")]);
    let b = resource(&[("k", "b"), ("y", "b")]);
    let c = resource(&[("y", "c"), ("z", "c")]);
    let none = resource(&[]);
    let left = merge_detected(&merge_detected(&a, &b, &none), &c, &none);
    let right = merge_detected(&a, &merge_detected(&b, &c, &none), &none);
    assert_eq!(left, right);
    assert_eq!(left, merge_detected(&a, &b, &c));
}

#[test]
fn empty_sources_change_nothing() {
    let a = resource(&[("k", "a")]);
    let none = resource(&[]);
    assert_eq!(merge_detected(&none, &a, &none), a);
    assert_eq!(merge_detected(&a, &none, &none), a);
    assert_eq!(merge_detected(&none, &none, &a), a);
    assert!(merge_detected(&none, &none, &none).is_empty());
}

#[test]
fn created_resource_names_service_and_library() {
    let created = create_resource();
    assert!(created.get(Key::new("service.name")).is_some());
    assert_eq!(text(&created, "telemetry.sdk.name"), Some("opentelemetry".to_string()));
    assert_eq!(text(&created, "telemetry.sdk.language"), Some("rust".to_string()));
    assert!(created.get(Key::new("telemetry.sdk.version")).is_some());
}
