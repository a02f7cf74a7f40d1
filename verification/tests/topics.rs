use tyme::header::{Header, HeaderError, TopicRegistry};

fn filter(pattern: &str, qos: i32) -> Header {
    Header { id: String::from("f"), topic: pattern.to_string(), qos }
}

fn matches(pattern: &str, topic: &str) -> bool {
    filter(pattern, 0).mqtt_topic_matches(topic)
}

#[test]
fn single_level_wildcard_matches_one_level() {
    assert!(matches("a/+/c", "a/b/c"));
    assert!(!matches("a/+/c", "a/b/c/d"));
    assert!(!matches("a/+", "a"));
    assert!(matches("a/+", "a/"));
}

#[test]
fn multi_level_wildcard_matches_the_rest() {
    assert!(matches("a/#", "a"));
    assert!(matches("a/#", "a/b"));
    assert!(matches("a/#", "a/b/c"));
    assert!(matches("#", ""));
    assert!(!matches("a/#", "b/c"));
}

#[test]
fn literal_levels_must_be_equal() {
    assert!(!matches("a/b", "a/c"));
    assert!(matches("a/b", "a/b"));
    assert!(!matches("a/b", "a"));
    assert!(!matches("a", "a/b"));
    assert!(matches("", ""));
}

#[test]
fn system_pattern_is_refused_for_every_qos() {
    for qos in [-1, 0, 1, 2, 3, i32::MAX] {
        assert_eq!(filter("system/#", qos)._check(), Err(HeaderError::ReservedTopic));
    }
}

#[test]
fn patterns_that_cover_the_system_topic_are_refused() {
    assert_eq!(filter("#", 0)._check(), Err(HeaderError::ReservedTopic));
    assert_eq!(filter("+/#", 1)._check(), Err(HeaderError::ReservedTopic));
    assert_eq!(filter("system/+", 1)._check(), Err(HeaderError::ReservedTopic));
}

#[test]
fn check_reports_empty_pattern_and_bad_qos() {
    assert_eq!(filter("", 0)._check(), Err(HeaderError::EmptyTopic));
    assert_eq!(filter("", 7)._check(), Err(HeaderError::EmptyTopic));
    assert_eq!(filter("sensors/+/temp", 3)._check(), Err(HeaderError::InvalidQos));
    assert_eq!(filter("sensors/+/temp", -1)._check(), Err(HeaderError::InvalidQos));
    assert_eq!(filter("sensors/+/temp", 2)._check(), Ok(()));
}

#[test]
fn registry_resolves_first_match_in_registration_order() {
    let mut registry = TopicRegistry::new();
    let first = Header { id: String::from("1"), topic: String::from("sensors/+/temp"), qos: 1 };
    let second = Header { id: String::from("2"), topic: String::from("sensors/room1/#"), qos: 0 };
    assert_eq!(registry.register(first.clone()), Ok(()));
    assert_eq!(registry.register(second.clone()), Ok(()));
    assert_eq!(registry.resolve("sensors/room1/temp"), Some(first));
    assert_eq!(registry.resolve("sensors/room1/humidity"), Some(second));
    assert_eq!(registry.resolve("other"), None);
    let system = registry.resolve("system/lwt").unwrap();
    assert_eq!(system.id, "");
    assert_eq!(system.topic, "system/#");
    assert_eq!(system.qos, 2);
}

#[test]
fn refused_filter_leaves_registry_unchanged() {
    let mut registry = TopicRegistry::new();
    assert_eq!(registry.register(filter("system/#", 1)), Err(HeaderError::ReservedTopic));
    let all = registry.get_all_header();
    assert_eq!(all.len(), 1);
    assert_eq!(all[0].topic, "system/#");
}

#[test]
fn default_filter_is_empty() {
    let h = Header::default();
    assert_eq!(h, Header { id: String::new(), topic: String::new(), qos: 0 });
    assert_eq!(h._check(), Err(HeaderError::EmptyTopic));
}
