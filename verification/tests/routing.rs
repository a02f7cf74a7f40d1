use tyme::db::{MessageRecord, StoreCommand};
use tyme::header::{Header, TopicRegistry};
use tyme::message::{ConversionError, MessageContent, RecMessage, WireMessage};
use tyme::mqtt::{
    deliver, route, route_at, subscribe, ConnectionAction, ConnectionEvent, ConnectionManager,
    ConnectionState, DropReason, Routing, StreamStep,
};

fn wire(topic: &str, content_type: Option<&str>, props: &[(&str, &str)]) -> WireMessage {
    WireMessage {
        topic: topic.to_string(),
        payload: String::from("# 21.5"),
        qos: 1,
        retained: false,
        content_type: content_type.map(|s| s.to_string()),
        user_properties: props.iter().map(|(k, v)| (k.to_string(), v.to_string())).collect(),
    }
}

fn sensors() -> Header {
    Header { id: String::from("f-1"), topic: String::from("sensors/+/temp"), qos: 1 }
}

fn registry() -> TopicRegistry {
    let mut r = TopicRegistry::new();
    assert_eq!(r.register(sensors()), Ok(()));
    r
}

#[test]
fn message_is_resolved_persisted_and_broadcast() {
    let r = registry();
    let mut connection = ConnectionManager::new();
    let msg = wire(
        "sensors/room1/temp",
        Some("text/markdown"),
        &[("sender", "tyme-server-other")],
    );
    let step = subscribe(&mut connection, &r, "tyme-server-me", Some(msg), 1);
    let (header, message, broadcast, persist) = match step {
        StreamStep::Routed(Routing::Deliver { header, message, broadcast, persist }) => {
            (header, message, broadcast, persist)
        }
        other => panic!("unexpected step {:?}", other),
    };
    assert_eq!(header, sensors());
    assert!(broadcast);
    assert_eq!(message.topic, "sensors/room1/temp");
    assert_eq!(message.qos, 1);
    assert!(!message.mine);
    assert_eq!(message.sender, Some(String::from("tyme-server-other")));
    assert_eq!(message.content.raw, "# 21.5");
    assert_eq!(message.content.html, Some(String::from("<h1>21.5</h1>")));
    let record = match persist {
        Some(StoreCommand::InsertMessage(record)) => record,
        other => panic!("unexpected command {:?}", other),
    };
    assert_eq!(record.header_id, "f-1");
    assert_eq!(record.id, message.id);
    assert_eq!(record.into_message(), message);
    assert_eq!(connection.state(), ConnectionState::Disconnected);
}

#[test]
fn route_at_is_exact() {
    let msg = wire("sensors/room1/temp", Some("text/markdown"), &[("sender", "me")]);
    let headers = registry().get_all_header();
    let routed = route_at(&msg, "me", &headers, 0, String::from("id-9"), 77);
    let message = RecMessage {
        id: String::from("id-9"),
        topic: String::from("sensors/room1/temp"),
        qos: 1,
        retain: false,
        mine: true,
        timestamp: 77,
        content: MessageContent {
            message_type: String::from("text/markdown"),
            raw: String::from("# 21.5"),
            html: Some(String::from("<h1>21.5</h1>")),
        },
        sender: Some(String::from("me")),
        receiver: None,
    };
    assert_eq!(
        routed,
        Routing::Deliver {
            header: sensors(),
            message,
            broadcast: false,
            persist: Some(StoreCommand::InsertMessage(MessageRecord {
                id: String::from("id-9"),
                topic: String::from("sensors/room1/temp"),
                qos: 1,
                retain: false,
                mine: true,
                timestamp: 77,
                sender: Some(String::from("me")),
                receiver: None,
                message_type: String::from("text/markdown"),
                raw: String::from("# 21.5"),
                html: Some(String::from("<h1>21.5</h1>")),
                header_id: String::from("f-1"),
            })),
        }
    );
}

#[test]
fn ephemeral_message_is_broadcast_and_not_kept() {
    let msg = wire(
        "sensors/room1/temp",
        Some("text/markdown"),
        &[("sender", "me"), ("ephemeral", "true")],
    );
    match route(&msg, "me", &registry().get_all_header(), 3) {
        Routing::Deliver { broadcast, persist, .. } => {
            assert!(broadcast);
            assert_eq!(persist, None);
        }
        other => panic!("unexpected routing {:?}", other),
    }
}

#[test]
fn message_that_cannot_be_taken_in_is_dropped() {
    let headers = registry().get_all_header();
    let no_sender = wire("sensors/room1/temp", Some("text/markdown"), &[]);
    assert_eq!(
        route(&no_sender, "me", &headers, 1),
        Routing::Dropped(DropReason::Conversion(ConversionError::MissingSender))
    );
    let no_type = wire("sensors/room1/temp", None, &[("sender", "me")]);
    assert_eq!(
        route(&no_type, "me", &headers, 1),
        Routing::Dropped(DropReason::Conversion(ConversionError::MissingContentType))
    );
}

#[test]
fn message_without_filter_is_dropped() {
    let msg = wire("weather/today", Some("text/markdown"), &[("sender", "me")]);
    assert_eq!(
        route(&msg, "me", &registry().get_all_header(), 1),
        Routing::Dropped(DropReason::NoFilter)
    );
    assert_eq!(route(&msg, "me", &Vec::new(), 1), Routing::Dropped(DropReason::NoFilter));
}

#[test]
fn unrendered_message_is_still_delivered() {
    let msg = wire("sensors/room1/temp", Some("text/plain"), &[("sender", "me")]);
    match route(&msg, "me", &registry().get_all_header(), 1) {
        Routing::Deliver { message, persist, .. } => {
            assert_eq!(message.content.html, None);
            assert!(persist.is_some());
        }
        other => panic!("unexpected routing {:?}", other),
    }
}

#[test]
fn system_traffic_belongs_to_the_system_filter() {
    let msg = wire("system/lwt", Some("text/markdown"), &[("sender", "someone")]);
    let mut connection = ConnectionManager::new();
    match subscribe(&mut connection, &registry(), "me", Some(msg), 0) {
        StreamStep::Routed(Routing::Deliver { header, broadcast, persist, .. }) => {
            assert_eq!(header.topic, "system/#");
            assert_eq!(header.id, "");
            assert!(!broadcast);
            match persist {
                Some(StoreCommand::InsertMessage(record)) => assert_eq!(record.header_id, ""),
                other => panic!("unexpected command {:?}", other),
            }
        }
        other => panic!("unexpected step {:?}", other),
    }
}

#[test]
fn deliver_goes_to_the_first_matching_filter() {
    let headers = vec![
        Header { id: String::from("a"), topic: String::from("sensors/#"), qos: 0 },
        sensors(),
    ];
    let message = RecMessage {
        id: String::from("m"),
        topic: String::from("sensors/room1/temp"),
        qos: 0,
        retain: false,
        mine: false,
        timestamp: 1,
        content: MessageContent {
            message_type: String::from("text/plain"),
            raw: String::new(),
            html: None,
        },
        sender: None,
        receiver: None,
    };
    match deliver(message.clone(), false, &headers, 0) {
        Routing::Deliver { header, persist, .. } => {
            assert_eq!(header.id, "a");
            assert_eq!(persist, Some(message.insert("a")));
        }
        other => panic!("unexpected routing {:?}", other),
    }
}

#[test]
fn end_of_stream_item_reports_the_lost_connection() {
    let r = registry();
    let mut connection = ConnectionManager::new();
    connection.on_event(ConnectionEvent::Open, &r);
    connection.on_event(ConnectionEvent::Accepted { session_present: true }, &r);
    assert_eq!(
        subscribe(&mut connection, &r, "me", None, 0),
        StreamStep::Connection(ConnectionAction::RetryAfter { millis: 0 })
    );
    assert_eq!(connection.state(), ConnectionState::Disconnected);
}
