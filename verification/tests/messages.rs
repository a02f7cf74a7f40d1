use tyme::db::{MessageRecord, StoreCommand};
use tyme::header::Header;
use tyme::message::{
    find_user_property, render_kind, ConversionError, MessageContent, RecMessage, RenderError,
    RenderKind, SendMessage, WireMessage,
};

fn pair(k: &str, v: &str) -> (String, String) {
    (k.to_string(), v.to_string())
}

fn outbound() -> SendMessage {
    SendMessage {
        topic: String::from("sensors/room1/temp"),
        qos: 1,
        retain: None,
        receiver: None,
        ephemeral: false,
        message_type: String::from("text/markdown"),
        raw: String::from("# 21 degrees"),
    }
}

fn inbound(content_type: Option<&str>, props: Vec<(String, String)>) -> WireMessage {
    WireMessage {
        topic: String::from("sensors/room1/temp"),
        payload: String::from("# Hi"),
        qos: 1,
        retained: true,
        content_type: content_type.map(|s| s.to_string()),
        user_properties: props,
    }
}

fn received(message_type: &str, raw: &str) -> RecMessage {
    RecMessage {
        id: String::from("m1"),
        topic: String::from("a/b"),
        qos: 2,
        retain: false,
        mine: true,
        timestamp: 1_700_000_000_123,
        content: MessageContent {
            message_type: message_type.to_string(),
            raw: raw.to_string(),
            html: None,
        },
        sender: Some(String::from("tyme-server-x")),
        receiver: Some(String::from("tyme-server-y")),
    }
}

#[test]
fn to_mqtt_carries_sender_and_content_type() {
    let w = outbound().to_mqtt("tyme-server-a");
    assert_eq!(w.topic, "sensors/room1/temp");
    assert_eq!(w.payload, "# 21 degrees");
    assert_eq!(w.qos, 1);
    assert!(!w.retained);
    assert_eq!(w.content_type, Some(String::from("text/markdown")));
    assert_eq!(w.user_properties, vec![pair("sender", "tyme-server-a")]);
}

#[test]
fn to_mqtt_names_receiver_and_marks_ephemeral() {
    let mut m = outbound();
    m.receiver = Some(String::from("tyme-server-b"));
    m.ephemeral = true;
    m.retain = Some(true);
    let w = m.to_mqtt("tyme-server-a");
    assert!(w.retained);
    assert_eq!(
        w.user_properties,
        vec![
            pair("sender", "tyme-server-a"),
            pair("receiver", "tyme-server-b"),
            pair("ephemeral", "true"),
        ]
    );
    assert!(w.is_ephemeral());
}

#[test]
fn first_user_property_of_a_name_wins() {
    let props = vec![pair("a", "1"), pair("b", "2"), pair("a", "3")];
    assert_eq!(find_user_property(&props, "a"), Some(String::from("1")));
    assert_eq!(find_user_property(&props, "b"), Some(String::from("2")));
    assert_eq!(find_user_property(&props, "c"), None);
    assert_eq!(find_user_property(&Vec::new(), "a"), None);
}

#[test]
fn ephemeral_needs_the_value_true() {
    assert!(!inbound(None, vec![pair("ephemeral", "false")]).is_ephemeral());
    assert!(!inbound(None, vec![pair("ephemeral", "false"), pair("ephemeral", "true")])
        .is_ephemeral());
    assert!(!inbound(None, vec![]).is_ephemeral());
    assert!(inbound(None, vec![pair("x", "y"), pair("ephemeral", "true")]).is_ephemeral());
}

#[test]
fn from_wire_builds_the_canonical_form() {
    let w = inbound(
        Some("text/markdown"),
        vec![pair("sender", "tyme-server-a"), pair("receiver", "tyme-server-b")],
    );
    let m = RecMessage::from_wire(&w, "tyme-server-a", String::from("id-1"), 42).unwrap();
    assert_eq!(
        m,
        RecMessage {
            id: String::from("id-1"),
            topic: String::from("sensors/room1/temp"),
            qos: 1,
            retain: true,
            mine: true,
            timestamp: 42,
            content: MessageContent {
                message_type: String::from("text/markdown"),
                raw: String::from("# Hi"),
                html: None,
            },
            sender: Some(String::from("tyme-server-a")),
            receiver: Some(String::from("tyme-server-b")),
        }
    );
    let other = RecMessage::from_wire(&w, "tyme-server-z", String::from("id-2"), 43).unwrap();
    assert!(!other.mine);
    assert_eq!(other.id, "id-2");
    assert_eq!(other.timestamp, 43);
}

#[test]
fn from_wire_needs_sender_and_content_type() {
    let no_sender = inbound(Some("text/markdown"), vec![pair("receiver", "x")]);
    assert_eq!(
        RecMessage::from_wire(&no_sender, "me", String::from("i"), 0),
        Err(ConversionError::MissingSender)
    );
    let no_type = inbound(None, vec![pair("sender", "x")]);
    assert_eq!(
        RecMessage::from_wire(&no_type, "me", String::from("i"), 0),
        Err(ConversionError::MissingContentType)
    );
    let neither = inbound(None, vec![]);
    assert_eq!(
        RecMessage::from_wire(&neither, "me", String::from("i"), 0),
        Err(ConversionError::MissingSender)
    );
}

#[test]
fn try_from_draws_identifier_and_time() {
    let w = inbound(Some("application/json"), vec![pair("sender", "me")]);
    let a = RecMessage::try_from(&w, "me").unwrap();
    let b = RecMessage::try_from(&w, "me").unwrap();
    assert_eq!(a.id.chars().count(), 21);
    assert_ne!(a.id, b.id);
    assert!(a.timestamp > 1_600_000_000_000);
    assert!(a.mine);
    assert_eq!(a.content.message_type, "application/json");
    assert_eq!(
        RecMessage::try_from(&inbound(None, vec![]), "me"),
        Err(ConversionError::MissingSender)
    );
}

#[test]
fn render_kind_goes_by_subtype() {
    assert_eq!(render_kind(&Some(String::from("markdown"))), RenderKind::Markdown);
    assert_eq!(render_kind(&Some(String::from("json"))), RenderKind::Json);
    assert_eq!(render_kind(&Some(String::from("plain"))), RenderKind::Unsupported);
    assert_eq!(render_kind(&Some(String::new())), RenderKind::Unsupported);
    assert_eq!(render_kind(&None), RenderKind::Invalid);
}

#[test]
fn markdown_body_is_rendered() {
    let mut m = received("text/markdown; charset=UTF-8", "# Hi");
    assert_eq!(m.to_html(), Ok(()));
    assert_eq!(m.content.html, Some(String::from("<h1>Hi</h1>")));
    assert_eq!(m.content.raw, "# Hi");
    assert_eq!(m.content.message_type, "text/markdown; charset=UTF-8");
    let mut strike = received("text/markdown", "~Venus~Mars!");
    assert_eq!(strike.to_html(), Ok(()));
    assert_eq!(strike.content.html, Some(String::from("<p><del>Venus</del>Mars!</p>")));
}

#[test]
fn json_body_is_rendered_as_code() {
    let mut m = received("application/json", "{\"a\":1}");
    assert_eq!(m.to_html(), Ok(()));
    let expected = markdown::to_html_with_options(
        "```json \n{\"a\":1}\n```",
        &markdown::Options::gfm(),
    )
    .unwrap();
    assert_eq!(m.content.html, Some(expected));
    let html = m.content.html.unwrap();
    assert!(html.starts_with("<pre><code class=\"language-json\">"));
    assert!(html.contains("{&quot;a&quot;:1}"));
}

#[test]
fn other_bodies_are_not_rendered() {
    let mut plain = received("text/plain", "hello");
    let before = plain.clone();
    assert_eq!(plain.to_html(), Err(RenderError::UnsupportedType));
    assert_eq!(plain, before);
    let mut broken = received("no media type", "hello");
    assert_eq!(broken.to_html(), Err(RenderError::InvalidType));
    assert_eq!(broken.content.html, None);
}

#[test]
fn get_header_takes_the_first_matching_filter() {
    let headers = vec![
        Header { id: String::from("h1"), topic: String::from("x/#"), qos: 0 },
        Header { id: String::from("h2"), topic: String::from("a/+"), qos: 1 },
        Header { id: String::from("h3"), topic: String::from("a/b"), qos: 2 },
    ];
    let m = received("text/markdown", "x");
    assert_eq!(m.get_header(&headers), Some(headers[1].clone()));
    let mut elsewhere = received("text/markdown", "x");
    elsewhere.topic = String::from("b");
    assert_eq!(elsewhere.get_header(&headers), None);
}

#[test]
fn kept_message_reads_back_equal() {
    let mut m = received("text/markdown", "# Hi");
    m.to_html().unwrap();
    let record = match m.insert("h7") {
        StoreCommand::InsertMessage(record) => record,
        other => panic!("unexpected command {:?}", other),
    };
    assert_eq!(record.id, "m1");
    assert_eq!(record.header_id, "h7");
    assert_eq!(record.timestamp, 1_700_000_000_123);
    assert_eq!(record.html, Some(String::from("<h1>Hi</h1>")));
    assert_eq!(record.into_message(), m);
}

#[test]
fn record_maps_every_field() {
    let record = MessageRecord {
        id: String::from("i"),
        topic: String::from("t"),
        qos: 2,
        retain: true,
        mine: false,
        timestamp: -5,
        sender: None,
        receiver: Some(String::from("r")),
        message_type: String::from("application/json"),
        raw: String::from("{}"),
        html: None,
        header_id: String::from("h"),
    };
    let m = record.into_message();
    assert_eq!(m.id, "i");
    assert_eq!(m.topic, "t");
    assert_eq!(m.qos, 2);
    assert!(m.retain);
    assert!(!m.mine);
    assert_eq!(m.timestamp, -5);
    assert_eq!(m.sender, None);
    assert_eq!(m.receiver, Some(String::from("r")));
    assert_eq!(m.content.message_type, "application/json");
    assert_eq!(m.content.raw, "{}");
    assert_eq!(m.content.html, None);
}
