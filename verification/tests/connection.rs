use std::path::PathBuf;
use tyme::config::{Auth, ConfigError, MQTTConfig, Ssl, TymeConfig, WebConsoleConfig};
use tyme::header::{Header, HeaderError, TopicRegistry};
use tyme::message::{SendMessage, WireMessage};
use tyme::mqtt::{
    after_publish, diable_connect, get_conn_option, get_mqtt_clint, get_ssl_options, publish, subscribe_topic,
    subscription_plan, ConnectionAction, ConnectionError, ConnectionEvent, ConnectionManager,
    ConnectionState, PublishNext, PublishOutcome, SubscribePlan, DEFAULT_KEEP_ALIVE_SECS, RETRY_DELAY_MILLIS,
    SESSION_EXPIRY_SECS,
};

fn config() -> TymeConfig {
    TymeConfig {
        mqtt_config: MQTTConfig {
            broker: String::from("broker.example"),
            port: 1883,
            client_id: String::from("c1"),
            keep_alive_interval: None,
            auth: Auth { enable: false, username: None, password: None },
            ssl: Ssl {
                enable: false,
                trust_store: None,
                key_store: None,
                private_key: None,
                private_key_password: None,
                ca_path: None,
                protos: None,
            },
        },
        web_console_config: WebConsoleConfig {
            username: String::from("root"),
            password: String::from("pw"),
            port: 12566,
            api_token: None,
        },
        database: String::from("mysql://db"),
        first_start: false,
        config_file: PathBuf::from("config.toml"),
    }
}

fn registry() -> TopicRegistry {
    let mut r = TopicRegistry::new();
    r.register(Header { id: String::from("1"), topic: String::from("sensors/+/temp"), qos: 1 })
        .unwrap();
    r.register(Header { id: String::from("2"), topic: String::from("chat/#"), qos: 0 }).unwrap();
    r
}

fn full_plan() -> SubscribePlan {
    SubscribePlan {
        topics: vec![
            String::from("sensors/+/temp"),
            String::from("chat/#"),
            String::from("system/#"),
        ],
        qos: vec![1, 0, 2],
    }
}

fn connected(session_present: bool) -> ConnectionManager {
    let mut c = ConnectionManager::new();
    c.on_event(ConnectionEvent::Open, &registry());
    c.on_event(ConnectionEvent::Accepted { session_present }, &registry());
    c
}

#[test]
fn first_connection_subscribes_to_everything() {
    let r = registry();
    let mut c = ConnectionManager::new();
    assert_eq!(c.state(), ConnectionState::Disconnected);
    assert_eq!(c.on_event(ConnectionEvent::Open, &r), ConnectionAction::Attempt);
    assert_eq!(c.state(), ConnectionState::Connecting);
    assert_eq!(
        c.on_event(ConnectionEvent::Accepted { session_present: false }, &r),
        ConnectionAction::Subscribe(full_plan())
    );
    assert_eq!(c.state(), ConnectionState::Connected { session_present: false });
    assert!(c.is_connected());
}

#[test]
fn kept_session_is_not_subscribed_again() {
    let r = registry();
    let mut c = ConnectionManager::new();
    c.on_event(ConnectionEvent::Open, &r);
    assert_eq!(
        c.on_event(ConnectionEvent::Accepted { session_present: true }, &r),
        ConnectionAction::Idle
    );
    assert_eq!(c.state(), ConnectionState::Connected { session_present: true });
}

#[test]
fn lost_connection_cycles_back_and_resubscribes_once() {
    let r = registry();
    let mut c = connected(true);
    let mut states = vec![c.state()];
    let mut subscriptions = Vec::new();
    assert_eq!(c.on_event(ConnectionEvent::Lost, &r), ConnectionAction::RetryAfter { millis: 0 });
    states.push(c.state());
    assert_eq!(c.on_event(ConnectionEvent::RetryDue, &r), ConnectionAction::Attempt);
    states.push(c.state());
    for event in [
        ConnectionEvent::Accepted { session_present: false },
        ConnectionEvent::Accepted { session_present: false },
        ConnectionEvent::RetryDue,
        ConnectionEvent::Open,
        ConnectionEvent::Refused,
    ] {
        if let ConnectionAction::Subscribe(plan) = c.on_event(event, &r) {
            subscriptions.push(plan);
        }
        if states.last() != Some(&c.state()) {
            states.push(c.state());
        }
    }
    assert_eq!(
        states,
        vec![
            ConnectionState::Connected { session_present: true },
            ConnectionState::Disconnected,
            ConnectionState::Reconnecting,
            ConnectionState::Connected { session_present: false },
        ]
    );
    assert_eq!(subscriptions, vec![full_plan()]);
}

#[test]
fn failed_attempts_are_retried_after_a_fixed_wait() {
    let r = registry();
    let mut c = connected(false);
    c.on_event(ConnectionEvent::Lost, &r);
    c.on_event(ConnectionEvent::RetryDue, &r);
    for _ in 0..5 {
        assert_eq!(
            c.on_event(ConnectionEvent::Refused, &r),
            ConnectionAction::RetryAfter { millis: 1000 }
        );
        assert_eq!(c.state(), ConnectionState::Reconnecting);
        assert_eq!(c.on_event(ConnectionEvent::RetryDue, &r), ConnectionAction::Attempt);
        assert_eq!(c.state(), ConnectionState::Reconnecting);
    }
    assert_eq!(RETRY_DELAY_MILLIS, 1000);
    assert_eq!(
        c.on_event(ConnectionEvent::Accepted { session_present: true }, &r),
        ConnectionAction::Idle
    );
    assert!(c.is_connected());
}

#[test]
fn refused_first_attempt_is_retried_too() {
    let r = registry();
    let mut c = ConnectionManager::new();
    c.on_event(ConnectionEvent::Open, &r);
    assert_eq!(
        c.on_event(ConnectionEvent::Refused, &r),
        ConnectionAction::RetryAfter { millis: 1000 }
    );
    assert_eq!(c.state(), ConnectionState::Reconnecting);
}

#[test]
fn events_out_of_place_change_nothing() {
    let r = registry();
    let mut c = ConnectionManager::new();
    for event in [
        ConnectionEvent::Lost,
        ConnectionEvent::Refused,
        ConnectionEvent::Accepted { session_present: false },
    ] {
        assert_eq!(c.on_event(event, &r), ConnectionAction::Idle);
        assert_eq!(c.state(), ConnectionState::Disconnected);
    }
    let mut up = connected(false);
    for event in [ConnectionEvent::Open, ConnectionEvent::RetryDue, ConnectionEvent::Refused] {
        assert_eq!(up.on_event(event, &r), ConnectionAction::Idle);
        assert_eq!(up.state(), ConnectionState::Connected { session_present: false });
    }
}

#[test]
fn publish_needs_a_connection() {
    let msg = SendMessage {
        topic: String::from("chat/a"),
        qos: 0,
        retain: None,
        receiver: None,
        ephemeral: false,
        message_type: String::from("text/markdown"),
        raw: String::from("hi"),
    };
    let down = ConnectionManager::new();
    assert_eq!(publish(&down, &msg, "tyme-server-c1"), Err(ConnectionError::NotConnected));
    let up = connected(true);
    assert_eq!(publish(&up, &msg, "tyme-server-c1"), Ok(msg.to_mqtt("tyme-server-c1")));
    let mut lost = connected(true);
    lost.on_event(ConnectionEvent::Lost, &registry());
    assert_eq!(publish(&lost, &msg, "tyme-server-c1"), Err(ConnectionError::NotConnected));
}

#[test]
fn giving_up_disconnects() {
    let mut up = connected(false);
    assert!(diable_connect(&mut up));
    assert_eq!(up.state(), ConnectionState::Disconnected);
    assert!(!diable_connect(&mut up));
    let mut trying = ConnectionManager::new();
    trying.on_event(ConnectionEvent::Open, &registry());
    assert!(!diable_connect(&mut trying));
    assert_eq!(trying.state(), ConnectionState::Disconnected);
}

#[test]
fn runtime_subscription_registers_the_filter() {
    let mut r = registry();
    let asked = Header { id: String::from("3"), topic: String::from("news/+"), qos: 2 };
    assert_eq!(subscribe_topic(&mut r, asked.clone()), Ok((String::from("news/+"), 2)));
    assert_eq!(r.resolve("news/today"), Some(asked));
    let reserved = Header { id: String::from("4"), topic: String::from("system/#"), qos: 1 };
    assert_eq!(subscribe_topic(&mut r, reserved), Err(HeaderError::ReservedTopic));
    assert_eq!(r.get_all_header().len(), 4);
}

#[test]
fn subscription_plan_lists_filters_in_order() {
    assert_eq!(subscription_plan(&registry().get_all_header()), full_plan());
    assert_eq!(subscription_plan(&Vec::new()), SubscribePlan { topics: vec![], qos: vec![] });
}

#[test]
fn client_is_created_for_the_configured_broker() {
    let mut c = config();
    let plain = get_mqtt_clint(&c);
    assert_eq!(plain.server_uri, "mqtt://broker.example:1883");
    assert_eq!(plain.client_id, "tyme-server-c1");
    c.mqtt_config.ssl.enable = true;
    c.mqtt_config.port = 8883;
    assert_eq!(get_mqtt_clint(&c).server_uri, "mqtts://broker.example:8883");
    c.mqtt_config.port = 0;
    assert_eq!(get_mqtt_clint(&c).server_uri, "mqtts://broker.example:0");
    c.mqtt_config.port = -42;
    assert_eq!(get_mqtt_clint(&c).server_uri, "mqtts://broker.example:-42");
    c.mqtt_config.port = i32::MAX;
    assert_eq!(get_mqtt_clint(&c).server_uri, "mqtts://broker.example:2147483647");
    c.mqtt_config.port = i32::MIN;
    assert_eq!(get_mqtt_clint(&c).server_uri, "mqtts://broker.example:-2147483648");
    c.mqtt_config.port = 1000;
    assert_eq!(get_mqtt_clint(&c).server_uri, "mqtts://broker.example:1000");
}

#[test]
fn plain_connection_options() {
    let plan = get_conn_option(&config(), false).unwrap();
    assert_eq!(plan.keep_alive_secs, 60);
    assert_eq!(DEFAULT_KEEP_ALIVE_SECS, 60);
    assert_eq!(plan.trust_store, None);
    assert_eq!(plan.credentials, None);
    assert!(plan.clean_start);
    assert_eq!(plan.session_expiry_secs, 3600);
    assert_eq!(SESSION_EXPIRY_SECS, 3600);
    assert_eq!(
        plan.will,
        WireMessage {
            topic: String::from("system/lwt"),
            payload: String::new(),
            qos: 1,
            retained: true,
            content_type: Some(String::from("text/markdown; charset=UTF-8")),
            user_properties: vec![
                (String::from("sender"), String::from("tyme-server-c1")),
                (String::from("ephemeral"), String::from("true")),
            ],
        }
    );
}

#[test]
fn connection_options_carry_tls_and_credentials() {
    let mut c = config();
    c.mqtt_config.keep_alive_interval = Some(15);
    c.mqtt_config.ssl.enable = true;
    c.mqtt_config.ssl.trust_store = Some(String::from("ca.crt"));
    c.mqtt_config.auth =
        Auth { enable: true, username: Some(String::from("u")), password: Some(String::from("p")) };
    let plan = get_conn_option(&c, true).unwrap();
    assert_eq!(plan.keep_alive_secs, 15);
    assert_eq!(plan.trust_store, Some(String::from("ca.crt")));
    assert_eq!(plan.credentials, Some((String::from("u"), String::from("p"))));
    assert_eq!(get_ssl_options(&c, true), Ok(String::from("ca.crt")));
}

#[test]
fn connection_options_report_what_is_missing() {
    let mut c = config();
    c.mqtt_config.ssl.enable = true;
    c.mqtt_config.auth.enable = true;
    assert_eq!(get_conn_option(&c, true), Err(ConfigError::MissingTrustStore));
    assert_eq!(get_ssl_options(&c, true), Err(ConfigError::MissingTrustStore));
    c.mqtt_config.ssl.trust_store = Some(String::from("ca.crt"));
    assert_eq!(get_conn_option(&c, false), Err(ConfigError::TrustStoreNotFound));
    assert_eq!(get_ssl_options(&c, false), Err(ConfigError::TrustStoreNotFound));
    assert_eq!(get_conn_option(&c, true), Err(ConfigError::MissingCredentials));
    c.mqtt_config.auth.username = Some(String::from("u"));
    assert_eq!(get_conn_option(&c, true), Err(ConfigError::MissingCredentials));
    c.mqtt_config.auth.password = Some(String::from("p"));
    assert!(get_conn_option(&c, true).is_ok());
    c.mqtt_config.ssl.enable = false;
    c.mqtt_config.ssl.trust_store = None;
    assert!(get_conn_option(&c, false).is_ok());
}

#[test]
fn failed_publish_is_reported_and_the_loop_goes_on() {
    assert_eq!(after_publish(PublishOutcome::Delivered), PublishNext::TakeNext);
    assert_eq!(
        after_publish(PublishOutcome::Failed),
        PublishNext::ReportAndTakeNext(ConnectionError::PublishFailed)
    );
    assert_eq!(
        after_publish(PublishOutcome::Malformed),
        PublishNext::ReportAndTakeNext(ConnectionError::MalformedMessage)
    );
}
