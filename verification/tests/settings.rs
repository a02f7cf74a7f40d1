use std::path::PathBuf;
use tyme::args::StartParam;
use tyme::config::{Auth, ConfigError, MQTTConfig, Ssl, TymeConfig, WebConsoleConfig};
use tyme::header::Header;
use tyme::script::{
    lua_send_json, lua_send_markdown, package_cpath, package_path, ScriptValue,
};
use tyme::text::to_decimal;
use tyme::web_console::{
    auth, begins_inside, check_password, is_single_normal, path_is_valid, JsonError, Login,
    PageParam, PathPart, Store,
};

fn mqtt() -> MQTTConfig {
    MQTTConfig::default()
}

#[test]
fn default_configuration_is_a_first_start() {
    let c = TymeConfig::default();
    assert!(c.first_start);
    assert_eq!(c.database, "");
    assert_eq!(c.config_file, PathBuf::new());
    assert_eq!(c.mqtt_config, mqtt());
    assert_eq!(c.mqtt_config.broker, "");
    assert_eq!(c.mqtt_config.port, 0);
    assert_eq!(c.mqtt_config.keep_alive_interval, None);
    assert_eq!(c.mqtt_config.auth, Auth { enable: false, username: None, password: None });
    assert_eq!(c.mqtt_config.ssl, Ssl::default());
    assert_eq!(c.web_console_config.username, "root");
    assert_eq!(c.web_console_config.port, 12566);
    assert_eq!(c.web_console_config.api_token, None);
    assert_eq!(c.web_console_config.password.chars().count(), 8);
    assert_ne!(c.web_console_config.password, WebConsoleConfig::default().password);
}

#[test]
fn check_finds_missing_tls_and_credentials() {
    let mut c = mqtt();
    assert_eq!(c.check(), Ok(()));
    c.ssl.enable = true;
    assert_eq!(c.check(), Err(ConfigError::MissingTrustStore));
    c.auth.enable = true;
    assert_eq!(c.check(), Err(ConfigError::MissingTrustStore));
    c.ssl.trust_store = Some(String::from("ca.crt"));
    assert_eq!(c.check(), Err(ConfigError::MissingCredentials));
    c.auth.username = Some(String::from("u"));
    assert_eq!(c.check(), Err(ConfigError::MissingCredentials));
    c.auth.username = None;
    c.auth.password = Some(String::from("p"));
    assert_eq!(c.check(), Err(ConfigError::MissingCredentials));
    c.auth.username = Some(String::from("u"));
    assert_eq!(c.check(), Ok(()));
}

#[test]
fn client_name_has_the_fixed_prefix() {
    let mut c = TymeConfig::default();
    assert_eq!(c.get_clint_name(), "tyme-server-");
    c.mqtt_config.client_id = String::from("kitchen");
    assert_eq!(c.get_clint_name(), "tyme-server-kitchen");
}

#[test]
fn obtain_without_file_gives_the_defaults() {
    let c = TymeConfig::obtain(None, PathBuf::from("/etc/tyme_conf")).unwrap();
    assert!(c.first_start);
    assert_eq!(c.config_file, PathBuf::from("/etc/tyme_conf"));
    assert_eq!(c.web_console_config.username, "root");
    assert_eq!(c.web_console_config.port, 12566);
    assert_eq!(c.web_console_config.password.chars().count(), 8);
    assert_eq!(c.web_console_config.api_token, None);
    assert_eq!(c.database, "");
    assert_eq!(c.mqtt_config, MQTTConfig::default());
    assert_eq!(c.mqtt_config.check(), Ok(()));
    assert!(!c.mqtt_config.ssl.enable);
    assert!(!c.mqtt_config.auth.enable);
}

#[test]
fn obtain_checks_what_the_file_held() {
    let mut parsed = TymeConfig::default();
    parsed.database = String::from("mysql://db");
    parsed.mqtt_config.client_id = String::from("c");
    let password = parsed.web_console_config.password.clone();
    let c = TymeConfig::obtain(Some(parsed), PathBuf::from("config.toml")).unwrap();
    assert!(!c.first_start);
    assert_eq!(c.config_file, PathBuf::from("config.toml"));
    assert_eq!(c.database, "mysql://db");
    assert_eq!(c.mqtt_config.client_id, "c");
    assert_eq!(c.web_console_config.password, password);

    let mut no_store = TymeConfig::default();
    no_store.mqtt_config.ssl.enable = true;
    assert_eq!(
        TymeConfig::obtain(Some(no_store), PathBuf::new()),
        Err(ConfigError::MissingTrustStore)
    );
    let mut no_user = TymeConfig::default();
    no_user.mqtt_config.auth.enable = true;
    no_user.mqtt_config.auth.password = Some(String::from("p"));
    assert_eq!(
        TymeConfig::obtain(Some(no_user), PathBuf::new()),
        Err(ConfigError::MissingCredentials)
    );
}

#[test]
fn update_takes_broker_and_console_settings_over() {
    let mut current = TymeConfig::default();
    current.database = String::from("mysql://db");
    current.first_start = false;
    current.config_file = PathBuf::from("config.toml");
    let mut incoming = TymeConfig::default();
    incoming.database = String::from("ignored");
    incoming.mqtt_config.broker = String::from("b");
    incoming.mqtt_config.port = 1883;
    incoming.mqtt_config.ssl.protos = Some(vec![String::from("h2")]);
    incoming.mqtt_config.ssl.ca_path = Some(PathBuf::from("/ca"));
    incoming.web_console_config.api_token = Some(String::from("t"));
    incoming.update(&mut current);
    assert_eq!(current.mqtt_config, incoming.mqtt_config);
    assert_eq!(current.web_console_config, incoming.web_console_config);
    assert_eq!(current.database, "mysql://db");
    assert!(!current.first_start);
    assert_eq!(current.config_file, PathBuf::from("config.toml"));
}

#[test]
fn configuration_file_is_chosen_in_order() {
    let local = PathBuf::from("work/config.toml");
    let system = PathBuf::from("/etc/tyme_conf");
    let home = PathBuf::from("/home/u/.tyme_conf");
    let asked = StartParam {
        word_dir: PathBuf::from("work"),
        conf_file: Some(PathBuf::from("mine.toml")),
        init: false,
    };
    assert_eq!(
        asked.get_config_file(Some(system.clone()), local.clone(), true, Some(home.clone())),
        PathBuf::from("mine.toml")
    );
    let plain = StartParam { word_dir: PathBuf::from("work"), conf_file: None, init: false };
    assert_eq!(
        plain.get_config_file(Some(system.clone()), local.clone(), true, Some(home.clone())),
        system
    );
    assert_eq!(plain.get_config_file(None, local.clone(), true, Some(home.clone())), local);
    assert_eq!(plain.get_config_file(None, local.clone(), false, Some(home.clone())), home);
    assert_eq!(plain.get_config_file(None, local.clone(), false, None), local);
}

#[test]
fn token_is_presented_as_bearer() {
    let store = Store::new(String::from("s3cret"));
    assert!(store.api_token_check("Bearer s3cret"));
    assert!(!store.api_token_check("Bearer  s3cret"));
    assert!(!store.api_token_check("bearer s3cret"));
    assert!(!store.api_token_check("s3cret"));
    assert!(!store.api_token_check("Bearer s3cret "));
    assert!(!store.api_token_check(""));
    assert!(Store::default().api_token_check("Bearer "));
    assert!(store.clone().api_token_check("Bearer s3cret"));
}

#[test]
fn calls_without_the_token_are_unauthorized() {
    let store = Store::new(String::from("s3cret"));
    assert_eq!(auth(&store, Some("Bearer s3cret")), Ok(()));
    assert_eq!(auth(&store, Some("Bearer other")), Err(JsonError::unauthorized()));
    assert_eq!(auth(&store, None), Err(JsonError::unauthorized()));
    assert_eq!(JsonError::unauthorized().error(), "Unauthorized");
    assert_eq!(JsonError::_internal().error(), "Internal Server Error");
    assert_eq!(JsonError::_new(String::from("x")).error(), "x");
}

#[test]
fn login_needs_name_and_password() {
    let console = WebConsoleConfig {
        username: String::from("root"),
        password: String::from("pw"),
        port: 1,
        api_token: None,
    };
    assert!(check_password(&console, "root", "pw"));
    assert!(!check_password(&console, "root", "pw "));
    assert!(!check_password(&console, "Root", "pw"));
    assert!(!check_password(&console, "", ""));
    let login = Login::new(String::from("root"), String::from("pw"));
    assert!(login.accepted(&console));
    assert_eq!(login.username(), "root");
    assert!(!Login::new(String::from("root"), String::from("x")).accepted(&console));
}

#[test]
fn page_window_is_size_and_size_times_number() {
    assert_eq!(PageParam::default().window(), Some((0, 0)));
    assert_eq!(PageParam { page_num: 3, page_size: 20 }.window(), Some((20, 60)));
    assert_eq!(PageParam { page_num: 0, page_size: 50 }.window(), Some((50, 0)));
    assert_eq!(PageParam { page_num: usize::MAX, page_size: 0 }.window(), Some((0, 0)));
    assert_eq!(PageParam { page_num: usize::MAX, page_size: 2 }.window(), None);
    assert_eq!(PageParam { page_num: 0, page_size: usize::MAX }.window(), None);
    assert_eq!(
        PageParam { page_num: 1, page_size: i64::MAX as usize }.window(),
        Some((i64::MAX, i64::MAX))
    );
}

#[test]
fn upload_path_is_one_normal_part() {
    assert!(path_is_valid("ca.crt"));
    assert!(!path_is_valid(""));
    assert!(!path_is_valid(".."));
    assert!(!path_is_valid("../ca.crt"));
    assert!(!path_is_valid("a/b"));
    assert!(!path_is_valid("/ca.crt"));
    assert!(!path_is_valid("./ca.crt"));
    assert!(is_single_normal(&vec![PathPart::Normal]));
    assert!(!is_single_normal(&vec![]));
    assert!(!is_single_normal(&vec![PathPart::ParentDir]));
    assert!(!is_single_normal(&vec![PathPart::Normal, PathPart::Normal]));
    assert!(!is_single_normal(&vec![PathPart::CurDir]));
    assert!(!is_single_normal(&vec![PathPart::RootDir]));
    assert!(!is_single_normal(&vec![PathPart::Prefix]));
}

#[test]
fn scripts_publish_json_and_markdown() {
    let json = lua_send_json(String::from("a/b"), 1, true, String::from("{\"t\":21}"));
    assert_eq!(json.topic, "a/b");
    assert_eq!(json.qos, 1);
    assert_eq!(json.retain, None);
    assert_eq!(json.receiver, None);
    assert!(json.ephemeral);
    assert_eq!(json.message_type, "application/json");
    assert_eq!(json.raw, "{\"t\":21}");
    let md = lua_send_markdown(String::from("c"), 2, false, String::from("*hi*"));
    assert_eq!(md.message_type, "text/markdown");
    assert_eq!(md.raw, "*hi*");
    assert!(!md.ephemeral);
    assert_eq!(md.qos, 2);
}

#[test]
fn script_modules_are_looked_for_in_three_places() {
    assert_eq!(
        package_path("./?.lua", "/srv/?.lua", "/work/script/?.lua"),
        "./?.lua;/srv/?.lua;/work/script/?.lua"
    );
    assert_eq!(package_cpath("./?.so", "/work/script/?.so"), "./?.so;/work/script/?.so");
}

#[test]
fn integers_are_written_in_decimal() {
    for n in [0, 1, 9, 10, 11, 99, 100, 101, 1883, -1, -10, -1883, i32::MAX, i32::MIN] {
        assert_eq!(to_decimal(n), format!("{}", n));
    }
}

fn named(name: &str, value: ScriptValue) -> (String, ScriptValue) {
    (name.to_string(), value)
}

fn text(t: &str) -> ScriptValue {
    ScriptValue::Text(t.to_string())
}

#[test]
fn scripts_see_broker_and_console_settings_only() {
    let mut c = TymeConfig::default();
    c.database = String::from("mysql://secret");
    c.mqtt_config.broker = String::from("b");
    c.mqtt_config.port = 1883;
    c.mqtt_config.client_id = String::from("c1");
    c.mqtt_config.keep_alive_interval = Some(u64::MAX);
    c.mqtt_config.auth.enable = true;
    c.mqtt_config.auth.username = Some(String::from("u"));
    c.mqtt_config.ssl.trust_store = Some(String::from("ca.crt"));
    c.mqtt_config.ssl.key_store = Some(PathBuf::from("/keys/store"));
    c.mqtt_config.ssl.protos = Some(vec![String::from("h2"), String::from("mqtt")]);
    c.web_console_config.password = String::from("pw");
    c.web_console_config.api_token = Some(String::from("t"));
    let expected = ScriptValue::Table(vec![
        named(
            "mqtt_config",
            ScriptValue::Table(vec![
                named("broker", text("b")),
                named("port", ScriptValue::Integer(1883)),
                named("client_id", text("c1")),
                named("keep_alive_interval", ScriptValue::Unsigned(u64::MAX)),
                named(
                    "auth",
                    ScriptValue::Table(vec![
                        named("enable", ScriptValue::Boolean(true)),
                        named("username", text("u")),
                        named("password", ScriptValue::Nil),
                    ]),
                ),
                named(
                    "ssl",
                    ScriptValue::Table(vec![
                        named("enable", ScriptValue::Boolean(false)),
                        named("trust_store", text("ca.crt")),
                        named("key_store", text("/keys/store")),
                        named("private_key", ScriptValue::Nil),
                        named("private_key_password", ScriptValue::Nil),
                        named("ca_path", ScriptValue::Nil),
                        named("protos", ScriptValue::List(vec![text("h2"), text("mqtt")])),
                    ]),
                ),
            ]),
        ),
        named(
            "web_console_config",
            ScriptValue::Table(vec![
                named("username", text("root")),
                named("password", text("pw")),
                named("port", ScriptValue::Integer(12566)),
                named("api_token", text("t")),
            ]),
        ),
    ]);
    assert_eq!(c.into_lua(), expected);
}

#[test]
fn scripts_see_pattern_and_qos_of_a_filter() {
    let h = Header { id: String::from("hidden"), topic: String::from("a/#"), qos: 2 };
    assert_eq!(
        h.into_lua(),
        ScriptValue::Table(vec![named("topic", text("a/#")), named("qos", ScriptValue::Integer(2))])
    );
    let defaults = MQTTConfig::default().into_lua();
    match defaults {
        ScriptValue::Table(fields) => {
            assert_eq!(fields[3], named("keep_alive_interval", ScriptValue::Nil));
            assert_eq!(fields[1], named("port", ScriptValue::Integer(0)));
        }
        other => panic!("unexpected value {:?}", other),
    }
}

fn one_normal_part(path: &str) -> bool {
    let mut parts = std::path::Path::new(path).components();
    let first_is_normal = matches!(parts.next(), Some(std::path::Component::Normal(_)));
    first_is_normal && parts.next().is_none()
}

#[test]
fn path_that_steps_out_is_refused_on_every_machine() {
    for path in ["", "/", "/a", "//a", ".", "./a", "..", "../a", "a/..", "a/../b", "a/b/.."] {
        assert!(!begins_inside(path), "{:?}", path);
        assert!(!path_is_valid(path), "{:?}", path);
    }
    for path in ["a", "a/", "a/.", "a/b", "a//b", "..a", "...", ".a", "a..", "a/.b", "a b"] {
        assert!(begins_inside(path), "{:?}", path);
    }
}

#[test]
fn upload_path_is_valid_exactly_where_it_is_one_normal_part() {
    let paths = [
        "", "a", "ca.crt", "a/", "a//", "a/.", "a/./", "a/b", "a//b", "a/./b", "a/..", "a/../b",
        "/", "/a", "//a", ".", "./", "./a", "..", "../", "../a", "...", "..a", ".a", "a..",
        "a/.b", "a b", "a\\b", "\\a", "a\\..", "c:", "c:a", "~", "~/a", "a/b/c", "a/ ",
        " ", "a/...", "a/../", ".../a", "./..", "../..",
    ];
    for path in paths {
        assert_eq!(path_is_valid(path), one_normal_part(path), "{:?}", path);
    }
    assert!(path_is_valid("a/"));
    assert!(path_is_valid("a/."));
    assert!(path_is_valid("..."));
    assert!(!path_is_valid("a/b"));
    assert!(!path_is_valid("a/.."));
}
