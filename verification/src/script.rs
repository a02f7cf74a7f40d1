//! What a task's script is given: where its modules are looked for, and
//! the messages it can publish.

use vstd::prelude::*;
use std::path::PathBuf;
use crate::config::{Auth, MQTTConfig, Ssl, TymeConfig, WebConsoleConfig};
use crate::header::Header;
use crate::message::{SendMessage, SendMessageView};
use crate::text::{opt_view, owned};

verus! {

/// The message that a script publishes: of the given content type, to
/// nobody in particular, with the broker's default for retaining.
pub open spec fn script_message(
    topic: Seq<char>,
    qos: int,
    ephemeral: bool,
    message_type: Seq<char>,
    raw: Seq<char>,
) -> SendMessageView {
    SendMessageView { topic, qos, retain: None, receiver: None, ephemeral, message_type, raw }
}

/// The message that a script publishes with JSON text as its body.
pub fn lua_send_json(topic: String, qos: i32, ephemeral: bool, json: String) -> (msg: SendMessage)
    ensures
        msg@ == script_message(topic@, qos as int, ephemeral, "application/json"@, json@),
{
    SendMessage {
        topic,
        qos,
        retain: None,
        receiver: None,
        ephemeral,
        message_type: owned("application/json"),
        raw: json,
    }
}

/// The message that a script publishes with markdown as its body.
pub fn lua_send_markdown(topic: String, qos: i32, ephemeral: bool, markdown: String) -> (msg:
    SendMessage)
    ensures
        msg@ == script_message(topic@, qos as int, ephemeral, "text/markdown"@, markdown@),
{
    SendMessage {
        topic,
        qos,
        retain: None,
        receiver: None,
        ephemeral,
        message_type: owned("text/markdown"),
        raw: markdown,
    }
}

/// The places in which a script's modules are looked for: those that the
/// interpreter has already, then the pattern of the directory the process
/// runs in, then the pattern of the script directory, with `;` between.
pub fn package_path(current: &str, system: &str, scripts: &str) -> (path: String)
    ensures
        path@ == current@ + ";"@ + system@ + ";"@ + scripts@,
{
    owned(current).concat(";").concat(system).concat(";").concat(scripts)
}

/// The places in which a script's native modules are looked for: those
/// that the interpreter has already, then the pattern of the script
/// directory, with `;` between.
pub fn package_cpath(current: &str, scripts: &str) -> (path: String)
    ensures
        path@ == current@ + ";"@ + scripts@,
{
    owned(current).concat(";").concat(scripts)
}

/// A value as a script sees it.
#[derive(Debug, PartialEq, Eq)]
pub enum ScriptValue {
    Nil,
    Boolean(bool),
    Integer(i64),
    Unsigned(u64),
    Text(String),
    /// Values in a row.
    List(Vec<ScriptValue>),
    /// Named values, in the order in which they are set.
    Table(Vec<(String, ScriptValue)>),
}

/// What a [`ScriptValue`] is.
pub enum ScriptValueView {
    Nil,
    Boolean(bool),
    Integer(int),
    Unsigned(int),
    Text(Seq<char>),
    List(Seq<ScriptValueView>),
    Table(Seq<(Seq<char>, ScriptValueView)>),
}

impl View for ScriptValue {
    type V = ScriptValueView;

    open spec fn view(&self) -> ScriptValueView
        decreases self,
    {
        match self {
            ScriptValue::Nil => ScriptValueView::Nil,
            ScriptValue::Boolean(b) => ScriptValueView::Boolean(*b),
            ScriptValue::Integer(i) => ScriptValueView::Integer(*i as int),
            ScriptValue::Unsigned(u) => ScriptValueView::Unsigned(*u as int),
            ScriptValue::Text(t) => ScriptValueView::Text(t@),
            ScriptValue::List(items) => ScriptValueView::List(
                Seq::new(
                    items@.len(),
                    |i: int|
                        if 0 <= i < items@.len() {
                            items@[i].view()
                        } else {
                            ScriptValueView::Nil
                        },
                ),
            ),
            ScriptValue::Table(fields) => ScriptValueView::Table(
                Seq::new(
                    fields@.len(),
                    |i: int|
                        if 0 <= i < fields@.len() {
                            (fields@[i].0@, fields@[i].1.view())
                        } else {
                            (Seq::<char>::empty(), ScriptValueView::Nil)
                        },
                ),
            ),
        }
    }
}

/// A text, or nil where there is none.
pub open spec fn text_or_nil(text: Option<Seq<char>>) -> ScriptValueView {
    match text {
        Some(t) => ScriptValueView::Text(t),
        None => ScriptValueView::Nil,
    }
}

/// A list of texts.
pub open spec fn text_list(texts: Seq<String>) -> ScriptValueView {
    ScriptValueView::List(Seq::new(texts.len(), |i: int| ScriptValueView::Text(texts[i]@)))
}

/// What a script sees of the credentials.
pub open spec fn auth_table(a: Auth) -> ScriptValueView {
    ScriptValueView::Table(
        seq![
            ("enable"@, ScriptValueView::Boolean(a.enable)),
            ("username"@, text_or_nil(opt_view(a.username))),
            ("password"@, text_or_nil(opt_view(a.password))),
        ],
    )
}

/// What a script sees of the TLS material, where `key_store`,
/// `private_key` and `ca_path` are the texts of the three paths.
pub open spec fn ssl_table(
    s: Ssl,
    key_store: Option<Seq<char>>,
    private_key: Option<Seq<char>>,
    ca_path: Option<Seq<char>>,
) -> ScriptValueView {
    ScriptValueView::Table(
        seq![
            ("enable"@, ScriptValueView::Boolean(s.enable)),
            ("trust_store"@, text_or_nil(opt_view(s.trust_store))),
            ("key_store"@, text_or_nil(key_store)),
            ("private_key"@, text_or_nil(private_key)),
            ("private_key_password"@, text_or_nil(opt_view(s.private_key_password))),
            ("ca_path"@, text_or_nil(ca_path)),
            (
                "protos"@,
                match s.protos {
                    Some(p) => text_list(p@),
                    None => ScriptValueView::Nil,
                },
            ),
        ],
    )
}

/// What a script sees of the broker settings, given what it sees of the
/// TLS material.
pub open spec fn mqtt_table(c: MQTTConfig, ssl: ScriptValueView) -> ScriptValueView {
    ScriptValueView::Table(
        seq![
            ("broker"@, ScriptValueView::Text(c.broker@)),
            ("port"@, ScriptValueView::Integer(c.port as int)),
            ("client_id"@, ScriptValueView::Text(c.client_id@)),
            (
                "keep_alive_interval"@,
                match c.keep_alive_interval {
                    Some(secs) => ScriptValueView::Unsigned(secs as int),
                    None => ScriptValueView::Nil,
                },
            ),
            ("auth"@, auth_table(c.auth)),
            ("ssl"@, ssl),
        ],
    )
}

/// What a script sees of the console settings.
pub open spec fn console_table(c: WebConsoleConfig) -> ScriptValueView {
    ScriptValueView::Table(
        seq![
            ("username"@, ScriptValueView::Text(c.username@)),
            ("password"@, ScriptValueView::Text(c.password@)),
            ("port"@, ScriptValueView::Integer(c.port as int)),
            ("api_token"@, text_or_nil(opt_view(c.api_token))),
        ],
    )
}

/// What a script sees of the configuration: the broker and the console
/// settings, and nothing else.
pub open spec fn config_table(c: TymeConfig, ssl: ScriptValueView) -> ScriptValueView {
    ScriptValueView::Table(
        seq![
            ("mqtt_config"@, mqtt_table(c.mqtt_config, ssl)),
            ("web_console_config"@, console_table(c.web_console_config)),
        ],
    )
}

/// What a script sees of a filter: pattern and quality of service.
pub open spec fn header_table(h: Header) -> ScriptValueView {
    ScriptValueView::Table(
        seq![
            ("topic"@, ScriptValueView::Text(h.topic@)),
            ("qos"@, ScriptValueView::Integer(h.qos as int)),
        ],
    )
}

/// The text of a path by `std::path::Path::to_str`, which gives none for
/// a path that is not Unicode. Nothing is claimed of it.
#[verifier::external_body]
fn path_text(path: &PathBuf) -> Option<String> {
    path.to_str().map(|s| s.to_string())
}

fn boolean(b: bool) -> (v: ScriptValue)
    ensures
        v@ == ScriptValueView::Boolean(b),
{
    ScriptValue::Boolean(b)
}

fn integer(i: i64) -> (v: ScriptValue)
    ensures
        v@ == ScriptValueView::Integer(i as int),
{
    ScriptValue::Integer(i)
}

fn text(t: &String) -> (v: ScriptValue)
    ensures
        v@ == ScriptValueView::Text(t@),
{
    ScriptValue::Text(t.clone())
}

fn text_value(text: &Option<String>) -> (v: ScriptValue)
    ensures
        v@ == text_or_nil(opt_view(*text)),
{
    match text {
        Some(t) => ScriptValue::Text(t.clone()),
        None => ScriptValue::Nil,
    }
}

fn path_value(path: &Option<PathBuf>) -> (r: (ScriptValue, Ghost<Option<Seq<char>>>))
    ensures
        r.0@ == text_or_nil(r.1@),
        *path is None ==> r.1@ is None,
{
    match path {
        Some(p) => {
            let text = path_text(p);
            (text_value(&text), Ghost(opt_view(text)))
        },
        None => (ScriptValue::Nil, Ghost(None)),
    }
}

fn texts_value(texts: &Vec<String>) -> (v: ScriptValue)
    ensures
        v@ == text_list(texts@),
{
    let mut items: Vec<ScriptValue> = Vec::new();
    let mut i: usize = 0;
    while i < texts.len()
        invariant
            i <= texts.len(),
            items@.len() == i,
            forall|j: int| 0 <= j < i ==> (#[trigger] items@[j])@ == ScriptValueView::Text(texts@[j]@),
        decreases texts.len() - i,
    {
        items.push(ScriptValue::Text(texts[i].clone()));
        i += 1;
    }
    let v = ScriptValue::List(items);
    assert(v@->List_0 =~= text_list(texts@)->List_0);
    v
}

fn field(name: &str, value: ScriptValue) -> (f: (String, ScriptValue))
    ensures
        f.0@ == name@,
        f.1 == value,
{
    (owned(name), value)
}

impl Auth {
    /// What a script sees of the credentials.
    pub fn into_lua(&self) -> (v: ScriptValue)
        ensures
            v@ == auth_table(*self),
    {
        let mut fields: Vec<(String, ScriptValue)> = Vec::new();
        fields.push(field("enable", boolean(self.enable)));
        fields.push(field("username", text_value(&self.username)));
        fields.push(field("password", text_value(&self.password)));
        let v = ScriptValue::Table(fields);
        assert(v@->Table_0 =~= auth_table(*self)->Table_0);
        v
    }
}

impl Ssl {
    /// What a script sees of the TLS material. A path that is not Unicode
    /// is seen as nil, as a path that is not set.
    pub fn into_lua(&self) -> (v: ScriptValue)
        ensures
            exists|
                key_store: Option<Seq<char>>,
                private_key: Option<Seq<char>>,
                ca_path: Option<Seq<char>>,
            |
                v@ == ssl_table(*self, key_store, private_key, ca_path) && (self.key_store
                    is None ==> key_store is None) && (self.private_key is None ==> private_key
                    is None) && (self.ca_path is None ==> ca_path is None),
    {
        let mut fields: Vec<(String, ScriptValue)> = Vec::new();
        fields.push(field("enable", boolean(self.enable)));
        fields.push(field("trust_store", text_value(&self.trust_store)));
        let (key_store, Ghost(k)) = path_value(&self.key_store);
        fields.push(field("key_store", key_store));
        let (private_key, Ghost(p)) = path_value(&self.private_key);
        fields.push(field("private_key", private_key));
        fields.push(field("private_key_password", text_value(&self.private_key_password)));
        let (ca_path, Ghost(c)) = path_value(&self.ca_path);
        fields.push(field("ca_path", ca_path));
        let protos = match &self.protos {
            Some(p) => texts_value(p),
            None => ScriptValue::Nil,
        };
        assert(protos@ == match self.protos {
            Some(p) => text_list(p@),
            None => ScriptValueView::Nil,
        });
        fields.push(field("protos", protos));
        let v = ScriptValue::Table(fields);
        assert(v@->Table_0 =~= ssl_table(*self, k, p, c)->Table_0);
        assert(v@ == ssl_table(*self, k, p, c));
        v
    }
}

impl MQTTConfig {
    /// What a script sees of the broker settings.
    pub fn into_lua(&self) -> (v: ScriptValue)
        ensures
            exists|ssl: ScriptValueView| v@ == mqtt_table(*self, ssl),
    {
        let mut fields: Vec<(String, ScriptValue)> = Vec::new();
        fields.push(field("broker", text(&self.broker)));
        fields.push(field("port", integer(self.port as i64)));
        fields.push(field("client_id", text(&self.client_id)));
        let keep_alive = match self.keep_alive_interval {
            Some(secs) => ScriptValue::Unsigned(secs),
            None => ScriptValue::Nil,
        };
        assert(keep_alive@ == match self.keep_alive_interval {
            Some(secs) => ScriptValueView::Unsigned(secs as int),
            None => ScriptValueView::Nil,
        });
        fields.push(field("keep_alive_interval", keep_alive));
        fields.push(field("auth", self.auth.into_lua()));
        let ssl = self.ssl.into_lua();
        let ghost seen = ssl@;
        fields.push(field("ssl", ssl));
        let v = ScriptValue::Table(fields);
        assert(v@->Table_0 =~= mqtt_table(*self, seen)->Table_0);
        assert(v@ == mqtt_table(*self, seen));
        v
    }
}

impl WebConsoleConfig {
    /// What a script sees of the console settings.
    pub fn into_lua(&self) -> (v: ScriptValue)
        ensures
            v@ == console_table(*self),
    {
        let mut fields: Vec<(String, ScriptValue)> = Vec::new();
        fields.push(field("username", text(&self.username)));
        fields.push(field("password", text(&self.password)));
        fields.push(field("port", integer(self.port as i64)));
        fields.push(field("api_token", text_value(&self.api_token)));
        let v = ScriptValue::Table(fields);
        assert(v@->Table_0 =~= console_table(*self)->Table_0);
        v
    }
}

impl TymeConfig {
    /// What a script sees of the configuration.
    pub fn into_lua(&self) -> (v: ScriptValue)
        ensures
            exists|ssl: ScriptValueView| v@ == config_table(*self, ssl),
    {
        let mut fields: Vec<(String, ScriptValue)> = Vec::new();
        let mqtt = self.mqtt_config.into_lua();
        let ghost ssl = choose|ssl: ScriptValueView| mqtt@ == mqtt_table(self.mqtt_config, ssl);
        fields.push(field("mqtt_config", mqtt));
        fields.push(field("web_console_config", self.web_console_config.into_lua()));
        let v = ScriptValue::Table(fields);
        assert(v@->Table_0 =~= config_table(*self, ssl)->Table_0);
        assert(v@ == config_table(*self, ssl));
        v
    }
}

impl Header {
    /// What a script sees of a filter.
    pub fn into_lua(&self) -> (v: ScriptValue)
        ensures
            v@ == header_table(*self),
    {
        let mut fields: Vec<(String, ScriptValue)> = Vec::new();
        fields.push(field("topic", text(&self.topic)));
        fields.push(field("qos", integer(self.qos as i64)));
        let v = ScriptValue::Table(fields);
        assert(v@->Table_0 =~= header_table(*self)->Table_0);
        v
    }
}

} // verus!
