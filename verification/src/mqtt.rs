//! The connection to the broker and the routing of what arrives over it.

use vstd::prelude::*;
use crate::config::{client_name, ConfigError, TymeConfig};
use crate::db::{record_of, StoreCommand, StoreCommandView};
use crate::header::{
    header_views, is_first_match, no_match, resolve_header, with_system_header, Header,
    HeaderError, HeaderView, TopicRegistry,
};
use crate::ident::{fresh_id, ID_SIZE};
use crate::message::{
    from_wire_spec, is_ephemeral_spec, to_html_spec, to_mqtt_spec, ConversionError, RecMessage,
    RecMessageView, SendMessage, SendMessageView, WireMessage, WireMessageView,
};
use crate::schedule::now_millis;
use crate::text::{decimal, owned, to_decimal};

verus! {

/// The wait between two attempts to reach the broker again, in
/// milliseconds.
pub const RETRY_DELAY_MILLIS: u64 = 1000;

/// The keep-alive interval where the configuration names none, in
/// seconds.
pub const DEFAULT_KEEP_ALIVE_SECS: u64 = 60;

/// For how long the broker keeps a session, in seconds.
pub const SESSION_EXPIRY_SECS: u32 = 3600;

/// Where the connection stands.
#[derive(Debug, Clone, Copy, PartialEq, Eq, Structural)]
pub enum ConnectionState {
    Disconnected,
    /// The first attempt is under way.
    Connecting,
    /// The broker accepted; it says whether it kept the client's session.
    Connected { session_present: bool },
    /// Attempts to reach the broker again are under way.
    Reconnecting,
}

/// What happened to the connection.
#[derive(Debug, Clone, Copy, PartialEq, Eq, Structural)]
pub enum ConnectionEvent {
    /// The connection is asked for.
    Open,
    /// The broker accepted an attempt.
    Accepted { session_present: bool },
    /// An attempt failed.
    Refused,
    /// The connection dropped.
    Lost,
    /// The wait before the next attempt is over.
    RetryDue,
}

/// The filters to subscribe to in one request: patterns and qualities of
/// service, place by place.
#[derive(Debug, PartialEq, Eq)]
pub struct SubscribePlan {
    pub topics: Vec<String>,
    pub qos: Vec<i32>,
}

/// What a [`SubscribePlan`] is.
pub struct SubscribePlanView {
    pub topics: Seq<Seq<char>>,
    pub qos: Seq<int>,
}

impl View for SubscribePlan {
    type V = SubscribePlanView;

    open spec fn view(&self) -> SubscribePlanView {
        SubscribePlanView {
            topics: Seq::new(self.topics@.len(), |i: int| self.topics@[i]@),
            qos: Seq::new(self.qos@.len(), |i: int| self.qos@[i] as int),
        }
    }
}

/// What to do next for the connection.
#[derive(Debug, PartialEq, Eq)]
pub enum ConnectionAction {
    /// Nothing.
    Idle,
    /// Try to reach the broker now.
    Attempt,
    /// Subscribe to these filters.
    Subscribe(SubscribePlan),
    /// Report the failure and wait this long before the next attempt.
    RetryAfter { millis: u64 },
}

/// What a [`ConnectionAction`] is.
pub enum ConnectionActionView {
    Idle,
    Attempt,
    Subscribe(SubscribePlanView),
    RetryAfter { millis: u64 },
}

impl View for ConnectionAction {
    type V = ConnectionActionView;

    open spec fn view(&self) -> ConnectionActionView {
        match self {
            ConnectionAction::Idle => ConnectionActionView::Idle,
            ConnectionAction::Attempt => ConnectionActionView::Attempt,
            ConnectionAction::Subscribe(p) => ConnectionActionView::Subscribe(p@),
            ConnectionAction::RetryAfter { millis } => ConnectionActionView::RetryAfter {
                millis: *millis,
            },
        }
    }
}

/// Why a message did not reach the broker.
#[derive(Debug, Clone, Copy, PartialEq, Eq, Structural)]
pub enum ConnectionError {
    /// The broker is not connected.
    NotConnected,
    /// The client cannot hold the message.
    MalformedMessage,
    /// The client could not hand the message over.
    PublishFailed,
}

/// What became of the attempt to hand one message to the broker.
#[derive(Debug, Clone, Copy, PartialEq, Eq, Structural)]
pub enum PublishOutcome {
    /// The broker took the message.
    Delivered,
    /// The client cannot hold the message.
    Malformed,
    /// The client could not hand the message over.
    Failed,
}

/// What the loop that publishes does after one message. It never ends on
/// account of a message: it takes the next one, after reporting what
/// went wrong where something did.
#[derive(Debug, Clone, Copy, PartialEq, Eq, Structural)]
pub enum PublishNext {
    /// Take the next message.
    TakeNext,
    /// Report the error, then take the next message.
    ReportAndTakeNext(ConnectionError),
}

/// What follows an attempt to publish.
pub open spec fn after_publish_spec(outcome: PublishOutcome) -> PublishNext {
    match outcome {
        PublishOutcome::Delivered => PublishNext::TakeNext,
        PublishOutcome::Malformed => PublishNext::ReportAndTakeNext(
            ConnectionError::MalformedMessage,
        ),
        PublishOutcome::Failed => PublishNext::ReportAndTakeNext(ConnectionError::PublishFailed),
    }
}

/// The one request that subscribes to every filter of `filters`, in their
/// order.
pub open spec fn plan_of(filters: Seq<HeaderView>) -> SubscribePlanView {
    SubscribePlanView {
        topics: Seq::new(filters.len(), |i: int| filters[i].topic),
        qos: Seq::new(filters.len(), |i: int| filters[i].qos),
    }
}

/// What follows the broker's acceptance: a session that the broker did
/// not keep is subscribed anew to the registered filters and the system
/// filter; a session that it kept needs nothing.
pub open spec fn on_accepted(session_present: bool, registered: Seq<HeaderView>) -> ConnectionActionView {
    if session_present {
        ConnectionActionView::Idle
    } else {
        ConnectionActionView::Subscribe(plan_of(with_system_header(registered)))
    }
}

/// What an event does to the connection, with the filters `registered`.
/// An event that means nothing where the connection stands changes
/// nothing.
pub open spec fn connection_step(
    state: ConnectionState,
    event: ConnectionEvent,
    registered: Seq<HeaderView>,
) -> (ConnectionState, ConnectionActionView) {
    match (state, event) {
        (ConnectionState::Disconnected, ConnectionEvent::Open) => (
            ConnectionState::Connecting,
            ConnectionActionView::Attempt,
        ),
        (ConnectionState::Disconnected, ConnectionEvent::RetryDue) => (
            ConnectionState::Reconnecting,
            ConnectionActionView::Attempt,
        ),
        (ConnectionState::Reconnecting, ConnectionEvent::RetryDue) => (
            ConnectionState::Reconnecting,
            ConnectionActionView::Attempt,
        ),
        (ConnectionState::Connecting, ConnectionEvent::Accepted { session_present }) => (
            ConnectionState::Connected { session_present },
            on_accepted(session_present, registered),
        ),
        (ConnectionState::Reconnecting, ConnectionEvent::Accepted { session_present }) => (
            ConnectionState::Connected { session_present },
            on_accepted(session_present, registered),
        ),
        (ConnectionState::Connecting, ConnectionEvent::Refused) => (
            ConnectionState::Reconnecting,
            ConnectionActionView::RetryAfter { millis: RETRY_DELAY_MILLIS },
        ),
        (ConnectionState::Reconnecting, ConnectionEvent::Refused) => (
            ConnectionState::Reconnecting,
            ConnectionActionView::RetryAfter { millis: RETRY_DELAY_MILLIS },
        ),
        (ConnectionState::Connected { .. }, ConnectionEvent::Lost) => (
            ConnectionState::Disconnected,
            ConnectionActionView::RetryAfter { millis: 0 },
        ),
        _ => (state, ConnectionActionView::Idle),
    }
}

/// The one request that subscribes to every filter of `headers`.
pub fn subscription_plan(headers: &Vec<Header>) -> (plan: SubscribePlan)
    ensures
        plan@ == plan_of(header_views(headers@)),
{
    let mut topics: Vec<String> = Vec::new();
    let mut qos: Vec<i32> = Vec::new();
    let mut i: usize = 0;
    while i < headers.len()
        invariant
            i <= headers.len(),
            topics@.len() == i,
            qos@.len() == i,
            forall|j: int| 0 <= j < i ==> (#[trigger] topics@[j])@ == headers@[j].topic@,
            forall|j: int| 0 <= j < i ==> #[trigger] qos@[j] == headers@[j].qos,
        decreases headers.len() - i,
    {
        topics.push(headers[i].topic.clone());
        qos.push(headers[i].qos);
        i += 1;
    }
    let plan = SubscribePlan { topics, qos };
    assert(plan@.topics =~= plan_of(header_views(headers@)).topics);
    assert(plan@.qos =~= plan_of(header_views(headers@)).qos);
    plan
}

/// The single live connection to the broker.
pub struct ConnectionManager {
    state: ConnectionState,
}

impl View for ConnectionManager {
    type V = ConnectionState;

    closed spec fn view(&self) -> ConnectionState {
        self.state
    }
}

impl ConnectionManager {
    /// A connection that has not been asked for yet.
    pub fn new() -> (c: ConnectionManager)
        ensures
            c@ == ConnectionState::Disconnected,
    {
        ConnectionManager { state: ConnectionState::Disconnected }
    }

    /// Where the connection stands.
    pub fn state(&self) -> (s: ConnectionState)
        ensures
            s == self@,
    {
        self.state
    }

    /// Whether the broker is connected.
    pub fn is_connected(&self) -> (yes: bool)
        ensures
            yes == (self@ is Connected),
    {
        match self.state {
            ConnectionState::Connected { .. } => true,
            _ => false,
        }
    }

    fn accepted(session_present: bool, registry: &TopicRegistry) -> (action: ConnectionAction)
        ensures
            action@ == on_accepted(session_present, registry@),
    {
        if session_present {
            ConnectionAction::Idle
        } else {
            let all = registry.get_all_header();
            ConnectionAction::Subscribe(subscription_plan(&all))
        }
    }

    /// Takes an event in and says what to do next.
    pub fn on_event(&mut self, event: ConnectionEvent, registry: &TopicRegistry) -> (action:
        ConnectionAction)
        ensures
            (final(self)@, action@) == connection_step(old(self)@, event, registry@),
    {
        match (self.state, event) {
            (ConnectionState::Disconnected, ConnectionEvent::Open) => {
                self.state = ConnectionState::Connecting;
                ConnectionAction::Attempt
            },
            (ConnectionState::Disconnected, ConnectionEvent::RetryDue) => {
                self.state = ConnectionState::Reconnecting;
                ConnectionAction::Attempt
            },
            (ConnectionState::Reconnecting, ConnectionEvent::RetryDue) => {
                ConnectionAction::Attempt
            },
            (ConnectionState::Connecting, ConnectionEvent::Accepted { session_present }) => {
                self.state = ConnectionState::Connected { session_present };
                Self::accepted(session_present, registry)
            },
            (ConnectionState::Reconnecting, ConnectionEvent::Accepted { session_present }) => {
                self.state = ConnectionState::Connected { session_present };
                Self::accepted(session_present, registry)
            },
            (ConnectionState::Connecting, ConnectionEvent::Refused) => {
                self.state = ConnectionState::Reconnecting;
                ConnectionAction::RetryAfter { millis: RETRY_DELAY_MILLIS }
            },
            (ConnectionState::Reconnecting, ConnectionEvent::Refused) => {
                ConnectionAction::RetryAfter { millis: RETRY_DELAY_MILLIS }
            },
            (ConnectionState::Connected { .. }, ConnectionEvent::Lost) => {
                self.state = ConnectionState::Disconnected;
                ConnectionAction::RetryAfter { millis: 0 }
            },
            _ => ConnectionAction::Idle,
        }
    }

}

/// The message to hand to the broker for `msg`, published under the
/// client name `sender`. Refused while the broker is not connected.
pub fn publish(connection: &ConnectionManager, msg: &SendMessage, sender: &str) -> (r: Result<
    WireMessage,
    ConnectionError,
>)
    ensures
        match r {
            Ok(w) => connection@ is Connected && w@ == to_mqtt_spec(msg@, sender@),
            Err(e) => !(connection@ is Connected) && e == ConnectionError::NotConnected,
        },
{
    if connection.is_connected() {
        Ok(msg.to_mqtt(sender))
    } else {
        Err(ConnectionError::NotConnected)
    }
}

/// What the loop that publishes does after an attempt: a failure is
/// reported and the loop goes on.
pub fn after_publish(outcome: PublishOutcome) -> (next: PublishNext)
    ensures
        next == after_publish_spec(outcome),
{
    match outcome {
        PublishOutcome::Delivered => PublishNext::TakeNext,
        PublishOutcome::Malformed => PublishNext::ReportAndTakeNext(
            ConnectionError::MalformedMessage,
        ),
        PublishOutcome::Failed => PublishNext::ReportAndTakeNext(ConnectionError::PublishFailed),
    }
}

/// Gives the connection up: whatever its state it is disconnected
/// afterwards. Says whether the broker has to be told, which is so exactly
/// if it was connected.
pub fn diable_connect(connection: &mut ConnectionManager) -> (tell_broker: bool)
    ensures
        final(connection)@ == ConnectionState::Disconnected,
        tell_broker == (old(connection)@ is Connected),
{
    let tell_broker = connection.is_connected();
    connection.state = ConnectionState::Disconnected;
    tell_broker
}

/// Registers a filter that is asked for while the process runs, and says
/// what to subscribe to at the broker. A filter that
/// [`Header::_check`] refuses is not registered.
pub fn subscribe_topic(registry: &mut TopicRegistry, filter: Header) -> (r: Result<
    (String, i32),
    HeaderError,
>)
    ensures
        match r {
            Ok(sub) => Header::check_spec(filter@) is Ok
                && final(registry)@ == old(registry)@.push(filter@)
                && sub.0@ == filter@.topic && sub.1 == filter@.qos,
            Err(e) => Header::check_spec(filter@) == Err::<(), HeaderError>(e)
                && final(registry)@ == old(registry)@,
        },
{
    let topic = filter.topic.clone();
    let qos = filter.qos;
    match registry.register(filter) {
        Ok(()) => Ok((topic, qos)),
        Err(e) => Err(e),
    }
}

/// How the client is created: where the broker is, and under which name
/// the client speaks.
#[derive(Debug, PartialEq, Eq)]
pub struct ClientPlan {
    pub server_uri: String,
    pub client_id: String,
}

/// The address of the broker: `mqtts://` before host and port where TLS is
/// switched on, `mqtt://` otherwise.
pub open spec fn server_uri(tls: bool, broker: Seq<char>, port: int) -> Seq<char> {
    (if tls {
        "mqtts://"@
    } else {
        "mqtt://"@
    }) + broker + ":"@ + decimal(port)
}

/// How the client is created for `config`.
pub fn get_mqtt_clint(config: &TymeConfig) -> (plan: ClientPlan)
    ensures
        plan.server_uri@ == server_uri(
            config.mqtt_config.ssl.enable,
            config.mqtt_config.broker@,
            config.mqtt_config.port as int,
        ),
        plan.client_id@ == client_name(config.mqtt_config.client_id@),
{
    let scheme = if config.mqtt_config.ssl.enable {
        "mqtts://"
    } else {
        "mqtt://"
    };
    let port = to_decimal(config.mqtt_config.port);
    let uri = owned(scheme).concat(config.mqtt_config.broker.as_str()).concat(":").concat(
        port.as_str(),
    );
    ClientPlan { server_uri: uri, client_id: config.get_clint_name() }
}

/// The options of a connection attempt.
#[derive(Debug, PartialEq, Eq)]
pub struct ConnectPlan {
    pub keep_alive_secs: u64,
    /// The trust store, where TLS is switched on.
    pub trust_store: Option<String>,
    /// User name and password, where authentication is switched on.
    pub credentials: Option<(String, String)>,
    /// The message that the broker publishes if the client vanishes.
    pub will: WireMessage,
    pub clean_start: bool,
    pub session_expiry_secs: u32,
}

/// What a [`ConnectPlan`] is.
pub struct ConnectPlanView {
    pub keep_alive_secs: u64,
    pub trust_store: Option<Seq<char>>,
    pub credentials: Option<(Seq<char>, Seq<char>)>,
    pub will: WireMessageView,
    pub clean_start: bool,
    pub session_expiry_secs: u32,
}

impl View for ConnectPlan {
    type V = ConnectPlanView;

    open spec fn view(&self) -> ConnectPlanView {
        ConnectPlanView {
            keep_alive_secs: self.keep_alive_secs,
            trust_store: match self.trust_store {
                Some(t) => Some(t@),
                None => None,
            },
            credentials: match self.credentials {
                Some(c) => Some((c.0@, c.1@)),
                None => None,
            },
            will: self.will@,
            clean_start: self.clean_start,
            session_expiry_secs: self.session_expiry_secs,
        }
    }
}

/// The last will: an empty retained markdown message on the system's own
/// topic, never kept.
pub open spec fn last_will() -> SendMessageView {
    SendMessageView {
        topic: "system/lwt"@,
        qos: 1,
        retain: Some(true),
        receiver: None,
        ephemeral: true,
        message_type: "text/markdown; charset=UTF-8"@,
        raw: Seq::<char>::empty(),
    }
}

/// The trust store to connect with, where `found` says whether the store
/// that the configuration names is there.
pub open spec fn ssl_options_spec(config: TymeConfig, found: bool) -> Result<Seq<char>, ConfigError> {
    match config.mqtt_config.ssl.trust_store {
        None => Err(ConfigError::MissingTrustStore),
        Some(store) => if found {
            Ok(store@)
        } else {
            Err(ConfigError::TrustStoreNotFound)
        },
    }
}

/// The options of a connection attempt for `config`, where `found` says
/// whether the trust store that the configuration names is there. TLS
/// material is asked for only where TLS is switched on, and is looked at
/// before the credentials.
pub open spec fn conn_option_spec(config: TymeConfig, found: bool) -> Result<
    ConnectPlanView,
    ConfigError,
> {
    let mqtt = config.mqtt_config;
    if mqtt.ssl.enable && ssl_options_spec(config, found) is Err {
        Err(ssl_options_spec(config, found)->Err_0)
    } else if mqtt.auth.enable && (mqtt.auth.username is None || mqtt.auth.password is None) {
        Err(ConfigError::MissingCredentials)
    } else {
        Ok(
            ConnectPlanView {
                keep_alive_secs: match mqtt.keep_alive_interval {
                    Some(secs) => secs,
                    None => DEFAULT_KEEP_ALIVE_SECS,
                },
                trust_store: if mqtt.ssl.enable {
                    Some(ssl_options_spec(config, found)->Ok_0)
                } else {
                    None
                },
                credentials: if mqtt.auth.enable {
                    Some((mqtt.auth.username->Some_0@, mqtt.auth.password->Some_0@))
                } else {
                    None
                },
                will: to_mqtt_spec(last_will(), client_name(mqtt.client_id@)),
                clean_start: true,
                session_expiry_secs: SESSION_EXPIRY_SECS,
            },
        )
    }
}

/// The trust store to connect with; `found` says whether the store that
/// the configuration names is there.
pub fn get_ssl_options(config: &TymeConfig, found: bool) -> (r: Result<String, ConfigError>)
    ensures
        match r {
            Ok(store) => ssl_options_spec(*config, found) == Ok::<Seq<char>, ConfigError>(store@),
            Err(e) => ssl_options_spec(*config, found) == Err::<Seq<char>, ConfigError>(e),
        },
{
    match &config.mqtt_config.ssl.trust_store {
        None => Err(ConfigError::MissingTrustStore),
        Some(store) => {
            if found {
                Ok(store.clone())
            } else {
                Err(ConfigError::TrustStoreNotFound)
            }
        },
    }
}

/// The options of a connection attempt; `found` says whether the trust
/// store that the configuration names is there.
pub fn get_conn_option(config: &TymeConfig, found: bool) -> (r: Result<ConnectPlan, ConfigError>)
    ensures
        match r {
            Ok(plan) => conn_option_spec(*config, found) == Ok::<ConnectPlanView, ConfigError>(
                plan@,
            ),
            Err(e) => conn_option_spec(*config, found) == Err::<ConnectPlanView, ConfigError>(e),
        },
{
    let keep_alive_secs = match config.mqtt_config.keep_alive_interval {
        Some(secs) => secs,
        None => DEFAULT_KEEP_ALIVE_SECS,
    };
    let trust_store = if config.mqtt_config.ssl.enable {
        match get_ssl_options(config, found) {
            Ok(store) => Some(store),
            Err(e) => {
                return Err(e);
            },
        }
    } else {
        None
    };
    let credentials = if config.mqtt_config.auth.enable {
        match (&config.mqtt_config.auth.username, &config.mqtt_config.auth.password) {
            (Some(user), Some(password)) => Some((user.clone(), password.clone())),
            _ => {
                return Err(ConfigError::MissingCredentials);
            },
        }
    } else {
        None
    };
    let lwt = SendMessage {
        topic: owned("system/lwt"),
        qos: 1,
        retain: Some(true),
        receiver: None,
        ephemeral: true,
        message_type: owned("text/markdown; charset=UTF-8"),
        raw: String::new(),
    };
    let name = config.get_clint_name();
    let will = lwt.to_mqtt(name.as_str());
    Ok(
        ConnectPlan {
            keep_alive_secs,
            trust_store,
            credentials,
            will,
            clean_start: true,
            session_expiry_secs: SESSION_EXPIRY_SECS,
        },
    )
}

/// Why a message from the broker goes nowhere.
#[derive(Debug, Clone, Copy, PartialEq, Eq, Structural)]
pub enum DropReason {
    /// The message cannot be taken in.
    Conversion(ConversionError),
    /// No filter owns the message's topic.
    NoFilter,
}

/// Where a message from the broker goes.
#[derive(Debug, PartialEq, Eq)]
pub enum Routing {
    /// Nowhere: the message is reported and forgotten.
    Dropped(DropReason),
    /// To the live subscribers and to the log.
    Deliver {
        /// The filter that owns the message.
        header: Header,
        message: RecMessage,
        /// Whether to hand filter and message to the live subscribers.
        broadcast: bool,
        /// The command that keeps the message, unless it is ephemeral.
        persist: Option<StoreCommand>,
    },
}

/// What a [`Routing`] is.
pub enum RoutingView {
    Dropped(DropReason),
    Deliver {
        header: HeaderView,
        message: RecMessageView,
        broadcast: bool,
        persist: Option<StoreCommandView>,
    },
}

impl View for Routing {
    type V = RoutingView;

    open spec fn view(&self) -> RoutingView {
        match self {
            Routing::Dropped(reason) => RoutingView::Dropped(*reason),
            Routing::Deliver { header, message, broadcast, persist } => RoutingView::Deliver {
                header: header@,
                message: message@,
                broadcast: *broadcast,
                persist: match persist {
                    Some(cmd) => Some(cmd@),
                    None => None,
                },
            },
        }
    }
}

/// The place of the first of `filters` whose pattern matches `topic`.
pub open spec fn first_match(filters: Seq<HeaderView>, topic: Seq<char>) -> int {
    choose|i: int| is_first_match(filters, topic, i)
}

/// Where a message in canonical form goes: to the first filter that
/// matches its topic, to the live subscribers if there are any, and into
/// the log under that filter unless the message is ephemeral.
pub open spec fn deliver_spec(
    m: RecMessageView,
    ephemeral: bool,
    filters: Seq<HeaderView>,
    listeners: nat,
) -> RoutingView {
    if no_match(filters, m.topic) {
        RoutingView::Dropped(DropReason::NoFilter)
    } else {
        let owner = filters[first_match(filters, m.topic)];
        RoutingView::Deliver {
            header: owner,
            message: m,
            broadcast: listeners > 0,
            persist: if ephemeral {
                None
            } else {
                Some(StoreCommandView::InsertMessage(record_of(m, owner.id)))
            },
        }
    }
}

/// A message with the rendering of its body, where the body can be
/// rendered; as it is, where it cannot.
pub open spec fn rendered(m: RecMessageView) -> RecMessageView {
    match to_html_spec(m.content) {
        Ok(content) => RecMessageView { content, ..m },
        Err(_) => m,
    }
}

/// Where a message from the broker goes, received by the client named
/// `me` under the identifier `id` at `timestamp`.
pub open spec fn route_spec(
    w: WireMessageView,
    me: Seq<char>,
    filters: Seq<HeaderView>,
    listeners: nat,
    id: Seq<char>,
    timestamp: int,
) -> RoutingView {
    match from_wire_spec(w, me, id, timestamp) {
        Err(e) => RoutingView::Dropped(DropReason::Conversion(e)),
        Ok(m) => deliver_spec(rendered(m), is_ephemeral_spec(w), filters, listeners),
    }
}

/// Exactly one place is that of the first matching filter, unless none
/// matches.
pub proof fn lemma_first_match_unique(filters: Seq<HeaderView>, topic: Seq<char>, i: int)
    requires
        is_first_match(filters, topic, i),
    ensures
        !no_match(filters, topic),
        first_match(filters, topic) == i,
{
    let j = first_match(filters, topic);
    assert(is_first_match(filters, topic, j));
    if j < i {
        assert(!crate::header::topic_matches(filters[j].topic, topic));
    }
    if i < j {
        assert(!crate::header::topic_matches(filters[i].topic, topic));
    }
}

/// Routes a message in canonical form: finds the filter that owns it
/// among `headers`, in their order, and says where the message goes.
pub fn deliver(message: RecMessage, ephemeral: bool, headers: &Vec<Header>, listeners: usize) -> (r:
    Routing)
    ensures
        r@ == deliver_spec(message@, ephemeral, header_views(headers@), listeners as nat),
{
    match resolve_header(headers, message.topic.as_str()) {
        None => Routing::Dropped(DropReason::NoFilter),
        Some(i) => {
            proof {
                lemma_first_match_unique(header_views(headers@), message.topic@, i as int);
            }
            let header = headers[i].clone();
            let persist = if ephemeral {
                None
            } else {
                Some(message.insert(header.id.as_str()))
            };
            Routing::Deliver { header, message, broadcast: listeners > 0, persist }
        },
    }
}

/// Routes a message from the broker that was received under the
/// identifier `id` at `timestamp`.
pub fn route_at(
    msg: &WireMessage,
    me: &str,
    headers: &Vec<Header>,
    listeners: usize,
    id: String,
    timestamp: i64,
) -> (r: Routing)
    ensures
        r@ == route_spec(
            msg@,
            me@,
            header_views(headers@),
            listeners as nat,
            id@,
            timestamp as int,
        ),
{
    match RecMessage::from_wire(msg, me, id, timestamp) {
        Err(e) => Routing::Dropped(DropReason::Conversion(e)),
        Ok(message) => {
            let mut message = message;
            let _ = message.to_html();
            deliver(message, msg.is_ephemeral(), headers, listeners)
        },
    }
}

/// Routes a message from the broker, received now under a fresh
/// identifier.
pub fn route(msg: &WireMessage, me: &str, headers: &Vec<Header>, listeners: usize) -> (r: Routing)
    ensures
        exists|id: Seq<char>, timestamp: int|
            id.len() == ID_SIZE && r@ == route_spec(
                msg@,
                me@,
                header_views(headers@),
                listeners as nat,
                id,
                timestamp,
            ),
{
    let id = fresh_id();
    let timestamp = now_millis();
    let ghost fresh = id@;
    let r = route_at(msg, me, headers, listeners, id, timestamp);
    assert(fresh.len() == ID_SIZE && r@ == route_spec(
        msg@,
        me@,
        header_views(headers@),
        listeners as nat,
        fresh,
        timestamp as int,
    ));
    r
}

/// What one item of the broker's stream leads to.
#[derive(Debug, PartialEq, Eq)]
pub enum StreamStep {
    /// A message arrived and was routed.
    Routed(Routing),
    /// The stream reported the loss of the connection.
    Connection(ConnectionAction),
}

/// Takes one item of the broker's stream in: a message is routed by the
/// registered filters and the system filter, and the mark of a lost
/// connection is handed to the connection as [`ConnectionEvent::Lost`].
pub fn subscribe(
    connection: &mut ConnectionManager,
    registry: &TopicRegistry,
    me: &str,
    item: Option<WireMessage>,
    listeners: usize,
) -> (step: StreamStep)
    ensures
        match item {
            Some(msg) => final(connection)@ == old(connection)@ && step is Routed && exists|
                id: Seq<char>,
                timestamp: int,
            |
                id.len() == ID_SIZE && step->Routed_0@ == route_spec(
                    msg@,
                    me@,
                    with_system_header(registry@),
                    listeners as nat,
                    id,
                    timestamp,
                ),
            None => step is Connection && (final(connection)@, step->Connection_0@)
                == connection_step(old(connection)@, ConnectionEvent::Lost, registry@),
        },
{
    match item {
        Some(msg) => {
            let headers = registry.get_all_header();
            StreamStep::Routed(route(&msg, me, &headers, listeners))
        },
        None => StreamStep::Connection(connection.on_event(ConnectionEvent::Lost, registry)),
    }
}

/// A dropped connection comes back through fixed stations: it is
/// disconnected, then reconnecting, then connected; every failed attempt
/// on the way leaves it reconnecting, with the same wait before the next.
/// A new session that the broker did not keep is subscribed, in one
/// request, to every registered filter and to the system filter, each
/// once and in their order; a session that it kept is subscribed to
/// nothing.
pub proof fn lemma_reconnect_cycle(
    was_present: bool,
    session_present: bool,
    registered: Seq<HeaderView>,
)
    ensures
        ({
            let lost = connection_step(
                ConnectionState::Connected { session_present: was_present },
                ConnectionEvent::Lost,
                registered,
            );
            let retry = connection_step(lost.0, ConnectionEvent::RetryDue, registered);
            let failed = connection_step(retry.0, ConnectionEvent::Refused, registered);
            let again = connection_step(failed.0, ConnectionEvent::RetryDue, registered);
            let back = connection_step(
                retry.0,
                ConnectionEvent::Accepted { session_present },
                registered,
            );
            &&& lost.0 == ConnectionState::Disconnected
            &&& retry == (ConnectionState::Reconnecting, ConnectionActionView::Attempt)
            &&& failed == (
                ConnectionState::Reconnecting,
                ConnectionActionView::RetryAfter { millis: RETRY_DELAY_MILLIS },
            )
            &&& again == retry
            &&& back.0 == ConnectionState::Connected { session_present }
            &&& session_present ==> back.1 == ConnectionActionView::Idle
            &&& !session_present ==> back.1 == ConnectionActionView::Subscribe(
                plan_of(registered.push(crate::header::system_header())),
            )
        }),
{
}

/// Filters are subscribed to only on the way into a session that the
/// broker did not keep: no other step asks for a subscription.
pub proof fn lemma_subscribe_only_on_new_session(
    state: ConnectionState,
    event: ConnectionEvent,
    registered: Seq<HeaderView>,
)
    ensures
        connection_step(state, event, registered).1 is Subscribe <==> (state
            == ConnectionState::Connecting || state == ConnectionState::Reconnecting) && event
            == (ConnectionEvent::Accepted { session_present: false }),
{
}

} // verus!
