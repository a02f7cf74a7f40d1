//! Messages as they are published, as they travel, and as they are kept.

use vstd::prelude::*;
use crate::header::{is_first_match, no_match, header_views, resolve_header, Header};
use crate::ident::{fresh_id, ID_SIZE};
use crate::schedule::now_millis;
use crate::text::{clone_opt, opt_view, owned, str_eq};

verus! {

/// The body of a received message, with its rendering once it is made.
#[derive(Debug, PartialEq, Eq)]
pub struct MessageContent {
    pub message_type: String,
    pub raw: String,
    pub html: Option<String>,
}

/// What a [`MessageContent`] is, field by field.
pub struct MessageContentView {
    pub message_type: Seq<char>,
    pub raw: Seq<char>,
    pub html: Option<Seq<char>>,
}

impl View for MessageContent {
    type V = MessageContentView;

    open spec fn view(&self) -> MessageContentView {
        MessageContentView {
            message_type: self.message_type@,
            raw: self.raw@,
            html: opt_view(self.html),
        }
    }
}

impl Clone for MessageContent {
    fn clone(&self) -> (r: Self)
        ensures
            r == *self,
    {
        MessageContent {
            message_type: self.message_type.clone(),
            raw: self.raw.clone(),
            html: clone_opt(&self.html),
        }
    }
}

/// A message to publish.
#[derive(Debug, PartialEq, Eq)]
pub struct SendMessage {
    pub topic: String,
    pub qos: i32,
    pub retain: Option<bool>,
    pub receiver: Option<String>,
    /// Relayed to the broker and to live subscribers, never kept.
    pub ephemeral: bool,
    pub message_type: String,
    pub raw: String,
}

/// What a [`SendMessage`] is, field by field.
pub struct SendMessageView {
    pub topic: Seq<char>,
    pub qos: int,
    pub retain: Option<bool>,
    pub receiver: Option<Seq<char>>,
    pub ephemeral: bool,
    pub message_type: Seq<char>,
    pub raw: Seq<char>,
}

impl View for SendMessage {
    type V = SendMessageView;

    open spec fn view(&self) -> SendMessageView {
        SendMessageView {
            topic: self.topic@,
            qos: self.qos as int,
            retain: self.retain,
            receiver: opt_view(self.receiver),
            ephemeral: self.ephemeral,
            message_type: self.message_type@,
            raw: self.raw@,
        }
    }
}

impl Clone for SendMessage {
    fn clone(&self) -> (r: Self)
        ensures
            r == *self,
    {
        SendMessage {
            topic: self.topic.clone(),
            qos: self.qos,
            retain: self.retain,
            receiver: clone_opt(&self.receiver),
            ephemeral: self.ephemeral,
            message_type: self.message_type.clone(),
            raw: self.raw.clone(),
        }
    }
}

/// A message as the broker carries it: topic, payload and flags, the
/// content type, and the user properties in the order in which they stand.
#[derive(Debug, PartialEq, Eq)]
pub struct WireMessage {
    pub topic: String,
    pub payload: String,
    pub qos: i32,
    pub retained: bool,
    pub content_type: Option<String>,
    pub user_properties: Vec<(String, String)>,
}

/// What a [`WireMessage`] is, field by field.
pub struct WireMessageView {
    pub topic: Seq<char>,
    pub payload: Seq<char>,
    pub qos: int,
    pub retained: bool,
    pub content_type: Option<Seq<char>>,
    pub user_properties: Seq<(Seq<char>, Seq<char>)>,
}

/// The views of a list of user properties.
pub open spec fn property_views(props: Seq<(String, String)>) -> Seq<(Seq<char>, Seq<char>)> {
    Seq::new(props.len(), |i: int| (props[i].0@, props[i].1@))
}

impl View for WireMessage {
    type V = WireMessageView;

    open spec fn view(&self) -> WireMessageView {
        WireMessageView {
            topic: self.topic@,
            payload: self.payload@,
            qos: self.qos as int,
            retained: self.retained,
            content_type: opt_view(self.content_type),
            user_properties: property_views(self.user_properties@),
        }
    }
}

/// A received message in its canonical form.
#[derive(Debug, PartialEq, Eq)]
pub struct RecMessage {
    pub id: String,
    pub topic: String,
    pub qos: i32,
    pub retain: bool,
    /// Whether this process published the message itself.
    pub mine: bool,
    /// Time of receipt, in milliseconds since the Unix epoch.
    pub timestamp: i64,
    pub content: MessageContent,
    pub sender: Option<String>,
    pub receiver: Option<String>,
}

/// What a [`RecMessage`] is, field by field.
pub struct RecMessageView {
    pub id: Seq<char>,
    pub topic: Seq<char>,
    pub qos: int,
    pub retain: bool,
    pub mine: bool,
    pub timestamp: int,
    pub content: MessageContentView,
    pub sender: Option<Seq<char>>,
    pub receiver: Option<Seq<char>>,
}

impl View for RecMessage {
    type V = RecMessageView;

    open spec fn view(&self) -> RecMessageView {
        RecMessageView {
            id: self.id@,
            topic: self.topic@,
            qos: self.qos as int,
            retain: self.retain,
            mine: self.mine,
            timestamp: self.timestamp as int,
            content: self.content@,
            sender: opt_view(self.sender),
            receiver: opt_view(self.receiver),
        }
    }
}

impl Clone for RecMessage {
    fn clone(&self) -> (r: Self)
        ensures
            r == *self,
    {
        RecMessage {
            id: self.id.clone(),
            topic: self.topic.clone(),
            qos: self.qos,
            retain: self.retain,
            mine: self.mine,
            timestamp: self.timestamp,
            content: self.content.clone(),
            sender: clone_opt(&self.sender),
            receiver: clone_opt(&self.receiver),
        }
    }
}

/// Why a message from the broker cannot be taken in.
#[derive(Debug, Clone, Copy, PartialEq, Eq, Structural)]
pub enum ConversionError {
    /// No user property names the sender.
    MissingSender,
    /// The message carries no content type.
    MissingContentType,
}

/// Why a message body was not rendered.
#[derive(Debug, Clone, Copy, PartialEq, Eq, Structural)]
pub enum RenderError {
    /// The content type is not a media type.
    InvalidType,
    /// The media type's subtype is neither `markdown` nor `json`.
    UnsupportedType,
}

/// How a body is rendered, by the subtype of its media type.
#[derive(Debug, Clone, Copy, PartialEq, Eq, Structural)]
pub enum RenderKind {
    Markdown,
    Json,
    Unsupported,
    Invalid,
}

/// The value of the first user property named `key`, if there is one.
pub open spec fn find_property(props: Seq<(Seq<char>, Seq<char>)>, key: Seq<char>) -> Option<
    Seq<char>,
>
    decreases props.len(),
{
    if props.len() == 0 {
        None
    } else if props[0].0 == key {
        Some(props[0].1)
    } else {
        find_property(props.drop_first(), key)
    }
}

/// The user properties that a published message carries: the sender, then
/// the receiver if one is named, then the mark of an ephemeral message.
pub open spec fn outbound_properties(m: SendMessageView, sender: Seq<char>) -> Seq<
    (Seq<char>, Seq<char>),
> {
    let base = seq![("sender"@, sender)];
    let addressed = match m.receiver {
        Some(r) => base.push(("receiver"@, r)),
        None => base,
    };
    if m.ephemeral {
        addressed.push(("ephemeral"@, "true"@))
    } else {
        addressed
    }
}

/// The message that the broker is handed for `m`, published by `sender`.
pub open spec fn to_mqtt_spec(m: SendMessageView, sender: Seq<char>) -> WireMessageView {
    WireMessageView {
        topic: m.topic,
        payload: m.raw,
        qos: m.qos,
        retained: match m.retain {
            Some(r) => r,
            None => false,
        },
        content_type: Some(m.message_type),
        user_properties: outbound_properties(m, sender),
    }
}

/// Whether a message from the broker asks not to be kept.
pub open spec fn is_ephemeral_spec(w: WireMessageView) -> bool {
    find_property(w.user_properties, "ephemeral"@) == Some("true"@)
}

/// The canonical form of a message from the broker, received by the client
/// named `me` at `timestamp` and given the identifier `id`.
pub open spec fn from_wire_spec(
    w: WireMessageView,
    me: Seq<char>,
    id: Seq<char>,
    timestamp: int,
) -> Result<RecMessageView, ConversionError> {
    match find_property(w.user_properties, "sender"@) {
        None => Err(ConversionError::MissingSender),
        Some(sender) => match w.content_type {
            None => Err(ConversionError::MissingContentType),
            Some(content_type) => Ok(
                RecMessageView {
                    id,
                    topic: w.topic,
                    qos: w.qos,
                    retain: w.retained,
                    mine: sender == me,
                    timestamp,
                    content: MessageContentView {
                        message_type: content_type,
                        raw: w.payload,
                        html: None,
                    },
                    sender: Some(sender),
                    receiver: find_property(w.user_properties, "receiver"@),
                },
            ),
        },
    }
}

/// How a body is rendered, given the subtype that its content type names.
pub open spec fn render_kind_spec(subtype: Option<Seq<char>>) -> RenderKind {
    match subtype {
        None => RenderKind::Invalid,
        Some(s) => if s == "markdown"@ {
            RenderKind::Markdown
        } else if s == "json"@ {
            RenderKind::Json
        } else {
            RenderKind::Unsupported
        },
    }
}

/// A JSON body inside a fenced code block.
pub open spec fn json_fence(raw: Seq<char>) -> Seq<char> {
    "```json \n"@ + raw + "\n```"@
}

/// The subtype that a content type names, once read as a media type, or
/// `None` where it is not a media type.
pub uninterp spec fn mime_subtype_of(content_type: Seq<char>) -> Option<Seq<char>>;

/// The HTML that GitHub-flavoured markdown renders to.
pub uninterp spec fn gfm_html(markdown: Seq<char>) -> Seq<char>;

/// The markdown source that is rendered for a body of the given kind.
pub open spec fn render_source(kind: RenderKind, raw: Seq<char>) -> Seq<char> {
    if kind == RenderKind::Json {
        json_fence(raw)
    } else {
        raw
    }
}

/// What rendering does to a message's content.
pub open spec fn to_html_spec(c: MessageContentView) -> Result<MessageContentView, RenderError> {
    match render_kind_spec(mime_subtype_of(c.message_type)) {
        RenderKind::Invalid => Err(RenderError::InvalidType),
        RenderKind::Unsupported => Err(RenderError::UnsupportedType),
        kind => Ok(
            MessageContentView {
                message_type: c.message_type,
                raw: c.raw,
                html: Some(gfm_html(render_source(kind, c.raw))),
            },
        ),
    }
}

/// Reads `content_type` as a media type with `mime`'s parser and hands out
/// its subtype: the text between the `/` and a `+` suffix or the
/// parameters. `None` where the parser refuses the text.
#[verifier::external_body]
fn mime_subtype(content_type: &str) -> (subtype: Option<String>)
    ensures
        opt_view(subtype) == mime_subtype_of(content_type@),
{
    match content_type.parse::<mime::Mime>() {
        Ok(m) => Some(m.subtype().as_str().to_string()),
        Err(_) => None,
    }
}

/// Renders markdown to HTML with `markdown::to_html_with_options` under
/// its GitHub-flavoured options. With these options the crate documents
/// that rendering cannot fail.
#[verifier::external_body]
fn render_gfm(source: &str) -> (html: String)
    ensures
        html@ == gfm_html(source@),
{
    match markdown::to_html_with_options(source, &markdown::Options::gfm()) {
        Ok(html) => html,
        Err(_) => String::new(),
    }
}

/// The first user property named `key`.
pub fn find_user_property(props: &Vec<(String, String)>, key: &str) -> (found: Option<String>)
    ensures
        opt_view(found) == find_property(property_views(props@), key@),
{
    let ghost all = property_views(props@);
    let mut i: usize = 0;
    assert(all.skip(0) =~= all);
    while i < props.len()
        invariant
            i <= props.len(),
            all == property_views(props@),
            find_property(all, key@) == find_property(all.skip(i as int), key@),
        decreases props.len() - i,
    {
        let ghost rest = all.skip(i as int);
        assert(rest[0] == all[i as int]);
        if str_eq(props[i].0.as_str(), key) {
            return Some(props[i].1.clone());
        }
        assert(rest.drop_first() =~= all.skip(i + 1));
        i += 1;
    }
    None
}

/// How a body whose content type names `subtype` is rendered.
pub fn render_kind(subtype: &Option<String>) -> (kind: RenderKind)
    ensures
        kind == render_kind_spec(opt_view(*subtype)),
{
    match subtype {
        None => RenderKind::Invalid,
        Some(s) => {
            if str_eq(s.as_str(), "markdown") {
                RenderKind::Markdown
            } else if str_eq(s.as_str(), "json") {
                RenderKind::Json
            } else {
                RenderKind::Unsupported
            }
        },
    }
}

impl SendMessage {
    /// The message to hand to the broker, published under the client name
    /// `sender`.
    pub fn to_mqtt(&self, sender: &str) -> (w: WireMessage)
        ensures
            w@ == to_mqtt_spec(self@, sender@),
    {
        let mut props: Vec<(String, String)> = Vec::new();
        props.push((owned("sender"), owned(sender)));
        if let Some(receiver) = &self.receiver {
            props.push((owned("receiver"), receiver.clone()));
        }
        if self.ephemeral {
            props.push((owned("ephemeral"), owned("true")));
        }
        assert(property_views(props@) =~= outbound_properties(self@, sender@));
        let retained = match self.retain {
            Some(r) => r,
            None => false,
        };
        WireMessage {
            topic: self.topic.clone(),
            payload: self.raw.clone(),
            qos: self.qos,
            retained,
            content_type: Some(self.message_type.clone()),
            user_properties: props,
        }
    }
}

impl WireMessage {
    /// Whether the message asks not to be kept: its first user property
    /// `ephemeral` reads `true`.
    pub fn is_ephemeral(&self) -> (yes: bool)
        ensures
            yes == is_ephemeral_spec(self@),
    {
        match find_user_property(&self.user_properties, "ephemeral") {
            Some(v) => str_eq(v.as_str(), "true"),
            None => false,
        }
    }
}

impl RecMessage {
    /// The canonical form of `msg`, received by the client named `me`,
    /// under the identifier and the time of receipt given.
    pub fn from_wire(msg: &WireMessage, me: &str, id: String, timestamp: i64) -> (r: Result<
        RecMessage,
        ConversionError,
    >)
        ensures
            match r {
                Ok(m) => from_wire_spec(msg@, me@, id@, timestamp as int) == Ok::<
                    RecMessageView,
                    ConversionError,
                >(m@),
                Err(e) => from_wire_spec(msg@, me@, id@, timestamp as int) == Err::<
                    RecMessageView,
                    ConversionError,
                >(e),
            },
    {
        let sender = match find_user_property(&msg.user_properties, "sender") {
            Some(s) => s,
            None => {
                return Err(ConversionError::MissingSender);
            },
        };
        let message_type = match &msg.content_type {
            Some(t) => t.clone(),
            None => {
                return Err(ConversionError::MissingContentType);
            },
        };
        let mine = str_eq(sender.as_str(), me);
        let receiver = find_user_property(&msg.user_properties, "receiver");
        Ok(
            RecMessage {
                id,
                topic: msg.topic.clone(),
                qos: msg.qos,
                retain: msg.retained,
                mine,
                timestamp,
                content: MessageContent { message_type, raw: msg.payload.clone(), html: None },
                sender: Some(sender),
                receiver,
            },
        )
    }

    /// The canonical form of `msg`, received by the client named `me`
    /// now, under a fresh identifier. Whether `msg` can be taken in does
    /// not depend on identifier and time.
    pub fn try_from(msg: &WireMessage, me: &str) -> (r: Result<RecMessage, ConversionError>)
        ensures
            match r {
                Ok(m) => m@.id.len() == ID_SIZE && from_wire_spec(
                    msg@,
                    me@,
                    m@.id,
                    m@.timestamp,
                ) == Ok::<RecMessageView, ConversionError>(m@),
                Err(e) => forall|id: Seq<char>, timestamp: int|
                    #[trigger] from_wire_spec(msg@, me@, id, timestamp) == Err::<
                        RecMessageView,
                        ConversionError,
                    >(e),
            },
    {
        let id = fresh_id();
        let timestamp = now_millis();
        Self::from_wire(msg, me, id, timestamp)
    }

    /// Renders the body to HTML by the subtype of its content type:
    /// markdown as it is, JSON inside a fenced code block. On an error the
    /// message stays as it was.
    pub fn to_html(&mut self) -> (r: Result<(), RenderError>)
        ensures
            match r {
                Ok(()) => to_html_spec(old(self)@.content) == Ok::<
                    MessageContentView,
                    RenderError,
                >(final(self)@.content),
                Err(e) => to_html_spec(old(self)@.content) == Err::<
                    MessageContentView,
                    RenderError,
                >(e) && *final(self) == *old(self),
            },
            final(self)@.id == old(self)@.id,
            final(self)@.topic == old(self)@.topic,
            final(self)@.qos == old(self)@.qos,
            final(self)@.retain == old(self)@.retain,
            final(self)@.mine == old(self)@.mine,
            final(self)@.timestamp == old(self)@.timestamp,
            final(self)@.sender == old(self)@.sender,
            final(self)@.receiver == old(self)@.receiver,
    {
        let subtype = mime_subtype(self.content.message_type.as_str());
        match render_kind(&subtype) {
            RenderKind::Invalid => Err(RenderError::InvalidType),
            RenderKind::Unsupported => Err(RenderError::UnsupportedType),
            RenderKind::Markdown => {
                let html = render_gfm(self.content.raw.as_str());
                self.content.html = Some(html);
                Ok(())
            },
            RenderKind::Json => {
                let fenced = owned("```json \n").concat(self.content.raw.as_str()).concat("\n```");
                let html = render_gfm(fenced.as_str());
                self.content.html = Some(html);
                Ok(())
            },
        }
    }

    /// The filter that owns this message: the first of `headers`, in their
    /// order, whose pattern matches the message's topic.
    pub fn get_header(&self, headers: &Vec<Header>) -> (found: Option<Header>)
        ensures
            match found {
                Some(h) => exists|i: int|
                    is_first_match(header_views(headers@), self.topic@, i) && h == headers@[i],
                None => no_match(header_views(headers@), self.topic@),
            },
    {
        match resolve_header(headers, self.topic.as_str()) {
            Some(i) => Some(headers[i].clone()),
            None => None,
        }
    }
}

} // verus!
