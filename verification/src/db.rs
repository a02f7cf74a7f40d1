//! What is kept: the records of messages and tasks, and the commands that
//! the keeper of the records carries out.

use vstd::prelude::*;
use crate::ident::{fresh_id, ID_SIZE};
use crate::message::{MessageContent, MessageContentView, RecMessage, RecMessageView};
use crate::task::{Task, TaskView};
use crate::text::{clone_opt, opt_view, owned};

verus! {

/// A received message as it is kept, with the filter that owns it.
#[derive(Debug, PartialEq, Eq)]
pub struct MessageRecord {
    pub id: String,
    pub topic: String,
    pub qos: i32,
    pub retain: bool,
    pub mine: bool,
    pub timestamp: i64,
    pub sender: Option<String>,
    pub receiver: Option<String>,
    pub message_type: String,
    pub raw: String,
    pub html: Option<String>,
    pub header_id: String,
}

/// What a [`MessageRecord`] is, field by field.
pub struct MessageRecordView {
    pub id: Seq<char>,
    pub topic: Seq<char>,
    pub qos: int,
    pub retain: bool,
    pub mine: bool,
    pub timestamp: int,
    pub sender: Option<Seq<char>>,
    pub receiver: Option<Seq<char>>,
    pub message_type: Seq<char>,
    pub raw: Seq<char>,
    pub html: Option<Seq<char>>,
    pub header_id: Seq<char>,
}

impl View for MessageRecord {
    type V = MessageRecordView;

    open spec fn view(&self) -> MessageRecordView {
        MessageRecordView {
            id: self.id@,
            topic: self.topic@,
            qos: self.qos as int,
            retain: self.retain,
            mine: self.mine,
            timestamp: self.timestamp as int,
            sender: opt_view(self.sender),
            receiver: opt_view(self.receiver),
            message_type: self.message_type@,
            raw: self.raw@,
            html: opt_view(self.html),
            header_id: self.header_id@,
        }
    }
}

/// One change to what is kept.
#[derive(Debug, PartialEq, Eq)]
pub enum StoreCommand {
    /// Keep a message under its own identifier.
    InsertMessage(MessageRecord),
    /// Keep a new task under the identifier it carries.
    InsertTask(Task),
    /// Replace the definition of the task kept under the identifier that
    /// the task carries.
    UpdateTask(Task),
    /// Drop the task kept under the identifier.
    RemoveTask(String),
}

/// What a [`StoreCommand`] is.
pub enum StoreCommandView {
    InsertMessage(MessageRecordView),
    InsertTask(TaskView),
    UpdateTask(TaskView),
    RemoveTask(Seq<char>),
}

impl View for StoreCommand {
    type V = StoreCommandView;

    open spec fn view(&self) -> StoreCommandView {
        match self {
            StoreCommand::InsertMessage(r) => StoreCommandView::InsertMessage(r@),
            StoreCommand::InsertTask(t) => StoreCommandView::InsertTask(t@),
            StoreCommand::UpdateTask(t) => StoreCommandView::UpdateTask(t@),
            StoreCommand::RemoveTask(id) => StoreCommandView::RemoveTask(id@),
        }
    }
}

/// The record under which a message is kept for the filter `header_id`.
pub open spec fn record_of(m: RecMessageView, header_id: Seq<char>) -> MessageRecordView {
    MessageRecordView {
        id: m.id,
        topic: m.topic,
        qos: m.qos,
        retain: m.retain,
        mine: m.mine,
        timestamp: m.timestamp,
        sender: m.sender,
        receiver: m.receiver,
        message_type: m.content.message_type,
        raw: m.content.raw,
        html: m.content.html,
        header_id,
    }
}

/// The message that a record holds.
pub open spec fn message_of(r: MessageRecordView) -> RecMessageView {
    RecMessageView {
        id: r.id,
        topic: r.topic,
        qos: r.qos,
        retain: r.retain,
        mine: r.mine,
        timestamp: r.timestamp,
        content: MessageContentView { message_type: r.message_type, raw: r.raw, html: r.html },
        sender: r.sender,
        receiver: r.receiver,
    }
}

/// The task with another identifier.
pub open spec fn with_id(t: TaskView, id: Seq<char>) -> TaskView {
    TaskView { id, ..t }
}

impl RecMessage {
    /// The command that keeps this message, under its own identifier, for
    /// the filter `header_id`.
    pub fn insert(&self, header_id: &str) -> (cmd: StoreCommand)
        ensures
            cmd@ == StoreCommandView::InsertMessage(record_of(self@, header_id@)),
    {
        StoreCommand::InsertMessage(
            MessageRecord {
                id: self.id.clone(),
                topic: self.topic.clone(),
                qos: self.qos,
                retain: self.retain,
                mine: self.mine,
                timestamp: self.timestamp,
                sender: clone_opt(&self.sender),
                receiver: clone_opt(&self.receiver),
                message_type: self.content.message_type.clone(),
                raw: self.content.raw.clone(),
                html: clone_opt(&self.content.html),
                header_id: owned(header_id),
            },
        )
    }
}

impl MessageRecord {
    /// The message that this record holds.
    pub fn into_message(self) -> (m: RecMessage)
        ensures
            m@ == message_of(self@),
    {
        RecMessage {
            id: self.id,
            topic: self.topic,
            qos: self.qos,
            retain: self.retain,
            mine: self.mine,
            timestamp: self.timestamp,
            content: MessageContent {
                message_type: self.message_type,
                raw: self.raw,
                html: self.html,
            },
            sender: self.sender,
            receiver: self.receiver,
        }
    }
}

impl Task {
    /// The task under the identifier `id`.
    pub fn with_id(&self, id: String) -> (t: Task)
        ensures
            t@ == with_id(self@, id@),
    {
        let mut t = self.clone();
        t.id = id;
        t
    }

    /// The command that keeps the task as a new one, and the fresh
    /// identifier under which it is kept.
    pub fn insert(&self) -> (r: (String, StoreCommand))
        ensures
            r.1@ == StoreCommandView::InsertTask(with_id(self@, r.0@)),
            r.0@.len() == ID_SIZE,
    {
        let id = fresh_id();
        let stored = self.with_id(id.clone());
        (id, StoreCommand::InsertTask(stored))
    }

    /// The command that drops the task kept under `id`.
    pub fn remove(id: &str) -> (cmd: StoreCommand)
        ensures
            cmd@ == StoreCommandView::RemoveTask(id@),
    {
        StoreCommand::RemoveTask(owned(id))
    }

    /// The command that gives the task kept under `id` the definition at hand.
    pub fn update(&self, id: &str) -> (cmd: StoreCommand)
        ensures
            cmd@ == StoreCommandView::UpdateTask(with_id(self@, id@)),
    {
        StoreCommand::UpdateTask(self.with_id(owned(id)))
    }
}

/// A message that is kept and read back is the message that was kept, in
/// every field, whatever filter it was kept for.
pub proof fn lemma_record_round_trip(m: RecMessageView, header_id: Seq<char>)
    ensures
        message_of(record_of(m, header_id)) == m,
        record_of(m, header_id).id == m.id,
        record_of(m, header_id).header_id == header_id,
{
}

/// What is kept, as the commands leave it: messages and tasks, each under
/// its identifier.
pub struct StoreState {
    pub messages: Map<Seq<char>, MessageRecordView>,
    pub tasks: Map<Seq<char>, TaskView>,
}

/// What a command does to what is kept. A task is updated only where one
/// is kept under its identifier.
pub open spec fn apply(s: StoreState, cmd: StoreCommandView) -> StoreState {
    match cmd {
        StoreCommandView::InsertMessage(r) => StoreState {
            messages: s.messages.insert(r.id, r),
            ..s
        },
        StoreCommandView::InsertTask(t) => StoreState { tasks: s.tasks.insert(t.id, t), ..s },
        StoreCommandView::UpdateTask(t) => if s.tasks.contains_key(t.id) {
            StoreState { tasks: s.tasks.insert(t.id, t), ..s }
        } else {
            s
        },
        StoreCommandView::RemoveTask(id) => StoreState { tasks: s.tasks.remove(id), ..s },
    }
}

/// The message kept under `id`, if one is.
pub open spec fn message_by_id(s: StoreState, id: Seq<char>) -> Option<RecMessageView> {
    if s.messages.contains_key(id) {
        Some(message_of(s.messages[id]))
    } else {
        None
    }
}

/// Whether the message under `id` is kept for the filter `header_id`.
pub open spec fn kept_for(s: StoreState, id: Seq<char>, header_id: Seq<char>) -> bool {
    s.messages.contains_key(id) && s.messages[id].header_id == header_id
}

/// A message that is kept can be read back by its identifier, equal in
/// every field, and is found under the filter it was kept for; the
/// messages under other identifiers and the tasks are as before.
pub proof fn lemma_kept_message_is_read_back(
    s: StoreState,
    m: RecMessageView,
    header_id: Seq<char>,
    other: Seq<char>,
)
    ensures
        ({
            let after = apply(s, StoreCommandView::InsertMessage(record_of(m, header_id)));
            &&& message_by_id(after, m.id) == Some(m)
            &&& kept_for(after, m.id, header_id)
            &&& other != m.id ==> message_by_id(after, other) == message_by_id(s, other)
            &&& after.tasks == s.tasks
        }),
{
}

/// A task that is kept stays as it was kept until it is updated or
/// removed: an update replaces its definition, a removal drops it, and
/// neither touches the messages.
pub proof fn lemma_kept_task_follows_commands(s: StoreState, t: TaskView, u: TaskView)
    ensures
        ({
            let kept = apply(s, StoreCommandView::InsertTask(t));
            let updated = apply(kept, StoreCommandView::UpdateTask(with_id(u, t.id)));
            let removed = apply(updated, StoreCommandView::RemoveTask(t.id));
            &&& kept.tasks.contains_key(t.id) && kept.tasks[t.id] == t
            &&& updated.tasks.contains_key(t.id) && updated.tasks[t.id] == with_id(u, t.id)
            &&& !removed.tasks.contains_key(t.id)
            &&& removed.messages == s.messages
        }),
{
}

} // verus!
