//! The task message and its form on the wire.
//!
//! On the wire a message is a JSON object with a string member `type` and a
//! member `task` of any shape. Other members are ignored when a message is
//! read and are not written back.

use crate::json::{
    bytes_json, lemma_lookup_skips_other_names, lemma_object_view, lookup, written_json,
    members_view, Json, JsonView,
};
use vstd::prelude::*;
use vstd::string::StringExecFns;

verus! {

/// A task: its type, which is also the topic it travels on, and a payload
/// that the dispatcher carries without looking inside.
#[derive(Debug, PartialEq)]
pub struct DynamicTaskMessage {
    pub task_type: String,
    pub task: Json,
}

/// The value of a [`DynamicTaskMessage`].
pub struct TaskMessageView {
    pub task_type: Seq<char>,
    pub task: JsonView,
}

impl View for DynamicTaskMessage {
    type V = TaskMessageView;

    open spec fn view(&self) -> TaskMessageView {
        TaskMessageView { task_type: self.task_type@, task: self.task@ }
    }
}

impl Clone for DynamicTaskMessage {
    fn clone(&self) -> (r: DynamicTaskMessage)
        ensures
            r@ == self@,
    {
        DynamicTaskMessage { task_type: self.task_type.clone(), task: self.task.clone() }
    }
}

/// The views of a list of messages, in order.
pub open spec fn messages_view(messages: Seq<DynamicTaskMessage>) -> Seq<TaskMessageView> {
    Seq::new(messages.len(), |i: int| messages[i]@)
}

/// Why bytes are not a task message.
#[derive(Clone, Copy, Debug, PartialEq, Eq, Structural)]
pub enum DecodeError {
    /// The bytes are not JSON.
    InvalidJson,
    /// The document has no member `type`, or one that is not a string.
    MissingType,
}

/// The writer gave up on a document.
#[derive(Clone, Copy, Debug, PartialEq, Eq, Structural)]
pub struct EncodeError;

/// The name of the member that holds the type.
pub open spec fn type_key() -> Seq<char> {
    "type"@
}

/// The name of the member that holds the payload.
pub open spec fn task_key() -> Seq<char> {
    "task"@
}

/// The message that a document denotes. The type must be there and be a
/// string; a payload that is not there reads as `null`.
pub open spec fn decoded(j: JsonView) -> Option<TaskMessageView> {
    match j.field(type_key()) {
        Some(JsonView::Text(task_type)) => Some(
            TaskMessageView {
                task_type,
                task: match j.field(task_key()) {
                    Some(task) => task,
                    None => JsonView::Null,
                },
            },
        ),
        _ => None,
    }
}

/// The task message that the bytes of a payload hold, or why they hold none.
pub open spec fn payload_task(payload: Seq<u8>) -> Result<TaskMessageView, DecodeError> {
    match bytes_json(payload) {
        None => Err(DecodeError::InvalidJson),
        Some(j) => match decoded(j) {
            Some(task) => Ok(task),
            None => Err(DecodeError::MissingType),
        },
    }
}

/// What reading a message gave, with the message taken by its view.
pub open spec fn read_view(r: Result<DynamicTaskMessage, DecodeError>) -> Result<
    TaskMessageView,
    DecodeError,
> {
    match r {
        Ok(m) => Ok(m@),
        Err(e) => Err(e),
    }
}

/// The document that denotes a message: an object of exactly the two members.
pub open spec fn envelope(m: TaskMessageView) -> JsonView {
    JsonView::Object(seq![(type_key(), JsonView::Text(m.task_type)), (task_key(), m.task)])
}

/// The text of a message on the wire, given the texts of its two parts.
pub open spec fn framed(type_text: Seq<char>, task_text: Seq<char>) -> Seq<char> {
    "{\"type\":"@ + type_text + ",\"task\":"@ + task_text + "}"@
}

/// The text of a message on the wire: its two parts as the writer gives
/// them, in their frame. There is none where either part is not written.
pub open spec fn wire_text(m: TaskMessageView) -> Option<Seq<char>> {
    match (written_json(JsonView::Text(m.task_type)), written_json(m.task)) {
        (Some(type_text), Some(task_text)) => Some(framed(type_text, task_text)),
        _ => None,
    }
}

/// The bytes of a message as a broker payload: its wire text in UTF-8.
pub open spec fn wire_bytes(m: TaskMessageView) -> Option<Seq<u8>> {
    match wire_text(m) {
        Some(text) => Some(vstd::utf8::encode_utf8(text)),
        None => None,
    }
}

/// The two member names differ.
pub proof fn lemma_keys_differ()
    ensures
        type_key() != task_key(),
{
    reveal_strlit("type");
    reveal_strlit("task");
    assert(task_key()[1] == 'a');
}

/// Reading the document of a message gives the message back.
pub proof fn lemma_decode_envelope(m: TaskMessageView)
    ensures
        decoded(envelope(m)) == Some(m),
{
    lemma_keys_differ();
    let members = seq![(type_key(), JsonView::Text(m.task_type)), (task_key(), m.task)];
    assert(lookup(members.drop_last(), type_key()) == Some(JsonView::Text(m.task_type)));
}

/// A member that is neither the type nor the payload is ignored: with it
/// or without it, a document denotes the same message.
pub proof fn lemma_other_members_are_ignored(
    members: Seq<(Seq<char>, JsonView)>,
    at: int,
    name: Seq<char>,
    value: JsonView,
)
    requires
        0 <= at <= members.len(),
        name != type_key(),
        name != task_key(),
    ensures
        decoded(JsonView::Object(members.insert(at, (name, value)))) == decoded(
            JsonView::Object(members),
        ),
{
    lemma_lookup_skips_other_names(members, at, name, value, type_key());
    lemma_lookup_skips_other_names(members, at, name, value, task_key());
}

/// Puts the texts of the two parts of a message into its wire form.
pub fn frame(type_text: &str, task_text: &str) -> (r: String)
    ensures
        r@ == framed(type_text@, task_text@),
{
    let mut out = "{\"type\":".to_owned();
    out.append(type_text);
    out.append(",\"task\":");
    out.append(task_text);
    out.append("}");
    out
}

impl DynamicTaskMessage {
    /// Reads a message from a document.
    pub fn from_json(j: &Json) -> (r: Result<DynamicTaskMessage, DecodeError>)
        ensures
            match r {
                Ok(m) => decoded(j@) == Some(m@),
                Err(e) => decoded(j@) is None && e == DecodeError::MissingType,
            },
    {
        let task_type = match j.field("type") {
            Some(found) => match found.as_text() {
                Some(text) => text.clone(),
                None => {
                    return Err(DecodeError::MissingType);
                },
            },
            None => {
                return Err(DecodeError::MissingType);
            },
        };
        let task = match j.field("task") {
            Some(found) => found.clone(),
            None => Json::Null,
        };
        Ok(DynamicTaskMessage { task_type, task })
    }

    /// The document that denotes the message.
    pub fn to_json(&self) -> (r: Json)
        ensures
            r@ == envelope(self@),
    {
        let mut members: Vec<(String, Json)> = Vec::new();
        members.push(("type".to_owned(), Json::Text(self.task_type.clone())));
        members.push(("task".to_owned(), self.task.clone()));
        proof {
            lemma_object_view(members);
            assert(members_view(members@) =~= seq![
                (type_key(), JsonView::Text(self@.task_type)),
                (task_key(), self@.task),
            ]);
        }
        Json::Object(members)
    }

    /// Reads a message from the bytes of a broker payload.
    pub fn deserialize_message(payload: &[u8]) -> (r: Result<DynamicTaskMessage, DecodeError>)
        ensures
            read_view(r) == payload_task(payload@),
    {
        match Json::parse_bytes(payload) {
            Some(j) => DynamicTaskMessage::from_json(&j),
            None => Err(DecodeError::InvalidJson),
        }
    }

    /// The text of the message on the wire: the two members in the order
    /// `type`, `task`, each written as compact JSON. It fails exactly where
    /// the writer gives up on one of the two.
    pub fn wire_form(&self) -> (r: Result<String, EncodeError>)
        ensures
            match r {
                Ok(text) => wire_text(self@) == Some(text@),
                Err(_) => wire_text(self@) is None,
            },
    {
        let type_text = match Json::Text(self.task_type.clone()).print() {
            Some(text) => text,
            None => {
                return Err(EncodeError);
            },
        };
        let task_text = match self.task.print() {
            Some(text) => text,
            None => {
                return Err(EncodeError);
            },
        };
        Ok(frame(type_text.as_str(), task_text.as_str()))
    }

    /// The bytes of the message as a broker payload: its wire text in
    /// UTF-8. It fails exactly where there is no wire text.
    pub fn serialize_message(&self) -> (r: Result<Vec<u8>, EncodeError>)
        ensures
            match r {
                Ok(bytes) => wire_bytes(self@) == Some(bytes@),
                Err(_) => wire_bytes(self@) is None,
            },
    {
        match self.wire_form() {
            Ok(text) => Ok(text.as_str().as_bytes_vec()),
            Err(e) => Err(e),
        }
    }
}

} // verus!
