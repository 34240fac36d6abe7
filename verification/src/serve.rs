//! The submission service: how a request becomes a publication, and what
//! the submitter is told.

use crate::data::{payload_task, DecodeError, DynamicTaskMessage, TaskMessageView};
use crate::json::{bytes_json, lemma_object_view, members_view, Json, JsonView};
use crate::producer::{publication_of, Publication};
use vstd::prelude::*;

verus! {

/// What a submitter is told.
#[derive(Debug, PartialEq)]
pub struct IngressResponse {
    pub status: u16,
    /// The JSON document in the body, where there is one.
    pub body: Option<Json>,
}

/// The value of an [`IngressResponse`].
pub struct IngressResponseView {
    pub status: u16,
    pub body: Option<JsonView>,
}

impl View for IngressResponse {
    type V = IngressResponseView;

    open spec fn view(&self) -> IngressResponseView {
        IngressResponseView {
            status: self.status,
            body: match self.body {
                Some(j) => Some(j@),
                None => None,
            },
        }
    }
}

/// What the health probe answers.
pub open spec fn greeting() -> Seq<char> {
    "Hello, World!"@
}

/// What a submitter is told after the broker took the message, or did not.
pub open spec fn response_for(published: bool) -> IngressResponseView {
    if published {
        IngressResponseView {
            status: 200,
            body: Some(JsonView::Object(seq![("successful"@, JsonView::Bool(true))])),
        }
    } else {
        IngressResponseView { status: 500, body: None }
    }
}

/// What the health probe answers.
pub fn health() -> (r: &'static str)
    ensures
        r@ == greeting(),
{
    "Hello, World!"
}

/// A task message is submitted as it is: the body is the message, and it
/// goes to the topic named like its type.
pub fn submit_dynamic_task(body: &[u8]) -> (r: Result<Publication, DecodeError>)
    ensures
        match r {
            Ok(p) => payload_task(body@) matches Ok(task) && p@ == publication_of(task),
            Err(e) => payload_task(body@) matches Err(why) && why == e,
        },
{
    match DynamicTaskMessage::deserialize_message(body) {
        Ok(task) => Ok(Publication::of(task)),
        Err(e) => Err(e),
    }
}

/// A payload is submitted under a type: the body is the payload, whatever
/// JSON it is, and the message goes to the topic named like the type.
pub fn submit_task(task_type: String, body: &[u8]) -> (r: Result<Publication, DecodeError>)
    ensures
        match r {
            Ok(p) => bytes_json(body@) matches Some(task) && p@ == publication_of(
                TaskMessageView { task_type: task_type@, task },
            ),
            Err(e) => bytes_json(body@) is None && e == DecodeError::InvalidJson,
        },
{
    match Json::parse_bytes(body) {
        Some(task) => Ok(Publication::of(DynamicTaskMessage { task_type, task })),
        None => Err(DecodeError::InvalidJson),
    }
}

/// What a submitter is told after the broker took the message, or did not.
pub fn respond(published: bool) -> (r: IngressResponse)
    ensures
        r@ == response_for(published),
{
    if published {
        let mut members: Vec<(String, Json)> = Vec::new();
        members.push(("successful".to_owned(), Json::Bool(true)));
        proof {
            lemma_object_view(members);
            assert(members_view(members@) =~= seq![("successful"@, JsonView::Bool(true))]);
        }
        IngressResponse { status: 200, body: Some(Json::Object(members)) }
    } else {
        IngressResponse { status: 500, body: None }
    }
}

} // verus!
