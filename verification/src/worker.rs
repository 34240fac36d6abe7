//! The HTTP handler: a worker behind an endpoint.

use crate::data::DynamicTaskMessage;
use crate::handler::{
    decoded_response, HandleResult, HandleResultView, HandlerError, WorkerResponse,
};
use crate::json::{text_json, written_json, Json, JsonView};
use vstd::prelude::*;

verus! {

/// A worker that is reached by posting to its endpoint.
#[derive(Debug, PartialEq)]
pub struct Worker {
    /// The endpoint, a URL in its normal form.
    pub endpoint: String,
}

impl View for Worker {
    type V = Seq<char>;

    open spec fn view(&self) -> Seq<char> {
        self.endpoint@
    }
}

impl Clone for Worker {
    fn clone(&self) -> (r: Worker)
        ensures
            r@ == self@,
    {
        Worker { endpoint: self.endpoint.clone() }
    }
}

/// An HTTP `POST`: where to, the `Content-Type` header, and the body.
#[derive(Debug, PartialEq)]
pub struct HttpPost {
    pub url: String,
    pub content_type: String,
    pub body: String,
}

/// The value of an [`HttpPost`].
pub struct HttpPostView {
    pub url: Seq<char>,
    pub content_type: Seq<char>,
    pub body: Seq<char>,
}

impl View for HttpPost {
    type V = HttpPostView;

    open spec fn view(&self) -> HttpPostView {
        HttpPostView { url: self.url@, content_type: self.content_type@, body: self.body@ }
    }
}

/// The content type of every request to a worker.
pub open spec fn json_content_type() -> Seq<char> {
    "application/json"@
}

/// The request that hands `body` to the worker at `endpoint`.
pub open spec fn post_for(endpoint: Seq<char>, body: Seq<char>) -> HttpPostView {
    HttpPostView { url: endpoint, content_type: json_content_type(), body }
}

/// The request that hands a payload to the worker at `endpoint`: the body
/// is the payload alone, not the message around it, as the writer writes
/// it. There is no request where the writer gives up on the payload.
pub open spec fn request_for(endpoint: Seq<char>, task: JsonView) -> Option<HttpPostView> {
    match written_json(task) {
        Some(body) => Some(post_for(endpoint, body)),
        None => None,
    }
}

/// What a worker's answer means, given the document that its body denotes,
/// if it denotes one. A body that is a list of follow-on tasks continues
/// with them; any other body is kept as it came. The status is handed on
/// unread either way.
pub open spec fn interpreted(status: u16, text: Seq<char>, parsed: Option<JsonView>)
    -> HandleResultView {
    match parsed {
        Some(j) => match decoded_response(j) {
            Some(tasks) => HandleResultView::Continue { status, tasks },
            None => HandleResultView::ContinueUnparseable { status, text },
        },
        None => HandleResultView::ContinueUnparseable { status, text },
    }
}

impl Worker {
    /// The request that hands `body` to the worker.
    pub fn post(&self, body: String) -> (r: HttpPost)
        ensures
            r@ == post_for(self@, body@),
    {
        HttpPost {
            url: self.endpoint.clone(),
            content_type: "application/json".to_owned(),
            body,
        }
    }

    /// The request that hands a task to the worker: its body is the payload
    /// of the task, written as JSON text. There is a request for every task
    /// whose payload the writer writes, and an error for no other.
    pub fn request(&self, task: &DynamicTaskMessage) -> (r: Result<HttpPost, HandlerError>)
        ensures
            match r {
                Ok(post) => request_for(self@, task@.task) == Some(post@),
                Err(e) => e == HandlerError::Encode && request_for(self@, task@.task) is None,
            },
    {
        match task.task.print() {
            Some(body) => Ok(self.post(body)),
            None => Err(HandlerError::Encode),
        }
    }

    /// Reads a worker's answer, given the document that its body was found
    /// to denote.
    pub fn classify(status: u16, text: String, parsed: Option<Json>) -> (r: HandleResult)
        ensures
            r@ == interpreted(
                status,
                text@,
                match parsed {
                    Some(j) => Some(j@),
                    None => None,
                },
            ),
    {
        match parsed {
            Some(j) => match WorkerResponse::from_json(&j) {
                Some(response) => HandleResult::Continue { status, response },
                None => HandleResult::ContinueUnparseable { status, text },
            },
            None => HandleResult::ContinueUnparseable { status, text },
        }
    }

    /// Reads a worker's answer from its status and the text of its body.
    pub fn interpret(status: u16, text: String) -> (r: HandleResult)
        ensures
            r@ == interpreted(status, text@, text_json(text@)),
    {
        let parsed = Json::parse(text.as_str());
        Worker::classify(status, text, parsed)
    }
}

} // verus!
