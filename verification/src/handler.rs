//! What a handler is asked to do, what it answers, and what the answer
//! means for the dispatcher.
//!
//! A handler never performs a call itself. It says which call is to be made
//! and later reads what came back; making the call is left to the caller.

use crate::data::{decoded, messages_view, DynamicTaskMessage, TaskMessageView};
use crate::json::{items_view, text_json, Json, JsonView};
use crate::script::{
    collected, entry_for, script_tasks_view, RuneScript, ScriptRun, ScriptRunView, TrampolineTask,
    TrampolineTaskView,
};
use crate::worker::{interpreted, request_for, HttpPost, HttpPostView, Worker};
use vstd::prelude::*;

verus! {

/// The follow-on tasks that a worker answers with.
#[derive(Debug, PartialEq)]
pub struct WorkerResponse {
    /// A response can hold several tasks, of varying types.
    pub tasks: Vec<DynamicTaskMessage>,
}

impl View for WorkerResponse {
    type V = Seq<TaskMessageView>;

    open spec fn view(&self) -> Seq<TaskMessageView> {
        messages_view(self.tasks@)
    }
}

/// The outcome of handling one task.
#[derive(Debug, PartialEq)]
pub enum HandleResult {
    /// The handler answered with a list of follow-on tasks, possibly empty.
    Continue { status: u16, response: WorkerResponse },
    /// The handler answered with something that is no such list.
    ContinueUnparseable { status: u16, text: String },
}

/// The value of a [`HandleResult`].
pub enum HandleResultView {
    Continue { status: u16, tasks: Seq<TaskMessageView> },
    ContinueUnparseable { status: u16, text: Seq<char> },
}

impl View for HandleResult {
    type V = HandleResultView;

    open spec fn view(&self) -> HandleResultView {
        match self {
            HandleResult::Continue { status, response } => HandleResultView::Continue {
                status: *status,
                tasks: response@,
            },
            HandleResult::ContinueUnparseable { status, text } => {
                HandleResultView::ContinueUnparseable { status: *status, text: text@ }
            },
        }
    }
}

/// Why a handler produced no outcome.
#[derive(Debug, PartialEq)]
pub enum HandlerError {
    /// The payload of the task could not be written as JSON text.
    Encode,
    /// The call did not complete: the transport failed, or the script host
    /// did.
    Transport(String),
    /// The script reported an error of its own.
    Script(String),
    /// The reply is not one to the kind of call that was made.
    UnexpectedReply,
}

/// The value of a [`HandlerError`].
pub enum HandlerErrorView {
    Encode,
    Transport(Seq<char>),
    Script(Seq<char>),
    UnexpectedReply,
}

impl View for HandlerError {
    type V = HandlerErrorView;

    open spec fn view(&self) -> HandlerErrorView {
        match self {
            HandlerError::Encode => HandlerErrorView::Encode,
            HandlerError::Transport(reason) => HandlerErrorView::Transport(reason@),
            HandlerError::Script(reason) => HandlerErrorView::Script(reason@),
            HandlerError::UnexpectedReply => HandlerErrorView::UnexpectedReply,
        }
    }
}

/// What a handler made of a reply, with each part taken by its view.
pub open spec fn outcome_view(r: Result<HandleResult, HandlerError>) -> Result<
    HandleResultView,
    HandlerErrorView,
> {
    match r {
        Ok(result) => Ok(result@),
        Err(e) => Err(e@),
    }
}

/// The name of the member that holds the follow-on tasks.
pub open spec fn tasks_key() -> Seq<char> {
    "tasks"@
}

/// Whether every one of `items` denotes a task message.
pub open spec fn all_decode(items: Seq<JsonView>) -> bool {
    forall|i: int| 0 <= i < items.len() ==> (#[trigger] decoded(items[i])) is Some
}

/// The follow-on tasks that a document denotes: it must be an object whose
/// member `tasks` is an array of task messages.
pub open spec fn decoded_response(j: JsonView) -> Option<Seq<TaskMessageView>> {
    match j.field(tasks_key()) {
        Some(JsonView::Array(items)) => if all_decode(items) {
            Some(Seq::new(items.len(), |i: int| decoded(items[i])->0))
        } else {
            None
        },
        _ => None,
    }
}

impl WorkerResponse {
    /// Reads a response from a document.
    pub fn from_json(j: &Json) -> (r: Option<WorkerResponse>)
        ensures
            match r {
                Some(response) => decoded_response(j@) == Some(response@),
                None => decoded_response(j@) is None,
            },
    {
        let items = match j.field("tasks") {
            Some(found) => match found.as_array() {
                Some(items) => items,
                None => {
                    return None;
                },
            },
            None => {
                return None;
            },
        };
        let ghost views = items_view(items@);
        let mut tasks: Vec<DynamicTaskMessage> = Vec::new();
        let mut i: usize = 0;
        while i < items.len()
            invariant
                i <= items.len(),
                tasks.len() == i,
                views == items_view(items@),
                j@.field(tasks_key()) == Some(JsonView::Array(views)),
                forall|k: int| 0 <= k < i ==> decoded(views[k]) == Some(#[trigger] tasks@[k]@),
            decreases items.len() - i,
        {
            match DynamicTaskMessage::from_json(&items[i]) {
                Ok(task) => {
                    tasks.push(task);
                },
                Err(_) => {
                    assert(decoded(views[i as int]) is None);
                    return None;
                },
            }
            i += 1;
        }
        let response = WorkerResponse { tasks };
        proof {
            assert(all_decode(views)) by {
                assert forall|k: int| 0 <= k < views.len() implies (#[trigger] decoded(
                    views[k],
                )) is Some by {
                    assert(decoded(views[k]) == Some(response.tasks@[k]@));
                }
            }
            assert(response@ =~= Seq::new(views.len(), |k: int| decoded(views[k])->0)) by {
                assert forall|k: int| 0 <= k < views.len() implies response@[k] == decoded(
                    views[k],
                )->0 by {
                    assert(decoded(views[k]) == Some(response.tasks@[k]@));
                }
            }
        }
        Some(response)
    }
}

/// A call that a handler asks for.
#[derive(Debug, PartialEq)]
pub enum HandlerCall {
    /// Send the request to a worker and hand back status and body.
    Post(HttpPost),
    /// Run the script and hand back the tasks it returns.
    Run(ScriptRun),
}

/// The value of a [`HandlerCall`].
pub enum HandlerCallView {
    Post(HttpPostView),
    Run(ScriptRunView),
}

impl View for HandlerCall {
    type V = HandlerCallView;

    open spec fn view(&self) -> HandlerCallView {
        match self {
            HandlerCall::Post(post) => HandlerCallView::Post(post@),
            HandlerCall::Run(run) => HandlerCallView::Run(run@),
        }
    }
}

/// What came back from a call.
#[derive(Debug, PartialEq)]
pub enum HandlerReply {
    /// A worker answered: the status and the text of the body.
    Response { status: u16, text: String },
    /// A script ran to its end and returned these tasks.
    Returned(Vec<TrampolineTask>),
    /// The call did not complete.
    Failed(String),
    /// The script ran and reported an error of its own.
    ScriptFailed(String),
}

/// The value of a [`HandlerReply`].
pub enum HandlerReplyView {
    Response { status: u16, text: Seq<char> },
    Returned(Seq<TrampolineTaskView>),
    Failed(Seq<char>),
    ScriptFailed(Seq<char>),
}

impl View for HandlerReply {
    type V = HandlerReplyView;

    open spec fn view(&self) -> HandlerReplyView {
        match self {
            HandlerReply::Response { status, text } => HandlerReplyView::Response {
                status: *status,
                text: text@,
            },
            HandlerReply::Returned(tasks) => HandlerReplyView::Returned(script_tasks_view(tasks@)),
            HandlerReply::Failed(reason) => HandlerReplyView::Failed(reason@),
            HandlerReply::ScriptFailed(reason) => HandlerReplyView::ScriptFailed(reason@),
        }
    }
}

/// A handler: a worker behind an endpoint, or a script.
#[derive(Debug, PartialEq)]
pub enum Handler {
    HttpEndpoint(Worker),
    Script(RuneScript),
}

/// The value of a [`Handler`].
pub enum HandlerView {
    HttpEndpoint(Seq<char>),
    Script(Seq<char>),
}

impl View for Handler {
    type V = HandlerView;

    open spec fn view(&self) -> HandlerView {
        match self {
            Handler::HttpEndpoint(worker) => HandlerView::HttpEndpoint(worker@),
            Handler::Script(script) => HandlerView::Script(script@),
        }
    }
}

impl Clone for Handler {
    fn clone(&self) -> (r: Handler)
        ensures
            r@ == self@,
    {
        match self {
            Handler::HttpEndpoint(worker) => Handler::HttpEndpoint(worker.clone()),
            Handler::Script(script) => Handler::Script(script.clone()),
        }
    }
}

impl HandlerView {
    /// The call that hands `task` to the handler. There is none where the
    /// writer gives up on the payload of the task.
    pub open spec fn call(self, task: TaskMessageView) -> Option<HandlerCallView> {
        match self {
            HandlerView::HttpEndpoint(endpoint) => match request_for(endpoint, task.task) {
                Some(post) => Some(HandlerCallView::Post(post)),
                None => None,
            },
            HandlerView::Script(pipeline) => match entry_for(pipeline, task) {
                Some(run) => Some(HandlerCallView::Run(run)),
                None => None,
            },
        }
    }

    /// What a reply means for the handler that asked for the call. A worker
    /// expects a response and a script the tasks it returned; a call that did
    /// not complete, or a script that reported an error, is an error.
    pub open spec fn settled(self, reply: HandlerReplyView) -> Result<
        HandleResultView,
        HandlerErrorView,
    > {
        match reply {
            HandlerReplyView::Failed(reason) => Err(HandlerErrorView::Transport(reason)),
            HandlerReplyView::Response { status, text } => match self {
                HandlerView::HttpEndpoint(_) => Ok(interpreted(status, text, text_json(text))),
                HandlerView::Script(_) => Err(HandlerErrorView::UnexpectedReply),
            },
            HandlerReplyView::Returned(tasks) => match self {
                HandlerView::Script(_) => Ok(collected(tasks)),
                HandlerView::HttpEndpoint(_) => Err(HandlerErrorView::UnexpectedReply),
            },
            HandlerReplyView::ScriptFailed(reason) => match self {
                HandlerView::Script(_) => Err(HandlerErrorView::Script(reason)),
                HandlerView::HttpEndpoint(_) => Err(HandlerErrorView::UnexpectedReply),
            },
        }
    }
}

impl Handler {
    /// Whether two handlers are the same one: the same endpoint, or the
    /// same script.
    pub fn same(&self, other: &Handler) -> (r: bool)
        ensures
            r == (self@ == other@),
    {
        match (self, other) {
            (Handler::HttpEndpoint(a), Handler::HttpEndpoint(b)) => a.endpoint == b.endpoint,
            (Handler::Script(a), Handler::Script(b)) => a.pipeline == b.pipeline,
            _ => false,
        }
    }

    /// The call that hands a task to the handler. There is a call for
    /// every task whose payload the writer writes, and an error for no
    /// other.
    pub fn call(&self, task: &DynamicTaskMessage) -> (r: Result<HandlerCall, HandlerError>)
        ensures
            match r {
                Ok(call) => self@.call(task@) == Some(call@),
                Err(e) => e == HandlerError::Encode && self@.call(task@) is None,
            },
    {
        match self {
            Handler::HttpEndpoint(worker) => match worker.request(task) {
                Ok(post) => Ok(HandlerCall::Post(post)),
                Err(e) => Err(e),
            },
            Handler::Script(script) => match script.entry(task) {
                Ok(run) => Ok(HandlerCall::Run(run)),
                Err(e) => Err(e),
            },
        }
    }

    /// Reads what came back from the call that the handler asked for.
    pub fn settle(&self, reply: HandlerReply) -> (r: Result<HandleResult, HandlerError>)
        ensures
            outcome_view(r) == self@.settled(reply@),
    {
        match reply {
            HandlerReply::Failed(reason) => Err(HandlerError::Transport(reason)),
            HandlerReply::Response { status, text } => match self {
                Handler::HttpEndpoint(_) => Ok(Worker::interpret(status, text)),
                Handler::Script(_) => Err(HandlerError::UnexpectedReply),
            },
            HandlerReply::Returned(tasks) => match self {
                Handler::Script(_) => Ok(RuneScript::collect(tasks)),
                Handler::HttpEndpoint(_) => Err(HandlerError::UnexpectedReply),
            },
            HandlerReply::ScriptFailed(reason) => match self {
                Handler::Script(_) => Err(HandlerError::Script(reason)),
                Handler::HttpEndpoint(_) => Err(HandlerError::UnexpectedReply),
            },
        }
    }
}

} // verus!
