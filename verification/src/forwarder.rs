//! Handling one task: find its handler, say which call is to be made, and
//! read what came back.

use crate::data::{DynamicTaskMessage, TaskMessageView};
use crate::handler::{
    HandleResult, HandleResultView, Handler, HandlerCall, HandlerCallView, HandlerError,
    HandlerErrorView, HandlerReply, HandlerReplyView, HandlerView,
};
use crate::handler_repo::{matched, HandlerRepo, RouteView};
use vstd::prelude::*;

verus! {

/// Forwards tasks to the handlers of a registry.
#[derive(Debug)]
pub struct Forwarder {
    handlers: HandlerRepo,
}

/// The call to make for a task, given the handler that the task goes to, if
/// any: none without a handler, and with one the call of the handler, or an
/// error where the writer gives up on the payload.
pub open spec fn planned(handler: Option<HandlerView>, task: TaskMessageView) -> Result<
    Option<HandlerCallView>,
    HandlerErrorView,
> {
    match handler {
        None => Ok(None),
        Some(h) => match h.call(task) {
            Some(call) => Ok(Some(call)),
            None => Err(HandlerErrorView::Encode),
        },
    }
}

/// What the forwarder asks for, with each part taken by its view.
pub open spec fn plan_view(r: Result<Option<HandlerCall>, HandlerError>) -> Result<
    Option<HandlerCallView>,
    HandlerErrorView,
> {
    match r {
        Ok(Some(call)) => Ok(Some(call@)),
        Ok(None) => Ok(None),
        Err(e) => Err(e@),
    }
}

/// What a reply means for a task, given the handler that the task goes to,
/// if any: without a handler there is nothing to read, and no outcome.
pub open spec fn completed(handler: Option<HandlerView>, reply: HandlerReplyView) -> Result<
    Option<HandleResultView>,
    HandlerErrorView,
> {
    match handler {
        None => Ok(None),
        Some(h) => match h.settled(reply) {
            Ok(result) => Ok(Some(result)),
            Err(e) => Err(e),
        },
    }
}

/// What the forwarder made of a reply, with each part taken by its view.
pub open spec fn completion_view(r: Result<Option<HandleResult>, HandlerError>) -> Result<
    Option<HandleResultView>,
    HandlerErrorView,
> {
    match r {
        Ok(Some(result)) => Ok(Some(result@)),
        Ok(None) => Ok(None),
        Err(e) => Err(e@),
    }
}

impl Forwarder {
    /// The routing table that tasks are forwarded by.
    pub closed spec fn routes(&self) -> Seq<RouteView> {
        self.handlers.routes()
    }

    /// The handlers that tasks are forwarded to.
    pub closed spec fn keys(&self) -> Seq<HandlerView> {
        self.handlers.keys()
    }

    pub fn new(handlers: HandlerRepo) -> (r: Forwarder)
        ensures
            r.routes() == handlers.routes(),
            r.keys() == handlers.keys(),
    {
        Forwarder { handlers }
    }

    /// The registry behind the forwarder.
    pub fn handlers(&self) -> (r: &HandlerRepo)
        ensures
            r.routes() == self.routes(),
            r.keys() == self.keys(),
    {
        &self.handlers
    }

    /// The handler that a task goes to, if there is one.
    pub fn route(&self, msg: &DynamicTaskMessage) -> (r: Option<&Handler>)
        ensures
            match r {
                Some(h) => matched(self.routes(), msg@.task_type) == Some(h@),
                None => matched(self.routes(), msg@.task_type) is None,
            },
    {
        self.handlers.match_handler(msg)
    }

    /// The call to make for a task: that of its handler, or none where no
    /// handler matches. It fails exactly where there is a handler and the
    /// writer gives up on the payload.
    pub fn process(&self, msg: &DynamicTaskMessage) -> (r: Result<
        Option<HandlerCall>,
        HandlerError,
    >)
        ensures
            plan_view(r) == planned(matched(self.routes(), msg@.task_type), msg@),
    {
        match self.handlers.match_handler(msg) {
            Some(handler) => match handler.call(msg) {
                Ok(call) => Ok(Some(call)),
                Err(e) => Err(e),
            },
            None => Ok(None),
        }
    }

    /// The outcome for a task, read from what came back from the call that
    /// [`Forwarder::process`] asked for. The outcome is that of the handler,
    /// unchanged; an error of the handler is handed on.
    pub fn complete(&self, msg: &DynamicTaskMessage, reply: HandlerReply) -> (r: Result<
        Option<HandleResult>,
        HandlerError,
    >)
        ensures
            completion_view(r) == completed(matched(self.routes(), msg@.task_type), reply@),
    {
        match self.handlers.match_handler(msg) {
            Some(handler) => match handler.settle(reply) {
                Ok(result) => Ok(Some(result)),
                Err(e) => Err(e),
            },
            None => Ok(None),
        }
    }
}

} // verus!
