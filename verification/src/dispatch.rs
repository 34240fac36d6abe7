//! The dispatch loop, one step at a time.
//!
//! The loop itself waits on the broker and on the handlers, which this
//! library does not do. What it decides is here: for each thing that
//! happens, what is to be done next, in order, and what state the loop is
//! in after it. A delivery is acknowledged before anything else is done
//! with it, and the follow-on tasks of one message are all published before
//! the next message is taken.

use crate::data::{
    messages_view, payload_task, read_view, DecodeError, DynamicTaskMessage, TaskMessageView,
};
use crate::forwarder::{completed, completion_view, planned, Forwarder};
use crate::handler::{
    decoded_response, HandleResult, HandleResultView, HandlerCall, HandlerCallView, HandlerError,
    HandlerErrorView, HandlerReply, HandlerReplyView, HandlerView,
};
use crate::handler_repo::{matched, RouteView};
use crate::json::{text_json, written_json, JsonView};
use crate::producer::{publication_of, Publication, PublicationView};
use crate::script::TrampolineTaskView;
use vstd::prelude::*;

verus! {

/// A message as the broker delivers it.
#[derive(Debug, PartialEq)]
pub struct Delivery {
    /// How the broker names the message.
    pub message_id: String,
    pub payload: Vec<u8>,
}

/// The value of a [`Delivery`].
pub struct DeliveryView {
    pub message_id: Seq<char>,
    pub payload: Seq<u8>,
}

impl View for Delivery {
    type V = DeliveryView;

    open spec fn view(&self) -> DeliveryView {
        DeliveryView { message_id: self.message_id@, payload: self.payload@ }
    }
}

/// Something worth a line in the log.
#[derive(Debug, PartialEq)]
pub enum LogRecord {
    /// A delivery was no task message.
    Undecodable(DecodeError),
    /// No handler matches the task.
    Unrouted { task: DynamicTaskMessage },
    /// The task was handled and its follow-on tasks were published.
    Continued { message_id: String, task_type: String, status: u16, follow_ons: usize },
    /// The task was handled and the answer was no list of tasks.
    Unparseable { task: DynamicTaskMessage, status: u16, text: String },
    /// The loop ends after this many messages.
    Finished { messages: usize },
}

/// The value of a [`LogRecord`].
pub enum LogRecordView {
    Undecodable(DecodeError),
    Unrouted { task: TaskMessageView },
    Continued { message_id: Seq<char>, task_type: Seq<char>, status: u16, follow_ons: nat },
    Unparseable { task: TaskMessageView, status: u16, text: Seq<char> },
    Finished { messages: nat },
}

impl View for LogRecord {
    type V = LogRecordView;

    open spec fn view(&self) -> LogRecordView {
        match self {
            LogRecord::Undecodable(e) => LogRecordView::Undecodable(*e),
            LogRecord::Unrouted { task } => LogRecordView::Unrouted { task: task@ },
            LogRecord::Continued { message_id, task_type, status, follow_ons } => {
                LogRecordView::Continued {
                    message_id: message_id@,
                    task_type: task_type@,
                    status: *status,
                    follow_ons: *follow_ons as nat,
                }
            },
            LogRecord::Unparseable { task, status, text } => LogRecordView::Unparseable {
                task: task@,
                status: *status,
                text: text@,
            },
            LogRecord::Finished { messages } => LogRecordView::Finished {
                messages: *messages as nat,
            },
        }
    }
}

/// One thing for the loop to do.
#[derive(Debug, PartialEq)]
pub enum Action {
    /// Acknowledge the delivery at hand.
    Ack,
    /// Make the call, and come back with what it returned.
    Invoke(HandlerCall),
    /// Hand the publication to the broker.
    Publish(Publication),
    /// Write the record to the log.
    Log(LogRecord),
}

/// The value of an [`Action`].
pub enum ActionView {
    Ack,
    Invoke(HandlerCallView),
    Publish(PublicationView),
    Log(LogRecordView),
}

impl View for Action {
    type V = ActionView;

    open spec fn view(&self) -> ActionView {
        match self {
            Action::Ack => ActionView::Ack,
            Action::Invoke(call) => ActionView::Invoke(call@),
            Action::Publish(publication) => ActionView::Publish(publication@),
            Action::Log(record) => ActionView::Log(record@),
        }
    }
}

/// The views of a list of actions, in order.
pub open spec fn actions_view(actions: Seq<Action>) -> Seq<ActionView> {
    Seq::new(actions.len(), |i: int| actions[i]@)
}

/// The loop between two messages.
#[derive(Debug)]
pub struct DispatchLoop {
    forwarder: Forwarder,
    counter: usize,
}

/// The value of a [`DispatchLoop`].
pub struct DispatchLoopView {
    pub routes: Seq<RouteView>,
    /// The number of messages handled so far.
    pub handled: usize,
}

impl View for DispatchLoop {
    type V = DispatchLoopView;

    closed spec fn view(&self) -> DispatchLoopView {
        DispatchLoopView { routes: self.forwarder.routes(), handled: self.counter }
    }
}

/// The loop while a handler is at work on a task.
#[derive(Debug)]
pub struct Pending {
    forwarder: Forwarder,
    counter: usize,
    message_id: String,
    task: DynamicTaskMessage,
}

/// The value of a [`Pending`].
pub struct PendingView {
    pub routes: Seq<RouteView>,
    pub handled: usize,
    pub message_id: Seq<char>,
    pub task: TaskMessageView,
}

impl View for Pending {
    type V = PendingView;

    closed spec fn view(&self) -> PendingView {
        PendingView {
            routes: self.forwarder.routes(),
            handled: self.counter,
            message_id: self.message_id@,
            task: self.task@,
        }
    }
}

/// Where the loop stands after a step.
#[derive(Debug)]
pub enum Next {
    /// Take the next message.
    Idle(DispatchLoop),
    /// Wait for the call to return.
    Awaiting(Pending),
    /// Leave the loop; nothing went wrong that the loop would report.
    Finished,
    /// Leave the loop with this error.
    Failed(HandlerError),
}

/// The value of a [`Next`].
pub enum NextView {
    Idle(DispatchLoopView),
    Awaiting(PendingView),
    Finished,
    Failed(HandlerErrorView),
}

impl View for Next {
    type V = NextView;

    open spec fn view(&self) -> NextView {
        match self {
            Next::Idle(idle) => NextView::Idle(idle@),
            Next::Awaiting(pending) => NextView::Awaiting(pending@),
            Next::Finished => NextView::Finished,
            Next::Failed(e) => NextView::Failed(e@),
        }
    }
}

/// A step of the loop: what to do, in this order, and where the loop stands
/// when it is done.
#[derive(Debug)]
pub struct Step {
    pub actions: Vec<Action>,
    pub next: Next,
}

/// The value of a [`Step`].
pub struct StepView {
    pub actions: Seq<ActionView>,
    pub next: NextView,
}

impl View for Step {
    type V = StepView;

    open spec fn view(&self) -> StepView {
        StepView { actions: actions_view(self.actions@), next: self.next@ }
    }
}

/// The count of handled messages after one more. It stops at the largest
/// number that fits.
pub open spec fn bumped(handled: usize) -> usize {
    if handled < usize::MAX {
        (handled + 1) as usize
    } else {
        handled
    }
}

/// The loop between two messages, one message later.
pub open spec fn advanced(routes: Seq<RouteView>, handled: usize) -> NextView {
    NextView::Idle(DispatchLoopView { routes, handled: bumped(handled) })
}

/// The step for a delivery that holds no task message: the loop ends.
pub open spec fn undecodable_step(idle: DispatchLoopView, e: DecodeError) -> StepView {
    StepView {
        actions: seq![
            ActionView::Ack,
            ActionView::Log(LogRecordView::Undecodable(e)),
            ActionView::Log(LogRecordView::Finished { messages: idle.handled as nat }),
        ],
        next: NextView::Finished,
    }
}

/// The step for a task that no handler matches: the loop goes on.
pub open spec fn unrouted_step(idle: DispatchLoopView, task: TaskMessageView) -> StepView {
    StepView {
        actions: seq![ActionView::Ack, ActionView::Log(LogRecordView::Unrouted { task })],
        next: advanced(idle.routes, idle.handled),
    }
}

/// The step for a task that has a handler: the call is made.
pub open spec fn invoke_step(
    idle: DispatchLoopView,
    message_id: Seq<char>,
    task: TaskMessageView,
    call: HandlerCallView,
) -> StepView {
    StepView {
        actions: seq![ActionView::Ack, ActionView::Invoke(call)],
        next: NextView::Awaiting(
            PendingView { routes: idle.routes, handled: idle.handled, message_id, task },
        ),
    }
}

/// The step for a task whose call cannot be made: the loop ends with the
/// error.
pub open spec fn refused_step(e: HandlerErrorView) -> StepView {
    StepView { actions: seq![ActionView::Ack], next: NextView::Failed(e) }
}

/// The step for a delivery, given what was read from its payload. A
/// payload that holds no task ends the loop. A task without a handler is
/// logged. For a task with a handler the call is made, and only where the
/// writer gives up on the payload does the loop end with an error.
pub open spec fn task_step(
    idle: DispatchLoopView,
    message_id: Seq<char>,
    read: Result<TaskMessageView, DecodeError>,
) -> StepView {
    match read {
        Err(e) => undecodable_step(idle, e),
        Ok(task) => match planned(matched(idle.routes, task.task_type), task) {
            Ok(None) => unrouted_step(idle, task),
            Ok(Some(call)) => invoke_step(idle, message_id, task, call),
            Err(e) => refused_step(e),
        },
    }
}

/// The step for a delivery.
pub open spec fn delivery_step(idle: DispatchLoopView, delivery: DeliveryView) -> StepView {
    task_step(idle, delivery.message_id, payload_task(delivery.payload))
}

/// The publications of follow-on tasks, one for each and in their order.
pub open spec fn publications(tasks: Seq<TaskMessageView>) -> Seq<ActionView> {
    Seq::new(tasks.len(), |i: int| ActionView::Publish(publication_of(tasks[i])))
}

/// The step for an outcome of the handler.
pub open spec fn outcome_step(pending: PendingView, outcome: HandleResultView) -> StepView {
    match outcome {
        HandleResultView::Continue { status, tasks } => StepView {
            actions: publications(tasks).push(
                ActionView::Log(
                    LogRecordView::Continued {
                        message_id: pending.message_id,
                        task_type: pending.task.task_type,
                        status,
                        follow_ons: tasks.len(),
                    },
                ),
            ),
            next: advanced(pending.routes, pending.handled),
        },
        HandleResultView::ContinueUnparseable { status, text } => StepView {
            actions: seq![
                ActionView::Log(LogRecordView::Unparseable { task: pending.task, status, text }),
            ],
            next: advanced(pending.routes, pending.handled),
        },
    }
}

/// The step for what the forwarder made of a reply: that for the outcome,
/// or the end of the loop with the handler's error.
pub open spec fn completion_step(
    pending: PendingView,
    completion: Result<Option<HandleResultView>, HandlerErrorView>,
) -> StepView {
    match completion {
        Ok(Some(outcome)) => outcome_step(pending, outcome),
        Ok(None) => StepView {
            actions: seq![ActionView::Log(LogRecordView::Unrouted { task: pending.task })],
            next: advanced(pending.routes, pending.handled),
        },
        Err(e) => StepView { actions: Seq::empty(), next: NextView::Failed(e) },
    }
}

/// The step for what came back from a call.
pub open spec fn reply_step(pending: PendingView, reply: HandlerReplyView) -> StepView {
    completion_step(pending, completed(matched(pending.routes, pending.task.task_type), reply))
}

/// Whether an action hands something to the broker.
pub open spec fn publishes(action: ActionView) -> bool {
    action is Publish
}

/// Every follow-on task of a handler is published as the handler returned
/// it: the message on the bus has the type and the payload of the task.
pub proof fn lemma_follow_ons_published_unchanged(
    pending: PendingView,
    status: u16,
    tasks: Seq<TaskMessageView>,
    i: int,
)
    requires
        0 <= i < tasks.len(),
    ensures
        outcome_step(pending, HandleResultView::Continue { status, tasks }).actions[i]
            matches ActionView::Publish(p) && p.message == tasks[i] && p.message.task_type
            == tasks[i].task_type && p.message.task == tasks[i].task,
{
}

/// The follow-on tasks in a worker's answer are what the loop publishes,
/// each as it stands in the answer and in the order of the answer.
pub proof fn lemma_worker_tasks_published(
    pending: PendingView,
    endpoint: Seq<char>,
    status: u16,
    text: Seq<char>,
    tasks: Seq<TaskMessageView>,
    i: int,
)
    requires
        matched(pending.routes, pending.task.task_type) == Some(
            HandlerView::HttpEndpoint(endpoint),
        ),
        text_json(text) matches Some(j) && decoded_response(j) == Some(tasks),
        0 <= i < tasks.len(),
    ensures
        reply_step(pending, HandlerReplyView::Response { status, text }).actions[i]
            == ActionView::Publish(
            PublicationView { topic: tasks[i].task_type, message: tasks[i] },
        ),
{
}

/// The tasks that a script returns are what the loop publishes, each with
/// its type and with its map as the payload, in the order returned.
pub proof fn lemma_script_tasks_published(
    pending: PendingView,
    pipeline: Seq<char>,
    tasks: Seq<TrampolineTaskView>,
    i: int,
)
    requires
        matched(pending.routes, pending.task.task_type) == Some(HandlerView::Script(pipeline)),
        0 <= i < tasks.len(),
    ensures
        reply_step(pending, HandlerReplyView::Returned(tasks)).actions[i] == ActionView::Publish(
            PublicationView {
                topic: tasks[i].task_type,
                message: TaskMessageView {
                    task_type: tasks[i].task_type,
                    task: JsonView::Object(tasks[i].task),
                },
            },
        ),
{
}

/// Whatever the loop publishes for an outcome goes to the topic named like
/// the type of the published message.
pub proof fn lemma_topic_is_type(pending: PendingView, outcome: HandleResultView)
    ensures
        forall|i: int|
            0 <= i < outcome_step(pending, outcome).actions.len() ==> (#[trigger] outcome_step(
                pending,
                outcome,
            ).actions[i] matches ActionView::Publish(p) ==> p.topic == p.message.task_type),
{
}

/// An answer that is no list of tasks leads to no publication, and the loop
/// goes on.
pub proof fn lemma_unparseable_is_terminal(pending: PendingView, status: u16, text: Seq<char>)
    ensures
        ({
            let step = outcome_step(
                pending,
                HandleResultView::ContinueUnparseable { status, text },
            );
            &&& step.next is Idle
            &&& forall|i: int|
                0 <= i < step.actions.len() ==> !publishes(#[trigger] step.actions[i])
        }),
{
}

/// An empty list of follow-on tasks leads to no publication, and is no
/// error: the loop goes on.
pub proof fn lemma_empty_is_terminal(pending: PendingView, status: u16)
    ensures
        ({
            let step = outcome_step(
                pending,
                HandleResultView::Continue { status, tasks: Seq::empty() },
            );
            &&& step.next is Idle
            &&& forall|i: int|
                0 <= i < step.actions.len() ==> !publishes(#[trigger] step.actions[i])
        }),
{
}

/// The step for a delivery begins with the acknowledgement and publishes
/// nothing: only the follow-on tasks of a handler are published.
pub proof fn lemma_delivery_acknowledges_first(idle: DispatchLoopView, delivery: DeliveryView)
    ensures
        ({
            let step = delivery_step(idle, delivery);
            &&& step.actions.len() > 0
            &&& step.actions[0] is Ack
            &&& forall|i: int|
                0 <= i < step.actions.len() ==> !publishes(#[trigger] step.actions[i])
        }),
{
}

/// A task that has a handler and a payload that the writer writes is handed
/// to the handler: the step for it makes the call of the handler, after the
/// acknowledgement, and the loop waits for the reply.
pub proof fn lemma_routed_task_is_handed_on(
    idle: DispatchLoopView,
    message_id: Seq<char>,
    task: TaskMessageView,
    handler: HandlerView,
)
    requires
        matched(idle.routes, task.task_type) == Some(handler),
        written_json(task.task) is Some,
    ensures
        handler.call(task) is Some,
        task_step(idle, message_id, Ok(task)) == invoke_step(
            idle,
            message_id,
            task,
            handler.call(task)->0,
        ),
{
}

/// The word for a number of tasks in a log line.
pub fn task_noun(count: usize) -> (r: &'static str)
    ensures
        r@ == if count == 1 {
            "task"@
        } else {
            "tasks"@
        },
{
    if count == 1 {
        "task"
    } else {
        "tasks"
    }
}

/// The count of handled messages after one more.
fn bump(handled: usize) -> (r: usize)
    ensures
        r == bumped(handled),
{
    if handled < usize::MAX {
        handled + 1
    } else {
        handled
    }
}

impl DispatchLoop {
    /// A loop that has handled no message yet.
    pub fn new(forwarder: Forwarder) -> (r: DispatchLoop)
        ensures
            r@ == (DispatchLoopView { routes: forwarder.routes(), handled: 0 }),
    {
        DispatchLoop { forwarder, counter: 0 }
    }

    /// The number of messages handled so far.
    pub fn handled(&self) -> (r: usize)
        ensures
            r == self@.handled,
    {
        self.counter
    }

    /// The step for a message that the broker delivers.
    pub fn on_delivery(self, delivery: Delivery) -> (step: Step)
        ensures
            step@ == delivery_step(self@, delivery@),
    {
        let Delivery { message_id, payload } = delivery;
        let read = DynamicTaskMessage::deserialize_message(payload.as_slice());
        self.on_task(message_id, read)
    }

    /// The step for a delivery, given what was read from its payload.
    pub fn on_task(
        self,
        message_id: String,
        read: Result<DynamicTaskMessage, DecodeError>,
    ) -> (step: Step)
        ensures
            step@ == task_step(self@, message_id@, read_view(read)),
    {
        let mut actions: Vec<Action> = Vec::new();
        actions.push(Action::Ack);
        let task = match read {
            Ok(task) => task,
            Err(e) => {
                actions.push(Action::Log(LogRecord::Undecodable(e)));
                actions.push(Action::Log(LogRecord::Finished { messages: self.counter }));
                let step = Step { actions, next: Next::Finished };
                assert(step@.actions =~= undecodable_step(self@, e).actions);
                return step;
            },
        };
        match self.forwarder.process(&task) {
            Ok(None) => {
                let ghost view = task@;
                actions.push(Action::Log(LogRecord::Unrouted { task }));
                let next = Next::Idle(
                    DispatchLoop { forwarder: self.forwarder, counter: bump(self.counter) },
                );
                let step = Step { actions, next };
                assert(step@.actions =~= unrouted_step(self@, view).actions);
                step
            },
            Ok(Some(call)) => {
                let ghost made = call@;
                actions.push(Action::Invoke(call));
                let next = Next::Awaiting(
                    Pending {
                        forwarder: self.forwarder,
                        counter: self.counter,
                        message_id,
                        task,
                    },
                );
                let step = Step { actions, next };
                assert(step@.actions =~= invoke_step(self@, message_id@, task@, made).actions);
                step
            },
            Err(e) => {
                let step = Step { actions, next: Next::Failed(e) };
                assert(step@.actions =~= refused_step(e@).actions);
                step
            },
        }
    }

    /// The step for the end of the stream of messages.
    pub fn on_end(self) -> (step: Step)
        ensures
            step@ == (StepView {
                actions: seq![
                    ActionView::Log(LogRecordView::Finished { messages: self@.handled as nat }),
                ],
                next: NextView::Finished,
            }),
    {
        let mut actions: Vec<Action> = Vec::new();
        actions.push(Action::Log(LogRecord::Finished { messages: self.counter }));
        let step = Step { actions, next: Next::Finished };
        assert(step@.actions =~= seq![
            ActionView::Log(LogRecordView::Finished { messages: self@.handled as nat }),
        ]);
        step
    }
}

impl Pending {
    /// The task that the handler is at work on.
    pub fn task(&self) -> (r: &DynamicTaskMessage)
        ensures
            r@ == self@.task,
    {
        &self.task
    }

    /// The step for what came back from the call.
    pub fn on_reply(self, reply: HandlerReply) -> (step: Step)
        ensures
            step@ == reply_step(self@, reply@),
    {
        let completion = self.forwarder.complete(&self.task, reply);
        self.on_outcome(completion)
    }

    /// The step for what the forwarder made of the reply.
    pub fn on_outcome(self, completion: Result<Option<HandleResult>, HandlerError>) -> (step: Step)
        ensures
            step@ == completion_step(self@, completion_view(completion)),
    {
        let Pending { forwarder, counter, message_id, task } = self;
        match completion {
            Err(e) => {
                let step = Step { actions: Vec::new(), next: Next::Failed(e) };
                assert(step@.actions =~= Seq::empty());
                step
            },
            Ok(None) => {
                let mut actions: Vec<Action> = Vec::new();
                actions.push(Action::Log(LogRecord::Unrouted { task }));
                let next = Next::Idle(DispatchLoop { forwarder, counter: bump(counter) });
                let step = Step { actions, next };
                assert(step@.actions =~= completion_step(
                    self@,
                    completion_view(completion),
                ).actions);
                step
            },
            Ok(Some(HandleResult::ContinueUnparseable { status, text })) => {
                let mut actions: Vec<Action> = Vec::new();
                actions.push(Action::Log(LogRecord::Unparseable { task, status, text }));
                let next = Next::Idle(DispatchLoop { forwarder, counter: bump(counter) });
                let step = Step { actions, next };
                assert(step@.actions =~= completion_step(
                    self@,
                    completion_view(completion),
                ).actions);
                step
            },
            Ok(Some(HandleResult::Continue { status, response })) => {
                let ghost tasks = response@;
                let ghost all = response.tasks@;
                let follow_ons: usize = response.tasks.len();
                let mut actions: Vec<Action> = Vec::new();
                for follow_on in it: response.tasks
                    invariant
                        it.seq() == all,
                        tasks == messages_view(all),
                        actions.len() == it.index(),
                        forall|k: int|
                            0 <= k < actions.len() ==> (#[trigger] actions@[k])@
                                == ActionView::Publish(publication_of(tasks[k])),
                {
                    actions.push(Action::Publish(Publication::of(follow_on)));
                }
                actions.push(
                    Action::Log(
                        LogRecord::Continued {
                            message_id,
                            task_type: task.task_type,
                            status,
                            follow_ons,
                        },
                    ),
                );
                let next = Next::Idle(DispatchLoop { forwarder, counter: bump(counter) });
                let step = Step { actions, next };
                assert(step@.actions =~= completion_step(
                    self@,
                    completion_view(completion),
                ).actions);
                step
            },
        }
    }
}

} // verus!
