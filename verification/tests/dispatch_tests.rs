use dispatcher::config::{Select, TaskWorker};
use dispatcher::data::{DecodeError, DynamicTaskMessage};
use dispatcher::dispatch::{task_noun, Action, Delivery, DispatchLoop, LogRecord, Next, Pending};
use dispatcher::forwarder::Forwarder;
use dispatcher::handler::{
    HandleResult, HandlerCall, HandlerError, HandlerReply, WorkerResponse,
};
use dispatcher::handler_repo::HandlerRepo;
use dispatcher::json::Json;
use dispatcher::producer::Publication;
use dispatcher::script::ScriptRun;
use dispatcher::worker::HttpPost;

fn endpoint(task_type: &str, url: &str) -> TaskWorker {
    TaskWorker {
        task_selector: Select { task_type: task_type.to_string() },
        endpoint: Some(url.to_string()),
        pipeline: None,
    }
}

fn pipeline(task_type: &str, path: &str) -> TaskWorker {
    TaskWorker {
        task_selector: Select { task_type: task_type.to_string() },
        endpoint: None,
        pipeline: Some(path.to_string()),
    }
}

fn forwarder(config: &[TaskWorker]) -> Forwarder {
    Forwarder::new(HandlerRepo::new(config).unwrap())
}

fn fresh(config: &[TaskWorker]) -> DispatchLoop {
    DispatchLoop::new(forwarder(config))
}

fn message(task_type: &str, task: &str) -> DynamicTaskMessage {
    DynamicTaskMessage { task_type: task_type.to_string(), task: Json::parse(task).unwrap() }
}

fn delivery(id: &str, payload: &str) -> Delivery {
    Delivery { message_id: id.to_string(), payload: payload.as_bytes().to_vec() }
}

fn response(status: u16, text: &str) -> HandlerReply {
    HandlerReply::Response { status, text: text.to_string() }
}

fn post(url: &str, body: &str) -> Action {
    Action::Invoke(HandlerCall::Post(HttpPost {
        url: url.to_string(),
        content_type: "application/json".to_string(),
        body: body.to_string(),
    }))
}

fn idle(next: Next) -> DispatchLoop {
    match next {
        Next::Idle(idle) => idle,
        _ => panic!("the loop does not go on"),
    }
}

fn awaiting(next: Next) -> Pending {
    match next {
        Next::Awaiting(pending) => pending,
        _ => panic!("the loop does not wait for a call"),
    }
}

#[test]
fn a_new_loop_has_handled_nothing() {
    assert_eq!(fresh(&[]).handled(), 0);
}

#[test]
fn a_delivery_is_acknowledged_before_its_handler_is_called() {
    let step = fresh(&[endpoint("A", "http://w/a")])
        .on_delivery(delivery("t:1:2:-1", "{\"type\":\"A\",\"task\":{\"k\":1}}"));
    assert_eq!(step.actions, vec![Action::Ack, post("http://w/a", "{\"k\":1}")]);
    assert!(matches!(step.next, Next::Awaiting(_)));
}

#[test]
fn a_task_for_a_script_asks_for_a_run() {
    let step = fresh(&[pipeline("S", "script.rn")])
        .on_delivery(delivery("id", "{\"type\":\"S\",\"task\":[1]}"));
    assert_eq!(
        step.actions,
        vec![
            Action::Ack,
            Action::Invoke(HandlerCall::Run(ScriptRun {
                pipeline: "script.rn".to_string(),
                function: "handle".to_string(),
                task_type: "S".to_string(),
                task_json: "[1]".to_string(),
            })),
        ]
    );
}

#[test]
fn a_task_without_a_handler_is_acknowledged_and_logged() {
    let step = fresh(&[endpoint("A", "http://w/a")])
        .on_delivery(delivery("id", "{\"type\":\"Z\",\"task\":{}}"));
    assert_eq!(
        step.actions,
        vec![Action::Ack, Action::Log(LogRecord::Unrouted { task: message("Z", "{}") })]
    );
    assert_eq!(idle(step.next).handled(), 1);
}

#[test]
fn a_delivery_that_is_not_json_ends_the_loop() {
    let step = fresh(&[endpoint("A", "http://w/a")]).on_delivery(delivery("id", "not json"));
    assert_eq!(
        step.actions,
        vec![
            Action::Ack,
            Action::Log(LogRecord::Undecodable(DecodeError::InvalidJson)),
            Action::Log(LogRecord::Finished { messages: 0 }),
        ]
    );
    assert!(matches!(step.next, Next::Finished));
}

#[test]
fn a_delivery_without_a_type_ends_the_loop() {
    let step = fresh(&[endpoint("A", "http://w/a")]).on_delivery(delivery("id", "{\"task\":1}"));
    assert_eq!(
        step.actions,
        vec![
            Action::Ack,
            Action::Log(LogRecord::Undecodable(DecodeError::MissingType)),
            Action::Log(LogRecord::Finished { messages: 0 }),
        ]
    );
    assert!(matches!(step.next, Next::Finished));
}

#[test]
fn follow_on_tasks_are_published_unchanged_on_the_topic_of_their_type() {
    let pending = awaiting(
        fresh(&[endpoint("A", "http://w/a")])
            .on_delivery(delivery("t:7:8:0", "{\"type\":\"A\",\"task\":{}}"))
            .next,
    );
    let step = pending.on_reply(response(
        200,
        "{\"tasks\":[{\"type\":\"B\",\"task\":{\"n\":1}},{\"type\":\"C\",\"task\":\"x\"}]}",
    ));
    assert_eq!(
        step.actions,
        vec![
            Action::Publish(Publication::of(message("B", "{\"n\":1}"))),
            Action::Publish(Publication::of(message("C", "\"x\""))),
            Action::Log(LogRecord::Continued {
                message_id: "t:7:8:0".to_string(),
                task_type: "A".to_string(),
                status: 200,
                follow_ons: 2,
            }),
        ]
    );
    for action in &step.actions {
        if let Action::Publish(publication) = action {
            assert_eq!(publication.topic(), &publication.message().task_type);
        }
    }
    assert_eq!(idle(step.next).handled(), 1);
}

#[test]
fn an_empty_list_of_follow_on_tasks_publishes_nothing_and_goes_on() {
    let pending = awaiting(
        fresh(&[endpoint("A", "http://w/a")])
            .on_delivery(delivery("id", "{\"type\":\"A\",\"task\":{}}"))
            .next,
    );
    let step = pending.on_reply(response(200, "{\"tasks\":[]}"));
    assert_eq!(
        step.actions,
        vec![Action::Log(LogRecord::Continued {
            message_id: "id".to_string(),
            task_type: "A".to_string(),
            status: 200,
            follow_ons: 0,
        })]
    );
    assert_eq!(idle(step.next).handled(), 1);
}

#[test]
fn an_answer_that_is_no_list_of_tasks_publishes_nothing_and_goes_on() {
    let pending = awaiting(
        fresh(&[endpoint("A", "http://w/a")])
            .on_delivery(delivery("id", "{\"type\":\"A\",\"task\":{\"p\":0}}"))
            .next,
    );
    let step = pending.on_reply(response(200, "not json"));
    assert_eq!(
        step.actions,
        vec![Action::Log(LogRecord::Unparseable {
            task: message("A", "{\"p\":0}"),
            status: 200,
            text: "not json".to_string(),
        })]
    );
    assert_eq!(idle(step.next).handled(), 1);
}

#[test]
fn a_call_that_did_not_complete_ends_the_loop_with_the_error() {
    let pending = awaiting(
        fresh(&[endpoint("A", "http://w/a")])
            .on_delivery(delivery("id", "{\"type\":\"A\",\"task\":{}}"))
            .next,
    );
    let step = pending.on_reply(HandlerReply::Failed("connection refused".to_string()));
    assert_eq!(step.actions, vec![]);
    assert!(matches!(
        step.next,
        Next::Failed(HandlerError::Transport(reason)) if reason == "connection refused"
    ));
}

#[test]
fn an_error_of_the_script_ends_the_loop_with_the_error() {
    let pending = awaiting(
        fresh(&[pipeline("S", "s.rn")])
            .on_delivery(delivery("id", "{\"type\":\"S\",\"task\":{}}"))
            .next,
    );
    let step = pending.on_reply(HandlerReply::ScriptFailed("no".to_string()));
    assert_eq!(step.actions, vec![]);
    assert!(matches!(step.next, Next::Failed(HandlerError::Script(reason)) if reason == "no"));
}

#[test]
fn the_end_of_the_stream_reports_the_count() {
    let after_one = idle(
        fresh(&[]).on_delivery(delivery("id", "{\"type\":\"Z\",\"task\":{}}")).next,
    );
    let after_two =
        idle(after_one.on_delivery(delivery("id", "{\"type\":\"Y\",\"task\":{}}")).next);
    let step = after_two.on_end();
    assert_eq!(step.actions, vec![Action::Log(LogRecord::Finished { messages: 2 })]);
    assert!(matches!(step.next, Next::Finished));
}

#[test]
fn the_forwarder_names_the_call_of_the_matching_handler() {
    let forwarder = forwarder(&[endpoint("A", "http://w/a"), pipeline("S", "s.rn")]);
    assert_eq!(
        forwarder.process(&message("A", "7")),
        Ok(Some(HandlerCall::Post(HttpPost {
            url: "http://w/a".to_string(),
            content_type: "application/json".to_string(),
            body: "7".to_string(),
        })))
    );
    assert_eq!(forwarder.process(&message("Z", "7")), Ok(None));
}

#[test]
fn the_forwarder_hands_on_the_outcome_of_the_handler() {
    let forwarder = forwarder(&[endpoint("A", "http://w/a")]);
    assert_eq!(
        forwarder.complete(&message("A", "7"), response(202, "{\"tasks\":[]}")),
        Ok(Some(HandleResult::Continue { status: 202, response: WorkerResponse { tasks: vec![] } }))
    );
    assert_eq!(forwarder.complete(&message("Z", "7"), response(202, "{\"tasks\":[]}")), Ok(None));
    assert_eq!(
        forwarder.complete(&message("A", "7"), HandlerReply::Failed("down".to_string())),
        Err(HandlerError::Transport("down".to_string()))
    );
}

#[test]
fn the_forwarder_routes_like_its_registry() {
    let forwarder = forwarder(&[endpoint("A", "http://w/1"), endpoint("A", "http://w/2")]);
    let task = message("A", "null");
    assert_eq!(forwarder.route(&task), forwarder.handlers().match_handler(&task));
    assert!(forwarder.route(&task).is_some());
    assert_eq!(forwarder.route(&message("B", "null")), None);
}

#[test]
fn one_task_is_a_task_and_any_other_number_are_tasks() {
    assert_eq!(task_noun(0), "tasks");
    assert_eq!(task_noun(1), "task");
    assert_eq!(task_noun(2), "tasks");
    assert_eq!(task_noun(usize::MAX), "tasks");
}

#[test]
fn a_step_goes_by_what_was_read_from_the_payload() {
    let step = fresh(&[endpoint("A", "http://w/a")])
        .on_task("id".to_string(), Err(DecodeError::MissingType));
    assert_eq!(
        step.actions,
        vec![
            Action::Ack,
            Action::Log(LogRecord::Undecodable(DecodeError::MissingType)),
            Action::Log(LogRecord::Finished { messages: 0 }),
        ]
    );
    let step = fresh(&[endpoint("A", "http://w/a")])
        .on_task("id".to_string(), Ok(message("A", "[]")));
    assert_eq!(step.actions, vec![Action::Ack, post("http://w/a", "[]")]);
    let step =
        fresh(&[endpoint("A", "http://w/a")]).on_task("id".to_string(), Ok(message("B", "[]")));
    assert_eq!(
        step.actions,
        vec![Action::Ack, Action::Log(LogRecord::Unrouted { task: message("B", "[]") })]
    );
}

#[test]
fn a_step_goes_by_the_outcome_of_the_handler() {
    let pending = || {
        awaiting(
            fresh(&[endpoint("A", "http://w/a")])
                .on_task("id".to_string(), Ok(message("A", "{}")))
                .next,
        )
    };
    let step = pending().on_outcome(Ok(Some(HandleResult::Continue {
        status: 299,
        response: WorkerResponse { tasks: vec![message("X", "1"), message("X", "2")] },
    })));
    assert_eq!(
        step.actions,
        vec![
            Action::Publish(Publication::of(message("X", "1"))),
            Action::Publish(Publication::of(message("X", "2"))),
            Action::Log(LogRecord::Continued {
                message_id: "id".to_string(),
                task_type: "A".to_string(),
                status: 299,
                follow_ons: 2,
            }),
        ]
    );
    assert_eq!(idle(step.next).handled(), 1);

    let step = pending().on_outcome(Ok(Some(HandleResult::ContinueUnparseable {
        status: 500,
        text: "oops".to_string(),
    })));
    assert_eq!(
        step.actions,
        vec![Action::Log(LogRecord::Unparseable {
            task: message("A", "{}"),
            status: 500,
            text: "oops".to_string(),
        })]
    );
    assert_eq!(idle(step.next).handled(), 1);

    let step = pending().on_outcome(Ok(None));
    assert_eq!(
        step.actions,
        vec![Action::Log(LogRecord::Unrouted { task: message("A", "{}") })]
    );
    assert_eq!(idle(step.next).handled(), 1);

    let step = pending().on_outcome(Err(HandlerError::UnexpectedReply));
    assert_eq!(step.actions, vec![]);
    assert!(matches!(step.next, Next::Failed(HandlerError::UnexpectedReply)));
}

#[test]
fn the_loop_knows_the_task_that_it_waits_for() {
    let pending = awaiting(
        fresh(&[endpoint("A", "http://w/a")])
            .on_delivery(delivery("id", "{\"type\":\"A\",\"task\":{\"k\":[1]}}"))
            .next,
    );
    assert_eq!(pending.task(), &message("A", "{\"k\":[1]}"));
}

#[test]
fn every_task_with_a_handler_is_handed_to_it() {
    for payload in ["null", "1.5", "\"s\"", "[]", "{\"a\":{\"b\":[null,true]}}"] {
        let step = fresh(&[endpoint("A", "http://w/a"), pipeline("S", "s.rn")])
            .on_task("id".to_string(), Ok(message("A", payload)));
        assert_eq!(step.actions, vec![Action::Ack, post("http://w/a", payload)]);
        let forwarder = forwarder(&[pipeline("S", "s.rn")]);
        assert!(matches!(
            forwarder.process(&message("S", payload)),
            Ok(Some(HandlerCall::Run(run))) if run.task_json == payload && run.task_type == "S"
        ));
    }
}
