use dispatcher::data::DynamicTaskMessage;
use dispatcher::handler::{
    HandleResult, Handler, HandlerCall, HandlerError, HandlerReply, WorkerResponse,
};
use dispatcher::json::Json;
use dispatcher::script::{
    Capability, HostField, HostModule, HostType, RuneScript, ScriptRun, TrampolineTask,
};
use dispatcher::worker::{HttpPost, Worker};

fn json(source: &str) -> Json {
    Json::parse(source).unwrap()
}

fn message(task_type: &str, task: &str) -> DynamicTaskMessage {
    DynamicTaskMessage { task_type: task_type.to_string(), task: json(task) }
}

fn unparseable(status: u16, text: &str) -> HandleResult {
    HandleResult::ContinueUnparseable { status, text: text.to_string() }
}

fn continues(status: u16, tasks: Vec<DynamicTaskMessage>) -> HandleResult {
    HandleResult::Continue { status, response: WorkerResponse { tasks } }
}

#[test]
fn the_request_carries_the_payload_and_not_the_message() {
    let worker = Worker { endpoint: "http://w/a".to_string() };
    assert_eq!(
        worker.request(&message("A", "{\"n\":1,\"deep\":[\"x\"]}")),
        Ok(HttpPost {
            url: "http://w/a".to_string(),
            content_type: "application/json".to_string(),
            body: "{\"deep\":[\"x\"],\"n\":1}".to_string(),
        })
    );
}

#[test]
fn the_request_for_a_null_payload_has_the_body_null() {
    let worker = Worker { endpoint: "http://w/a".to_string() };
    let post = worker.request(&message("type", "null")).unwrap();
    assert_eq!(post.body, "null");
}

#[test]
fn a_list_of_tasks_continues_with_them() {
    assert_eq!(
        Worker::interpret(
            200,
            "{\"tasks\":[{\"type\":\"B\",\"task\":{\"n\":1}},{\"type\":\"C\",\"task\":[]}]}"
                .to_string()
        ),
        continues(200, vec![message("B", "{\"n\":1}"), message("C", "[]")])
    );
}

#[test]
fn an_empty_list_of_tasks_continues_with_none() {
    assert_eq!(Worker::interpret(200, "{\"tasks\":[]}".to_string()), continues(200, vec![]));
}

#[test]
fn the_status_is_handed_on_unread() {
    assert_eq!(Worker::interpret(500, "{\"tasks\":[]}".to_string()), continues(500, vec![]));
    assert_eq!(Worker::interpret(404, "gone".to_string()), unparseable(404, "gone"));
    assert_eq!(Worker::interpret(0, "".to_string()), unparseable(0, ""));
}

#[test]
fn a_body_that_is_not_json_is_kept_as_it_came() {
    assert_eq!(Worker::interpret(200, "not json".to_string()), unparseable(200, "not json"));
}

#[test]
fn a_body_of_another_shape_is_kept_as_it_came() {
    for body in [
        "{}",
        "[]",
        "null",
        "{\"tasks\":{}}",
        "{\"tasks\":null}",
        "{\"tasks\":[1]}",
        "{\"tasks\":[{\"task\":{}}]}",
        "{\"tasks\":[{\"type\":\"A\",\"task\":1},{\"type\":2,\"task\":1}]}",
        "{\"Tasks\":[]}",
    ] {
        assert_eq!(Worker::interpret(200, body.to_string()), unparseable(200, body));
    }
}

#[test]
fn other_members_of_a_response_are_ignored() {
    assert_eq!(
        Worker::interpret(201, "{\"note\":1,\"tasks\":[{\"type\":\"B\",\"x\":0}]}".to_string()),
        continues(201, vec![DynamicTaskMessage { task_type: "B".to_string(), task: Json::Null }])
    );
}

#[test]
fn classify_goes_by_the_document_it_is_given() {
    assert_eq!(Worker::classify(200, "kept".to_string(), None), unparseable(200, "kept"));
    assert_eq!(
        Worker::classify(200, "kept".to_string(), Some(json("{\"tasks\":[]}"))),
        continues(200, vec![])
    );
    assert_eq!(
        Worker::classify(200, "kept".to_string(), Some(json("{\"tasks\":7}"))),
        unparseable(200, "kept")
    );
}

#[test]
fn a_response_is_read_from_a_document() {
    assert_eq!(
        WorkerResponse::from_json(&json("{\"tasks\":[{\"type\":\"T\",\"task\":true}]}")),
        Some(WorkerResponse { tasks: vec![message("T", "true")] })
    );
    assert_eq!(WorkerResponse::from_json(&json("{\"tasks\":[{}]}")), None);
    assert_eq!(WorkerResponse::from_json(&json("7")), None);
}

#[test]
fn the_trampoline_module_holds_the_task_type() {
    assert_eq!(
        RuneScript::trampoline_module(),
        HostModule {
            types: vec![HostType {
                name: "TrampolineTask".to_string(),
                constructor: true,
                fields: vec![
                    HostField { name: "type_name".to_string(), readable: true, writable: true },
                    HostField { name: "task".to_string(), readable: true, writable: true },
                ],
            }],
        }
    );
}

#[test]
fn a_script_is_entered_at_handle_with_type_and_payload() {
    let script = RuneScript { pipeline: "script.rn".to_string() };
    assert_eq!(
        script.entry(&message("S", "{\"k\":[1,2]}")),
        Ok(ScriptRun {
            pipeline: "script.rn".to_string(),
            function: "handle".to_string(),
            task_type: "S".to_string(),
            task_json: "{\"k\":[1,2]}".to_string(),
        })
    );
}

#[test]
fn a_script_task_becomes_a_message_of_its_type() {
    let task = TrampolineTask {
        task_type: "T".to_string(),
        task: vec![("i".to_string(), json("0")), ("j".to_string(), json("[]"))],
    };
    assert_eq!(RuneScript::to_message(task), message("T", "{\"i\":0,\"j\":[]}"));
}

#[test]
fn a_script_task_with_an_empty_map_becomes_an_empty_object() {
    let task = TrampolineTask { task_type: "T".to_string(), task: vec![] };
    assert_eq!(RuneScript::to_message(task), message("T", "{}"));
}

#[test]
fn the_tasks_of_a_script_continue_with_status_200() {
    let tasks = vec![
        TrampolineTask { task_type: "T".to_string(), task: vec![("i".to_string(), json("0"))] },
        TrampolineTask { task_type: "U".to_string(), task: vec![("i".to_string(), json("1"))] },
    ];
    assert_eq!(
        RuneScript::collect(tasks),
        continues(200, vec![message("T", "{\"i\":0}"), message("U", "{\"i\":1}")])
    );
    assert_eq!(RuneScript::collect(vec![]), continues(200, vec![]));
}

#[test]
fn a_handler_asks_for_the_call_of_its_kind() {
    let worker = Handler::HttpEndpoint(Worker { endpoint: "http://w/a".to_string() });
    let script = Handler::Script(RuneScript { pipeline: "s.rn".to_string() });
    let task = message("A", "[1]");
    assert!(matches!(worker.call(&task), Ok(HandlerCall::Post(post)) if post.body == "[1]"));
    assert!(matches!(script.call(&task), Ok(HandlerCall::Run(run)) if run.task_json == "[1]"));
}

#[test]
fn a_handler_reads_the_reply_of_its_kind() {
    let worker = Handler::HttpEndpoint(Worker { endpoint: "http://w/a".to_string() });
    let script = Handler::Script(RuneScript { pipeline: "s.rn".to_string() });
    assert_eq!(
        worker.settle(HandlerReply::Response { status: 200, text: "{\"tasks\":[]}".to_string() }),
        Ok(continues(200, vec![]))
    );
    assert_eq!(
        worker.settle(HandlerReply::Response { status: 200, text: "?".to_string() }),
        Ok(unparseable(200, "?"))
    );
    assert_eq!(script.settle(HandlerReply::Returned(vec![])), Ok(continues(200, vec![])));
}

#[test]
fn a_call_that_did_not_complete_is_a_transport_error() {
    let worker = Handler::HttpEndpoint(Worker { endpoint: "http://w/a".to_string() });
    let script = Handler::Script(RuneScript { pipeline: "s.rn".to_string() });
    assert_eq!(
        worker.settle(HandlerReply::Failed("connection refused".to_string())),
        Err(HandlerError::Transport("connection refused".to_string()))
    );
    assert_eq!(
        script.settle(HandlerReply::Failed("vm".to_string())),
        Err(HandlerError::Transport("vm".to_string()))
    );
}

#[test]
fn an_error_that_a_script_reports_is_a_script_error() {
    let script = Handler::Script(RuneScript { pipeline: "s.rn".to_string() });
    assert_eq!(
        script.settle(HandlerReply::ScriptFailed("bad input".to_string())),
        Err(HandlerError::Script("bad input".to_string()))
    );
}

#[test]
fn a_reply_of_the_other_kind_is_refused() {
    let worker = Handler::HttpEndpoint(Worker { endpoint: "http://w/a".to_string() });
    let script = Handler::Script(RuneScript { pipeline: "s.rn".to_string() });
    assert_eq!(worker.settle(HandlerReply::Returned(vec![])), Err(HandlerError::UnexpectedReply));
    assert_eq!(
        worker.settle(HandlerReply::ScriptFailed("x".to_string())),
        Err(HandlerError::UnexpectedReply)
    );
    assert_eq!(
        script.settle(HandlerReply::Response { status: 200, text: "{\"tasks\":[]}".to_string() }),
        Err(HandlerError::UnexpectedReply)
    );
}

#[test]
fn two_handlers_are_the_same_where_kind_and_target_agree() {
    let a = Handler::HttpEndpoint(Worker { endpoint: "http://w/a".to_string() });
    let b = Handler::HttpEndpoint(Worker { endpoint: "http://w/b".to_string() });
    let s = Handler::Script(RuneScript { pipeline: "http://w/a".to_string() });
    assert!(a.same(&a.clone()));
    assert!(!a.same(&b));
    assert!(!a.same(&s));
    assert!(s.same(&s.clone()));
}

#[test]
fn a_post_goes_to_the_endpoint_as_json() {
    let worker = Worker { endpoint: "http://w/a".to_string() };
    assert_eq!(
        worker.post("{\"k\":1}".to_string()),
        HttpPost {
            url: "http://w/a".to_string(),
            content_type: "application/json".to_string(),
            body: "{\"k\":1}".to_string(),
        }
    );
    assert_eq!(worker.post(String::new()).body, "");
}

#[test]
fn a_run_enters_the_script_at_handle() {
    let script = RuneScript { pipeline: "dir/s.rn".to_string() };
    assert_eq!(
        script.run("S".to_string(), "[]".to_string()),
        ScriptRun {
            pipeline: "dir/s.rn".to_string(),
            function: "handle".to_string(),
            task_type: "S".to_string(),
            task_json: "[]".to_string(),
        }
    );
}

#[test]
fn every_script_is_given_the_same_four_capabilities() {
    assert_eq!(
        RuneScript::capabilities(),
        vec![Capability::Default, Capability::Http, Capability::Json, Capability::Trampoline]
    );
}
