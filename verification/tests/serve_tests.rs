use dispatcher::data::{DecodeError, DynamicTaskMessage};
use dispatcher::json::Json;
use dispatcher::producer::Publication;
use dispatcher::serve::{health, respond, submit_dynamic_task, submit_task, IngressResponse};

fn message(task_type: &str, task: &str) -> DynamicTaskMessage {
    DynamicTaskMessage { task_type: task_type.to_string(), task: Json::parse(task).unwrap() }
}

#[test]
fn a_raw_submission_is_published_as_it_is() {
    let publication = submit_dynamic_task(b"{\"type\":\"A\",\"task\":{}}").unwrap();
    assert_eq!(publication.topic(), "A");
    assert_eq!(publication.message(), &message("A", "{}"));
}

#[test]
fn a_raw_submission_that_is_no_message_is_refused() {
    assert_eq!(submit_dynamic_task(b"{"), Err(DecodeError::InvalidJson));
    assert_eq!(submit_dynamic_task(b"{\"task\":{}}"), Err(DecodeError::MissingType));
}

#[test]
fn a_typed_submission_wraps_the_body() {
    let publication = submit_task("Foo".to_string(), b"{\"x\":1}").unwrap();
    assert_eq!(publication.topic(), "Foo");
    assert_eq!(publication.message(), &message("Foo", "{\"x\":1}"));
    assert_eq!(
        publication.payload(),
        Ok(b"{\"type\":\"Foo\",\"task\":{\"x\":1}}".to_vec())
    );
}

#[test]
fn a_typed_submission_takes_any_json() {
    for body in ["null", "7", "\"s\"", "[1,2]", "{\"type\":\"inner\"}"] {
        let publication = submit_task("Foo".to_string(), body.as_bytes()).unwrap();
        assert_eq!(publication.topic(), "Foo");
        assert_eq!(publication.message().task, Json::parse(body).unwrap());
    }
}

#[test]
fn a_typed_submission_that_is_not_json_is_refused() {
    assert_eq!(submit_task("Foo".to_string(), b"x=1"), Err(DecodeError::InvalidJson));
    assert_eq!(submit_task("Foo".to_string(), b""), Err(DecodeError::InvalidJson));
}

#[test]
fn the_topic_of_a_publication_is_the_type_of_its_message() {
    for task_type in ["A", "", "a/b", "persistent://tenant/ns/topic", "\u{e9}"] {
        let publication = Publication::of(message(task_type, "{}"));
        assert_eq!(publication.topic(), task_type);
        assert_eq!(publication.topic(), &publication.message().task_type);
        assert_eq!(publication.into_message(), message(task_type, "{}"));
    }
}

#[test]
fn a_published_submission_is_answered_with_success() {
    let answer = respond(true);
    assert_eq!(
        answer,
        IngressResponse {
            status: 200,
            body: Some(Json::Object(vec![("successful".to_string(), Json::Bool(true))])),
        }
    );
    assert_eq!(answer.body.unwrap().print(), Some("{\"successful\":true}".to_string()));
}

#[test]
fn a_failed_publication_is_answered_with_500_and_no_body() {
    assert_eq!(respond(false), IngressResponse { status: 500, body: None });
}

#[test]
fn the_health_probe_answers_with_a_fixed_text() {
    assert_eq!(health(), "Hello, World!");
}
