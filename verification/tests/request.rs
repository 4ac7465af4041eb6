use yt_api::videos::{
    Action, Diagnostic, Error, Event, Json, Phase, Problem, SchemaError, Videos,
};
use yt_api::ApiKey;

const BODY: &str = "{\"kind\":\"youtube#videoListResponse\",\"etag\":\"e\",\
\"pageInfo\":{\"totalResults\":0,\"resultsPerPage\":0},\"items\":[]}";

fn in_flight() -> Videos {
    let mut request = Videos::new(ApiKey::new("ABC")).id("DnJgoWDxG2A");
    assert!(matches!(request.advance(Event::Poll), Action::Get(_)));
    request
}

#[test]
fn a_new_request_is_unstarted() {
    assert_eq!(Videos::new(ApiKey::new("ABC")).phase(), Phase::Unstarted);
    assert_eq!(Videos::new(ApiKey::new("ABC")).id("x").phase(), Phase::Unstarted);
}

#[test]
fn later_polls_wait_and_ask_for_no_second_get() {
    let mut request = in_flight();
    for _ in 0..3 {
        assert!(matches!(request.advance(Event::Poll), Action::Wait));
        assert_eq!(request.phase(), Phase::InFlight);
    }
}

#[test]
fn a_body_that_is_an_answer_completes_the_request() {
    let mut request = in_flight();
    match request.advance(Event::Body(String::from(BODY))) {
        Action::Yield(Ok(response)) => {
            assert_eq!(response.kind, "youtube#videoListResponse");
            assert!(response.items.is_empty());
        }
        other => panic!("{:?}", other),
    }
    assert_eq!(request.phase(), Phase::Completed);
}

#[test]
fn a_completed_request_ignores_every_event() {
    let mut request = in_flight();
    assert!(matches!(request.advance(Event::Body(String::from(BODY))), Action::Yield(Ok(_))));
    assert!(matches!(request.advance(Event::Poll), Action::Ignore));
    assert!(matches!(request.advance(Event::Body(String::from(BODY))), Action::Ignore));
    assert!(matches!(request.advance(Event::Failure(String::from("late"))), Action::Ignore));
    assert_eq!(request.phase(), Phase::Completed);
}

#[test]
fn a_transport_failure_yields_a_connection_error() {
    let mut request = in_flight();
    match request.advance(Event::Failure(String::from("connection refused"))) {
        Action::Yield(Err(Error::Connection { string })) => {
            assert_eq!(string, "connection refused")
        }
        other => panic!("{:?}", other),
    }
    assert_eq!(request.phase(), Phase::Failed);
}

#[test]
fn a_failed_request_never_retries() {
    let mut request = in_flight();
    assert!(matches!(
        request.advance(Event::Failure(String::from("connection refused"))),
        Action::Yield(Err(_))
    ));
    for _ in 0..3 {
        assert!(matches!(request.advance(Event::Poll), Action::Ignore));
    }
    assert!(matches!(request.advance(Event::Body(String::from(BODY))), Action::Ignore));
    assert_eq!(request.phase(), Phase::Failed);
}

#[test]
fn a_body_that_is_not_json_yields_the_body_back() {
    let mut request = in_flight();
    let body = "<html>502 Bad Gateway</html>";
    match request.advance(Event::Body(String::from(body))) {
        Action::Yield(Err(Error::Deserialization { string, source: Diagnostic::Syntax(cause) })) => {
            assert_eq!(string, body);
            assert_eq!(cause.line(), 1);
        }
        other => panic!("{:?}", other),
    }
    assert_eq!(request.phase(), Phase::Failed);
}

#[test]
fn a_body_without_a_required_member_yields_no_partial_answer() {
    let mut request = in_flight();
    let body = "{\"etag\":\"e\",\"pageInfo\":{\"totalResults\":0,\"resultsPerPage\":0},\"items\":[]}";
    match request.advance(Event::Body(String::from(body))) {
        Action::Yield(Err(Error::Deserialization { string, source: Diagnostic::Schema(fault) })) => {
            assert_eq!(string, body);
            assert_eq!(fault, SchemaError { field: String::from("kind"), problem: Problem::Missing });
        }
        other => panic!("{:?}", other),
    }
    assert_eq!(request.phase(), Phase::Failed);
}

#[test]
fn an_unstarted_request_ignores_what_no_get_can_have_caused() {
    let mut request = Videos::new(ApiKey::new("ABC"));
    assert!(matches!(request.advance(Event::Body(String::from(BODY))), Action::Ignore));
    assert!(matches!(request.advance(Event::Failure(String::from("x"))), Action::Ignore));
    assert_eq!(request.phase(), Phase::Unstarted);
    assert!(matches!(request.advance(Event::Poll), Action::Get(_)));
}

#[test]
fn a_query_that_cannot_be_written_yields_a_serialization_error() {
    let cause = serde_urlencoded::to_string(5u8).unwrap_err();
    let mut request = Videos::new(ApiKey::new("ABC"));
    match request.launch(Err(cause.clone())) {
        Action::Yield(Err(Error::Serialization { source })) => assert_eq!(source, cause),
        other => panic!("{:?}", other),
    }
    assert_eq!(request.phase(), Phase::Failed);
    assert!(matches!(request.advance(Event::Poll), Action::Ignore));
}

#[test]
fn launch_puts_the_query_behind_the_endpoint() {
    let mut request = Videos::new(ApiKey::new("ABC"));
    match request.launch(Ok(String::from("a=b"))) {
        Action::Get(url) => assert_eq!(url, "https://www.googleapis.com/youtube/v3/videos?a=b"),
        other => panic!("{:?}", other),
    }
    assert_eq!(request.phase(), Phase::InFlight);
}

#[test]
fn launch_is_ignored_once_started() {
    let mut request = in_flight();
    assert!(matches!(request.launch(Ok(String::from("a=b"))), Action::Ignore));
    assert_eq!(request.phase(), Phase::InFlight);
}

#[test]
fn settle_is_ignored_before_the_start() {
    let mut request = Videos::new(ApiKey::new("ABC"));
    let parsed = Json::parse(BODY);
    assert!(matches!(request.settle(String::from(BODY), parsed), Action::Ignore));
    assert_eq!(request.phase(), Phase::Unstarted);
}

#[test]
fn settle_reads_the_parsed_body() {
    let mut request = in_flight();
    let parsed = Json::parse(BODY);
    assert!(matches!(request.settle(String::from(BODY), parsed), Action::Yield(Ok(_))));
    assert_eq!(request.phase(), Phase::Completed);
}

#[test]
fn settle_fails_on_a_document_that_is_no_object() {
    let mut request = in_flight();
    match request.settle(String::from("[]"), Ok(Json::Array(vec![]))) {
        Action::Yield(Err(Error::Deserialization { string, source: Diagnostic::Schema(fault) })) => {
            assert_eq!(string, "[]");
            assert_eq!(fault, SchemaError { field: String::new(), problem: Problem::Invalid });
        }
        other => panic!("{:?}", other),
    }
    assert_eq!(request.phase(), Phase::Failed);
}

#[test]
fn id_leaves_a_started_request_as_it_is() {
    let request = in_flight().id("other");
    assert_eq!(request.phase(), Phase::InFlight);
}
