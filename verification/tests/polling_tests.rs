use serde_json::Value;
use webapi_dispatch::polling::{
    sole_member, webapi_post_polling, Job, PollStep, PollingState, POLL_INTERVAL_SECS,
};
use webapi_dispatch::response::{webapi_post, Exchange, WebApiError};

fn doc(text: &str) -> Value {
    serde_json::from_str(text).unwrap()
}

fn answered(status: u16, body: &str) -> Exchange {
    Exchange::Answered { status, body: body.to_string() }
}

/// Runs the polling loop of a job over scripted exchanges; returns the end,
/// the seconds that the loop would have slept, and the addresses polled.
fn run(job: &Job, script: Vec<Exchange>) -> (Option<Result<Value, String>>, u64, Vec<String>) {
    let mut waited = 0u64;
    let mut polled = Vec::new();
    for exchange in script {
        polled.push(job.poll_url());
        match webapi_post_polling(webapi_post(exchange)) {
            PollStep::Wait { wait_secs } => waited += wait_secs,
            PollStep::Finished(r) => return (Some(r), waited, polled),
        }
    }
    (None, waited, polled)
}

#[test]
fn poll_interval_is_thirty_seconds() {
    assert_eq!(POLL_INTERVAL_SECS, 30);
}

#[test]
fn decode_started() {
    match PollingState::decode(&doc("{\"Started\": 42}")) {
        PollingState::Started(h) => assert_eq!(h, 42),
        _ => panic!("not started"),
    }
    match PollingState::decode(&doc("{\"Started\": 18446744073709551615}")) {
        PollingState::Started(h) => assert_eq!(h, u64::MAX),
        _ => panic!("not started"),
    }
}

#[test]
fn decode_pending() {
    assert!(matches!(PollingState::decode(&doc("\"Pending\"")), PollingState::Pending));
    assert!(matches!(PollingState::decode(&doc("{\"Pending\": null}")), PollingState::Pending));
}

#[test]
fn sole_member_needs_a_single_key() {
    assert_eq!(sole_member(&doc("{\"a\": 1}"), "a"), Some(doc("1")));
    assert_eq!(sole_member(&doc("{\"a\": 1}"), "b"), None);
    assert_eq!(sole_member(&doc("{\"a\": 1, \"b\": 2}"), "a"), None);
    assert_eq!(sole_member(&doc("{}"), "a"), None);
    assert_eq!(sole_member(&doc("[1]"), "a"), None);
    assert_eq!(sole_member(&doc("\"a\""), "a"), None);
}

#[test]
fn decode_done_keeps_the_payload() {
    let payload = "{\"Ok\": {\"proof\": [1, 2, 3], \"note\": \"x\", \"f\": 1.5, \"n\": null}}";
    let body = format!("{{\"Done\": {}}}", payload);
    match PollingState::decode(&doc(&body)) {
        PollingState::Done(v) => assert_eq!(v, doc(payload)),
        _ => panic!("not done"),
    }
}

#[test]
fn decode_unexpected_shapes() {
    for text in [
        "\"Removed\"",
        "\"pending\"",
        "{\"Error\": \"lost\"}",
        "{\"Started\": -1}",
        "{\"Started\": \"7\"}",
        "{\"Started\": 1.5}",
        "{\"Started\": 1, \"extra\": 2}",
        "{\"Done\": 1, \"Started\": 2}",
        "{\"Done\": 1, \"note\": \"x\"}",
        "{\"Pending\": 1}",
        "{\"Pending\": null, \"Done\": 1}",
        "\"Started\"",
        "\"Done\"",
        "null",
        "17",
        "[\"Pending\"]",
        "{}",
    ] {
        let v = doc(text);
        match PollingState::decode(&v) {
            PollingState::Unexpected(shown) => assert_eq!(shown, format!("{:?}", v)),
            _ => panic!("{} was not unexpected", text),
        }
    }
}

#[test]
fn describe_states() {
    assert_eq!(PollingState::Started(5).describe(), "Started(5)");
    assert_eq!(PollingState::Pending.describe(), "Pending");
    let v = doc("{\"a\": 1}");
    assert_eq!(PollingState::Done(v.clone()).describe(), format!("Done({:?})", v));
    assert_eq!(PollingState::Unexpected("odd".to_string()).describe(), "odd");
}

#[test]
fn started_answer_makes_a_job_on_that_server() {
    let job = Job::accept("https://b".to_string(), &doc("{\"Started\": 9}")).ok().unwrap();
    assert_eq!(job.server, "https://b");
    assert_eq!(job.handle, 9);
    assert_eq!(job.poll_url(), "https://b/sys/query_state");
    assert_eq!(job.poll_body(), doc("9"));
    assert_eq!(job.poll_body().as_u64(), Some(9));
}

#[test]
fn non_started_answer_is_protocol_error() {
    match Job::accept("https://b".to_string(), &doc("\"Pending\"")) {
        Err(msg) => assert_eq!(msg, "webapi_post_polling response error: Pending"),
        Ok(_) => panic!("a job was made"),
    }
    let done = doc("{\"Done\": 1}");
    match Job::accept("https://b".to_string(), &done) {
        Err(msg) => assert_eq!(
            msg,
            format!("webapi_post_polling response error: Done({:?})", doc("1"))
        ),
        Ok(_) => panic!("a job was made"),
    }
    let odd = doc("{\"x\": 1}");
    match Job::accept("https://b".to_string(), &odd) {
        Err(msg) => assert_eq!(msg, format!("webapi_post_polling response error: {:?}", odd)),
        Ok(_) => panic!("a job was made"),
    }
}

#[test]
fn pending_pending_done_returns_result_after_two_delays() {
    let job = Job::accept("https://b".to_string(), &doc("{\"Started\": 9}")).ok().unwrap();
    let (end, waited, polled) = run(
        &job,
        vec![
            answered(200, "\"Pending\""),
            answered(200, "\"Pending\""),
            answered(200, "{\"Done\": {\"Ok\": {\"proof\": [7, 8]}}}"),
            answered(200, "\"Pending\""),
        ],
    );
    assert_eq!(end, Some(Ok(doc("{\"Ok\": {\"proof\": [7, 8]}}"))));
    assert_eq!(waited, 2 * 30);
    assert_eq!(polled.len(), 3);
    for url in polled {
        assert_eq!(url, "https://b/sys/query_state");
    }
}

#[test]
fn done_at_first_poll_needs_no_delay() {
    let job = Job { server: "https://a".to_string(), handle: 1 };
    let (end, waited, polled) = run(&job, vec![answered(200, "{\"Done\": \"r\"}")]);
    assert_eq!(end, Some(Ok(doc("\"r\""))));
    assert_eq!(waited, 0);
    assert_eq!(polled.len(), 1);
}

#[test]
fn poll_does_not_retry_on_overload() {
    match webapi_post_polling(webapi_post(answered(429, ""))) {
        PollStep::Finished(Err(msg)) => assert_eq!(msg, "Err with code: 429"),
        _ => panic!("poll went on"),
    }
}

#[test]
fn poll_error_and_unexpected_state_end_the_job() {
    match webapi_post_polling(Err(WebApiError::Error("reset".to_string()))) {
        PollStep::Finished(Err(msg)) => assert_eq!(msg, "reset"),
        _ => panic!("poll went on"),
    }
    match webapi_post_polling(Ok(doc("{\"Started\": 4}"))) {
        PollStep::Finished(Err(msg)) => assert_eq!(msg, "poll_state error: Started(4)"),
        _ => panic!("poll went on"),
    }
    let odd = doc("\"Removed\"");
    match webapi_post_polling(Ok(odd.clone())) {
        PollStep::Finished(Err(msg)) => assert_eq!(msg, format!("poll_state error: {:?}", odd)),
        _ => panic!("poll went on"),
    }
}

#[test]
fn pending_asks_for_wait() {
    match webapi_post_polling(Ok(doc("\"Pending\""))) {
        PollStep::Wait { wait_secs } => assert_eq!(wait_secs, 30),
        _ => panic!("no wait"),
    }
}
