use netpod_sqlite::decode::decode_request;
use netpod_sqlite::dispatch::handle_describe;
use netpod_sqlite::dispatch::handle_invoke;
use netpod_sqlite::dispatch::handle_request;
use netpod_sqlite::dispatch::Dispatch;
use netpod_sqlite::dispatch::DispatchError;
use netpod_sqlite::dispatch::Job;
use netpod_sqlite::engine::Capability;
use netpod_sqlite::engine::DbConfig;
use netpod_sqlite::engine::Statement;
use netpod_sqlite::access::AccessMode;
use netpod_sqlite::protocol::err_response;
use netpod_sqlite::protocol::invoke_response;
use netpod_sqlite::protocol::Op;
use netpod_sqlite::protocol::Request;
use netpod_sqlite::protocol::Response;
use netpod_sqlite::reply::refusal_of;
use netpod_sqlite::reply::reply_to;
use netpod_sqlite::reply::substitute_for;
use netpod_sqlite::reply::Reply;
use netpod_sqlite::wire::EncodeError;

fn resolved() -> DbConfig {
    DbConfig::from_lookup(Ok("pod.db".to_string()))
}

fn unresolved() -> DbConfig {
    DbConfig::from_lookup(Err("environment variable not found".to_string()))
}

fn invoke(id: Option<&str>, var: Option<&str>, args: Option<&str>) -> Request {
    Request {
        op: Op::Invoke,
        id: id.map(|t| t.to_string()),
        var: var.map(|t| t.to_string()),
        args: args.map(|t| t.to_string()),
    }
}

fn describe() -> Request {
    Request { op: Op::Describe, id: None, var: None, args: None }
}

#[test]
fn describe_is_answered_with_or_without_configuration() {
    let with = handle_request(&resolved(), describe());
    let without = handle_request(&unresolved(), describe());
    assert_eq!(with, Ok(Dispatch::Reply(handle_describe())));
    assert_eq!(without, Ok(Dispatch::Reply(handle_describe())));
}

#[test]
fn describe_ignores_the_other_fields() {
    let request = Request {
        op: Op::Describe,
        id: Some("1".to_string()),
        var: Some("netpod.jlabath.sqlite/query".to_string()),
        args: Some("[]".to_string()),
    };
    assert_eq!(handle_request(&resolved(), request), Ok(Dispatch::Reply(handle_describe())));
}

#[test]
fn query_leads_to_a_job() {
    let request = invoke(Some("1"), Some("netpod.jlabath.sqlite/query"), Some("[\"select 1\"]"));
    let expected = Job {
        capability: Capability::Query,
        id: Some("1".to_string()),
        statement: Statement { database: "pod.db".to_string(), sql: "select 1".to_string() },
    };
    assert_eq!(handle_request(&resolved(), request), Ok(Dispatch::Run(expected)));
}

#[test]
fn exec_leads_to_a_job() {
    let request = invoke(None, Some("netpod.jlabath.sqlite/exec"), Some("[\"delete from t\"]"));
    let expected = Job {
        capability: Capability::Exec,
        id: None,
        statement: Statement { database: "pod.db".to_string(), sql: "delete from t".to_string() },
    };
    assert_eq!(handle_invoke(&resolved(), request), Ok(Dispatch::Run(expected)));
}

#[test]
fn query_shares_and_exec_is_alone() {
    let statement = Statement { database: "pod.db".to_string(), sql: "select 1".to_string() };
    let job = Job { capability: Capability::Query, id: None, statement };
    assert_eq!(job.mode(), AccessMode::Shared);
    let statement = Statement { database: "pod.db".to_string(), sql: "delete from t".to_string() };
    let job = Job { capability: Capability::Exec, id: None, statement };
    assert_eq!(job.mode(), AccessMode::Exclusive);
}

#[test]
fn request_without_capability_is_refused_without_id() {
    let outcome = handle_request(&resolved(), invoke(Some("5"), None, Some("[\"select 1\"]")));
    assert_eq!(outcome, Err(DispatchError::NoSuchCapability("no var in request".to_string())));
    let refused = outcome.unwrap_err();
    assert_eq!(refused.message(), "no function for var no var in request");
    assert_eq!(
        refusal_of(&refused),
        err_response(None, "no function for var no var in request".to_string())
    );
}

#[test]
fn append_is_listed_and_refused_without_id() {
    let request = invoke(Some("5"), Some("netpod.jlabath.sqlite/append"), Some("[\"x\"]"));
    let outcome = handle_request(&resolved(), request);
    assert_eq!(
        outcome,
        Err(DispatchError::NoSuchCapability("netpod.jlabath.sqlite/append".to_string()))
    );
    let refused = outcome.unwrap_err();
    assert_eq!(
        refusal_of(&refused),
        err_response(None, "no function for var netpod.jlabath.sqlite/append".to_string())
    );
}

#[test]
fn unregistered_capabilities_are_refused() {
    for var in vec!["query", "exec", "append", "", "netpod.jlabath.sqlite/Query", "other/query"] {
        let outcome = handle_request(&unresolved(), invoke(Some("5"), Some(var), None));
        assert_eq!(outcome, Err(DispatchError::NoSuchCapability(var.to_string())));
    }
}

#[test]
fn refusal_goes_out_without_id() {
    let outcome = handle_request(&resolved(), invoke(Some("5"), Some("nope"), None));
    let response: Result<Response, DispatchError> = match outcome {
        Ok(_) => panic!("not refused"),
        Err(e) => Err(e),
    };
    assert_eq!(
        reply_to(response),
        Reply::Encoded(b"d10:ex-message24:no function for var nope6:status5:errore".to_vec())
    );
}

#[test]
fn query_with_unresolved_configuration_fails_under_its_id() {
    let request = invoke(Some("42"), Some("netpod.jlabath.sqlite/query"), Some("[\"select 1\"]"));
    let outcome = handle_request(&unresolved(), request);
    let expected =
        err_response(Some("42".to_string()), "SQLITE_DB environment variable not found".to_string());
    assert_eq!(outcome, Ok(Dispatch::Reply(expected)));
    assert_eq!(handle_request(&unresolved(), describe()), Ok(Dispatch::Reply(handle_describe())));
}

#[test]
fn exec_with_unresolved_configuration_fails_under_its_id() {
    let request = invoke(Some("43"), Some("netpod.jlabath.sqlite/exec"), None);
    let outcome = handle_request(&unresolved(), request);
    let expected =
        err_response(Some("43".to_string()), "SQLITE_DB environment variable not found".to_string());
    assert_eq!(outcome, Ok(Dispatch::Reply(expected)));
}

#[test]
fn absent_arguments_count_as_empty_text() {
    let request = invoke(Some("1"), Some("netpod.jlabath.sqlite/query"), None);
    let outcome = handle_request(&resolved(), request);
    let expected = err_response(
        Some("1".to_string()),
        "EOF while parsing a value at line 1 column 0".to_string(),
    );
    assert_eq!(outcome, Ok(Dispatch::Reply(expected)));
}

#[test]
fn empty_arguments_fail_under_the_id() {
    let request = invoke(Some("1"), Some("netpod.jlabath.sqlite/query"), Some("[]"));
    let expected = err_response(Some("1".to_string()), "no query arg given".to_string());
    assert_eq!(handle_request(&resolved(), request), Ok(Dispatch::Reply(expected)));
    let request = invoke(None, Some("netpod.jlabath.sqlite/exec"), Some("[]"));
    let expected = err_response(None, "no sql arg given".to_string());
    assert_eq!(handle_request(&resolved(), request), Ok(Dispatch::Reply(expected)));
}

#[test]
fn job_completes_with_the_result_under_its_id() {
    let statement = Statement { database: "pod.db".to_string(), sql: "select 1".to_string() };
    let job = Job { capability: Capability::Query, id: Some("1".to_string()), statement };
    assert_eq!(
        job.complete(Ok(b"[[1]]".to_vec())),
        invoke_response("1".to_string(), b"[[1]]".to_vec())
    );
}

#[test]
fn job_without_id_completes_under_the_empty_id() {
    let statement = Statement { database: "pod.db".to_string(), sql: "select 1".to_string() };
    let job = Job { capability: Capability::Query, id: None, statement };
    assert_eq!(job.complete(Ok(b"[]".to_vec())), invoke_response(String::new(), b"[]".to_vec()));
}

#[test]
fn job_that_failed_completes_with_the_failure_under_its_id() {
    let statement = Statement { database: "pod.db".to_string(), sql: "select".to_string() };
    let job = Job { capability: Capability::Query, id: Some("8".to_string()), statement };
    assert_eq!(
        job.complete(Err("incomplete input".to_string())),
        err_response(Some("8".to_string()), "incomplete input".to_string())
    );
    let statement = Statement { database: "pod.db".to_string(), sql: "select".to_string() };
    let job = Job { capability: Capability::Exec, id: None, statement };
    assert_eq!(
        job.complete(Err("incomplete input".to_string())),
        err_response(None, "incomplete input".to_string())
    );
}

#[test]
fn response_goes_out_encoded() {
    let response = invoke_response("1".to_string(), b"3".to_vec());
    assert_eq!(
        reply_to(Ok(response)),
        Reply::Encoded(b"d2:id1:16:status4:done5:value1:3e".to_vec())
    );
}

#[test]
fn substitute_says_why_and_has_no_id() {
    let failure = EncodeError { message: "encoding failed".to_string() };
    assert_eq!(substitute_for(failure), err_response(None, "encoding failed".to_string()));
}

#[test]
fn request_from_the_wire_to_the_reply() {
    let request = decode_request(b"d2:op8:describee").unwrap();
    let response = match handle_request(&unresolved(), request) {
        Ok(Dispatch::Reply(response)) => response,
        _ => panic!("describe was not answered"),
    };
    let expected = handle_describe().to_bencode().unwrap();
    assert_eq!(reply_to(Ok(response)), Reply::Encoded(expected));
}
