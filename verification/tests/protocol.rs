use netpod_sqlite::dispatch::handle_describe;
use netpod_sqlite::protocol::err_response;
use netpod_sqlite::protocol::invoke_response;
use netpod_sqlite::protocol::ErrorResponse;
use netpod_sqlite::protocol::InvokeResponse;
use netpod_sqlite::protocol::Op;
use netpod_sqlite::protocol::Response;
use netpod_sqlite::protocol::Status;

#[test]
fn op_from_str_reads_describe() {
    assert_eq!(Op::from_str("describe"), Ok(Op::Describe));
}

#[test]
fn op_from_str_reads_invoke() {
    assert_eq!(Op::from_str("invoke"), Ok(Op::Invoke));
}

#[test]
fn op_from_str_refuses_other_names() {
    assert_eq!(Op::from_str("shutdown"), Err("Invalid operation: shutdown".to_string()));
    assert_eq!(Op::from_str(""), Err("Invalid operation: ".to_string()));
    assert_eq!(Op::from_str("Describe"), Err("Invalid operation: Describe".to_string()));
    assert_eq!(Op::from_str("describe "), Err("Invalid operation: describe ".to_string()));
}

#[test]
fn status_words() {
    assert_eq!(Status::Done.as_str(), "done");
    assert_eq!(Status::Error.as_str(), "error");
}

#[test]
fn err_response_carries_id_and_message() {
    let response = err_response(Some("7".to_string()), "boom".to_string());
    assert_eq!(
        response,
        Response::Error(ErrorResponse {
            id: Some("7".to_string()),
            status: Status::Error,
            ex_message: "boom".to_string(),
        })
    );
}

#[test]
fn err_response_without_id() {
    let response = err_response(None, "boom".to_string());
    assert_eq!(
        response,
        Response::Error(ErrorResponse {
            id: None,
            status: Status::Error,
            ex_message: "boom".to_string(),
        })
    );
}

#[test]
fn invoke_response_is_done() {
    let response = invoke_response("1".to_string(), b"[]".to_vec());
    assert_eq!(
        response,
        Response::Invoke(InvokeResponse {
            id: "1".to_string(),
            status: Status::Done,
            value: b"[]".to_vec(),
        })
    );
}

#[test]
fn describe_lists_one_namespace_with_three_capabilities() {
    match handle_describe() {
        Response::Describe(described) => {
            assert_eq!(described.format, "json");
            assert_eq!(described.namespaces.len(), 1);
            let namespace = &described.namespaces[0];
            assert_eq!(namespace.name, "netpod.jlabath.sqlite");
            let names: Vec<&str> = namespace.vars.iter().map(|v| v.name.as_str()).collect();
            assert_eq!(names, vec!["query", "exec", "append"]);
        }
        other => panic!("not a describe response: {:?}", other),
    }
}

#[test]
fn describe_is_the_same_every_time() {
    assert_eq!(handle_describe(), handle_describe());
}
