//! The messages of the protocol: requests, responses and what they hold.

use crate::text::concat_text;
use crate::text::str_eq;
use vstd::prelude::*;

verus! {

/// What a request asks for.
#[derive(Debug, Clone, Copy, PartialEq, Eq, Structural)]
pub enum Op {
    /// List the capabilities of the pod.
    Describe,
    /// Run one capability.
    Invoke,
}

/// How a response ends. There is no third state.
#[derive(Debug, Clone, Copy, PartialEq, Eq, Structural)]
pub enum Status {
    Done,
    Error,
}

/// The operation that `name` names on the wire, if any.
pub open spec fn op_named(name: Seq<char>) -> Option<Op> {
    if name == "describe"@ {
        Some(Op::Describe)
    } else if name == "invoke"@ {
        Some(Op::Invoke)
    } else {
        None
    }
}

/// The name of `op` on the wire.
pub open spec fn op_text(op: Op) -> Seq<char> {
    match op {
        Op::Describe => "describe"@,
        Op::Invoke => "invoke"@,
    }
}

/// Each operation is named by its own name, and by no other.
pub proof fn op_text_names_op(op: Op)
    ensures
        op_named(op_text(op)) == Some(op),
{
    reveal_strlit("describe");
    reveal_strlit("invoke");
    assert("describe"@.len() == 8);
    assert("invoke"@.len() == 6);
}

/// The complaint about an operation name that names none.
pub open spec fn invalid_operation(name: Seq<char>) -> Seq<char> {
    "Invalid operation: "@ + name
}

/// The word that stands for `status` on the wire.
pub open spec fn status_text(status: Status) -> Seq<char> {
    match status {
        Status::Done => "done"@,
        Status::Error => "error"@,
    }
}

impl Op {
    /// Reads an operation name: `describe` or `invoke`, nothing else.
    pub fn from_str(s: &str) -> (r: Result<Op, String>)
        ensures
            match r {
                Ok(op) => op_named(s@) == Some(op),
                Err(complaint) => op_named(s@) is None && complaint@ == invalid_operation(s@),
            },
    {
        if str_eq(s, "describe") {
            Ok(Op::Describe)
        } else if str_eq(s, "invoke") {
            Ok(Op::Invoke)
        } else {
            Err(concat_text("Invalid operation: ", s))
        }
    }
}

impl Status {
    /// The word that stands for this status on the wire.
    pub fn as_str(&self) -> (word: &'static str)
        ensures
            word@ == status_text(*self),
    {
        match self {
            Status::Done => "done",
            Status::Error => "error",
        }
    }
}

/// What an optional text holds.
pub open spec fn text_of(text: Option<String>) -> Option<Seq<char>> {
    match text {
        Some(t) => Some(t@),
        None => None,
    }
}

/// One request, as decoded from the wire.
#[derive(Debug, PartialEq, Eq)]
pub struct Request {
    pub op: Op,
    /// Ties the response to this request.
    pub id: Option<String>,
    /// The capability to run.
    pub var: Option<String>,
    /// The arguments: a JSON array of strings, as text.
    pub args: Option<String>,
}

/// What [`Request`] holds, in contracts.
pub struct RequestView {
    pub op: Op,
    pub id: Option<Seq<char>>,
    pub var: Option<Seq<char>>,
    pub args: Option<Seq<char>>,
}

impl View for Request {
    type V = RequestView;

    open spec fn view(&self) -> RequestView {
        RequestView {
            op: self.op,
            id: text_of(self.id),
            var: text_of(self.var),
            args: text_of(self.args),
        }
    }
}

/// One capability, by name.
#[derive(Debug, PartialEq, Eq)]
pub struct Var {
    pub name: String,
}

/// What [`Var`] holds, in contracts.
pub struct VarView {
    pub name: Seq<char>,
}

impl View for Var {
    type V = VarView;

    open spec fn view(&self) -> VarView {
        VarView { name: self.name@ }
    }
}

/// A named group of capabilities.
#[derive(Debug, PartialEq, Eq)]
pub struct Namespace {
    pub name: String,
    pub vars: Vec<Var>,
}

/// What [`Namespace`] holds, in contracts.
pub struct NamespaceView {
    pub name: Seq<char>,
    pub vars: Seq<VarView>,
}

impl View for Namespace {
    type V = NamespaceView;

    open spec fn view(&self) -> NamespaceView {
        NamespaceView { name: self.name@, vars: var_views(self.vars@) }
    }
}

/// What a list of capabilities holds.
pub open spec fn var_views(vars: Seq<Var>) -> Seq<VarView> {
    vars.map_values(|v: Var| v@)
}

/// What a list of namespaces holds.
pub open spec fn namespace_views(namespaces: Seq<Namespace>) -> Seq<NamespaceView> {
    namespaces.map_values(|n: Namespace| n@)
}

/// The answer to `describe`.
#[derive(Debug, PartialEq, Eq)]
pub struct DescribeResponse {
    pub format: String,
    pub namespaces: Vec<Namespace>,
}

/// What [`DescribeResponse`] holds, in contracts.
pub struct DescribeView {
    pub format: Seq<char>,
    pub namespaces: Seq<NamespaceView>,
}

impl View for DescribeResponse {
    type V = DescribeView;

    open spec fn view(&self) -> DescribeView {
        DescribeView {
            format: self.format@,
            namespaces: namespace_views(self.namespaces@),
        }
    }
}

/// The answer to an invocation that failed, or to a request that could not
/// be dispatched.
#[derive(Debug, PartialEq, Eq)]
pub struct ErrorResponse {
    pub id: Option<String>,
    pub status: Status,
    pub ex_message: String,
}

/// What [`ErrorResponse`] holds, in contracts.
pub struct ErrorView {
    pub id: Option<Seq<char>>,
    pub status: Status,
    pub ex_message: Seq<char>,
}

impl View for ErrorResponse {
    type V = ErrorView;

    open spec fn view(&self) -> ErrorView {
        ErrorView { id: text_of(self.id), status: self.status, ex_message: self.ex_message@ }
    }
}

/// The answer to an invocation that succeeded. `value` is JSON text; the wire
/// codec does not look inside.
#[derive(Debug, PartialEq, Eq)]
pub struct InvokeResponse {
    pub id: String,
    pub status: Status,
    pub value: Vec<u8>,
}

/// What [`InvokeResponse`] holds, in contracts.
pub struct InvokeView {
    pub id: Seq<char>,
    pub status: Status,
    pub value: Seq<u8>,
}

impl View for InvokeResponse {
    type V = InvokeView;

    open spec fn view(&self) -> InvokeView {
        InvokeView { id: self.id@, status: self.status, value: self.value@ }
    }
}

/// One response. A connection carries at most one.
#[derive(Debug, PartialEq, Eq)]
pub enum Response {
    Describe(DescribeResponse),
    Invoke(InvokeResponse),
    Error(ErrorResponse),
}

/// What [`Response`] holds, in contracts.
pub enum ResponseView {
    Describe(DescribeView),
    Invoke(InvokeView),
    Error(ErrorView),
}

impl View for Response {
    type V = ResponseView;

    open spec fn view(&self) -> ResponseView {
        match self {
            Response::Describe(d) => ResponseView::Describe(d@),
            Response::Invoke(i) => ResponseView::Invoke(i@),
            Response::Error(e) => ResponseView::Error(e@),
        }
    }
}

/// The error response that carries `message` under `id`.
pub open spec fn error_view(id: Option<Seq<char>>, message: Seq<char>) -> ResponseView {
    ResponseView::Error(ErrorView { id, status: Status::Error, ex_message: message })
}

/// The invoke response that carries `value` under `id`.
pub open spec fn invoke_view(id: Seq<char>, value: Seq<u8>) -> ResponseView {
    ResponseView::Invoke(InvokeView { id, status: Status::Done, value })
}

/// An error response: `message` under `id`, with status `Error`.
pub fn err_response(id: Option<String>, message: String) -> (response: Response)
    ensures
        response@ == error_view(text_of(id), message@),
{
    Response::Error(ErrorResponse { id, status: Status::Error, ex_message: message })
}

/// An invoke response: `value` under `id`, with status `Done`.
pub fn invoke_response(id: String, value: Vec<u8>) -> (response: Response)
    ensures
        response@ == invoke_view(id@, value@),
{
    Response::Invoke(InvokeResponse { id, status: Status::Done, value })
}

} // verus!
