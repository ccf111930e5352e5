//! From a request to what has to be done about it.
//!
//! `describe` is answered on the spot. `invoke` names a capability: `query`
//! and `exec` lead to a statement to run, and what comes of running it is
//! turned into the response afterwards. Any other name is refused, and that
//! refusal carries no request id.

use crate::engine::exec_error_text;
use crate::engine::prepare;
use crate::engine::prepared;
use crate::engine::Capability;
use crate::engine::DbConfig;
use crate::engine::DbConfigView;
use crate::engine::Statement;
use crate::engine::StatementView;
use crate::access::AccessMode;
use crate::protocol::err_response;
use crate::protocol::error_view;
use crate::protocol::invoke_response;
use crate::protocol::invoke_view;
use crate::protocol::text_of;
use crate::protocol::DescribeResponse;
use crate::protocol::DescribeView;
use crate::protocol::Namespace;
use crate::protocol::NamespaceView;
use crate::protocol::Op;
use crate::protocol::Request;
use crate::protocol::RequestView;
use crate::protocol::Response;
use crate::protocol::ResponseView;
use crate::protocol::Var;
use crate::protocol::VarView;
use crate::text::concat_text;
use crate::text::str_eq;
use vstd::prelude::*;

verus! {

/// The one answer to `describe`: one namespace with three capabilities.
/// `append` is listed and cannot be invoked.
pub open spec fn descriptor() -> ResponseView {
    ResponseView::Describe(
        DescribeView {
            format: "json"@,
            namespaces: seq![
                NamespaceView {
                    name: "netpod.jlabath.sqlite"@,
                    vars: seq![
                        VarView { name: "query"@ },
                        VarView { name: "exec"@ },
                        VarView { name: "append"@ },
                    ],
                },
            ],
        },
    )
}

/// Answers `describe`. The answer depends on nothing.
pub fn handle_describe() -> (response: Response)
    ensures
        response@ == descriptor(),
{
    let mut vars: Vec<Var> = Vec::new();
    vars.push(Var { name: String::from_str("query") });
    vars.push(Var { name: String::from_str("exec") });
    vars.push(Var { name: String::from_str("append") });
    let mut namespaces: Vec<Namespace> = Vec::new();
    namespaces.push(Namespace { name: String::from_str("netpod.jlabath.sqlite"), vars });
    let described = DescribeResponse { format: String::from_str("json"), namespaces };
    proof {
        let namespace = described@.namespaces[0];
        assert(namespace.vars =~= descriptor()->Describe_0.namespaces[0].vars);
        assert(described@.namespaces =~= descriptor()->Describe_0.namespaces);
    }
    Response::Describe(described)
}

/// What stands for the capability of a request that names none. It is the
/// name of no capability.
pub open spec fn no_var() -> Seq<char> {
    "no var in request"@
}

/// The name by which a capability is invoked: its namespace, a slash, and
/// its own name.
pub open spec fn qualified(namespace: Seq<char>, name: Seq<char>) -> Seq<char> {
    namespace + "/"@ + name
}

/// The capability that `var` names, by its qualified name.
pub open spec fn capability_named(var: Seq<char>) -> Option<Capability> {
    if var == "netpod.jlabath.sqlite/query"@ {
        Some(Capability::Query)
    } else if var == "netpod.jlabath.sqlite/exec"@ {
        Some(Capability::Exec)
    } else {
        None
    }
}

/// Why a request was not dispatched.
#[derive(Debug, PartialEq, Eq)]
pub enum DispatchError {
    /// The request names this, and it is no capability that can be run.
    NoSuchCapability(String),
}

/// What [`DispatchError`] holds, in contracts.
pub enum DispatchErrorView {
    NoSuchCapability(Seq<char>),
}

impl View for DispatchError {
    type V = DispatchErrorView;

    open spec fn view(&self) -> DispatchErrorView {
        match self {
            DispatchError::NoSuchCapability(var) => DispatchErrorView::NoSuchCapability(var@),
        }
    }
}

/// What a [`DispatchError`] says.
pub open spec fn dispatch_error_text(e: DispatchErrorView) -> Seq<char> {
    match e {
        DispatchErrorView::NoSuchCapability(var) => "no function for var "@ + var,
    }
}

impl DispatchError {
    /// What this error says.
    pub fn message(&self) -> (text: String)
        ensures
            text@ == dispatch_error_text(self@),
    {
        match self {
            DispatchError::NoSuchCapability(var) => concat_text(
                "no function for var ",
                var.as_str(),
            ),
        }
    }
}

/// A statement to run for a request, and the id to answer under.
#[derive(Debug, PartialEq, Eq)]
pub struct Job {
    pub capability: Capability,
    pub id: Option<String>,
    pub statement: Statement,
}

/// What [`Job`] holds, in contracts.
pub struct JobView {
    pub capability: Capability,
    pub id: Option<Seq<char>>,
    pub statement: StatementView,
}

impl View for Job {
    type V = JobView;

    open spec fn view(&self) -> JobView {
        JobView { capability: self.capability, id: text_of(self.id), statement: self.statement@ }
    }
}

/// What a request leads to.
#[derive(Debug, PartialEq, Eq)]
pub enum Dispatch {
    /// The response is known already.
    Reply(Response),
    /// A statement has to be run first.
    Run(Job),
}

/// What [`Dispatch`] holds, in contracts.
pub enum DispatchView {
    Reply(ResponseView),
    Run(JobView),
}

impl View for Dispatch {
    type V = DispatchView;

    open spec fn view(&self) -> DispatchView {
        match self {
            Dispatch::Reply(response) => DispatchView::Reply(response@),
            Dispatch::Run(job) => DispatchView::Run(job@),
        }
    }
}

/// What a dispatch gives, in contracts.
pub open spec fn dispatch_view(r: Result<Dispatch, DispatchError>) -> Result<
    DispatchView,
    DispatchErrorView,
> {
    match r {
        Ok(dispatch) => Ok(dispatch@),
        Err(e) => Err(e@),
    }
}

/// The text of an optional field, or `default` where the field is absent.
pub open spec fn or_text(field: Option<Seq<char>>, default: Seq<char>) -> Seq<char> {
    match field {
        Some(text) => text,
        None => default,
    }
}

/// What an `invoke` request leads to.
///
/// A request without `var` counts as naming `no var in request`. A name
/// that is no capability is refused. For `query` and `exec` the statement is
/// worked out from the arguments, absent arguments counting as the empty
/// text; where this fails, the failure is the response, under the id of the
/// request.
pub open spec fn invoked(config: DbConfigView, request: RequestView) -> Result<
    DispatchView,
    DispatchErrorView,
> {
    let var = or_text(request.var, no_var());
    match capability_named(var) {
        None => Err(DispatchErrorView::NoSuchCapability(var)),
        Some(capability) => match prepared(config, capability, or_text(request.args, Seq::empty())) {
            Ok(statement) => Ok(
                DispatchView::Run(JobView { capability, id: request.id, statement }),
            ),
            Err(e) => Ok(DispatchView::Reply(error_view(request.id, exec_error_text(e)))),
        },
    }
}

/// What a request leads to.
pub open spec fn dispatched(config: DbConfigView, request: RequestView) -> Result<
    DispatchView,
    DispatchErrorView,
> {
    match request.op {
        Op::Describe => Ok(DispatchView::Reply(descriptor())),
        Op::Invoke => invoked(config, request),
    }
}

/// The capability that `var` names.
fn capability_for(var: &str) -> (capability: Option<Capability>)
    ensures
        capability == capability_named(var@),
{
    if str_eq(var, "netpod.jlabath.sqlite/query") {
        Some(Capability::Query)
    } else if str_eq(var, "netpod.jlabath.sqlite/exec") {
        Some(Capability::Exec)
    } else {
        None
    }
}

/// Dispatches an `invoke` request.
pub fn handle_invoke(config: &DbConfig, request: Request) -> (r: Result<Dispatch, DispatchError>)
    ensures
        dispatch_view(r) == invoked(config@, request@),
{
    let var = match request.var {
        Some(var) => var,
        None => String::from_str("no var in request"),
    };
    let capability = match capability_for(var.as_str()) {
        Some(capability) => capability,
        None => { return Err(DispatchError::NoSuchCapability(var)); },
    };
    let args = match request.args {
        Some(args) => args,
        None => String::new(),
    };
    match prepare(config, capability, args.as_str()) {
        Ok(statement) => Ok(Dispatch::Run(Job { capability, id: request.id, statement })),
        Err(e) => Ok(Dispatch::Reply(err_response(request.id, e.message()))),
    }
}

/// Dispatches a request. `describe` is answered the same way whatever the
/// configuration.
pub fn handle_request(config: &DbConfig, request: Request) -> (r: Result<Dispatch, DispatchError>)
    ensures
        dispatch_view(r) == dispatched(config@, request@),
        request.op == Op::Describe ==> dispatch_view(r) == Ok::<DispatchView, DispatchErrorView>(
            DispatchView::Reply(descriptor()),
        ),
{
    match request.op {
        Op::Describe => Ok(Dispatch::Reply(handle_describe())),
        Op::Invoke => handle_invoke(config, request),
    }
}

/// How the statement of a capability asks for access: a query shares, an
/// exec is alone.
pub open spec fn mode_of(capability: Capability) -> AccessMode {
    match capability {
        Capability::Query => AccessMode::Shared,
        Capability::Exec => AccessMode::Exclusive,
    }
}

/// The response to a job, given what came of running it: the result under
/// the id of the request, an absent id counting as the empty text, or the
/// failure under the id as it is.
pub open spec fn completed(job: JobView, outcome: Result<Seq<u8>, Seq<char>>) -> ResponseView {
    match outcome {
        Ok(value) => invoke_view(or_text(job.id, Seq::empty()), value),
        Err(why) => error_view(job.id, why),
    }
}

/// What came of running a statement, in contracts.
pub open spec fn run_view(outcome: Result<Vec<u8>, String>) -> Result<Seq<u8>, Seq<char>> {
    match outcome {
        Ok(value) => Ok(value@),
        Err(why) => Err(why@),
    }
}

impl Job {
    /// How this job asks for access.
    pub fn mode(&self) -> (mode: AccessMode)
        ensures
            mode == mode_of(self.capability),
    {
        match self.capability {
            Capability::Query => AccessMode::Shared,
            Capability::Exec => AccessMode::Exclusive,
        }
    }

    /// The response to this job, given what came of running its statement.
    pub fn complete(self, outcome: Result<Vec<u8>, String>) -> (response: Response)
        ensures
            response@ == completed(self@, run_view(outcome)),
    {
        match outcome {
            Ok(value) => {
                let id = match self.id {
                    Some(id) => id,
                    None => String::new(),
                };
                invoke_response(id, value)
            },
            Err(why) => err_response(self.id, why),
        }
    }
}

/// Of the three capabilities that `describe` lists, `query` and `exec` can
/// be invoked, each by its qualified name, and `append` cannot.
pub proof fn listed_capabilities()
    ensures
        capability_named(qualified("netpod.jlabath.sqlite"@, "query"@)) == Some(Capability::Query),
        capability_named(qualified("netpod.jlabath.sqlite"@, "exec"@)) == Some(Capability::Exec),
        capability_named(qualified("netpod.jlabath.sqlite"@, "append"@)) is None,
{
    reveal_strlit("netpod.jlabath.sqlite");
    reveal_strlit("/");
    reveal_strlit("query");
    reveal_strlit("exec");
    reveal_strlit("append");
    reveal_strlit("netpod.jlabath.sqlite/query");
    reveal_strlit("netpod.jlabath.sqlite/exec");
    let namespace = "netpod.jlabath.sqlite"@;
    assert(namespace.len() == 21 && "/"@.len() == 1);
    assert("query"@.len() == 5 && "exec"@.len() == 4 && "append"@.len() == 6);
    assert("netpod.jlabath.sqlite/query"@.len() == 27);
    assert("netpod.jlabath.sqlite/exec"@.len() == 26);
    assert(qualified(namespace, "query"@) =~= "netpod.jlabath.sqlite/query"@);
    assert(qualified(namespace, "exec"@) =~= "netpod.jlabath.sqlite/exec"@);
    assert(qualified(namespace, "append"@).len() == 28);
}

/// Whatever the configuration, `describe` has the same answer.
pub proof fn describe_ignores_configuration(
    one: DbConfigView,
    other: DbConfigView,
    request: RequestView,
)
    requires
        request.op == Op::Describe,
    ensures
        dispatched(one, request) == dispatched(other, request),
        dispatched(one, request) == Ok::<DispatchView, DispatchErrorView>(
            DispatchView::Reply(descriptor()),
        ),
{
}

/// A request that names no capability, or one that cannot be run, is
/// refused whatever else it holds, and the refusal knows no id.
pub proof fn unknown_capability_is_refused(config: DbConfigView, request: RequestView)
    requires
        request.op == Op::Invoke,
        capability_named(or_text(request.var, no_var())) is None,
    ensures
        dispatched(config, request) == Err::<DispatchView, DispatchErrorView>(
            DispatchErrorView::NoSuchCapability(or_text(request.var, no_var())),
        ),
{
}

/// With the location of the store unresolved, every invocation of a
/// capability that can be run fails with the configuration's complaint,
/// under the id of the request.
pub proof fn unresolved_configuration_fails_every_invocation(
    why: Seq<char>,
    request: RequestView,
)
    requires
        request.op == Op::Invoke,
        capability_named(or_text(request.var, no_var())) is Some,
    ensures
        dispatched(DbConfigView::Unresolved(why), request) == Ok::<DispatchView, DispatchErrorView>(
            DispatchView::Reply(error_view(request.id, why)),
        ),
{
}

} // verus!
