//! Requests of the user interface to the sidecar.
//!
//! A request goes to the persistent server first. Only where nothing is listening
//! is a process spawned for it; any other failure may mean that the server is at
//! work on the request, and a second process would execute it twice.

use vstd::prelude::*;

use crate::exchange::{
    connects, exchange_step, law_connect_prefix_marks_connect_failures, send_request,
    send_request_with_progress, Action, Exchange, Phase, Reply,
};
use crate::json::{
    copy_of, distinct_keys, error_text, is_null, json_member, json_object, json_parsed, json_quoted,
    json_string, json_text, member, member_texts, number_value, object_of, parse_value,
    string_value, text_of,
};
use crate::sidecar_client::{CONNECT_ERROR_PREFIX, READ_TIMEOUT_SECS, READ_TIMEOUT_STREAMING_SECS};
use crate::text::{cat, decimal, has_prefix, same_text, starts_with};

verus! {

/// The methods that the user interface may invoke.
pub open spec fn allowed_methods() -> Seq<Seq<char>> {
    seq!["ping"@, "echo"@, "get_status"@]
}

/// The methods whose response takes long: they are sent over a streaming
/// exchange. None of the allowed methods is one.
pub open spec fn long_running_methods() -> Seq<Seq<char>> {
    Seq::empty()
}

/// Whether the user interface may invoke the method. Names are matched exactly,
/// case and all.
pub fn is_method_allowed(method: &str) -> (allowed: bool)
    ensures
        allowed == allowed_methods().contains(method@),
{
    let allowed = same_text(method, "ping") || same_text(method, "echo") || same_text(
        method,
        "get_status",
    );
    proof {
        assert(allowed_methods()[0] == "ping"@);
        assert(allowed_methods()[1] == "echo"@);
        assert(allowed_methods()[2] == "get_status"@);
    }
    allowed
}

/// Whether the response of the method takes long.
pub fn is_long_running(method: &str) -> (long: bool)
    ensures
        long == long_running_methods().contains(method@),
{
    false
}

/// A JSON-RPC request: a method and the compact text of its parameters.
pub open spec fn request_object(method: Seq<char>, params: Seq<char>) -> Seq<char> {
    json_object(
        seq![
            ("jsonrpc"@, json_quoted("2.0"@)),
            ("id"@, decimal(1)),
            ("method"@, json_quoted(method)),
            ("params"@, params),
        ],
    )
}

/// The text of a JSON-RPC request. It holds no line feed, and method and
/// parameters stand in it as they were given.
pub fn request_text(method: &str, params: &serde_json::Value) -> (text: String)
    ensures
        text@ == request_object(method@, json_text(*params)),
        !text@.contains('\n'),
        json_member(text@, "method"@) == Some(json_quoted(method@)),
        json_string(json_quoted(method@)) == Some(method@),
        json_member(text@, "params"@) == Some(json_text(*params)),
        json_member(text@, "id"@) == Some(decimal(1)),
        json_member(text@, "jsonrpc"@) == Some(json_quoted("2.0"@)),
{
    let members: Vec<(String, serde_json::Value)> = vec![
        ("jsonrpc".to_owned(), string_value("2.0")),
        ("id".to_owned(), number_value(1)),
        ("method".to_owned(), string_value(method)),
        ("params".to_owned(), copy_of(params)),
    ];
    proof {
        reveal_strlit("jsonrpc");
        reveal_strlit("id");
        reveal_strlit("method");
        reveal_strlit("params");
        let parts = member_texts(members@);
        assert(parts =~= seq![
            ("jsonrpc"@, json_quoted("2.0"@)),
            ("id"@, decimal(1)),
            ("method"@, json_quoted(method@)),
            ("params"@, json_text(*params)),
        ]);
        assert("jsonrpc"@.len() == 7 && "id"@.len() == 2);
        assert("method"@.len() == 6 && "params"@.len() == 6);
        assert("method"@[0] == 'm' && "params"@[0] == 'p');
        assert(parts[0].0 == "jsonrpc"@ && parts[1].0 == "id"@);
        assert(parts[2].0 == "method"@ && parts[3].0 == "params"@);
        assert(distinct_keys(parts));
        assert(members@[0].0@ == "jsonrpc"@);
        assert(members@[1].0@ == "id"@);
        assert(members@[2].0@ == "method"@);
        assert(members@[3].0@ == "params"@);
    }
    let value = object_of(members);
    text_of(&value)
}

/// A request that is about to be sent.
#[derive(Debug)]
pub struct RequestStart {
    /// The text of the request, for the process that is spawned if need be.
    pub request: String,
    pub exchange: Exchange,
    /// The first action of the exchange.
    pub action: Action,
}

/// Starts a request. A method that is not allowed is rejected here, before
/// anything is sent.
pub fn sidecar_request(method: &str, params: &serde_json::Value) -> (started: Result<
    RequestStart,
    String,
>)
    ensures
        started is Ok <==> allowed_methods().contains(method@),
        started matches Err(reason) ==> reason@ == "Method not allowed: "@ + method@,
        started matches Ok(start) ==> {
            &&& start.request@ == request_object(method@, json_text(*params))
            &&& !start.request@.contains('\n')
            &&& if long_running_methods().contains(method@) {
                start.exchange.starts(start.request@, READ_TIMEOUT_STREAMING_SECS, true)
            } else {
                start.exchange.starts(start.request@, READ_TIMEOUT_SECS, false)
            }
            &&& connects(start.action)
        },
{
    if !is_method_allowed(method) {
        return Err(cat("Method not allowed: ", method));
    }
    let request = request_text(method, params);
    let (exchange, action) = if is_long_running(method) {
        send_request_with_progress(request.as_str())
    } else {
        send_request(request.as_str())
    };
    Ok(RequestStart { request, exchange, action })
}

/// The text of a value, or the reason why there is none.
pub open spec fn value_text(result: Result<serde_json::Value, String>) -> Result<
    Seq<char>,
    Seq<char>,
> {
    match result {
        Ok(value) => Ok(json_text(value)),
        Err(reason) => Err(reason@),
    }
}

/// What stands under `error` in a response.
#[derive(Debug)]
pub struct ErrorMember {
    pub is_null: bool,
    /// The compact text of the error.
    pub text: String,
}

/// The outcome of a response, by what stands under `error` and under `result`:
/// an error that is not null is the outcome, else the result is.
pub fn response_outcome(error: Option<ErrorMember>, result: Option<serde_json::Value>) -> (outcome:
    Result<serde_json::Value, String>)
    ensures
        match error {
            Some(e) if !e.is_null => outcome == Err::<serde_json::Value, String>(e.text),
            _ => match result {
                Some(value) => outcome == Ok::<serde_json::Value, String>(value),
                None => outcome matches Err(reason) && reason@
                    == "Missing result in JSON-RPC response"@,
            },
        },
{
    if let Some(e) = error {
        if !e.is_null {
            return Err(e.text);
        }
    }
    match result {
        Some(value) => Ok(value),
        None => Err("Missing result in JSON-RPC response".to_owned()),
    }
}

/// The outcome of the response with this compact text.
pub open spec fn document_outcome(document: Seq<char>) -> Result<Seq<char>, Seq<char>> {
    let error = json_member(document, "error"@);
    if error is Some && error != Some("null"@) {
        Err(error->0)
    } else {
        match json_member(document, "result"@) {
            Some(result) => Ok(result),
            None => Err("Missing result in JSON-RPC response"@),
        }
    }
}

/// The outcome of a response line.
pub open spec fn line_outcome(line: Seq<char>) -> Result<Seq<char>, Seq<char>> {
    match json_parsed(line) {
        Ok(document) => document_outcome(document),
        Err(reason) => Err("Failed to parse JSON response: "@ + reason),
    }
}

/// Parses a JSON-RPC response and takes its result or its error out of it.
pub fn parse_jsonrpc_response(response: &str) -> (outcome: Result<serde_json::Value, String>)
    ensures
        value_text(outcome) == line_outcome(response@),
{
    match parse_value(response) {
        Err(reason) => Err(
            cat("Failed to parse JSON response: ", error_text(&reason).as_str()),
        ),
        Ok(document) => {
            let error = match member(&document, "error") {
                Some(value) => Some(
                    ErrorMember { is_null: is_null(value), text: text_of(value) },
                ),
                None => None,
            };
            let result = match member(&document, "result") {
                Some(value) => Some(copy_of(value)),
                None => None,
            };
            response_outcome(error, result)
        },
    }
}

/// What comes of a request after the exchange with the server.
#[derive(Debug)]
pub enum ServerOutcome {
    /// The request is answered, or has failed.
    Settled(Result<serde_json::Value, String>),
    /// The server cannot be reached: a process is spawned for the request.
    FallBack,
}

/// The outcome of an exchange calls for a process of its own.
pub open spec fn falls_back(outcome: Result<Seq<char>, Seq<char>>) -> bool {
    outcome matches Err(reason) && has_prefix(reason, CONNECT_ERROR_PREFIX@)
}

/// Goes on with the outcome of the exchange with the server. Only an error that
/// says that the server is unreachable falls back to a process.
pub fn after_exchange(outcome: Result<String, String>) -> (next: ServerOutcome)
    ensures
        match outcome {
            Ok(response) => next matches ServerOutcome::Settled(result) && value_text(result)
                == line_outcome(response@),
            Err(reason) => if has_prefix(reason@, CONNECT_ERROR_PREFIX@) {
                next is FallBack
            } else {
                next matches ServerOutcome::Settled(result) && result matches Err(r) && r == reason
            },
        },
{
    match outcome {
        Ok(response) => ServerOutcome::Settled(parse_jsonrpc_response(response.as_str())),
        Err(reason) => if starts_with(reason.as_str(), CONNECT_ERROR_PREFIX) {
            ServerOutcome::FallBack
        } else {
            ServerOutcome::Settled(Err(reason))
        },
    }
}

/// A process is spawned for a request if and only if the connection to the
/// server failed. In every other case the server may have the request, and
/// spawning would execute it twice.
pub proof fn law_no_double_execution(
    pre: Exchange,
    reply: Reply,
    next: Phase,
    action: Action,
    result: Result<String, String>,
)
    requires
        exchange_step(pre, reply, next, action),
        action == Action::Finish(result),
    ensures
        falls_back(
            match result {
                Ok(text) => Ok(text@),
                Err(reason) => Err(reason@),
            },
        ) <==> (pre.phase == Phase::Connecting && reply is Failed),
{
    if let Err(reason) = result {
        law_connect_prefix_marks_connect_failures(pre, reply, next, action, reason);
    }
}

/// The user interface may invoke three methods and no other, and none of them is
/// one whose response takes long.
pub proof fn law_three_methods_are_allowed(method: Seq<char>)
    ensures
        allowed_methods().contains(method) <==> method == "ping"@ || method == "echo"@ || method
            == "get_status"@,
        !long_running_methods().contains(method),
{
    let methods = allowed_methods();
    assert(methods[0] == "ping"@);
    assert(methods[1] == "echo"@);
    assert(methods[2] == "get_status"@);
}

/// The outcome of a response by its members: an error that is not null is the
/// outcome, whatever the result; else the result is; and without either the
/// response is faulty.
pub proof fn law_outcome_by_members(document: Seq<char>, error: Seq<char>, result: Seq<char>)
    ensures
        json_member(document, "error"@) == Some(error) && error != "null"@ ==> document_outcome(
            document,
        ) == Err::<Seq<char>, Seq<char>>(error),
        (json_member(document, "error"@) is None || json_member(document, "error"@) == Some(
            "null"@,
        )) && json_member(document, "result"@) == Some(result) ==> document_outcome(document)
            == Ok::<Seq<char>, Seq<char>>(result),
        (json_member(document, "error"@) is None || json_member(document, "error"@) == Some(
            "null"@,
        )) && json_member(document, "result"@) is None ==> document_outcome(document) == Err::<
            Seq<char>,
            Seq<char>,
        >("Missing result in JSON-RPC response"@),
{
}

/// The outcome of a response line is that of the document it holds; a line that is
/// no JSON fails with the reason.
pub proof fn law_outcome_of_a_line(line: Seq<char>, document: Seq<char>, reason: Seq<char>)
    ensures
        json_parsed(line) == Ok::<Seq<char>, Seq<char>>(document) ==> line_outcome(line)
            == document_outcome(document),
        json_parsed(line) == Err::<Seq<char>, Seq<char>>(reason) ==> line_outcome(line) == Err::<
            Seq<char>,
            Seq<char>,
        >("Failed to parse JSON response: "@ + reason),
{
}

/// A process is spawned for a request exactly where the exchange failed with the
/// mark of an unreachable server in front; a response never calls for one.
pub proof fn law_only_the_mark_falls_back(text: Seq<char>, reason: Seq<char>)
    ensures
        !falls_back(Ok(text)),
        falls_back(Err("[connect] "@ + reason)),
        falls_back(Err(reason)) ==> reason.len() >= 10 && reason.take(10) == "[connect] "@,
{
    reveal_strlit("[connect] ");
    assert(("[connect] "@ + reason).take(10) =~= "[connect] "@);
}

/// A request names the protocol's version, its id, the method and the parameters,
/// and nothing else; different methods or parameters make different members.
pub proof fn law_request_has_four_members(method: Seq<char>, params: Seq<char>)
    ensures
        request_object(method, params) == json_object(
            seq![
                ("jsonrpc"@, json_quoted("2.0"@)),
                ("id"@, seq!['1']),
                ("method"@, json_quoted(method)),
                ("params"@, params),
            ],
        ),
{
    reveal_with_fuel(decimal, 2);
    assert(decimal(1) =~= seq!['1']);
}

/// The text of an outcome is that of its value or of its reason.
pub proof fn law_text_of_an_outcome(result: Result<serde_json::Value, String>)
    ensures
        result matches Ok(value) ==> value_text(result) == Ok::<Seq<char>, Seq<char>>(
            json_text(value),
        ),
        result matches Err(reason) ==> value_text(result) == Err::<Seq<char>, Seq<char>>(reason@),
{
}

} // verus!
