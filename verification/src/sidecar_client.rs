//! One exchange with the sidecar's server: connect, authenticate, send one
//! request line, read the response.
//!
//! Every request goes over a connection of its own. An [`Exchange`] decides what
//! is done next on that connection; whoever drives it performs the action and
//! hands back the reply. A streaming exchange relays events on the way to the
//! response, a single one reads the response line alone.

use vstd::prelude::*;

use crate::command::opt_text;
use crate::json::{
    json_member, json_object, json_parsed, json_quoted, json_string, json_text, member,
    member_texts, object_of, parse_value, parses_back, string_of, string_value, text_of,
};
use crate::text::{
    all_space, cat, cat3, decimal, decimal_text, ends_with, has_suffix, is_space,
    law_trimmed_is_the_middle, same_text, trim, trimmed,
};

verus! {

/// Host that the server listens on.
pub const SIDECAR_HOST: &'static str = "127.0.0.1";

/// Port that the server listens on.
pub const SIDECAR_PORT: u16 = 9124;

/// Seconds to wait for a connection.
pub const CONNECT_TIMEOUT_SECS: u64 = 2;

/// Seconds to wait for the response line of a single exchange.
pub const READ_TIMEOUT_SECS: u64 = 30;

/// Seconds to wait for a line of an operation that takes long.
pub const READ_TIMEOUT_STREAMING_SECS: u64 = 120;

/// Seconds to wait for a write to go through.
pub const WRITE_TIMEOUT_SECS: u64 = 5;

/// Marks the errors that mean that nothing is listening. Any other error leaves
/// open whether the server is at work on the request.
pub const CONNECT_ERROR_PREFIX: &'static str = "[connect] ";

/// The address that the server listens on.
pub fn default_addr() -> (address: String)
    ensures
        address@ == SIDECAR_HOST@ + ":"@ + decimal(SIDECAR_PORT as nat),
{
    cat3(SIDECAR_HOST, ":", decimal_text(SIDECAR_PORT as u64).as_str())
}

/// The token in the content of the token file, where there is a file and it
/// holds more than white space.
pub open spec fn token_in(file: Option<Seq<char>>) -> Option<Seq<char>> {
    match file {
        Some(content) => if trimmed(content).len() > 0 {
            Some(trimmed(content))
        } else {
            None
        },
        None => None,
    }
}

/// The session token, from the content of the token file. Without a token no
/// handshake is made: the server runs without authentication.
pub fn read_sidecar_token(file: &Option<String>) -> (token: Option<String>)
    ensures
        opt_text(token) == token_in(opt_text(*file)),
{
    match file {
        None => None,
        Some(content) => {
            let token = trim(content.as_str());
            if token.is_empty() {
                None
            } else {
                Some(token.to_owned())
            }
        },
    }
}

/// The handshake for a token, without the line feed that ends the line.
pub open spec fn handshake_text(token: Seq<char>) -> Seq<char> {
    json_object(seq![("type"@, json_quoted("auth"@)), ("token"@, json_quoted(token))])
}

/// The first line on a connection to a server that asks for authentication: an
/// object with the type `auth` and the token. It is one line whatever the token
/// holds, and who parses it finds the type and the token again.
pub fn auth_handshake_line(token: &str) -> (line: String)
    ensures
        line@ == handshake_text(token@) + "\n"@,
        !handshake_text(token@).contains('\n'),
        parses_back(handshake_text(token@)),
        json_member(handshake_text(token@), "type"@) == Some(json_quoted("auth"@)),
        json_member(handshake_text(token@), "token"@) == Some(json_quoted(token@)),
        json_string(json_quoted("auth"@)) == Some("auth"@),
        json_string(json_quoted(token@)) == Some(token@),
{
    let members: Vec<(String, serde_json::Value)> = vec![
        ("type".to_owned(), string_value("auth")),
        ("token".to_owned(), string_value(token)),
    ];
    let ghost parts = member_texts(members@);
    proof {
        reveal_strlit("type");
        reveal_strlit("token");
        assert(parts =~= seq![("type"@, json_quoted("auth"@)), ("token"@, json_quoted(token@))]);
        assert("type"@.len() != "token"@.len());
        assert(members@[0].0@ == "type"@);
        assert(members@[1].0@ == "token"@);
    }
    let value = object_of(members);
    cat(text_of(&value).as_str(), "\n")
}

/// A request as it goes over the connection.
pub open spec fn request_line_text(request: Seq<char>) -> Seq<char> {
    if has_suffix(request, "\n"@) {
        request
    } else {
        request + "\n"@
    }
}

/// A request with the line feed that ends it.
pub fn request_line(request: &str) -> (line: String)
    ensures
        line@ == request_line_text(request@),
{
    if ends_with(request, "\n") {
        request.to_owned()
    } else {
        cat(request, "\n")
    }
}

/// A request line ends in a line feed, and making a line of it once more changes
/// nothing.
pub proof fn law_request_line_ends_once(request: Seq<char>)
    ensures
        has_suffix(request_line_text(request), "\n"@),
        request_line_text(request_line_text(request)) == request_line_text(request),
{
    let line = request + "\n"@;
    assert(line.skip(line.len() - "\n"@.len()) =~= "\n"@);
}

/// A request without a line feed goes out as exactly one line.
pub proof fn law_request_is_one_line(request: Seq<char>)
    requires
        !request.contains('\n'),
    ensures
        request_line_text(request) == request.push('\n'),
        forall|i: int|
            0 <= i < request_line_text(request).len() - 1 ==> #[trigger] request_line_text(
                request,
            )[i] != '\n',
{
    reveal_strlit("\n");
    if has_suffix(request, "\n"@) {
        assert(request.skip(request.len() - 1)[0] == '\n');
        assert(request[request.len() - 1] == '\n');
    }
    assert(request + "\n"@ =~= request.push('\n'));
    assert forall|i: int| 0 <= i < request.len() implies request[i] != '\n' by {
        assert(request.contains(request[i]));
    }
}

/// What a line of the stream is to the client.
#[derive(Clone, Copy, PartialEq, Eq, Structural, Debug)]
pub enum LineClass {
    /// A progress event to relay.
    Progress,
    /// A protocol event to relay.
    ProtocolEvent,
    /// The response, which ends the stream.
    FinalResponse,
    /// Anything else: a stray log line, JSON of another shape. Never ends the stream.
    Skip,
}

/// What the client reads of a JSON document.
#[derive(Debug)]
pub struct LineShape {
    /// The string under `type`, if there is one.
    pub kind: Option<String>,
    pub has_id: bool,
    pub has_jsonrpc: bool,
    pub has_result: bool,
    pub has_error: bool,
}

impl LineShape {
    /// The class of a document of this shape.
    pub open spec fn class(self) -> LineClass {
        if opt_text(self.kind) == Some("progress"@) {
            LineClass::Progress
        } else if opt_text(self.kind) == Some("protocol_event"@) {
            LineClass::ProtocolEvent
        } else if self.has_id || self.has_jsonrpc || self.has_result || self.has_error {
            LineClass::FinalResponse
        } else {
            LineClass::Skip
        }
    }

    /// This is the shape of the document.
    pub open spec fn is_of(self, document: Seq<char>) -> bool {
        &&& opt_text(self.kind) == document_kind(document)
        &&& self.has_id == (json_member(document, "id"@) is Some)
        &&& self.has_jsonrpc == (json_member(document, "jsonrpc"@) is Some)
        &&& self.has_result == (json_member(document, "result"@) is Some)
        &&& self.has_error == (json_member(document, "error"@) is Some)
    }
}

/// The string under `type` in a document.
pub open spec fn document_kind(document: Seq<char>) -> Option<Seq<char>> {
    match json_member(document, "type"@) {
        Some(kind) => json_string(kind),
        None => None,
    }
}

/// The string under `type` in a JSON value.
pub fn kind_of(value: &serde_json::Value) -> (kind: Option<String>)
    ensures
        opt_text(kind) == document_kind(json_text(*value)),
{
    match member(value, "type") {
        None => None,
        Some(kind) => match string_of(kind) {
            Some(text) => Some(text.to_owned()),
            None => None,
        },
    }
}

/// What the client reads of a JSON value.
pub fn shape_of(value: &serde_json::Value) -> (shape: LineShape)
    ensures
        shape.is_of(json_text(*value)),
{
    LineShape {
        kind: kind_of(value),
        has_id: member(value, "id").is_some(),
        has_jsonrpc: member(value, "jsonrpc").is_some(),
        has_result: member(value, "result").is_some(),
        has_error: member(value, "error").is_some(),
    }
}

/// The class of a document, by its shape.
pub fn classify_shape(shape: &LineShape) -> (class: LineClass)
    ensures
        class == shape.class(),
{
    if let Some(kind) = &shape.kind {
        if same_text(kind.as_str(), "progress") {
            return LineClass::Progress;
        }
        if same_text(kind.as_str(), "protocol_event") {
            return LineClass::ProtocolEvent;
        }
    }
    if shape.has_id || shape.has_jsonrpc || shape.has_result || shape.has_error {
        LineClass::FinalResponse
    } else {
        LineClass::Skip
    }
}

/// A line read from the streaming connection, with what is relayed of it.
#[derive(Debug)]
pub enum StreamLine {
    Progress(serde_json::Value),
    ProtocolEvent(serde_json::Value),
    FinalResponse,
    Skip,
}

impl StreamLine {
    pub open spec fn class(self) -> LineClass {
        match self {
            StreamLine::Progress(_) => LineClass::Progress,
            StreamLine::ProtocolEvent(_) => LineClass::ProtocolEvent,
            StreamLine::FinalResponse => LineClass::FinalResponse,
            StreamLine::Skip => LineClass::Skip,
        }
    }

    /// The compact text of what is relayed.
    pub open spec fn payload(self) -> Option<Seq<char>> {
        match self {
            StreamLine::Progress(value) => Some(json_text(value)),
            StreamLine::ProtocolEvent(value) => Some(json_text(value)),
            _ => None,
        }
    }
}

/// The class of a document, by its compact text.
pub open spec fn document_class(document: Seq<char>) -> LineClass {
    if document_kind(document) == Some("progress"@) {
        LineClass::Progress
    } else if document_kind(document) == Some("protocol_event"@) {
        LineClass::ProtocolEvent
    } else if json_member(document, "id"@) is Some || json_member(document, "jsonrpc"@) is Some
        || json_member(document, "result"@) is Some || json_member(document, "error"@) is Some {
        LineClass::FinalResponse
    } else {
        LineClass::Skip
    }
}

/// The class of a line: that of the document it holds, and a line to skip where
/// it holds none.
pub open spec fn line_class(line: Seq<char>) -> LineClass {
    match json_parsed(line) {
        Ok(document) => document_class(document),
        Err(_) => LineClass::Skip,
    }
}

/// What is relayed of a line: the whole document, for an event.
pub open spec fn line_payload(line: Seq<char>) -> Option<Seq<char>> {
    match line_class(line) {
        LineClass::Progress | LineClass::ProtocolEvent => match json_parsed(line) {
            Ok(document) => Some(document),
            Err(_) => None,
        },
        _ => None,
    }
}

/// Classifies a trimmed, non-empty line of the stream. Only a line that parses
/// as JSON with the shape of a JSON-RPC response ends the read.
pub fn classify_stream_line(trimmed_line: &str) -> (line: StreamLine)
    ensures
        line.class() == line_class(trimmed_line@),
        line.payload() == line_payload(trimmed_line@),
{
    match parse_value(trimmed_line) {
        Err(_) => StreamLine::Skip,
        Ok(value) => {
            let shape = shape_of(&value);
            match classify_shape(&shape) {
                LineClass::Progress => StreamLine::Progress(value),
                LineClass::ProtocolEvent => StreamLine::ProtocolEvent(value),
                LineClass::FinalResponse => StreamLine::FinalResponse,
                LineClass::Skip => StreamLine::Skip,
            }
        },
    }
}

/// The document is an event by its type: `progress` or `protocol_event`.
pub open spec fn has_event_type(document: Seq<char>) -> bool {
    json_member(document, "type"@) matches Some(kind) && (json_string(kind) == Some("progress"@)
        || json_string(kind) == Some("protocol_event"@))
}

/// Whatever else it holds, a document that is no event and has an `id`, a
/// `jsonrpc`, a `result` or an `error` is the response and ends a stream; one that
/// has none of them is passed over. Above all, every error reply ends a stream.
pub proof fn law_each_response_member_ends_stream(line: Seq<char>, document: Seq<char>)
    requires
        json_parsed(line) == Ok::<Seq<char>, Seq<char>>(document),
        !has_event_type(document),
    ensures
        json_member(document, "id"@) is Some ==> line_class(line) == LineClass::FinalResponse,
        json_member(document, "jsonrpc"@) is Some ==> line_class(line) == LineClass::FinalResponse,
        json_member(document, "result"@) is Some ==> line_class(line) == LineClass::FinalResponse,
        json_member(document, "error"@) is Some ==> line_class(line) == LineClass::FinalResponse,
        json_member(document, "id"@) is None && json_member(document, "jsonrpc"@) is None
            && json_member(document, "result"@) is None && json_member(document, "error"@) is None
            ==> line_class(line) == LineClass::Skip,
        line_payload(line) is None,
{
}

/// An event is told by its type alone, whatever else the document holds, and the
/// whole document is what is relayed of it.
pub proof fn law_events_are_told_by_type(line: Seq<char>, document: Seq<char>, kind: Seq<char>)
    requires
        json_parsed(line) == Ok::<Seq<char>, Seq<char>>(document),
        json_member(document, "type"@) == Some(kind),
    ensures
        json_string(kind) == Some("progress"@) ==> line_class(line) == LineClass::Progress
            && line_payload(line) == Some(document),
        json_string(kind) == Some("protocol_event"@) ==> line_class(line)
            == LineClass::ProtocolEvent && line_payload(line) == Some(document),
{
    reveal_strlit("progress");
    reveal_strlit("protocol_event");
    assert("progress"@.len() != "protocol_event"@.len());
}

/// A line that is no JSON is passed over and nothing is relayed of it.
pub proof fn law_no_json_is_passed_over(line: Seq<char>)
    requires
        json_parsed(line) is Err,
    ensures
        line_class(line) == LineClass::Skip,
        line_payload(line) is None,
{
}

/// The class of a shape, member by member: an event type wins, and without one any
/// single member of a response makes a response.
pub proof fn law_each_shape_member_counts(shape: LineShape)
    ensures
        (shape.kind matches Some(kind) && kind@ == "progress"@) ==> shape.class()
            == LineClass::Progress,
        (shape.kind matches Some(kind) && kind@ == "protocol_event"@) ==> shape.class()
            == LineClass::ProtocolEvent,
        !(shape.kind matches Some(kind) && (kind@ == "progress"@ || kind@ == "protocol_event"@))
            ==> {
            &&& shape.has_id ==> shape.class() == LineClass::FinalResponse
            &&& shape.has_jsonrpc ==> shape.class() == LineClass::FinalResponse
            &&& shape.has_result ==> shape.class() == LineClass::FinalResponse
            &&& shape.has_error ==> shape.class() == LineClass::FinalResponse
            &&& !shape.has_id && !shape.has_jsonrpc && !shape.has_result && !shape.has_error
                ==> shape.class() == LineClass::Skip
        },
{
    reveal_strlit("progress");
    reveal_strlit("protocol_event");
    assert("progress"@.len() != "protocol_event"@.len());
}

/// A shape says of a document which members it has and which string stands under
/// `type`, and nothing but that decides the document's class.
pub proof fn law_shape_decides_class(shape: LineShape, document: Seq<char>)
    requires
        shape.is_of(document),
    ensures
        shape.has_id <==> json_member(document, "id"@) is Some,
        shape.has_jsonrpc <==> json_member(document, "jsonrpc"@) is Some,
        shape.has_result <==> json_member(document, "result"@) is Some,
        shape.has_error <==> json_member(document, "error"@) is Some,
        shape.kind matches Some(kind) ==> (json_member(document, "type"@) matches Some(text)
            && json_string(text) == Some(kind@)),
        shape.kind is None ==> (json_member(document, "type"@) matches Some(text) ==> json_string(
            text,
        ) is None),
        shape.class() == document_class(document),
{
}

/// The token is what is left of the file without the white space around it; a file
/// that is missing or blank holds none.
pub proof fn law_token_is_the_trimmed_file(
    before: Seq<char>,
    token: Seq<char>,
    after: Seq<char>,
)
    requires
        all_space(before),
        all_space(after),
        token.len() > 0 ==> !is_space(token[0]) && !is_space(token.last()),
    ensures
        token_in(None) is None,
        token.len() > 0 ==> token_in(Some(before + token + after)) == Some(token),
        token.len() == 0 ==> token_in(Some(before + token + after)) is None,
{
    law_trimmed_is_the_middle(before, token, after);
}

/// A request goes out as it is, with a line feed behind it unless it ends in one.
pub proof fn law_request_is_sent_unchanged(request: Seq<char>)
    ensures
        request.len() > 0 && request.last() == '\n' ==> request_line_text(request) == request,
        request.len() == 0 || request.last() != '\n' ==> request_line_text(request)
            == request.push('\n'),
{
    reveal_strlit("\n");
    assert(request + "\n"@ =~= request.push('\n'));
    if request.len() > 0 {
        assert(request.skip(request.len() - 1) =~= seq![request.last()]);
        assert("\n"@ =~= seq!['\n']);
        if has_suffix(request, "\n"@) {
            assert(seq![request.last()][0] == '\n');
        }
    }
}

/// Where the server listens, how long is waited for it, and how an unreachable one
/// is marked.
pub proof fn law_server_constants()
    ensures
        SIDECAR_HOST@ == "127.0.0.1"@,
        SIDECAR_PORT == 9124,
        CONNECT_TIMEOUT_SECS == 2,
        READ_TIMEOUT_SECS == 30,
        READ_TIMEOUT_STREAMING_SECS == 120,
        WRITE_TIMEOUT_SECS == 5,
        CONNECT_ERROR_PREFIX@ == "[connect] "@,
{
}

/// The handshake is an object of the type `auth` with the token, and nothing else.
pub proof fn law_handshake_has_two_members(token: Seq<char>)
    ensures
        handshake_text(token) == json_object(
            seq![("type"@, json_quoted("auth"@)), ("token"@, json_quoted(token))],
        ),
{
}

} // verus!
