//! The course of one exchange with the sidecar's server, step by step.
//!
//! An [`Exchange`] says what is done next on the connection; whoever drives it
//! performs the action and hands back the [`Reply`]. The order is fixed: timeouts,
//! then the handshake where there is a token, then the request, then the response.

use vstd::prelude::*;

use crate::command::opt_text;
use crate::events::{PROTOCOL_EVENT_CHANNEL, QUERY_PROGRESS_CHANNEL};
use crate::json::{copy_of, json_member, json_parsed, json_text, member};
use crate::sidecar_client::{
    auth_handshake_line, classify_stream_line, default_addr, handshake_text, line_class,
    line_payload, read_sidecar_token, request_line, request_line_text, token_in, LineClass,
    StreamLine, CONNECT_ERROR_PREFIX, CONNECT_TIMEOUT_SECS, READ_TIMEOUT_SECS,
    READ_TIMEOUT_STREAMING_SECS, SIDECAR_HOST, SIDECAR_PORT, WRITE_TIMEOUT_SECS,
};
use crate::text::{
    all_space, cat, cat3, decimal, has_prefix, is_space, lemma_trimmed_end, trim, trim_end, trimmed,
    trimmed_end,
};

verus! {

/// How far an exchange has come: what the next reply answers.
#[derive(Clone, Copy, PartialEq, Eq, Structural, Debug)]
pub enum Phase {
    Connecting,
    SettingReadTimeout,
    SettingWriteTimeout,
    SettingNodelay,
    ReadingToken,
    Authenticating,
    Sending,
    Flushing,
    Reading,
    Relaying,
    Closed,
}

/// What is to be done next.
#[derive(Debug)]
pub enum Action {
    Connect { address: String, timeout_secs: u64 },
    SetReadTimeout { secs: u64 },
    SetWriteTimeout { secs: u64 },
    /// Have every write go out at once.
    SetNodelay,
    /// Read the token file.
    ReadToken,
    Write { line: String },
    Flush,
    /// Read up to and including the next line feed, or to the end.
    ReadLine,
    /// Pass an event on to the user interface.
    Emit { channel: String, payload: serde_json::Value },
    /// The exchange is over.
    Finish(Result<String, String>),
}

/// What came of an action.
#[derive(Debug)]
pub enum Reply {
    Done,
    /// The action failed, for this reason.
    Failed(String),
    /// The address could not be read, for this reason.
    BadAddress(String),
    /// The content of the token file, where it could be read.
    TokenFile(Option<String>),
    /// What was read, with its line feed. Nothing at the end of the stream.
    Line(String),
}

impl Reply {
    /// The content of the token file.
    pub open spec fn token_file(self) -> Option<Seq<char>> {
        match self {
            Reply::TokenFile(content) => opt_text(content),
            _ => None,
        }
    }

    /// What was read. A reply that carries no line stands for the end.
    pub open spec fn line(self) -> Seq<char> {
        match self {
            Reply::Line(line) => line@,
            _ => Seq::empty(),
        }
    }
}

/// One request on its way.
#[derive(Debug)]
pub struct Exchange {
    pub request: String,
    pub read_timeout_secs: u64,
    /// Whether events are relayed before the response.
    pub streaming: bool,
    pub phase: Phase,
}

/// The message for an action that failed, up to the reason.
pub open spec fn failure_lead(phase: Phase, streaming: bool) -> Seq<char> {
    match phase {
        Phase::Connecting => CONNECT_ERROR_PREFIX@ + "Failed to connect to sidecar: "@,
        Phase::SettingReadTimeout => "Failed to set read timeout: "@,
        Phase::SettingWriteTimeout => "Failed to set write timeout: "@,
        Phase::SettingNodelay => "Failed to set nodelay: "@,
        Phase::Authenticating => "Failed to send auth handshake: "@,
        Phase::Sending => "Failed to send request: "@,
        Phase::Flushing => "Failed to flush: "@,
        _ => if streaming {
            "Failed to read line: "@
        } else {
            "Failed to read response: "@
        },
    }
}

/// The message with which a reply ends the exchange, if it is such a reply. A
/// token file that cannot be read is no token, and an event that cannot be
/// passed on is dropped.
pub open spec fn failure(exchange: Exchange, reply: Reply) -> Option<Seq<char>> {
    match reply {
        Reply::BadAddress(reason) => Some("Invalid address: "@ + reason@),
        Reply::Failed(reason) => if exchange.phase == Phase::ReadingToken || exchange.phase
            == Phase::Relaying {
            None
        } else {
            Some(failure_lead(exchange.phase, exchange.streaming) + reason@)
        },
        _ => None,
    }
}

/// The action writes this line.
pub open spec fn writes(action: Action, line: Seq<char>) -> bool {
    action matches Action::Write { line: written } && written@ == line
}

/// The action ends the exchange with this response.
pub open spec fn responds(action: Action, response: Seq<char>) -> bool {
    action matches Action::Finish(result) && result matches Ok(text) && text@ == response
}

/// The action ends the exchange with this error.
pub open spec fn fails(action: Action, message: Seq<char>) -> bool {
    action matches Action::Finish(result) && result matches Err(text) && text@ == message
}

/// The action passes on an event.
pub open spec fn emits(action: Action, channel: Seq<char>, payload: Option<Seq<char>>) -> bool {
    action matches Action::Emit { channel: to, payload: value } && to@ == channel && payload
        == Some(json_text(value))
}

/// What follows once the response of a single exchange was read.
pub open spec fn single_step(line: Seq<char>, next: Phase, action: Action) -> bool {
    &&& next == Phase::Closed
    &&& if line.len() == 0 {
        fails(action, "Empty response from sidecar"@)
    } else {
        responds(action, trimmed_end(line))
    }
}

/// The event inside a protocol event.
pub open spec fn inner_event(line: Seq<char>) -> Option<Seq<char>> {
    match line_payload(line) {
        Some(document) => json_member(document, "event"@),
        None => None,
    }
}

/// What follows once a line of a streaming exchange was read.
pub open spec fn stream_step(line: Seq<char>, next: Phase, action: Action) -> bool {
    let text = trimmed(line);
    if line.len() == 0 {
        next == Phase::Closed && fails(action, "No response received from sidecar"@)
    } else if text.len() == 0 {
        next == Phase::Reading && action is ReadLine
    } else {
        match line_class(text) {
            LineClass::Progress => {
                next == Phase::Relaying && emits(action, QUERY_PROGRESS_CHANNEL@, line_payload(text))
            },
            LineClass::ProtocolEvent => if inner_event(text) is Some {
                next == Phase::Relaying && emits(action, PROTOCOL_EVENT_CHANNEL@, inner_event(text))
            } else {
                next == Phase::Reading && action is ReadLine
            },
            LineClass::FinalResponse => next == Phase::Closed && responds(action, text),
            LineClass::Skip => next == Phase::Reading && action is ReadLine,
        }
    }
}

/// One step of an exchange: the phase after a reply, and the action that follows.
pub open spec fn exchange_step(pre: Exchange, reply: Reply, next: Phase, action: Action) -> bool {
    if pre.phase == Phase::Closed {
        false
    } else if let Some(message) = failure(pre, reply) {
        next == Phase::Closed && fails(action, message)
    } else {
        match pre.phase {
            Phase::Connecting => next == Phase::SettingReadTimeout && action
                == (Action::SetReadTimeout { secs: pre.read_timeout_secs }),
            Phase::SettingReadTimeout => next == Phase::SettingWriteTimeout && action
                == (Action::SetWriteTimeout { secs: WRITE_TIMEOUT_SECS }),
            Phase::SettingWriteTimeout => next == Phase::SettingNodelay && action
                == Action::SetNodelay,
            Phase::SettingNodelay => next == Phase::ReadingToken && action == Action::ReadToken,
            Phase::ReadingToken => match token_in(reply.token_file()) {
                Some(token) => next == Phase::Authenticating && writes(
                    action,
                    handshake_text(token) + "\n"@,
                ),
                None => next == Phase::Sending && writes(action, request_line_text(pre.request@)),
            },
            Phase::Authenticating => next == Phase::Sending && writes(
                action,
                request_line_text(pre.request@),
            ),
            Phase::Sending => next == Phase::Flushing && action == Action::Flush,
            Phase::Flushing => next == Phase::Reading && action == Action::ReadLine,
            Phase::Reading => if pre.streaming {
                stream_step(reply.line(), next, action)
            } else {
                single_step(reply.line(), next, action)
            },
            Phase::Relaying => next == Phase::Reading && action == Action::ReadLine,
            Phase::Closed => false,
        }
    }
}

/// The action opens a connection to the server.
pub open spec fn connects(action: Action) -> bool {
    action matches Action::Connect { address, timeout_secs } && address@ == SIDECAR_HOST@ + ":"@
        + decimal(SIDECAR_PORT as nat) && timeout_secs == CONNECT_TIMEOUT_SECS
}

impl Exchange {
    /// An exchange that is about to connect.
    pub open spec fn starts(self, request: Seq<char>, secs: u64, streaming: bool) -> bool {
        &&& self.request@ == request
        &&& self.read_timeout_secs == secs
        &&& self.streaming == streaming
        &&& self.phase == Phase::Connecting
    }

    fn start(request: &str, secs: u64, streaming: bool) -> (begun: (Exchange, Action))
        ensures
            begun.0.starts(request@, secs, streaming),
            connects(begun.1),
    {
        let exchange = Exchange {
            request: request.to_owned(),
            read_timeout_secs: secs,
            streaming,
            phase: Phase::Connecting,
        };
        (exchange, Action::Connect { address: default_addr(), timeout_secs: CONNECT_TIMEOUT_SECS })
    }

    /// The message with which a reply ends the exchange, if it is such a reply.
    fn failure_message(&self, reply: &Reply) -> (message: Option<String>)
        ensures
            opt_text(message) == failure(*self, *reply),
    {
        match reply {
            Reply::BadAddress(reason) => Some(cat("Invalid address: ", reason.as_str())),
            Reply::Failed(reason) => match self.phase {
                Phase::ReadingToken => None,
                Phase::Relaying => None,
                Phase::Connecting => Some(
                    cat3(CONNECT_ERROR_PREFIX, "Failed to connect to sidecar: ", reason.as_str()),
                ),
                Phase::SettingReadTimeout => Some(
                    cat("Failed to set read timeout: ", reason.as_str()),
                ),
                Phase::SettingWriteTimeout => Some(
                    cat("Failed to set write timeout: ", reason.as_str()),
                ),
                Phase::SettingNodelay => Some(cat("Failed to set nodelay: ", reason.as_str())),
                Phase::Authenticating => Some(
                    cat("Failed to send auth handshake: ", reason.as_str()),
                ),
                Phase::Sending => Some(cat("Failed to send request: ", reason.as_str())),
                Phase::Flushing => Some(cat("Failed to flush: ", reason.as_str())),
                _ => if self.streaming {
                    Some(cat("Failed to read line: ", reason.as_str()))
                } else {
                    Some(cat("Failed to read response: ", reason.as_str()))
                },
            },
            _ => None,
        }
    }

    /// Takes the reply to the last action and says what is done next. Once an
    /// action has ended the exchange, no reply follows.
    pub fn step(&mut self, reply: Reply) -> (action: Action)
        requires
            old(self).phase != Phase::Closed,
        ensures
            exchange_step(*old(self), reply, final(self).phase, action),
            final(self).request == old(self).request,
            final(self).read_timeout_secs == old(self).read_timeout_secs,
            final(self).streaming == old(self).streaming,
            action is Finish <==> final(self).phase == Phase::Closed,
    {
        if let Some(message) = self.failure_message(&reply) {
            self.phase = Phase::Closed;
            return Action::Finish(Err(message));
        }
        match self.phase {
            Phase::Connecting => {
                self.phase = Phase::SettingReadTimeout;
                Action::SetReadTimeout { secs: self.read_timeout_secs }
            },
            Phase::SettingReadTimeout => {
                self.phase = Phase::SettingWriteTimeout;
                Action::SetWriteTimeout { secs: WRITE_TIMEOUT_SECS }
            },
            Phase::SettingWriteTimeout => {
                self.phase = Phase::SettingNodelay;
                Action::SetNodelay
            },
            Phase::SettingNodelay => {
                self.phase = Phase::ReadingToken;
                Action::ReadToken
            },
            Phase::ReadingToken => {
                let token = match &reply {
                    Reply::TokenFile(content) => read_sidecar_token(content),
                    _ => None,
                };
                match token {
                    Some(token) => {
                        self.phase = Phase::Authenticating;
                        Action::Write { line: auth_handshake_line(token.as_str()) }
                    },
                    None => {
                        self.phase = Phase::Sending;
                        Action::Write { line: request_line(self.request.as_str()) }
                    },
                }
            },
            Phase::Authenticating => {
                self.phase = Phase::Sending;
                Action::Write { line: request_line(self.request.as_str()) }
            },
            Phase::Sending => {
                self.phase = Phase::Flushing;
                Action::Flush
            },
            Phase::Flushing => {
                self.phase = Phase::Reading;
                Action::ReadLine
            },
            Phase::Reading => {
                let line = match reply {
                    Reply::Line(line) => line,
                    _ => String::new(),
                };
                if self.streaming {
                    self.read_stream_line(line.as_str())
                } else {
                    self.read_response(line.as_str())
                }
            },
            _ => {
                self.phase = Phase::Reading;
                Action::ReadLine
            },
        }
    }

    /// Ends a single exchange with the line that was read.
    fn read_response(&mut self, line: &str) -> (action: Action)
        ensures
            single_step(line@, final(self).phase, action),
            final(self).request == old(self).request,
            final(self).read_timeout_secs == old(self).read_timeout_secs,
            final(self).streaming == old(self).streaming,
    {
        self.phase = Phase::Closed;
        if line.is_empty() {
            return Action::Finish(Err("Empty response from sidecar".to_owned()));
        }
        Action::Finish(Ok(trim_end(line).to_owned()))
    }

    /// Goes on with a line that was read in a streaming exchange.
    fn read_stream_line(&mut self, line: &str) -> (action: Action)
        ensures
            stream_step(line@, final(self).phase, action),
            final(self).request == old(self).request,
            final(self).read_timeout_secs == old(self).read_timeout_secs,
            final(self).streaming == old(self).streaming,
    {
        if line.is_empty() {
            self.phase = Phase::Closed;
            return Action::Finish(Err("No response received from sidecar".to_owned()));
        }
        self.phase = Phase::Reading;
        let text = trim(line);
        if text.is_empty() {
            return Action::ReadLine;
        }
        match classify_stream_line(text) {
            StreamLine::Progress(payload) => {
                self.phase = Phase::Relaying;
                Action::Emit { channel: QUERY_PROGRESS_CHANNEL.to_owned(), payload }
            },
            StreamLine::ProtocolEvent(document) => match member(&document, "event") {
                Some(event) => {
                    self.phase = Phase::Relaying;
                    Action::Emit {
                        channel: PROTOCOL_EVENT_CHANNEL.to_owned(),
                        payload: copy_of(event),
                    }
                },
                None => Action::ReadLine,
            },
            StreamLine::FinalResponse => {
                self.phase = Phase::Closed;
                Action::Finish(Ok(text.to_owned()))
            },
            StreamLine::Skip => Action::ReadLine,
        }
    }
}

/// Sends a request and reads one response line.
pub fn send_request(request: &str) -> (begun: (Exchange, Action))
    ensures
        begun.0.starts(request@, READ_TIMEOUT_SECS, false),
        connects(begun.1),
{
    Exchange::start(request, READ_TIMEOUT_SECS, false)
}

/// Sends a request whose one response line may take long.
pub fn send_request_long(request: &str) -> (begun: (Exchange, Action))
    ensures
        begun.0.starts(request@, READ_TIMEOUT_STREAMING_SECS, false),
        connects(begun.1),
{
    Exchange::start(request, READ_TIMEOUT_STREAMING_SECS, false)
}

/// Sends a request and relays events until the response comes.
pub fn send_request_with_progress(request: &str) -> (begun: (Exchange, Action))
    ensures
        begun.0.starts(request@, READ_TIMEOUT_STREAMING_SECS, true),
        connects(begun.1),
{
    Exchange::start(request, READ_TIMEOUT_STREAMING_SECS, true)
}

/// An error carries the prefix that stands for an unreachable server if and only
/// if it was the connection that failed. A server that is busy is never taken
/// for one that is down.
pub proof fn law_connect_prefix_marks_connect_failures(
    pre: Exchange,
    reply: Reply,
    next: Phase,
    action: Action,
    message: String,
)
    requires
        exchange_step(pre, reply, next, action),
        action == Action::Finish(Err(message)),
    ensures
        has_prefix(message@, CONNECT_ERROR_PREFIX@) <==> (pre.phase == Phase::Connecting
            && reply is Failed),
{
    reveal_strlit("[connect] ");
    reveal_strlit("Invalid address: ");
    reveal_strlit("Failed to set read timeout: ");
    reveal_strlit("Failed to set write timeout: ");
    reveal_strlit("Failed to set nodelay: ");
    reveal_strlit("Failed to send auth handshake: ");
    reveal_strlit("Failed to send request: ");
    reveal_strlit("Failed to flush: ");
    reveal_strlit("Failed to read line: ");
    reveal_strlit("Failed to read response: ");
    reveal_strlit("Empty response from sidecar");
    reveal_strlit("No response received from sidecar");
    let prefix = CONNECT_ERROR_PREFIX@;
    if pre.phase == Phase::Connecting && reply is Failed {
        assert(message@.take(prefix.len() as int) =~= prefix);
    } else {
        assert(message@[0] != '[');
        if has_prefix(message@, prefix) {
            assert(message@.take(prefix.len() as int)[0] == '[');
        }
    }
}

/// The request is written only once the handshake is through, or where there is
/// no token to authenticate with.
pub proof fn law_handshake_precedes_request(
    pre: Exchange,
    reply: Reply,
    next: Phase,
    action: Action,
)
    requires
        exchange_step(pre, reply, next, action),
        next == Phase::Sending,
    ensures
        writes(action, request_line_text(pre.request@)),
        (pre.phase == Phase::Authenticating && !(reply is Failed)) || (pre.phase
            == Phase::ReadingToken && token_in(reply.token_file()) is None),
{
}

/// How many actions of an exchange lie behind a phase.
pub open spec fn rank(phase: Phase) -> nat {
    match phase {
        Phase::Connecting => 0,
        Phase::SettingReadTimeout => 1,
        Phase::SettingWriteTimeout => 2,
        Phase::SettingNodelay => 3,
        Phase::ReadingToken => 4,
        Phase::Authenticating => 5,
        Phase::Sending => 6,
        Phase::Flushing => 7,
        Phase::Reading => 8,
        Phase::Relaying => 8,
        Phase::Closed => 9,
    }
}

/// An exchange only ever advances, so nothing is written to the server twice:
/// in particular the request goes out at most once.
pub proof fn law_exchange_advances(pre: Exchange, reply: Reply, next: Phase, action: Action)
    requires
        exchange_step(pre, reply, next, action),
    ensures
        rank(next) > rank(pre.phase) || (rank(next) == 8 && rank(pre.phase) == 8),
        rank(pre.phase) >= rank(Phase::Sending) ==> !(action is Write),
{
}

/// Only the response of a streaming exchange ends it successfully: stray output
/// cannot end the read early.
pub proof fn law_stray_lines_do_not_end_stream(
    pre: Exchange,
    reply: Reply,
    next: Phase,
    action: Action,
    response: String,
)
    requires
        exchange_step(pre, reply, next, action),
        pre.streaming,
        action == Action::Finish(Ok(response)),
    ensures
        pre.phase == Phase::Reading,
        response@ == trimmed(reply.line()),
        line_class(response@) == LineClass::FinalResponse,
{
}

/// Setting up goes in one order, each step once the one before is done: connection,
/// the request's own read timeout, five seconds for writes, no delay, the token.
pub proof fn law_setup_is_ordered(pre: Exchange, reply: Reply, next: Phase, action: Action)
    requires
        exchange_step(pre, reply, next, action),
        !(reply is Failed) && !(reply is BadAddress),
    ensures
        pre.phase == Phase::Connecting ==> next == Phase::SettingReadTimeout && action == (
        Action::SetReadTimeout { secs: pre.read_timeout_secs }),
        pre.phase == Phase::SettingReadTimeout ==> next == Phase::SettingWriteTimeout && action == (
        Action::SetWriteTimeout { secs: 5 }),
        pre.phase == Phase::SettingWriteTimeout ==> next == Phase::SettingNodelay && action
            == Action::SetNodelay,
        pre.phase == Phase::SettingNodelay ==> next == Phase::ReadingToken && action
            == Action::ReadToken,
        pre.phase == Phase::Sending ==> next == Phase::Flushing && action == Action::Flush,
        pre.phase == Phase::Flushing ==> next == Phase::Reading && action == Action::ReadLine,
{
}

/// Where there is a token, the first line on the connection is the handshake with
/// it and the second is the request; where there is none, or the file cannot be
/// read, the request is the first line.
pub proof fn law_token_decides_the_first_line(
    pre: Exchange,
    reply: Reply,
    next: Phase,
    action: Action,
)
    requires
        exchange_step(pre, reply, next, action),
    ensures
        pre.phase == Phase::ReadingToken && (reply matches Reply::TokenFile(Some(content))
            && trimmed(content@).len() > 0) ==> {
            &&& next == Phase::Authenticating
            &&& action matches Action::Write { line }
            &&& line@ == handshake_text(trimmed(reply->TokenFile_0->0@)) + "\n"@
        },
        pre.phase == Phase::ReadingToken && (reply == Reply::TokenFile(None) || reply is Failed || (
        reply matches Reply::TokenFile(Some(content)) && trimmed(content@).len() == 0)) ==> {
            &&& next == Phase::Sending
            &&& action matches Action::Write { line }
            &&& line@ == request_line_text(pre.request@)
        },
        pre.phase == Phase::Authenticating && !(reply is Failed) && !(reply is BadAddress) ==> {
            &&& next == Phase::Sending
            &&& action matches Action::Write { line }
            &&& line@ == request_line_text(pre.request@)
        },
{
}

/// Whatever fails, the exchange is over and the message says what failed and why.
/// Only a token file that cannot be read and an event that cannot be passed on are
/// no failures.
pub proof fn law_failure_names_the_step(
    pre: Exchange,
    next: Phase,
    action: Action,
    reason: String,
)
    requires
        exchange_step(pre, Reply::Failed(reason), next, action),
        pre.phase != Phase::ReadingToken,
        pre.phase != Phase::Relaying,
    ensures
        next == Phase::Closed,
        action matches Action::Finish(Err(_)),
        ({
            let message = action->Finish_0->Err_0@;
            &&& pre.phase == Phase::Connecting ==> message
                == "[connect] "@ + "Failed to connect to sidecar: "@ + reason@
            &&& pre.phase == Phase::SettingReadTimeout ==> message
                == "Failed to set read timeout: "@ + reason@
            &&& pre.phase == Phase::SettingWriteTimeout ==> message
                == "Failed to set write timeout: "@ + reason@
            &&& pre.phase == Phase::SettingNodelay ==> message == "Failed to set nodelay: "@
                + reason@
            &&& pre.phase == Phase::Authenticating ==> message
                == "Failed to send auth handshake: "@ + reason@
            &&& pre.phase == Phase::Sending ==> message == "Failed to send request: "@ + reason@
            &&& pre.phase == Phase::Flushing ==> message == "Failed to flush: "@ + reason@
            &&& pre.phase == Phase::Reading && pre.streaming ==> message
                == "Failed to read line: "@ + reason@
            &&& pre.phase == Phase::Reading && !pre.streaming ==> message
                == "Failed to read response: "@ + reason@
        }),
{
}

/// An address that cannot be read ends the exchange before anything is sent.
pub proof fn law_bad_address_is_refused(pre: Exchange, next: Phase, action: Action, reason: String)
    requires
        exchange_step(pre, Reply::BadAddress(reason), next, action),
    ensures
        next == Phase::Closed,
        action matches Action::Finish(Err(message)) && message@ == "Invalid address: "@ + reason@,
{
}

/// The response of a single exchange is the line that was read, whatever it holds,
/// without the white space behind it; only a connection that ended brings none.
pub proof fn law_single_response_is_the_line(
    pre: Exchange,
    line: String,
    next: Phase,
    action: Action,
    response: Seq<char>,
    blank: Seq<char>,
)
    requires
        exchange_step(pre, Reply::Line(line), next, action),
        pre.phase == Phase::Reading,
        !pre.streaming,
        line@ == response + blank,
        all_space(blank),
        response.len() > 0 ==> !is_space(response.last()),
    ensures
        next == Phase::Closed,
        line@.len() > 0 ==> (action matches Action::Finish(Ok(text)) && text@ == response),
        line@.len() == 0 ==> (action matches Action::Finish(Err(message)) && message@
            == "Empty response from sidecar"@),
{
    lemma_trimmed_end(response, blank);
}

/// A streaming exchange is over exactly with a response or with the end of the
/// stream. The response is the line without the white space around it.
pub proof fn law_stream_ends_with_the_response(
    pre: Exchange,
    line: String,
    next: Phase,
    action: Action,
)
    requires
        exchange_step(pre, Reply::Line(line), next, action),
        pre.phase == Phase::Reading,
        pre.streaming,
    ensures
        line@.len() == 0 ==> next == Phase::Closed && (action matches Action::Finish(Err(message))
            && message@ == "No response received from sidecar"@),
        trimmed(line@).len() > 0 && line_class(trimmed(line@)) == LineClass::FinalResponse
            && line@.len() > 0 ==> next == Phase::Closed && (action matches Action::Finish(Ok(text))
            && text@ == trimmed(line@)),
        line@.len() > 0 && (trimmed(line@).len() == 0 || line_class(trimmed(line@))
            != LineClass::FinalResponse) ==> next != Phase::Closed && !(action is Finish),
        line@.len() > 0 && (trimmed(line@).len() == 0 || line_class(trimmed(line@))
            == LineClass::Skip) ==> next == Phase::Reading && action == Action::ReadLine,
{
}

/// Every progress event is passed on whole, and every protocol event by what stands
/// in it under `event`; then the stream is read on, whether that succeeded or not.
pub proof fn law_events_are_passed_on(
    pre: Exchange,
    reply: Reply,
    next: Phase,
    action: Action,
    document: Seq<char>,
)
    requires
        exchange_step(pre, reply, next, action),
    ensures
        (pre.phase == Phase::Reading && pre.streaming && (reply matches Reply::Line(line)
            && line@.len() > 0 && trimmed(line@).len() > 0 && json_parsed(trimmed(line@)) == Ok::<
            Seq<char>,
            Seq<char>,
        >(document))) ==> {
            let text = trimmed(reply->Line_0@);
            &&& line_class(text) == LineClass::Progress ==> {
                &&& next == Phase::Relaying
                &&& action matches Action::Emit { channel, payload }
                &&& channel@ == "query-progress"@
                &&& json_text(payload) == document
            }
            &&& line_class(text) == LineClass::ProtocolEvent && json_member(document, "event"@)
                is Some ==> {
                &&& next == Phase::Relaying
                &&& action matches Action::Emit { channel, payload }
                &&& channel@ == "protocol-event"@
                &&& Some(json_text(payload)) == json_member(document, "event"@)
            }
            &&& line_class(text) == LineClass::ProtocolEvent && json_member(document, "event"@)
                is None ==> next == Phase::Reading && action == Action::ReadLine
        },
        pre.phase == Phase::Relaying && !(reply is BadAddress) ==> next == Phase::Reading && action
            == Action::ReadLine,
{
}

/// A request connects to port 9124 of the machine itself, within two seconds.
pub proof fn law_connects_to_the_server(action: Action)
    requires
        connects(action),
    ensures
        action matches Action::Connect { address, timeout_secs } && address@ == "127.0.0.1"@ + ":"@
            + decimal(9124) && timeout_secs == 2,
{
}

/// An exchange that starts holds its request, timeout and kind, and has yet to
/// connect.
pub proof fn law_start_of_an_exchange(
    exchange: Exchange,
    request: Seq<char>,
    secs: u64,
    streaming: bool,
)
    requires
        exchange.starts(request, secs, streaming),
    ensures
        exchange.request@ == request,
        exchange.read_timeout_secs == secs,
        exchange.streaming == streaming,
        exchange.phase == Phase::Connecting,
{
}

/// A reply that brings no line where one was read for stands for the end of the
/// stream, and one that brings no token file for a file that is missing.
pub proof fn law_reply_without_content(pre: Exchange, reply: Reply, next: Phase, action: Action)
    requires
        exchange_step(pre, reply, next, action),
        reply == Reply::Done,
    ensures
        pre.phase == Phase::Reading && !pre.streaming ==> next == Phase::Closed && (
        action matches Action::Finish(Err(message)) && message@ == "Empty response from sidecar"@),
        pre.phase == Phase::Reading && pre.streaming ==> next == Phase::Closed && (
        action matches Action::Finish(Err(message)) && message@
            == "No response received from sidecar"@),
        pre.phase == Phase::ReadingToken ==> next == Phase::Sending && (
        action matches Action::Write { line } && line@ == request_line_text(pre.request@)),
{
}

} // verus!
