//! Health probes: how to tell that a harness is actually serving.

use vstd::prelude::*;

use crate::command::opt_text;
use crate::numbers::{parse_u32, u32_value};
use crate::supervisor::LaunchSpec;
use crate::text::{
    all_space, cat, cat3, decimal, decimal_text, is_space, law_decimal_round_trip,
    law_words_are_counted, no_space, nth_word, same_text, trim, trimmed, unsigned_value, word_at,
};

verus! {

/// Seconds to wait for the connection of a probe.
pub const HEALTH_CONNECT_TIMEOUT_SECS: u64 = 2;

/// Seconds to wait for a read or a write of a probe.
pub const HEALTH_IO_TIMEOUT_SECS: u64 = 3;

/// What a probe does.
#[derive(Debug)]
pub enum HealthPlan {
    /// Ask for `path` on the port and judge the status line.
    Http { port: u16, path: String },
    /// See whether something accepts connections on the port.
    Connect { port: u16 },
    /// Nothing is left to do: the caller holds the process and knows that it lives.
    Alive,
    /// The kind of the probe is not known, as this message says.
    Unknown(String),
}

/// What is probed, by the kind of the probe.
pub open spec fn probes(plan: HealthPlan, kind: Seq<char>, path: Option<Seq<char>>, port: u16) -> bool {
    if kind == "http"@ {
        plan matches HealthPlan::Http { port: on, path: asked } && on == port && asked@ == (
        match path {
            Some(p) => p,
            None => "/health"@,
        })
    } else if kind == "ws"@ {
        plan == (HealthPlan::Connect { port })
    } else if kind == "process"@ {
        plan == HealthPlan::Alive
    } else {
        plan matches HealthPlan::Unknown(message) && message@ == "unknown health type: "@ + kind
    }
}

/// What a single probe of this harness does.
pub fn health_probe(spec: &LaunchSpec, port: u16) -> (plan: HealthPlan)
    ensures
        probes(plan, spec.health.kind@, opt_text(spec.health.path), port),
{
    let kind = spec.health.kind.as_str();
    proof {
        reveal_strlit("http");
        reveal_strlit("ws");
        reveal_strlit("process");
    }
    if same_text(kind, "http") {
        let path = match &spec.health.path {
            Some(path) => path.clone(),
            None => "/health".to_owned(),
        };
        return HealthPlan::Http { port, path };
    }
    if same_text(kind, "ws") {
        return HealthPlan::Connect { port };
    }
    if same_text(kind, "process") {
        return HealthPlan::Alive;
    }
    HealthPlan::Unknown(cat("unknown health type: ", kind))
}

/// Why a probe found the process not serving, if it did.
pub open spec fn verdict_text(verdict: Result<(), String>) -> Option<Seq<char>> {
    match verdict {
        Ok(_) => None,
        Err(reason) => Some(reason@),
    }
}

/// The verdict of a probe that only connects. A bound port says that something
/// is listening, not that it is done with its own handshake.
pub fn connect_verdict(port: u16, listening: bool) -> (verdict: Result<(), String>)
    ensures
        verdict_text(verdict) == (if listening {
            None
        } else {
            Some("ws health: nothing listening on port "@ + decimal(port as nat))
        }),
{
    if listening {
        Ok(())
    } else {
        Err(
            cat(
                "ws health: nothing listening on port ",
                decimal_text(port as u64).as_str(),
            ),
        )
    }
}

/// The address that a probe connects to.
pub fn probe_address(port: u16) -> (address: String)
    ensures
        address@ == "127.0.0.1:"@ + decimal(port as nat),
{
    cat("127.0.0.1:", decimal_text(port as u64).as_str())
}

/// The request of an HTTP probe.
pub fn http_request(path: &str) -> (request: String)
    ensures
        request@ == "GET "@ + path@
            + " HTTP/1.1\r\nHost: 127.0.0.1\r\nConnection: close\r\n\r\n"@,
{
    cat3("GET ", path, " HTTP/1.1\r\nHost: 127.0.0.1\r\nConnection: close\r\n\r\n")
}

/// An action of an HTTP probe.
#[derive(Clone, Copy, PartialEq, Eq, Structural, Debug)]
pub enum HttpAction {
    ReadAddress,
    Connect,
    SetTimeout,
    Write,
    Read,
}

/// The message for an action that failed, up to the reason.
pub open spec fn http_failure_lead(action: HttpAction) -> Seq<char> {
    match action {
        HttpAction::ReadAddress => "bad health addr: "@,
        HttpAction::Connect => "http health connect failed: "@,
        HttpAction::SetTimeout => ""@,
        HttpAction::Write => "http health write failed: "@,
        HttpAction::Read => "http health read failed: "@,
    }
}

/// The verdict where an action of an HTTP probe has failed.
pub fn http_failure(action: HttpAction, reason: &str) -> (message: String)
    ensures
        message@ == http_failure_lead(action) + reason@,
{
    match action {
        HttpAction::ReadAddress => cat("bad health addr: ", reason),
        HttpAction::Connect => cat("http health connect failed: ", reason),
        HttpAction::SetTimeout => cat("", reason),
        HttpAction::Write => cat("http health write failed: ", reason),
        HttpAction::Read => cat("http health read failed: ", reason),
    }
}

/// The status code in a status line: its second word, where that is a number of
/// at most 16 bits.
pub open spec fn status_code(line: Seq<char>) -> Option<u32> {
    match word_at(line, 1) {
        Some(word) => match u32_value(word) {
            Some(code) => if code <= u16::MAX {
                Some(code)
            } else {
                None
            },
            None => None,
        },
        None => None,
    }
}

/// The codes by which a server says that it has failed.
pub open spec fn is_server_error(code: u32) -> bool {
    500 <= code <= 599
}

/// The verdict on a status line: any status but one of the 500s is serving.
pub open spec fn http_fault(line: Seq<char>) -> Option<Seq<char>> {
    match status_code(line) {
        Some(code) => if is_server_error(code) {
            Some("http health returned "@ + decimal(code as nat))
        } else {
            None
        },
        None => Some("http health: unparseable response '"@ + trimmed(line) + "'"@),
    }
}

/// Judges the status line of an HTTP probe. A request that was refused for want
/// of authentication still shows that the harness has bound the port.
pub fn http_verdict(line: &str) -> (verdict: Result<(), String>)
    ensures
        verdict_text(verdict) == http_fault(line@),
{
    let code: Option<u32> = match nth_word(line, 1) {
        Some(word) => match parse_u32(word) {
            Ok(code) => if code <= 65535 {
                Some(code)
            } else {
                None
            },
            Err(_) => None,
        },
        None => None,
    };
    match code {
        Some(code) => if 500 <= code && code <= 599 {
            Err(cat("http health returned ", decimal_text(code as u64).as_str()))
        } else {
            Ok(())
        },
        None => Err(cat3("http health: unparseable response '", trim(line), "'")),
    }
}

/// Every status that is not one of the 500s counts as serving, whatever stands
/// before and after it in the status line.
pub proof fn law_any_other_status_serves(line: Seq<char>, code: u32)
    requires
        status_code(line) == Some(code),
    ensures
        http_fault(line) is None <==> !(500 <= code <= 599),
{
}

/// What is probed, by the kind of the probe: a path where it is `http`, the port
/// where it is `ws`, nothing where it is `process`; any other kind is refused by
/// name.
pub proof fn law_kind_decides_the_probe(
    plan: HealthPlan,
    path: Seq<char>,
    port: u16,
    kind: Seq<char>,
)
    ensures
        probes(plan, "http"@, Some(path), port) ==> (plan matches HealthPlan::Http {
            port: on,
            path: asked,
        } && on == port && asked@ == path),
        probes(plan, "http"@, None, port) ==> (plan matches HealthPlan::Http {
            port: on,
            path: asked,
        } && on == port && asked@ == "/health"@),
        probes(plan, "ws"@, Some(path), port) || probes(plan, "ws"@, None, port) ==> (
        plan matches HealthPlan::Connect { port: on } && on == port),
        probes(plan, "process"@, Some(path), port) || probes(plan, "process"@, None, port) ==> plan
            is Alive,
        kind != "http"@ && kind != "ws"@ && kind != "process"@ && (probes(
            plan,
            kind,
            Some(path),
            port,
        ) || probes(plan, kind, None, port)) ==> (plan matches HealthPlan::Unknown(message)
            && message@ == "unknown health type: "@ + kind),
{
    reveal_strlit("http");
    reveal_strlit("ws");
    reveal_strlit("process");
    assert("http"@.len() == 4 && "ws"@.len() == 2 && "process"@.len() == 7);
}

/// The status stands behind the first word of the line, whatever follows it: a
/// number of at most 16 bits counts, and nothing else does. Every code from 500 to
/// 599 is a failure that names the code, and no other code is one.
pub proof fn law_status_stands_second(
    protocol: Seq<char>,
    gap: Seq<char>,
    code: nat,
    word: Seq<char>,
    rest: Seq<char>,
)
    requires
        protocol.len() > 0,
        no_space(protocol),
        gap.len() > 0,
        all_space(gap),
        word.len() > 0,
        no_space(word),
        rest.len() > 0 ==> is_space(rest[0]),
    ensures
        ({
            let line = protocol + (gap + word + rest);
            &&& word == decimal(code) && code <= 65535 ==> status_code(line) == Some(code as u32)
            &&& word == decimal(code) && code > 65535 ==> status_code(line) is None
            &&& unsigned_value(word) is None ==> status_code(line) is None
            &&& word == decimal(code) && 500 <= code <= 599 ==> http_fault(line) == Some(
                "http health returned "@ + decimal(code),
            )
            &&& word == decimal(code) && code <= 65535 && !(500 <= code <= 599) ==> http_fault(line)
                is None
            &&& status_code(line) is None ==> http_fault(line) == Some(
                "http health: unparseable response '"@ + trimmed(line) + "'"@,
            )
        }),
{
    let after = gap + word + rest;
    let line = protocol + after;
    assert(after[0] == gap[0]);
    law_words_are_counted(Seq::empty(), protocol, after, 0);
    assert(Seq::<char>::empty() + protocol + after =~= line);
    law_words_are_counted(gap, word, rest, 0);
    law_decimal_round_trip(code);
}

/// A line with fewer than two words brings no status.
pub proof fn law_status_needs_two_words(line: Seq<char>)
    requires
        word_at(line, 1) is None,
    ensures
        status_code(line) is None,
        http_fault(line) == Some("http health: unparseable response '"@ + trimmed(line) + "'"@),
{
}

/// A verdict has a reason exactly where it is not good.
pub proof fn law_verdict_has_its_reason(verdict: Result<(), String>)
    ensures
        verdict is Ok ==> verdict_text(verdict) is None,
        verdict matches Err(reason) ==> verdict_text(verdict) == Some(reason@),
{
}

/// The message for a failed probe says which action failed, but for a timeout that
/// could not be set.
pub proof fn law_probe_failures(reason: Seq<char>)
    ensures
        http_failure_lead(HttpAction::ReadAddress) == "bad health addr: "@,
        http_failure_lead(HttpAction::Connect) == "http health connect failed: "@,
        http_failure_lead(HttpAction::SetTimeout) + reason == reason,
        http_failure_lead(HttpAction::Write) == "http health write failed: "@,
        http_failure_lead(HttpAction::Read) == "http health read failed: "@,
{
    reveal_strlit("");
    assert(http_failure_lead(HttpAction::SetTimeout) + reason =~= reason);
}

/// How long is waited for a probe.
pub proof fn law_probe_timeouts()
    ensures
        HEALTH_CONNECT_TIMEOUT_SECS == 2,
        HEALTH_IO_TIMEOUT_SECS == 3,
{
}

/// The status is the second word of the line, as far as that is a number of at most
/// 16 bits, with a plus sign or without; and the verdict is a matter of the status
/// alone.
pub proof fn law_verdict_on_a_status(line: Seq<char>, word: Seq<char>, code: nat)
    requires
        word_at(line, 1) == Some(word),
    ensures
        unsigned_value(word) == Some(code) && code <= 65535 ==> status_code(line) == Some(
            code as u32,
        ),
        unsigned_value(word) == Some(code) && code > 65535 ==> status_code(line) is None,
        unsigned_value(word) is None ==> status_code(line) is None,
        unsigned_value(word) == Some(code) && 500 <= code && code <= 599 ==> http_fault(line)
            == Some("http health returned "@ + decimal(code)),
        unsigned_value(word) == Some(code) && (code < 500 || 600 <= code <= 65535) ==> http_fault(
            line,
        ) is None,
        unsigned_value(word) is None || (unsigned_value(word) == Some(code) && code > 65535)
            ==> http_fault(line) == Some(
            "http health: unparseable response '"@ + trimmed(line) + "'"@,
        ),
{
}

} // verus!
