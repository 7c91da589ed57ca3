//! A process spawned for one request.
//!
//! It is what a request falls back to while the server is not listening: the
//! process reads one line, writes progress events and the response, and ends.

use vstd::prelude::*;

use crate::command::{texts, CommandPlan};
use crate::commands::{line_outcome, parse_jsonrpc_response, value_text};
use crate::events::{Event, QUERY_PROGRESS_CHANNEL};
use crate::json::{json_member, json_parsed, json_string, json_text, parse_value};
use crate::paths::{SidecarConfig, DATA_DIR_VARIABLE};
use crate::sidecar_client::{document_kind, kind_of};
use crate::text::{
    all_space, cat, is_space, law_trimmed_is_the_middle, same_text, trim, trimmed,
};

verus! {

/// Lines with a separator between each two.
pub open spec fn joined_lines(lines: Seq<Seq<char>>, separator: Seq<char>) -> Seq<char>
    decreases lines.len(),
{
    if lines.len() == 0 {
        Seq::empty()
    } else if lines.len() == 1 {
        lines[0]
    } else {
        joined_lines(lines.drop_last(), separator) + separator + lines.last()
    }
}

/// Joins lines, with a line feed between each two.
pub fn join_lines(lines: &Vec<String>) -> (text: String)
    ensures
        text@ == joined_lines(texts(lines@), "\n"@),
{
    let mut text = String::new();
    let mut done: usize = 0;
    while done < lines.len()
        invariant
            done <= lines.len(),
            text@ == joined_lines(texts(lines@.take(done as int)), "\n"@),
        decreases lines.len() - done,
    {
        proof {
            let more = texts(lines@.take(done + 1));
            assert(more.drop_last() =~= texts(lines@.take(done as int)));
            assert(more.last() == lines@[done as int]@);
        }
        if done > 0 {
            text = cat(text.as_str(), "\n");
        }
        text = cat(text.as_str(), lines[done].as_str());
        assert(done == 0 ==> text@ =~= lines@[0]@);
        done = done + 1;
    }
    assert(lines@.take(lines@.len() as int) =~= lines@);
    text
}

/// The line is a progress event.
pub open spec fn is_progress(line: Seq<char>) -> bool {
    json_parsed(trimmed(line)) matches Ok(document) && document_kind(document) == Some(
        "progress"@,
    )
}

/// The event that a line of standard output holds, where it is a progress event.
pub fn progress_event(line: &str) -> (event: Option<Event>)
    ensures
        event is Some <==> is_progress(line@),
        event matches Some(e) ==> {
            &&& e.channel@ == QUERY_PROGRESS_CHANNEL@
            &&& json_parsed(trimmed(line@)) == Ok::<Seq<char>, Seq<char>>(json_text(e.payload))
        },
{
    if let Ok(document) = parse_value(trim(line)) {
        if let Some(kind) = kind_of(&document) {
            if same_text(kind.as_str(), "progress") {
                return Some(Event { channel: QUERY_PROGRESS_CHANNEL, payload: document });
            }
        }
    }
    None
}

/// The lines that are no progress events, in their order.
pub open spec fn without_progress(lines: Seq<String>) -> Seq<String>
    decreases lines.len(),
{
    if lines.len() == 0 {
        lines
    } else if is_progress(lines.last()@) {
        without_progress(lines.drop_last())
    } else {
        without_progress(lines.drop_last()).push(lines.last())
    }
}

/// Drops the progress events among the lines.
pub fn drop_progress(lines: Vec<String>) -> (kept: Vec<String>)
    ensures
        texts(kept@) == texts(without_progress(lines@)),
{
    let mut kept: Vec<String> = Vec::new();
    let mut done: usize = 0;
    assert(texts(kept@) =~= texts(without_progress(lines@.take(0))));
    while done < lines.len()
        invariant
            done <= lines.len(),
            texts(kept@) == texts(without_progress(lines@.take(done as int))),
        decreases lines.len() - done,
    {
        let ghost before = kept@;
        let ghost more = lines@.take(done + 1);
        proof {
            assert(more.drop_last() =~= lines@.take(done as int));
            assert(more.last() == lines@[done as int]);
        }
        if progress_event(lines[done].as_str()).is_none() {
            kept.push(lines[done].clone());
            assert(texts(kept@) =~= texts(before).push(lines@[done as int]@));
            assert(texts(without_progress(more)) =~= texts(
                without_progress(more.drop_last()),
            ).push(lines@[done as int]@));
        }
        done = done + 1;
    }
    assert(lines@.take(lines@.len() as int) =~= lines@);
    kept
}

/// What a process that was spawned for one request has written, without progress
/// events.
#[derive(Debug)]
pub struct ProcessOutput {
    pub stdout: Vec<String>,
    pub stderr: Vec<String>,
}

impl ProcessOutput {
    /// The outcome of the request: the first line kept is the response, and
    /// without one the request has failed with what stands on standard error.
    pub open spec fn outcome_text(self) -> Result<Seq<char>, Seq<char>> {
        if self.stdout@.len() > 0 {
            line_outcome(self.stdout@[0]@)
        } else {
            Err("No response from sidecar. Stderr: "@ + joined_lines(texts(self.stderr@), "\n"@))
        }
    }

    /// Nothing was written yet.
    pub fn new() -> (output: ProcessOutput)
        ensures
            output.stdout@.len() == 0,
            output.stderr@.len() == 0,
    {
        ProcessOutput { stdout: Vec::new(), stderr: Vec::new() }
    }

    /// The outcome of the request.
    pub fn outcome(&self) -> (outcome: Result<serde_json::Value, String>)
        ensures
            value_text(outcome) == self.outcome_text(),
    {
        if self.stdout.len() > 0 {
            return parse_jsonrpc_response(self.stdout[0].as_str());
        }
        Err(cat("No response from sidecar. Stderr: ", join_lines(&self.stderr).as_str()))
    }
}

/// The line that a process spawned for one request reads: the request, ended by
/// a line feed.
pub fn process_request_line(request: &str) -> (line: String)
    ensures
        line@ == request@ + "\n"@,
{
    cat(request, "\n")
}

/// How far the process has come: what the next reply answers.
#[derive(Clone, Copy, PartialEq, Eq, Structural, Debug)]
pub enum OneShotPhase {
    Spawning,
    OpeningStdin,
    Writing,
    OpeningStdout,
    OpeningStderr,
    Waiting,
    CollectingStdout,
    CollectingStderr,
    Finished,
}

/// What is to be done next.
#[derive(Debug)]
pub enum OneShotAction {
    /// Spawn the process, with all its streams piped.
    Spawn(CommandPlan),
    OpenStdin,
    /// Write the line and close the stream.
    Write { line: String },
    /// Open the stream and begin to read it line by line. What [`progress_event`]
    /// finds in a line is passed on at once.
    OpenStdout,
    OpenStderr,
    /// Wait for the process to end.
    Wait,
    /// Take the lines of standard output.
    CollectStdout,
    /// Take the lines of standard error.
    CollectStderr,
    Finish(Result<serde_json::Value, String>),
}

/// What came of an action.
#[derive(Debug)]
pub enum OneShotReply {
    Done,
    /// The action failed, for this reason.
    Failed(String),
    /// The task that the action ran in was lost, for this reason.
    Lost(String),
    Lines(Vec<String>),
}

/// A process for one request.
#[derive(Debug)]
pub struct OneShot {
    pub request: String,
    pub output: ProcessOutput,
    pub phase: OneShotPhase,
}

/// The message with which a reply ends the request, if it is such a reply.
pub open spec fn one_shot_failure(phase: OneShotPhase, reply: OneShotReply) -> Option<Seq<char>> {
    match reply {
        OneShotReply::Failed(reason) => Some(
            match phase {
                OneShotPhase::Spawning => "Failed to spawn sidecar: "@ + reason@,
                OneShotPhase::OpeningStdin => "Failed to open stdin"@,
                OneShotPhase::Writing => "Failed to write to sidecar stdin: "@ + reason@,
                OneShotPhase::OpeningStdout => "Failed to open stdout"@,
                OneShotPhase::OpeningStderr => "Failed to open stderr"@,
                OneShotPhase::Waiting => "Failed to wait for child process: "@ + reason@,
                OneShotPhase::CollectingStdout => "Failed to read stdout: "@ + reason@,
                _ => "Failed to read stderr: "@ + reason@,
            },
        ),
        OneShotReply::Lost(reason) => match phase {
            OneShotPhase::Waiting => Some("Failed to join sidecar wait task: "@ + reason@),
            OneShotPhase::CollectingStdout => Some("Failed to read stdout: "@ + reason@),
            OneShotPhase::CollectingStderr => Some("Failed to read stderr: "@ + reason@),
            _ => None,
        },
        _ => None,
    }
}

fn failure_message(phase: OneShotPhase, reply: &OneShotReply) -> (message: Option<String>)
    ensures
        message is Some <==> one_shot_failure(phase, *reply) is Some,
        message matches Some(text) ==> one_shot_failure(phase, *reply) == Some(text@),
{
    match reply {
        OneShotReply::Failed(reason) => Some(
            match phase {
                OneShotPhase::Spawning => cat("Failed to spawn sidecar: ", reason.as_str()),
                OneShotPhase::OpeningStdin => "Failed to open stdin".to_owned(),
                OneShotPhase::Writing => cat("Failed to write to sidecar stdin: ", reason.as_str()),
                OneShotPhase::OpeningStdout => "Failed to open stdout".to_owned(),
                OneShotPhase::OpeningStderr => "Failed to open stderr".to_owned(),
                OneShotPhase::Waiting => cat("Failed to wait for child process: ", reason.as_str()),
                OneShotPhase::CollectingStdout => cat("Failed to read stdout: ", reason.as_str()),
                _ => cat("Failed to read stderr: ", reason.as_str()),
            },
        ),
        OneShotReply::Lost(reason) => match phase {
            OneShotPhase::Waiting => Some(
                cat("Failed to join sidecar wait task: ", reason.as_str()),
            ),
            OneShotPhase::CollectingStdout => Some(
                cat("Failed to read stdout: ", reason.as_str()),
            ),
            OneShotPhase::CollectingStderr => Some(
                cat("Failed to read stderr: ", reason.as_str()),
            ),
            _ => None,
        },
        _ => None,
    }
}

/// The lines that a reply brings.
pub open spec fn reply_lines(reply: OneShotReply) -> Seq<String> {
    match reply {
        OneShotReply::Lines(lines) => lines@,
        _ => Seq::empty(),
    }
}

/// The action ends the request with this outcome.
pub open spec fn settles(action: OneShotAction, outcome: Result<Seq<char>, Seq<char>>) -> bool {
    action matches OneShotAction::Finish(result) && value_text(result) == outcome
}

impl OneShot {
    /// One step: the process's state after a reply, and the action that follows.
    pub open spec fn steps_to(self, reply: OneShotReply, next: OneShot, action: OneShotAction) -> bool {
        &&& self.phase != OneShotPhase::Finished
        &&& next.request == self.request
        &&& if let Some(message) = one_shot_failure(self.phase, reply) {
            &&& next.phase == OneShotPhase::Finished
            &&& next.output == self.output
            &&& settles(action, Err(message))
        } else {
            match self.phase {
                OneShotPhase::Spawning => {
                    &&& next.phase == OneShotPhase::OpeningStdin
                    &&& next.output == self.output
                    &&& action is OpenStdin
                },
                OneShotPhase::OpeningStdin => {
                    &&& next.phase == OneShotPhase::Writing
                    &&& next.output == self.output
                    &&& action matches OneShotAction::Write { line }
                    &&& line@ == self.request@ + "\n"@
                },
                OneShotPhase::Writing => {
                    &&& next.phase == OneShotPhase::OpeningStdout
                    &&& next.output == self.output
                    &&& action is OpenStdout
                },
                OneShotPhase::OpeningStdout => {
                    &&& next.phase == OneShotPhase::OpeningStderr
                    &&& next.output == self.output
                    &&& action is OpenStderr
                },
                OneShotPhase::OpeningStderr => {
                    &&& next.phase == OneShotPhase::Waiting
                    &&& next.output == self.output
                    &&& action is Wait
                },
                OneShotPhase::Waiting => {
                    &&& next.phase == OneShotPhase::CollectingStdout
                    &&& next.output == self.output
                    &&& action is CollectStdout
                },
                OneShotPhase::CollectingStdout => {
                    &&& next.phase == OneShotPhase::CollectingStderr
                    &&& texts(next.output.stdout@) == texts(without_progress(reply_lines(reply)))
                    &&& next.output.stderr == self.output.stderr
                    &&& action is CollectStderr
                },
                OneShotPhase::CollectingStderr => {
                    &&& next.phase == OneShotPhase::Finished
                    &&& next.output.stdout == self.output.stdout
                    &&& next.output.stderr@ == reply_lines(reply)
                    &&& settles(action, next.output.outcome_text())
                },
                OneShotPhase::Finished => false,
            }
        }
    }

    /// Takes the reply to the last action and says what is done next.
    pub fn step(&mut self, reply: OneShotReply) -> (action: OneShotAction)
        requires
            old(self).phase != OneShotPhase::Finished,
        ensures
            old(self).steps_to(reply, *final(self), action),
    {
        if let Some(message) = failure_message(self.phase, &reply) {
            self.phase = OneShotPhase::Finished;
            return OneShotAction::Finish(Err(message));
        }
        match self.phase {
            OneShotPhase::Spawning => {
                self.phase = OneShotPhase::OpeningStdin;
                OneShotAction::OpenStdin
            },
            OneShotPhase::OpeningStdin => {
                self.phase = OneShotPhase::Writing;
                OneShotAction::Write { line: process_request_line(self.request.as_str()) }
            },
            OneShotPhase::Writing => {
                self.phase = OneShotPhase::OpeningStdout;
                OneShotAction::OpenStdout
            },
            OneShotPhase::OpeningStdout => {
                self.phase = OneShotPhase::OpeningStderr;
                OneShotAction::OpenStderr
            },
            OneShotPhase::OpeningStderr => {
                self.phase = OneShotPhase::Waiting;
                OneShotAction::Wait
            },
            OneShotPhase::Waiting => {
                self.phase = OneShotPhase::CollectingStdout;
                OneShotAction::CollectStdout
            },
            OneShotPhase::CollectingStdout => {
                self.phase = OneShotPhase::CollectingStderr;
                self.output.stdout = match reply {
                    OneShotReply::Lines(lines) => drop_progress(lines),
                    _ => Vec::new(),
                };
                OneShotAction::CollectStderr
            },
            _ => {
                self.phase = OneShotPhase::Finished;
                self.output.stderr = match reply {
                    OneShotReply::Lines(lines) => lines,
                    _ => Vec::new(),
                };
                OneShotAction::Finish(self.output.outcome())
            },
        }
    }
}

/// Begins the process for one request: what is known of the sidecar decides how
/// it is spawned, or why it cannot be.
pub fn sidecar_request_spawn(
    config: Result<SidecarConfig, String>,
    data_dir: &str,
    request: String,
) -> (begun: Result<(OneShot, OneShotAction), String>)
    ensures
        match config {
            Err(reason) => begun == Err::<(OneShot, OneShotAction), String>(reason),
            Ok(sidecar) => {
                &&& begun matches Ok((one_shot, action))
                &&& one_shot.request == request
                &&& one_shot.output.stdout@.len() == 0
                &&& one_shot.output.stderr@.len() == 0
                &&& one_shot.phase == OneShotPhase::Spawning
                &&& action matches OneShotAction::Spawn(plan)
                &&& sidecar.starts(plan, "sidecar"@, Seq::empty())
                &&& plan.variables() == Map::<Seq<char>, Seq<char>>::empty().insert(
                    DATA_DIR_VARIABLE@,
                    data_dir@,
                )
            },
        },
{
    match config {
        Err(reason) => Err(reason),
        Ok(sidecar) => {
            let plan = sidecar.request_launch(data_dir);
            let one_shot = OneShot {
                request,
                output: ProcessOutput::new(),
                phase: OneShotPhase::Spawning,
            };
            Ok((one_shot, OneShotAction::Spawn(plan)))
        },
    }
}

/// The place of a phase in the order of a request.
pub open spec fn one_shot_order(phase: OneShotPhase) -> nat {
    match phase {
        OneShotPhase::Spawning => 0,
        OneShotPhase::OpeningStdin => 1,
        OneShotPhase::Writing => 2,
        OneShotPhase::OpeningStdout => 3,
        OneShotPhase::OpeningStderr => 4,
        OneShotPhase::Waiting => 5,
        OneShotPhase::CollectingStdout => 6,
        OneShotPhase::CollectingStderr => 7,
        OneShotPhase::Finished => 8,
    }
}

/// A request to a process of its own goes through its phases in their order and
/// comes to its end. It is written once, and no other action carries it.
pub proof fn law_one_shot_is_ordered(
    pre: OneShot,
    reply: OneShotReply,
    next: OneShot,
    action: OneShotAction,
)
    requires
        pre.steps_to(reply, next, action),
    ensures
        one_shot_order(pre.phase) < one_shot_order(next.phase),
        action is Finish <==> next.phase == OneShotPhase::Finished,
        action is Write <==> next.phase == OneShotPhase::Writing,
        !(action is Spawn),
{
}

proof fn lemma_no_progress_left(lines: Seq<String>, at: int)
    requires
        0 <= at < without_progress(lines).len(),
    ensures
        !is_progress(without_progress(lines)[at]@),
        lines.contains(without_progress(lines)[at]),
    decreases lines.len(),
{
    if lines.len() > 0 {
        let earlier = lines.drop_last();
        if at < without_progress(earlier).len() {
            lemma_no_progress_left(earlier, at);
            let line = without_progress(earlier)[at];
            let k = choose|k: int| 0 <= k < earlier.len() && earlier[k] == line;
            assert(lines[k] == line);
        } else {
            assert(lines[lines.len() - 1] == without_progress(lines)[at]);
        }
    }
}

/// Progress events are never taken for the response: whatever the process wrote,
/// the outcome is that of the first line that is no such event, or that there was
/// none.
pub proof fn law_progress_is_no_response(
    collecting: OneShot,
    written: OneShotReply,
    collected: OneShot,
    first: OneShotAction,
    errors: OneShotReply,
    finished: OneShot,
    last: OneShotAction,
)
    requires
        collecting.phase == OneShotPhase::CollectingStdout,
        collecting.steps_to(written, collected, first),
        first is CollectStderr,
        collected.steps_to(errors, finished, last),
        one_shot_failure(collected.phase, errors) is None,
    ensures
        ({
            let kept = without_progress(reply_lines(written));
            &&& kept.len() > 0 ==> {
                &&& settles(last, line_outcome(kept[0]@))
                &&& !is_progress(kept[0]@)
                &&& reply_lines(written).contains(kept[0])
            }
            &&& kept.len() == 0 ==> settles(
                last,
                Err(
                    "No response from sidecar. Stderr: "@ + joined_lines(
                        texts(reply_lines(errors)),
                        "\n"@,
                    ),
                ),
            )
        }),
{
    let kept = without_progress(reply_lines(written));
    assert(texts(finished.output.stdout@) == texts(kept));
    assert(texts(finished.output.stdout@).len() == texts(kept).len());
    if kept.len() > 0 {
        lemma_no_progress_left(reply_lines(written), 0);
        assert(texts(finished.output.stdout@)[0] == texts(kept)[0]);
    }
}

/// Lines are joined one after the other with the separator between each two: two
/// runs of lines joined are the one, the separator and the other.
pub proof fn law_lines_are_joined(
    first: Seq<Seq<char>>,
    second: Seq<Seq<char>>,
    line: Seq<char>,
    separator: Seq<char>,
)
    ensures
        joined_lines(Seq::empty(), separator).len() == 0,
        joined_lines(seq![line], separator) == line,
        first.len() > 0 && second.len() > 0 ==> joined_lines(first + second, separator)
            == joined_lines(first, separator) + separator + joined_lines(second, separator),
    decreases second.len(),
{
    if first.len() > 0 && second.len() > 0 {
        let all = first + second;
        assert(all.last() == second.last());
        assert(all.drop_last() =~= first + second.drop_last());
        if second.len() == 1 {
            assert(all.drop_last() =~= first);
        } else {
            law_lines_are_joined(first, second.drop_last(), line, separator);
            assert(joined_lines(first, separator) + separator + joined_lines(
                second.drop_last(),
                separator,
            ) + separator + second.last() =~= joined_lines(first, separator) + separator + (
            joined_lines(second.drop_last(), separator) + separator + second.last()));
        }
    }
}

/// A line is a progress event exactly where it is JSON, with or without white space
/// around it, and has the type `progress`.
pub proof fn law_progress_is_told_by_type(
    before: Seq<char>,
    text: Seq<char>,
    after: Seq<char>,
    document: Seq<char>,
    kind: Seq<char>,
)
    requires
        all_space(before),
        all_space(after),
        text.len() > 0 ==> !is_space(text[0]) && !is_space(text.last()),
    ensures
        json_parsed(text) is Err ==> !is_progress(before + text + after),
        json_parsed(text) == Ok::<Seq<char>, Seq<char>>(document) && json_member(
            document,
            "type"@,
        ) is None ==> !is_progress(before + text + after),
        json_parsed(text) == Ok::<Seq<char>, Seq<char>>(document) && json_member(
            document,
            "type"@,
        ) == Some(kind) ==> (is_progress(before + text + after) <==> json_string(kind) == Some(
            "progress"@,
        )),
{
    law_trimmed_is_the_middle(before, text, after);
}

/// Dropping the progress events keeps every other line, in its place among the
/// others: it can be done piece by piece.
pub proof fn law_other_lines_are_kept(first: Seq<String>, second: Seq<String>, line: String)
    ensures
        without_progress(Seq::empty()).len() == 0,
        is_progress(line@) ==> without_progress(seq![line]).len() == 0,
        !is_progress(line@) ==> without_progress(seq![line]) == seq![line],
        without_progress(first + second) == without_progress(first) + without_progress(second),
    decreases second.len(),
{
    reveal_with_fuel(without_progress, 2);
    assert(seq![line].drop_last() =~= Seq::<String>::empty());
    assert(without_progress(seq![line]) =~= if is_progress(line@) {
        Seq::empty()
    } else {
        seq![line]
    });
    let all = first + second;
    if second.len() == 0 {
        assert(all =~= first);
        assert(without_progress(first) + without_progress(second) =~= without_progress(first));
    } else {
        law_other_lines_are_kept(first, second.drop_last(), line);
        assert(all.drop_last() =~= first + second.drop_last());
        assert(all.last() == second.last());
        assert(without_progress(all) =~= without_progress(first) + without_progress(second));
    }
}

/// The outcome rests on the first line kept alone, and on standard error only where
/// no line was kept.
pub proof fn law_first_line_is_the_response(output: ProcessOutput)
    ensures
        output.stdout@.len() > 0 ==> output.outcome_text() == line_outcome(output.stdout@[0]@),
        output.stdout@.len() == 0 ==> output.outcome_text() == Err::<Seq<char>, Seq<char>>(
            "No response from sidecar. Stderr: "@ + joined_lines(texts(output.stderr@), "\n"@),
        ),
{
}

/// Whatever fails, the request fails with a message that says what and, where it
/// helps, why.
pub proof fn law_one_shot_failures(phase: OneShotPhase, reason: String)
    ensures
        ({
            let failed = one_shot_failure(phase, OneShotReply::Failed(reason));
            let lost = one_shot_failure(phase, OneShotReply::Lost(reason));
            &&& phase == OneShotPhase::Spawning ==> failed == Some(
                "Failed to spawn sidecar: "@ + reason@,
            )
            &&& phase == OneShotPhase::OpeningStdin ==> failed == Some("Failed to open stdin"@)
            &&& phase == OneShotPhase::Writing ==> failed == Some(
                "Failed to write to sidecar stdin: "@ + reason@,
            )
            &&& phase == OneShotPhase::OpeningStdout ==> failed == Some("Failed to open stdout"@)
            &&& phase == OneShotPhase::OpeningStderr ==> failed == Some("Failed to open stderr"@)
            &&& phase == OneShotPhase::Waiting ==> failed == Some(
                "Failed to wait for child process: "@ + reason@,
            )
            &&& phase == OneShotPhase::Waiting ==> lost == Some(
                "Failed to join sidecar wait task: "@ + reason@,
            )
            &&& phase == OneShotPhase::CollectingStdout ==> failed == lost && lost == Some(
                "Failed to read stdout: "@ + reason@,
            )
            &&& phase == OneShotPhase::CollectingStderr ==> failed == lost && lost == Some(
                "Failed to read stderr: "@ + reason@,
            )
        }),
        one_shot_failure(phase, OneShotReply::Done) is None,
{
}

/// What is done for a request, step by step, while nothing fails: the process is
/// spawned, its input opened, the request written as one line, its outputs opened,
/// its end awaited, its lines collected. Nothing collected so far is lost.
pub proof fn law_one_shot_steps(
    pre: OneShot,
    reply: OneShotReply,
    next: OneShot,
    action: OneShotAction,
)
    requires
        pre.steps_to(reply, next, action),
    ensures
        next.request == pre.request,
        one_shot_failure(pre.phase, reply) is None ==> {
            &&& pre.phase == OneShotPhase::Spawning ==> next.phase == OneShotPhase::OpeningStdin
                && action is OpenStdin
            &&& pre.phase == OneShotPhase::OpeningStdin ==> {
                &&& next.phase == OneShotPhase::Writing
                &&& action matches OneShotAction::Write { line }
                &&& line@ == pre.request@ + "\n"@
            }
            &&& pre.phase == OneShotPhase::Writing ==> next.phase == OneShotPhase::OpeningStdout
                && action is OpenStdout
            &&& pre.phase == OneShotPhase::OpeningStdout ==> next.phase
                == OneShotPhase::OpeningStderr && action is OpenStderr
            &&& pre.phase == OneShotPhase::OpeningStderr ==> next.phase == OneShotPhase::Waiting
                && action is Wait
            &&& pre.phase == OneShotPhase::Waiting ==> next.phase == OneShotPhase::CollectingStdout
                && action is CollectStdout
            &&& pre.phase == OneShotPhase::CollectingStdout ==> next.phase
                == OneShotPhase::CollectingStderr && action is CollectStderr
            &&& pre.phase == OneShotPhase::CollectingStderr ==> next.phase
                == OneShotPhase::Finished && action is Finish
            &&& (pre.phase == OneShotPhase::CollectingStderr && reply is Lines)
                ==> next.output.stderr@ == reply->Lines_0@ && next.output.stdout
                == pre.output.stdout
        },
        one_shot_failure(pre.phase, reply) matches Some(message) ==> next.phase
            == OneShotPhase::Finished && (action matches OneShotAction::Finish(Err(text)) && text@
            == message),
{
}

/// The lines of a reply are those that it brings, and its outcome is told by the
/// action that ends the request.
pub proof fn law_lines_of_a_reply(
    reply: OneShotReply,
    action: OneShotAction,
    outcome: Result<Seq<char>, Seq<char>>,
)
    ensures
        reply matches OneShotReply::Lines(lines) ==> reply_lines(reply) == lines@,
        !(reply is Lines) ==> reply_lines(reply).len() == 0,
        settles(action, outcome) ==> (action matches OneShotAction::Finish(result) && value_text(
            result,
        ) == outcome),
{
}

} // verus!
