//! Other processes: which commands ask about them or end them, and what the
//! answers mean.

use vstd::prelude::*;
use vstd::string::*;

use crate::command::{opt_text, CommandPlan};
use crate::paths::Platform;
use crate::text::{
    after_last_char, all_space, before_char, cat, contains_text, decimal, decimal_text, has_part,
    is_space, law_after_last_char, law_before_char, law_part, law_trimmed_is_the_middle,
    split_after_last, split_before, trim, trimmed,
};

verus! {

/// Image name of the frozen sidecar binary.
pub const SIDECAR_IMAGE_NAME: &'static str = "py-sidecar.exe";

/// The same name where binaries have no extension.
pub const SIDECAR_BARE_NAME: &'static str = "py-sidecar";

/// What came of running a command.
#[derive(Debug)]
pub enum Ran {
    /// The command could not be started.
    Failed,
    /// It ran to its end. What it wrote is missing where that is no text.
    Finished { success: bool, stdout: Option<String> },
}

/// A command with its arguments, in the caller's directory and environment.
pub open spec fn plain_command(plan: CommandPlan, program: Seq<char>, args: Seq<Seq<char>>) -> bool {
    plan.program@ == program && plan.arg_texts() == args && plan.cwd is None && plan.env@.len() == 0
}

fn command2(program: &str, first: &str, second: &str) -> (plan: CommandPlan)
    ensures
        plain_command(plan, program@, seq![first@, second@]),
{
    let mut plan = CommandPlan::new(program);
    plan.arg(first);
    plan.arg(second);
    assert(plan.arg_texts() =~= seq![first@, second@]);
    plan
}

fn command3(program: &str, first: &str, second: &str, third: &str) -> (plan: CommandPlan)
    ensures
        plain_command(plan, program@, seq![first@, second@, third@]),
{
    let mut plan = CommandPlan::new(program);
    plan.arg(first);
    plan.arg(second);
    plan.arg(third);
    assert(plan.arg_texts() =~= seq![first@, second@, third@]);
    plan
}

/// The command that asks whether a process runs.
pub fn running_query(platform: Platform, pid: u32) -> (plan: CommandPlan)
    ensures
        platform == Platform::Windows ==> plain_command(
            plan,
            "tasklist"@,
            seq!["/FI"@, "PID eq "@ + decimal(pid as nat), "/NH"@],
        ),
        platform != Platform::Windows ==> plain_command(
            plan,
            "ps"@,
            seq!["-p"@, decimal(pid as nat)],
        ),
{
    let number = decimal_text(pid as u64);
    match platform {
        Platform::Windows => command3(
            "tasklist",
            "/FI",
            cat("PID eq ", number.as_str()).as_str(),
            "/NH",
        ),
        _ => command2("ps", "-p", number.as_str()),
    }
}

/// A process runs, by what came of asking. On Windows the listing has to name
/// it, elsewhere the exit status decides. Where the question could not be asked,
/// the process is taken for alive rather than for dead.
pub open spec fn process_seen(platform: Platform, pid: u32, ran: Ran) -> bool {
    match ran {
        Ran::Failed => true,
        Ran::Finished { success, stdout } => if platform == Platform::Windows {
            stdout matches Some(listing) && has_part(listing@, decimal(pid as nat))
        } else {
            success
        },
    }
}

/// Whether a process runs, by what came of [`running_query`].
pub fn is_process_running(platform: Platform, pid: u32, ran: &Ran) -> (running: bool)
    ensures
        running == process_seen(platform, pid, *ran),
{
    match ran {
        Ran::Failed => true,
        Ran::Finished { success, stdout } => match platform {
            Platform::Windows => match stdout {
                Some(listing) => contains_text(
                    listing.as_str(),
                    decimal_text(pid as u64).as_str(),
                ),
                None => false,
            },
            _ => *success,
        },
    }
}

/// The command that asks for a process's image name.
pub fn image_query(platform: Platform, pid: u32) -> (plan: CommandPlan)
    ensures
        platform == Platform::Windows ==> plain_command(
            plan,
            "tasklist"@,
            seq!["/FI"@, "PID eq "@ + decimal(pid as nat), "/NH"@, "/FO"@, "CSV"@],
        ),
        platform != Platform::Windows ==> plain_command(
            plan,
            "ps"@,
            seq!["-p"@, decimal(pid as nat), "-o"@, "comm="@],
        ),
{
    let number = decimal_text(pid as u64);
    let mut plan = running_query(platform, pid);
    match platform {
        Platform::Windows => {
            plan.arg("/FO");
            plan.arg("CSV");
            assert(plan.arg_texts() =~= seq![
                "/FI"@,
                "PID eq "@ + decimal(pid as nat),
                "/NH"@,
                "/FO"@,
                "CSV"@,
            ]);
        },
        _ => {
            plan.arg("-o");
            plan.arg("comm=");
            assert(plan.arg_texts() =~= seq!["-p"@, decimal(pid as nat), "-o"@, "comm="@]);
        },
    }
    plan
}

/// The image name in a listing: on Windows its first field, which stands in
/// quotes; elsewhere the last component of the path that is all of it.
pub open spec fn listed_image(platform: Platform, listing: Seq<char>) -> Option<Seq<char>> {
    let text = trimmed(listing);
    let name = if platform == Platform::Windows {
        if text.len() > 0 && text[0] == '"' {
            before_char(text.drop_first(), '"')
        } else {
            Seq::empty()
        }
    } else {
        after_last_char(text, '/')
    };
    if name.len() > 0 {
        Some(name)
    } else {
        None
    }
}

/// A process's image name, by what came of asking.
pub open spec fn image_seen(platform: Platform, ran: Ran) -> Option<Seq<char>> {
    match ran {
        Ran::Finished { stdout: Some(listing), .. } => listed_image(platform, listing@),
        _ => None,
    }
}

/// A process's image name, by what came of [`image_query`].
pub fn process_image(platform: Platform, ran: &Ran) -> (image: Option<String>)
    ensures
        opt_text(image) == image_seen(platform, *ran),
{
    let listing = match ran {
        Ran::Finished { stdout: Some(listing), .. } => listing,
        _ => {
            return None;
        },
    };
    let text = trim(listing.as_str());
    let length = text.unicode_len();
    let name = match platform {
        Platform::Windows => {
            if length == 0 || text.get_char(0) != '"' {
                return None;
            }
            assert(text@.subrange(1, text@.len() as int) =~= text@.drop_first());
            split_before(text.substring_char(1, length), '"')
        },
        _ => split_after_last(text, '/'),
    };
    if name.unicode_len() == 0 {
        None
    } else {
        Some(name.to_owned())
    }
}

/// The command that asks a process to end.
pub fn terminate_command(platform: Platform, pid: u32) -> (plan: CommandPlan)
    ensures
        platform == Platform::Windows ==> plain_command(
            plan,
            "taskkill"@,
            seq!["/PID"@, decimal(pid as nat)],
        ),
        platform != Platform::Windows ==> plain_command(
            plan,
            "kill"@,
            seq!["-TERM"@, decimal(pid as nat)],
        ),
{
    let number = decimal_text(pid as u64);
    match platform {
        Platform::Windows => command2("taskkill", "/PID", number.as_str()),
        _ => command2("kill", "-TERM", number.as_str()),
    }
}

/// The command that ends a process by force.
pub fn kill_command(platform: Platform, pid: u32) -> (plan: CommandPlan)
    ensures
        platform == Platform::Windows ==> plain_command(
            plan,
            "taskkill"@,
            seq!["/PID"@, decimal(pid as nat), "/F"@],
        ),
        platform != Platform::Windows ==> plain_command(
            plan,
            "kill"@,
            seq!["-KILL"@, decimal(pid as nat)],
        ),
{
    let number = decimal_text(pid as u64);
    match platform {
        Platform::Windows => command3("taskkill", "/PID", number.as_str(), "/F"),
        _ => command2("kill", "-KILL", number.as_str()),
    }
}

/// The command that looks for sidecars by name.
pub fn sidecar_query(platform: Platform) -> (plan: CommandPlan)
    ensures
        platform == Platform::Windows ==> plain_command(
            plan,
            "tasklist"@,
            seq!["/FI"@, "IMAGENAME eq "@ + SIDECAR_IMAGE_NAME@, "/NH"@],
        ),
        platform != Platform::Windows ==> plain_command(
            plan,
            "pgrep"@,
            seq!["-f"@, SIDECAR_BARE_NAME@],
        ),
{
    match platform {
        Platform::Windows => command3(
            "tasklist",
            "/FI",
            cat("IMAGENAME eq ", SIDECAR_IMAGE_NAME).as_str(),
            "/NH",
        ),
        _ => command2("pgrep", "-f", SIDECAR_BARE_NAME),
    }
}

/// The command that ends all sidecars by name and by force.
pub fn kill_sidecars_command(platform: Platform) -> (plan: CommandPlan)
    ensures
        platform == Platform::Windows ==> plain_command(
            plan,
            "taskkill"@,
            seq!["/IM"@, SIDECAR_IMAGE_NAME@, "/F"@],
        ),
        platform != Platform::Windows ==> plain_command(
            plan,
            "pkill"@,
            seq!["-f"@, SIDECAR_BARE_NAME@],
        ),
{
    match platform {
        Platform::Windows => command3("taskkill", "/IM", SIDECAR_IMAGE_NAME, "/F"),
        _ => command2("pkill", "-f", SIDECAR_BARE_NAME),
    }
}

/// Some sidecar runs, by what came of asking. A question that could not be asked
/// counts as a no: an installer that meets a running sidecar tries again.
pub open spec fn sidecar_seen(platform: Platform, ran: Ran) -> bool {
    match ran {
        Ran::Failed => false,
        Ran::Finished { success, stdout } => if platform == Platform::Windows {
            stdout matches Some(listing) && has_part(listing@, SIDECAR_IMAGE_NAME@)
        } else {
            success
        },
    }
}

/// Whether some sidecar runs, by what came of [`sidecar_query`].
pub fn is_sidecar_running(platform: Platform, ran: &Ran) -> (running: bool)
    ensures
        running == sidecar_seen(platform, *ran),
{
    match ran {
        Ran::Failed => false,
        Ran::Finished { success, stdout } => match platform {
            Platform::Windows => match stdout {
                Some(listing) => contains_text(listing.as_str(), SIDECAR_IMAGE_NAME),
                None => false,
            },
            _ => *success,
        },
    }
}

/// A process that could not be asked about counts as alive. On Windows nothing but
/// the listing decides, elsewhere nothing but the exit status.
pub proof fn law_alive_unless_shown_dead(
    platform: Platform,
    pid: u32,
    success: bool,
    stdout: Option<String>,
    before: Seq<char>,
    after: Seq<char>,
)
    ensures
        process_seen(platform, pid, Ran::Failed),
        platform != Platform::Windows ==> process_seen(
            platform,
            pid,
            Ran::Finished { success, stdout },
        ) == success,
        platform == Platform::Windows && stdout is None ==> !process_seen(
            platform,
            pid,
            Ran::Finished { success, stdout },
        ),
        (platform == Platform::Windows && (stdout matches Some(listing) && listing@ == before
            + decimal(pid as nat) + after)) ==> process_seen(
            platform,
            pid,
            Ran::Finished { success, stdout },
        ),
        (platform == Platform::Windows && process_seen(
            platform,
            pid,
            Ran::Finished { success, stdout },
        )) ==> (stdout matches Some(listing) && has_part(listing@, decimal(pid as nat))),
{
    if let Some(listing) = stdout {
        law_part(listing@, decimal(pid as nat), before, after);
    }
}

/// A sidecar that could not be looked for counts as gone. On Windows nothing but the
/// listing decides, elsewhere nothing but the exit status.
pub proof fn law_gone_unless_shown(
    platform: Platform,
    success: bool,
    stdout: Option<String>,
    before: Seq<char>,
    after: Seq<char>,
)
    ensures
        !sidecar_seen(platform, Ran::Failed),
        platform != Platform::Windows ==> sidecar_seen(platform, Ran::Finished { success, stdout })
            == success,
        platform == Platform::Windows && stdout is None ==> !sidecar_seen(
            platform,
            Ran::Finished { success, stdout },
        ),
        (platform == Platform::Windows && (stdout matches Some(listing) && listing@ == before
            + "py-sidecar.exe"@ + after)) ==> sidecar_seen(
            platform,
            Ran::Finished { success, stdout },
        ),
        (platform == Platform::Windows && sidecar_seen(
            platform,
            Ran::Finished { success, stdout },
        )) ==> (stdout matches Some(listing) && has_part(listing@, "py-sidecar.exe"@)),
{
    if let Some(listing) = stdout {
        law_part(listing@, "py-sidecar.exe"@, before, after);
    }
}

/// On Windows the image name is what stands in the first pair of quotes, and only
/// where the listing begins with it; white space around the listing changes nothing.
pub proof fn law_windows_image_is_quoted(
    before: Seq<char>,
    name: Seq<char>,
    rest: Seq<char>,
    after: Seq<char>,
    plain: Seq<char>,
)
    requires
        all_space(before),
        all_space(after),
        !name.contains('"'),
        rest.len() > 0 ==> !is_space(rest.last()),
        plain.len() > 0 ==> plain[0] != '"' && !is_space(plain[0]) && !is_space(plain.last()),
    ensures
        ({
            let listing = before + (seq!['"'] + name.push('"') + rest) + after;
            &&& name.len() > 0 ==> listed_image(Platform::Windows, listing) == Some(name)
            &&& name.len() == 0 ==> listed_image(Platform::Windows, listing) is None
        }),
        listed_image(Platform::Windows, before + plain + after) is None,
{
    let text = seq!['"'] + name.push('"') + rest;
    assert(text[0] == '"');
    if rest.len() > 0 {
        assert(text.last() == rest.last());
    } else {
        assert(text.last() == '"');
    }
    law_trimmed_is_the_middle(before, text, after);
    assert(text.drop_first() =~= name.push('"') + rest);
    law_before_char(name, '"', rest);
    law_trimmed_is_the_middle(before, plain, after);
}

/// Elsewhere the image name is the last component of the path that is listed.
pub proof fn law_unix_image_is_the_last_component(
    platform: Platform,
    before: Seq<char>,
    dir: Seq<char>,
    name: Seq<char>,
    after: Seq<char>,
)
    requires
        platform != Platform::Windows,
        all_space(before),
        all_space(after),
        name.len() > 0,
        !name.contains('/'),
        !is_space(name[0]),
        !is_space(name.last()),
        dir.len() > 0 ==> !is_space(dir[0]),
    ensures
        listed_image(platform, before + name + after) == Some(name),
        listed_image(platform, before + (dir.push('/') + name) + after) == Some(name),
        listed_image(platform, before + after) is None,
{
    law_trimmed_is_the_middle(before, name, after);
    law_after_last_char(dir, '/', name);
    let path = dir.push('/') + name;
    assert(path.last() == name.last());
    assert(path[0] == if dir.len() > 0 {
        dir[0]
    } else {
        '/'
    });
    law_trimmed_is_the_middle(before, path, after);
    law_trimmed_is_the_middle(before, Seq::empty(), after);
    assert(before + Seq::<char>::empty() + after =~= before + after);
}

/// A name is known only where the question was answered, whatever the exit status.
pub proof fn law_image_comes_from_the_listing(
    platform: Platform,
    success: bool,
    listing: String,
)
    ensures
        image_seen(platform, Ran::Failed) is None,
        image_seen(platform, Ran::Finished { success, stdout: None }) is None,
        image_seen(platform, Ran::Finished { success, stdout: Some(listing) }) == listed_image(
            platform,
            listing@,
        ),
{
}

/// A plain command is a program with its arguments, each in its place, and nothing
/// that changes where or in which environment it runs.
pub proof fn law_plain_command(
    plan: CommandPlan,
    program: Seq<char>,
    args: Seq<Seq<char>>,
    i: int,
)
    requires
        plain_command(plan, program, args),
    ensures
        plan.program@ == program,
        plan.args@.len() == args.len(),
        0 <= i < args.len() ==> plan.args@[i]@ == args[i],
        plan.cwd is None,
        plan.env@.len() == 0,
{
    assert(plan.arg_texts().len() == args.len());
    if 0 <= i < args.len() {
        assert(plan.arg_texts()[i] == args[i]);
    }
}

/// The sidecar's image name, with and without its extension.
pub proof fn law_sidecar_names()
    ensures
        SIDECAR_IMAGE_NAME@ == "py-sidecar.exe"@,
        SIDECAR_BARE_NAME@ == "py-sidecar"@,
        SIDECAR_IMAGE_NAME@ == SIDECAR_BARE_NAME@ + ".exe"@,
{
    reveal_strlit("py-sidecar.exe");
    reveal_strlit("py-sidecar");
    reveal_strlit(".exe");
    assert(SIDECAR_IMAGE_NAME@ =~= SIDECAR_BARE_NAME@ + ".exe"@);
}

} // verus!
