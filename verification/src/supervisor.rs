//! Launch specifications: how a harness is started, how it takes its port, and
//! how to tell that it is serving.
//!
//! A harness is any external process whose lifecycle the application owns. It is
//! started in the foreground: a process that installs itself as a service would
//! be restarted by someone else as well.

use vstd::prelude::*;

use crate::command::{
    env_after, law_last_setting_wins, law_only_settings_are_set, opt_text, texts, CommandPlan,
};
use crate::paths::{get_index_file, index_file, Platform};
use crate::text::{
    cat3, decimal, decimal_text, ends_with, has_prefix, has_suffix, starts_with,
};

verus! {

/// How a harness is launched.
#[derive(Clone, Debug)]
pub struct LaunchSpec {
    pub command: String,
    pub args: Vec<String>,
    pub cwd: Option<String>,
    /// Variables to set, in order: a later one replaces an earlier one.
    pub env: Vec<(String, String)>,
    pub port: PortSpec,
    pub health: HealthSpec,
}

/// How the port of a harness is chosen and handed to it.
#[derive(Clone, Debug)]
pub struct PortSpec {
    /// `fixed` uses `value` and detects instances from outside; `dynamic`
    /// allocates a free port and hands it over.
    pub strategy: String,
    /// The port for `fixed`; for `dynamic` the one that an instance installed by
    /// the user would occupy.
    pub value: Option<u16>,
    /// The variable that is set to the port.
    pub env: Option<String>,
    /// The flag that the port is passed with.
    pub arg: Option<String>,
}

/// How to tell that a harness is serving on its port.
#[derive(Clone, Debug)]
pub struct HealthSpec {
    /// `http`, `ws` or `process`.
    pub kind: String,
    /// The path that is asked for, for `http`.
    pub path: Option<String>,
    /// A hint for `ws`, for services without an HTTP path.
    pub probe: Option<String>,
}

/// The outcome of a request to start a harness.
#[derive(Clone, Debug)]
pub struct StartOutcome {
    pub id: String,
    pub port: u16,
    /// The process was spawned and is supervised.
    pub spawned: bool,
    /// An instance from outside held the port already.
    pub connected: bool,
}

/// The arguments with which the port is passed.
pub open spec fn port_args(port: PortSpec, chosen: u16) -> Seq<Seq<char>> {
    match port.arg {
        Some(flag) => seq![flag@, decimal(chosen as nat)],
        None => Seq::empty(),
    }
}

/// The variables of a harness on its port: those of the specification, with the
/// port over them.
pub open spec fn launch_variables(spec: LaunchSpec, chosen: u16) -> Map<Seq<char>, Seq<char>> {
    match spec.port.env {
        Some(key) => env_after(spec.env@).insert(key@, decimal(chosen as nat)),
        None => env_after(spec.env@),
    }
}

/// The command that launches a harness, with the port handed over by flag, by
/// variable, or both.
pub fn build_command(spec: &LaunchSpec, port: u16) -> (plan: CommandPlan)
    ensures
        plan.program@ == spec.command@,
        plan.arg_texts() == texts(spec.args@) + port_args(spec.port, port),
        opt_text(plan.cwd) == opt_text(spec.cwd),
        plan.variables() == launch_variables(*spec, port),
{
    let number = decimal_text(port as u64);
    let mut plan = CommandPlan::new(spec.command.as_str());
    plan.args(&spec.args);
    if let Some(flag) = &spec.port.arg {
        plan.arg(flag.as_str());
        plan.arg(number.as_str());
    }
    assert(plan.arg_texts() =~= texts(spec.args@) + port_args(spec.port, port));
    if let Some(dir) = &spec.cwd {
        plan.cwd = Some(dir.clone());
    }
    let mut done: usize = 0;
    while done < spec.env.len()
        invariant
            done <= spec.env.len(),
            plan.program@ == spec.command@,
            plan.arg_texts() == texts(spec.args@) + port_args(spec.port, port),
            opt_text(plan.cwd) == opt_text(spec.cwd),
            plan.variables() == env_after(spec.env@.take(done as int)),
        decreases spec.env.len() - done,
    {
        proof {
            assert(spec.env@.take(done + 1).drop_last() =~= spec.env@.take(done as int));
        }
        let (key, value) = &spec.env[done];
        plan.env(key.as_str(), value.as_str());
        done = done + 1;
    }
    assert(spec.env@.take(spec.env@.len() as int) =~= spec.env@);
    if let Some(key) = &spec.port.env {
        plan.env(key.as_str(), number.as_str());
    }
    plan
}

/// The port reaches the process by every way that the specification names, and
/// no variable of the specification can stand in its way.
pub proof fn law_port_is_injected(spec: LaunchSpec, port: u16)
    ensures
        spec.port.env matches Some(key) ==> launch_variables(spec, port).dom().contains(key@)
            && launch_variables(spec, port)[key@] == decimal(port as nat),
        spec.port.arg matches Some(flag) ==> {
            let args = texts(spec.args@) + port_args(spec.port, port);
            args[args.len() - 2] == flag@ && args[args.len() - 1] == decimal(port as nat)
        },
{
}

/// The file name of a harness's lock.
pub open spec fn harness_lock_name(id: Seq<char>) -> Seq<char> {
    "harness_"@ + id + ".lock"@
}

/// The file name is that of a harness's lock.
pub open spec fn is_harness_lock_name(name: Seq<char>) -> bool {
    has_prefix(name, "harness_"@) && has_suffix(name, ".lock"@)
}

/// Where the lock of a harness is kept.
pub fn lock_file(platform: Platform, data_dir: &str, id: &str) -> (path: String)
    ensures
        path@ == index_file(platform, data_dir@, harness_lock_name(id@)),
{
    let name = cat3("harness_", id, ".lock");
    get_index_file(platform, data_dir, name.as_str())
}

/// Whether a file name is that of a harness's lock.
pub fn is_harness_lock(name: &str) -> (lock: bool)
    ensures
        lock == is_harness_lock_name(name@),
{
    starts_with(name, "harness_") && ends_with(name, ".lock")
}

/// Every lock that a harness is given is found again by its name.
pub proof fn law_harness_locks_are_found(id: Seq<char>)
    ensures
        is_harness_lock_name(harness_lock_name(id)),
{
    let name = harness_lock_name(id);
    assert(name.take("harness_"@.len() as int) =~= "harness_"@);
    assert(name.skip(name.len() - ".lock"@.len()) =~= ".lock"@);
}

/// Every variable of the specification reaches the process, however the port is
/// handed over, unless a later entry or the port itself sets the same variable.
pub proof fn law_every_variable_reaches_process(spec: LaunchSpec, port: u16, i: int)
    requires
        0 <= i < spec.env@.len(),
        forall|j: int|
            i < j < spec.env@.len() ==> (#[trigger] spec.env@[j]).0@ != spec.env@[i].0@,
        spec.port.env matches Some(key) ==> key@ != spec.env@[i].0@,
    ensures
        launch_variables(spec, port).dom().contains(spec.env@[i].0@),
        launch_variables(spec, port)[spec.env@[i].0@] == spec.env@[i].1@,
{
    law_last_setting_wins(spec.env@, i);
}

/// No variable is set but those of the specification and the port's own.
pub proof fn law_no_other_variable_is_set(spec: LaunchSpec, port: u16, key: Seq<char>)
    requires
        launch_variables(spec, port).dom().contains(key),
    ensures
        (spec.port.env matches Some(own) && own@ == key) || exists|i: int|
            0 <= i < spec.env@.len() && (#[trigger] spec.env@[i]).0@ == key,
{
    if !(spec.port.env matches Some(own) && own@ == key) {
        law_only_settings_are_set(spec.env@, key);
    }
}

/// The arguments of the specification come first and unchanged; behind them stand
/// the flag and the port, or nothing where there is no flag.
pub proof fn law_arguments_come_first(spec: LaunchSpec, port: u16, i: int)
    ensures
        ({
            let args = texts(spec.args@) + port_args(spec.port, port);
            &&& 0 <= i < spec.args@.len() ==> args[i] == spec.args@[i]@
            &&& spec.port.arg is None ==> args.len() == spec.args@.len()
            &&& spec.port.arg matches Some(flag) ==> {
                &&& args.len() == spec.args@.len() + 2
                &&& args[spec.args@.len() as int] == flag@
                &&& args[(spec.args@.len() + 1) as int] == decimal(port as nat)
            }
        }),
{
}

/// The port goes into its own variable over anything that the specification says.
pub proof fn law_port_variable_is_the_port(spec: LaunchSpec, port: u16, key: Seq<char>)
    requires
        spec.port.env matches Some(own) && own@ == key,
    ensures
        launch_variables(spec, port).dom().contains(key),
        launch_variables(spec, port)[key] == decimal(port as nat),
{
}

/// Different harnesses have different locks, and a file name is that of a harness's
/// lock exactly where some harness has it.
pub proof fn law_locks_tell_harnesses_apart(a: Seq<char>, b: Seq<char>, name: Seq<char>)
    ensures
        harness_lock_name(a) == harness_lock_name(b) ==> a == b,
        harness_lock_name(a).len() == a.len() + 13,
        is_harness_lock_name(harness_lock_name(a)),
        is_harness_lock_name(name) ==> name.len() >= 13 && name == harness_lock_name(
            name.subrange(8, name.len() - 5),
        ),
{
    reveal_strlit("harness_");
    reveal_strlit(".lock");
    law_harness_locks_are_found(a);
    let first = harness_lock_name(a);
    assert(first.subrange(8, first.len() - 5) =~= a);
    if first == harness_lock_name(b) {
        assert(first.subrange(8, first.len() - 5) =~= b);
    }
    if is_harness_lock_name(name) {
        assert(name.skip(name.len() - 5)[0] == name[name.len() - 5]);
        assert(".lock"@[0] == '.');
        if name.len() < 13 {
            assert(name.take(8)[name.len() - 5] == name[name.len() - 5]);
            assert("harness_"@[name.len() - 5] != '.');
            assert(false);
        }
        let id = name.subrange(8, name.len() - 5);
        assert(name =~= name.take(8) + id + name.skip(name.len() - 5));
    }
}

} // verus!
