//! Command lines as plain values: which program is started, with which
//! arguments, where, and with which variables set.

use vstd::prelude::*;

verus! {

/// The texts of a list of strings.
pub open spec fn texts(list: Seq<String>) -> Seq<Seq<char>> {
    Seq::new(list.len(), |i: int| list[i]@)
}

/// The text of a string that may be missing.
pub open spec fn opt_text(s: Option<String>) -> Option<Seq<char>> {
    match s {
        Some(t) => Some(t@),
        None => None,
    }
}

/// The variables in force after each of `settings` was set in turn: a later
/// setting of a variable replaces an earlier one.
pub open spec fn env_after(settings: Seq<(String, String)>) -> Map<Seq<char>, Seq<char>>
    decreases settings.len(),
{
    if settings.len() == 0 {
        Map::empty()
    } else {
        env_after(settings.drop_last()).insert(settings.last().0@, settings.last().1@)
    }
}

/// A process to be started.
#[derive(Debug)]
pub struct CommandPlan {
    pub program: String,
    pub args: Vec<String>,
    /// Working directory, the caller's own where it is missing.
    pub cwd: Option<String>,
    /// Variables to set over the inherited ones, in order.
    pub env: Vec<(String, String)>,
}

impl CommandPlan {
    /// The arguments, in order.
    pub open spec fn arg_texts(self) -> Seq<Seq<char>> {
        texts(self.args@)
    }

    /// The variables that are set for the process.
    pub open spec fn variables(self) -> Map<Seq<char>, Seq<char>> {
        env_after(self.env@)
    }

    /// A command without arguments, in the caller's directory and environment.
    pub fn new(program: &str) -> (plan: CommandPlan)
        ensures
            plan.program@ == program@,
            plan.arg_texts() == Seq::<Seq<char>>::empty(),
            plan.cwd is None,
            plan.env@.len() == 0,
    {
        let plan = CommandPlan {
            program: program.to_owned(),
            args: Vec::new(),
            cwd: None,
            env: Vec::new(),
        };
        assert(plan.arg_texts() =~= Seq::<Seq<char>>::empty());
        plan
    }

    /// Adds one argument behind the others.
    pub fn arg(&mut self, arg: &str)
        ensures
            final(self).program == old(self).program,
            final(self).arg_texts() == old(self).arg_texts().push(arg@),
            final(self).cwd == old(self).cwd,
            final(self).env == old(self).env,
    {
        self.args.push(arg.to_owned());
        assert(self.arg_texts() =~= old(self).arg_texts().push(arg@));
    }

    /// Adds arguments behind the others, in order.
    pub fn args(&mut self, args: &Vec<String>)
        ensures
            final(self).program == old(self).program,
            final(self).arg_texts() == old(self).arg_texts() + texts(args@),
            final(self).cwd == old(self).cwd,
            final(self).env == old(self).env,
    {
        let mut done: usize = 0;
        assert(old(self).arg_texts() + texts(args@.take(0)) =~= old(self).arg_texts());
        while done < args.len()
            invariant
                done <= args.len(),
                self.program == old(self).program,
                self.arg_texts() == old(self).arg_texts() + texts(args@.take(done as int)),
                self.cwd == old(self).cwd,
                self.env == old(self).env,
            decreases args.len() - done,
        {
            self.arg(args[done].as_str());
            assert((old(self).arg_texts() + texts(args@.take(done as int))).push(
                args@[done as int]@,
            ) =~= old(self).arg_texts() + texts(args@.take(done + 1)));
            done = done + 1;
        }
        assert(args@.take(args@.len() as int) =~= args@);
    }

    /// Sets a variable for the process.
    pub fn env(&mut self, key: &str, value: &str)
        ensures
            final(self).program == old(self).program,
            final(self).args == old(self).args,
            final(self).cwd == old(self).cwd,
            final(self).variables() == old(self).variables().insert(key@, value@),
            final(self).env@.len() == old(self).env@.len() + 1,
    {
        self.env.push((key.to_owned(), value.to_owned()));
        assert(self.env@.drop_last() =~= old(self).env@);
    }
}

/// A copy of a string that may be missing.
pub fn copy_opt(s: &Option<String>) -> (copy: Option<String>)
    ensures
        opt_text(copy) == opt_text(*s),
{
    match s {
        Some(t) => Some(t.clone()),
        None => None,
    }
}

/// The texts of a list are those of its strings, each in its place.
pub proof fn law_texts_in_place(list: Seq<String>, i: int)
    requires
        0 <= i < list.len(),
    ensures
        texts(list).len() == list.len(),
        texts(list)[i] == list[i]@,
{
}

/// The text of a string that may be missing is missing exactly where the string is.
pub proof fn law_text_of_option(s: Option<String>)
    ensures
        s matches Some(t) ==> opt_text(s) == Some(t@),
        s is None ==> opt_text(s) is None,
{
}

/// Each setting reaches the process, unless a later one sets the same variable.
pub proof fn law_last_setting_wins(settings: Seq<(String, String)>, i: int)
    requires
        0 <= i < settings.len(),
        forall|j: int| i < j < settings.len() ==> (#[trigger] settings[j]).0@ != settings[i].0@,
    ensures
        env_after(settings).dom().contains(settings[i].0@),
        env_after(settings)[settings[i].0@] == settings[i].1@,
    decreases settings.len(),
{
    let earlier = settings.drop_last();
    if i < earlier.len() {
        assert forall|j: int| i < j < earlier.len() implies (#[trigger] earlier[j]).0@
            != earlier[i].0@ by {
            assert(earlier[j] == settings[j]);
        }
        law_last_setting_wins(earlier, i);
        assert(settings[settings.len() - 1].0@ != settings[i].0@);
    }
}

/// No variable is set but by a setting.
pub proof fn law_only_settings_are_set(settings: Seq<(String, String)>, key: Seq<char>)
    requires
        env_after(settings).dom().contains(key),
    ensures
        exists|i: int| 0 <= i < settings.len() && (#[trigger] settings[i]).0@ == key,
    decreases settings.len(),
{
    if settings.len() > 0 {
        let earlier = settings.drop_last();
        if settings.last().0@ == key {
            assert(settings[settings.len() - 1].0@ == key);
        } else {
            law_only_settings_are_set(earlier, key);
            let i = choose|i: int| 0 <= i < earlier.len() && (#[trigger] earlier[i]).0@ == key;
            assert(settings[i].0@ == key);
        }
    }
}

/// What a plan says of its process is what stands in it: every argument in its
/// place, and the variables as its settings leave them.
pub proof fn law_plan_says_what_it_holds(plan: CommandPlan, i: int)
    ensures
        plan.arg_texts().len() == plan.args@.len(),
        0 <= i < plan.args@.len() ==> plan.arg_texts()[i] == plan.args@[i]@,
        (0 <= i < plan.env@.len() && forall|j: int|
            i < j < plan.env@.len() ==> (#[trigger] plan.env@[j]).0@ != plan.env@[i].0@)
            ==> plan.variables().dom().contains(plan.env@[i].0@) && plan.variables()[plan.env@[i].0@]
            == plan.env@[i].1@,
        plan.env@.len() == 0 ==> plan.variables() == Map::<Seq<char>, Seq<char>>::empty(),
{
    if 0 <= i < plan.env@.len() && forall|j: int|
        i < j < plan.env@.len() ==> (#[trigger] plan.env@[j]).0@ != plan.env@[i].0@ {
        law_last_setting_wins(plan.env@, i);
    }
}

} // verus!
