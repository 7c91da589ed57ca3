//! Where the sidecar and its files live, and how it is started.
//!
//! In development the sidecar is a Python module, run by the project's own
//! interpreter from the project root. In production it is one frozen executable
//! beside the application's own, run from the data directory.

use vstd::prelude::*;
use vstd::string::*;

use crate::command::{copy_opt, opt_text, texts, CommandPlan};
use crate::text::{cat, cat3};

verus! {

/// The operating system that paths are written for.
#[derive(Clone, Copy, PartialEq, Eq, Structural, Debug)]
pub enum Platform {
    Windows,
    MacOs,
    Linux,
}

/// Sets the directory that the sidecar keeps its files in.
pub const DATA_DIR_VARIABLE: &'static str = "SIDECAR_DATA_DIR";

impl Platform {
    /// A character that parts the components of a path.
    pub open spec fn parts_components(self, c: char) -> bool {
        c == '/' || (self == Platform::Windows && c == '\\')
    }

    /// The separator that is written between components.
    pub open spec fn separator(self) -> Seq<char> {
        if self == Platform::Windows {
            "\\"@
        } else {
            "/"@
        }
    }

    /// A drive without a root, such as `C:`.
    pub open spec fn is_bare_drive(self, path: Seq<char>) -> bool {
        &&& self == Platform::Windows
        &&& path.len() == 2
        &&& path[1] == ':'
        &&& 'a' <= path[0] <= 'z' || 'A' <= path[0] <= 'Z'
    }

    /// A relative path below a directory: a separator is written between the two
    /// unless the directory is empty, ends in one, or is a bare drive.
    pub open spec fn joined(self, dir: Seq<char>, name: Seq<char>) -> Seq<char> {
        if dir.len() == 0 || self.parts_components(dir.last()) || self.is_bare_drive(dir) {
            dir + name
        } else {
            dir + self.separator() + name
        }
    }

    /// The relative path `name` below the directory `dir`.
    pub fn join(self, dir: &str, name: &str) -> (path: String)
        ensures
            path@ == self.joined(dir@, name@),
    {
        let len: usize = dir.unicode_len();
        if len == 0 {
            return cat(dir, name);
        }
        let windows = matches!(self, Platform::Windows);
        let last: char = dir.get_char(len - 1);
        if last == '/' || (windows && last == '\\') {
            return cat(dir, name);
        }
        if windows && len == 2 && last == ':' {
            let drive: char = dir.get_char(0);
            if ('a' <= drive && drive <= 'z') || ('A' <= drive && drive <= 'Z') {
                return cat(dir, name);
            }
        }
        if windows {
            cat3(dir, "\\", name)
        } else {
            cat3(dir, "/", name)
        }
    }
}

/// How the sidecar is executed.
#[derive(Debug)]
pub struct SidecarConfig {
    /// The executable: an interpreter in development, the frozen sidecar in production.
    pub executable: String,
    /// Arguments that stand before the mode.
    pub base_args: Vec<String>,
    /// Working directory of the process.
    pub working_dir: Option<String>,
    pub is_dev: bool,
}

impl SidecarConfig {
    /// The plan starts this sidecar in `mode`, with `more` behind the mode.
    pub open spec fn starts(self, plan: CommandPlan, mode: Seq<char>, more: Seq<Seq<char>>) -> bool {
        &&& plan.program@ == self.executable@
        &&& plan.arg_texts() == texts(self.base_args@).push(mode) + more
        &&& opt_text(plan.cwd) == opt_text(self.working_dir)
    }

    /// The command for the persistent server.
    pub fn sidecar_server_command(&self) -> (plan: CommandPlan)
        ensures
            self.starts(plan, "sidecar-server"@, Seq::empty()),
            plan.variables() == Map::<Seq<char>, Seq<char>>::empty(),
    {
        self.command_for_mode("sidecar-server")
    }

    /// The command for a mode. Every mode is the same executable with another
    /// first argument.
    pub fn command_for_mode(&self, mode: &str) -> (plan: CommandPlan)
        ensures
            self.starts(plan, mode@, Seq::empty()),
            plan.variables() == Map::<Seq<char>, Seq<char>>::empty(),
    {
        let mut plan = CommandPlan::new(self.executable.as_str());
        plan.args(&self.base_args);
        plan.arg(mode);
        plan.cwd = copy_opt(&self.working_dir);
        assert(plan.arg_texts() =~= texts(self.base_args@).push(mode@) + Seq::<
            Seq<char>,
        >::empty());
        plan
    }

    /// The command that starts the supervised server: it names the worker, and
    /// it says where the data directory is, so that the process need not guess.
    pub fn server_launch(&self, data_dir: &str) -> (plan: CommandPlan)
        ensures
            self.starts(plan, "sidecar-server"@, seq!["--worker-name=sidecar_server"@]),
            plan.variables() == Map::<Seq<char>, Seq<char>>::empty().insert(
                DATA_DIR_VARIABLE@,
                data_dir@,
            ),
    {
        let mut plan = self.sidecar_server_command();
        plan.arg("--worker-name=sidecar_server");
        plan.env(DATA_DIR_VARIABLE, data_dir);
        assert(plan.arg_texts() =~= texts(self.base_args@).push("sidecar-server"@)
            + seq!["--worker-name=sidecar_server"@]);
        plan
    }

    /// The command that starts a process for one request, with the same data
    /// directory as the server.
    pub fn request_launch(&self, data_dir: &str) -> (plan: CommandPlan)
        ensures
            self.starts(plan, "sidecar"@, Seq::empty()),
            plan.variables() == Map::<Seq<char>, Seq<char>>::empty().insert(
                DATA_DIR_VARIABLE@,
                data_dir@,
            ),
    {
        let mut plan = self.command_for_mode("sidecar");
        plan.env(DATA_DIR_VARIABLE, data_dir);
        plan
    }
}

/// The project root in development: `SIDECAR_PROJECT_ROOT` where it is set, else
/// the directory above the package's own.
pub fn get_project_root_dev(variable: Option<String>, package_parent: Option<String>) -> (root:
    Option<String>)
    ensures
        root == (if variable is Some {
            variable
        } else {
            package_parent
        }),
{
    match variable {
        Some(root) => Some(root),
        None => package_parent,
    }
}

/// The interpreter of the project's own virtual environment.
pub open spec fn venv_python_path(platform: Platform, root: Seq<char>) -> Seq<char> {
    if platform == Platform::Windows {
        root + "\\.venv\\Scripts\\python.exe"@
    } else {
        root + "/.venv/bin/python"@
    }
}

/// The interpreter that is found by its bare name.
pub open spec fn bare_python(platform: Platform) -> Seq<char> {
    if platform == Platform::Windows {
        "python"@
    } else {
        "python3"@
    }
}

/// Where the interpreter of the project's own virtual environment would be.
pub fn venv_python(platform: Platform, project_root: &str) -> (path: String)
    ensures
        path@ == venv_python_path(platform, project_root@),
{
    match platform {
        Platform::Windows => cat(project_root, "\\.venv\\Scripts\\python.exe"),
        _ => cat(project_root, "/.venv/bin/python"),
    }
}

/// The interpreter to use in development. The project's own wins over whatever
/// the bare name resolves to, which may lack what the sidecar imports.
pub fn dev_python_exe(platform: Platform, project_root: &str, venv_exists: bool) -> (exe: String)
    ensures
        exe@ == (if venv_exists {
            venv_python_path(platform, project_root@)
        } else {
            bare_python(platform)
        }),
{
    if venv_exists {
        return venv_python(platform, project_root);
    }
    match platform {
        Platform::Windows => "python".to_owned(),
        _ => "python3".to_owned(),
    }
}

/// The project root, or the current directory where none is known.
pub open spec fn root_or_here(project_root: Option<Seq<char>>) -> Seq<char> {
    match project_root {
        Some(root) => root,
        None => "."@,
    }
}

/// A directory, or the current one where none is known.
pub fn dir_or_here(dir: &Option<String>) -> (text: String)
    ensures
        text@ == root_or_here(opt_text(*dir)),
{
    match dir {
        Some(text) => text.clone(),
        None => ".".to_owned(),
    }
}

/// How the sidecar is executed in development.
pub fn get_dev_config(platform: Platform, project_root: &Option<String>, venv_exists: bool) -> (
    config: SidecarConfig)
    ensures
        is_dev_config(config, platform, opt_text(*project_root), venv_exists),
{
    let root = dir_or_here(project_root);
    let config = SidecarConfig {
        executable: dev_python_exe(platform, root.as_str(), venv_exists),
        base_args: vec!["-m".to_owned(), "sidecar.loader".to_owned()],
        working_dir: Some(root),
        is_dev: true,
    };
    assert(texts(config.base_args@) =~= seq!["-m"@, "sidecar.loader"@]);
    config
}

/// The configuration runs the sidecar's loader module from the project root.
pub open spec fn is_dev_config(
    config: SidecarConfig,
    platform: Platform,
    project_root: Option<Seq<char>>,
    venv_exists: bool,
) -> bool {
    let root = root_or_here(project_root);
    &&& config.executable@ == (if venv_exists {
        venv_python_path(platform, root)
    } else {
        bare_python(platform)
    })
    &&& texts(config.base_args@) == seq!["-m"@, "sidecar.loader"@]
    &&& opt_text(config.working_dir) == Some(root)
    &&& config.is_dev
}

/// The file name of the frozen sidecar.
pub open spec fn sidecar_file_name(platform: Platform) -> Seq<char> {
    if platform == Platform::Windows {
        "py-sidecar.exe"@
    } else {
        "py-sidecar"@
    }
}

/// Where the frozen sidecar has to be, given the path of the application's own
/// executable (or why it cannot be told) and the directory that holds it.
pub open spec fn sidecar_location(
    platform: Platform,
    exe_path: Result<Seq<char>, Seq<char>>,
    exe_dir: Option<Seq<char>>,
) -> Result<Seq<char>, Seq<char>> {
    match exe_path {
        Err(reason) => Err("Failed to get current exe path: "@ + reason),
        Ok(path) => match exe_dir {
            None => Err("Failed to get exe directory for '"@ + path + "'"@),
            Some(dir) => Ok(platform.joined(dir, sidecar_file_name(platform))),
        },
    }
}

/// The texts of a result.
pub open spec fn result_text(result: Result<String, String>) -> Result<Seq<char>, Seq<char>> {
    match result {
        Ok(text) => Ok(text@),
        Err(reason) => Err(reason@),
    }
}

/// Where the frozen sidecar has to be: beside the application's own executable.
pub fn locate_sidecar(
    platform: Platform,
    exe_path: &Result<String, String>,
    exe_dir: &Option<String>,
) -> (location: Result<String, String>)
    ensures
        result_text(location) == sidecar_location(
            platform,
            result_text(*exe_path),
            opt_text(*exe_dir),
        ),
{
    match exe_path {
        Err(reason) => Err(cat("Failed to get current exe path: ", reason.as_str())),
        Ok(path) => match exe_dir {
            None => Err(cat3("Failed to get exe directory for '", path.as_str(), "'")),
            Some(dir) => match platform {
                Platform::Windows => Ok(platform.join(dir.as_str(), "py-sidecar.exe")),
                _ => Ok(platform.join(dir.as_str(), "py-sidecar")),
            },
        },
    }
}

/// What is known of a production installation.
#[derive(Debug)]
pub struct Installation {
    /// Where the frozen sidecar has to be, or why that cannot be told.
    pub sidecar: Result<String, String>,
    /// Whether it is there.
    pub sidecar_exists: bool,
    pub data_dir: String,
    /// Whether the data directory is there or could be made, or why not. It is
    /// made where [`makes_data_dir`] says so.
    pub data_dir_ready: Result<(), String>,
}

/// Whether the data directory is to be made: where it is missing, and only once
/// the sidecar was found. A broken bundle leaves nothing behind.
pub fn makes_data_dir(sidecar_exists: bool, data_dir_exists: bool) -> (makes: bool)
    ensures
        makes == (sidecar_exists && !data_dir_exists),
{
    sidecar_exists && !data_dir_exists
}

impl Installation {
    /// Why the sidecar cannot be run from this installation, if it cannot.
    pub open spec fn fault(self) -> Option<Seq<char>> {
        match self.sidecar {
            Err(reason) => Some(reason@),
            Ok(path) => if !self.sidecar_exists {
                Some(
                    "Sidecar executable not found at '"@ + path@
                        + "'. The application bundle may be corrupted or incomplete."@,
                )
            } else {
                match self.data_dir_ready {
                    Err(reason) => Some(
                        "Failed to create data directory '"@ + self.data_dir@ + "': "@ + reason@,
                    ),
                    Ok(_) => None,
                }
            },
        }
    }
}

/// The configuration runs the frozen sidecar from the data directory.
pub open spec fn is_prod_config(config: SidecarConfig, found: Installation) -> bool {
    &&& found.sidecar matches Ok(path) && config.executable@ == path@
    &&& config.base_args@.len() == 0
    &&& opt_text(config.working_dir) == Some(found.data_dir@)
    &&& !config.is_dev
}

/// How the sidecar is executed in production, or a readable reason why it cannot
/// be: a broken bundle, or a data directory that cannot be made.
pub fn get_prod_config(found: &Installation) -> (config: Result<SidecarConfig, String>)
    ensures
        config is Err <==> found.fault() is Some,
        config matches Err(reason) ==> found.fault() == Some(reason@),
        config matches Ok(c) ==> is_prod_config(c, *found),
{
    match &found.sidecar {
        Err(reason) => Err(reason.clone()),
        Ok(path) => {
            if !found.sidecar_exists {
                return Err(
                    cat3(
                        "Sidecar executable not found at '",
                        path.as_str(),
                        "'. The application bundle may be corrupted or incomplete.",
                    ),
                );
            }
            match &found.data_dir_ready {
                Err(reason) => {
                    let mut message = cat3(
                        "Failed to create data directory '",
                        found.data_dir.as_str(),
                        "': ",
                    );
                    message.append(reason.as_str());
                    Err(message)
                },
                Ok(_) => Ok(
                    SidecarConfig {
                        executable: path.clone(),
                        base_args: Vec::new(),
                        working_dir: Some(found.data_dir.clone()),
                        is_dev: false,
                    },
                ),
            }
        },
    }
}

/// The environment that the application runs in.
#[derive(Debug)]
pub enum Environment {
    Development { platform: Platform, project_root: Option<String>, venv_exists: bool },
    Production(Installation),
}

/// How the sidecar is executed in this environment, or a readable reason why it
/// cannot be.
pub fn get_sidecar_config(environment: &Environment) -> (config: Result<SidecarConfig, String>)
    ensures
        match *environment {
            Environment::Development { platform, project_root, venv_exists } => {
                config matches Ok(c) && is_dev_config(
                    c,
                    platform,
                    opt_text(project_root),
                    venv_exists,
                )
            },
            Environment::Production(found) => {
                &&& config is Err <==> found.fault() is Some
                &&& config matches Err(reason) ==> found.fault() == Some(reason@)
                &&& config matches Ok(c) ==> is_prod_config(c, found)
            },
        },
{
    match environment {
        Environment::Development { platform, project_root, venv_exists } => Ok(
            get_dev_config(*platform, project_root, *venv_exists),
        ),
        Environment::Production(found) => get_prod_config(found),
    }
}

/// What decides where user data is kept.
#[derive(Debug)]
pub struct DataDirFacts {
    /// `SIDECAR_DATA_DIR_OVERRIDE`, where it is set.
    pub override_dir: Option<String>,
    pub is_dev: bool,
    pub platform: Platform,
    /// The project root, in development.
    pub project_root: Option<String>,
    /// The platform's directory for the data of applications: `%APPDATA%`,
    /// `~/Library/Application Support` or `~/.config`.
    pub user_dir: Option<String>,
}

impl DataDirFacts {
    /// The application's own directory below the platform's.
    pub open spec fn app_dir_name(self) -> Seq<char> {
        if self.platform == Platform::Linux {
            "tauri-python-sidecar"@
        } else {
            "TauriPythonSidecar"@
        }
    }

    /// The data directory.
    pub open spec fn data_dir(self) -> Seq<char> {
        if let Some(dir) = self.override_dir {
            dir@
        } else if self.is_dev {
            root_or_here(opt_text(self.project_root))
        } else if let Some(base) = self.user_dir {
            self.platform.joined(base@, self.app_dir_name())
        } else {
            "."@
        }
    }
}

/// The directory for user data: configuration, database and logs. An override
/// wins; in development it is the project root, in production the platform's
/// directory for this application.
pub fn get_data_dir(facts: &DataDirFacts) -> (dir: String)
    ensures
        dir@ == facts.data_dir(),
{
    if let Some(dir) = &facts.override_dir {
        return dir.clone();
    }
    if facts.is_dev {
        return dir_or_here(&facts.project_root);
    }
    match &facts.user_dir {
        None => ".".to_owned(),
        Some(base) => match facts.platform {
            Platform::Linux => facts.platform.join(base.as_str(), "tauri-python-sidecar"),
            _ => facts.platform.join(base.as_str(), "TauriPythonSidecar"),
        },
    }
}

/// The directory for lock files and the session token, below the data directory.
pub open spec fn index_dir(platform: Platform, data_dir: Seq<char>) -> Seq<char> {
    platform.joined(data_dir, ".index"@)
}

/// A file in the index directory.
pub open spec fn index_file(platform: Platform, data_dir: Seq<char>, name: Seq<char>) -> Seq<char> {
    platform.joined(index_dir(platform, data_dir), name)
}

/// The directory for lock files and the session token.
pub fn get_index_dir(platform: Platform, data_dir: &str) -> (dir: String)
    ensures
        dir@ == index_dir(platform, data_dir@),
{
    platform.join(data_dir, ".index")
}

/// The path of a file in the index directory.
pub fn get_index_file(platform: Platform, data_dir: &str, name: &str) -> (path: String)
    ensures
        path@ == index_file(platform, data_dir@, name@),
{
    let dir = get_index_dir(platform, data_dir);
    platform.join(dir.as_str(), name)
}

/// Where the server writes its session token.
pub fn token_path(platform: Platform, data_dir: &str) -> (path: String)
    ensures
        path@ == index_file(platform, data_dir@, "sidecar_server.token"@),
{
    get_index_file(platform, data_dir, "sidecar_server.token")
}

/// The file whose presence asks every worker to exit.
pub fn shutdown_flag_path(platform: Platform, data_dir: &str) -> (path: String)
    ensures
        path@ == index_file(platform, data_dir@, "shutdown.flag"@),
{
    get_index_file(platform, data_dir, "shutdown.flag")
}

/// The database that the sidecar owns. It stands directly in the data directory,
/// not in the index directory.
pub fn database_path(platform: Platform, data_dir: &str) -> (path: String)
    ensures
        path@ == platform.joined(data_dir@, "sidecar.db"@),
{
    platform.join(data_dir, "sidecar.db")
}

/// A path below a directory ends in the name, and begins with the directory; one
/// separator stands between them, be it the directory's own. On Windows a bare
/// drive gets none.
pub proof fn law_join_keeps_both(platform: Platform, dir: Seq<char>, name: Seq<char>)
    ensures
        dir.len() == 0 ==> platform.joined(dir, name) == name,
        dir.len() > 0 && dir.last() == '/' ==> platform.joined(dir, name) == dir + name,
        platform == Platform::Windows && dir.len() > 0 && dir.last() == '\\' ==> platform.joined(
            dir,
            name,
        ) == dir + name,
        platform != Platform::Windows && dir.len() > 0 && dir.last() != '/' ==> platform.joined(
            dir,
            name,
        ) == dir + "/"@ + name,
        platform == Platform::Windows && dir.len() > 0 && dir.last() != '/' && dir.last() != '\\'
            && (dir.len() != 2 || dir[1] != ':' || !('a' <= dir[0] && dir[0] <= 'z' || 'A' <= dir[0]
            && dir[0] <= 'Z')) ==> platform.joined(dir, name) == dir + "\\"@
            + name,
        platform == Platform::Windows && dir.len() == 2 && dir[1] == ':' && ('a' <= dir[0]
            && dir[0] <= 'z' || 'A' <= dir[0] && dir[0] <= 'Z') ==> platform.joined(dir, name)
            == dir + name,
{
    assert(dir.len() == 0 ==> dir + name =~= name);
}

/// In development the data directory is the project root, or the current directory
/// where none is known: neither the platform nor the user's directory matters.
pub proof fn law_data_dir_in_development(facts: DataDirFacts)
    requires
        facts.override_dir is None,
        facts.is_dev,
    ensures
        facts.project_root matches Some(root) ==> facts.data_dir() == root@,
        facts.project_root is None ==> facts.data_dir() == "."@,
{
}

/// An override is the data directory whatever else is known.
pub proof fn law_data_dir_override_wins(facts: DataDirFacts)
    ensures
        facts.override_dir matches Some(dir) ==> facts.data_dir() == dir@,
{
}

/// In production the data directory is the application's own below the user's, or
/// the current directory where that is not known: the project root does not matter.
pub proof fn law_data_dir_in_production(facts: DataDirFacts)
    requires
        facts.override_dir is None,
        !facts.is_dev,
    ensures
        facts.user_dir is None ==> facts.data_dir() == "."@,
        facts.user_dir matches Some(base) ==> {
            &&& facts.platform == Platform::Linux ==> facts.data_dir() == Platform::Linux.joined(
                base@,
                "tauri-python-sidecar"@,
            )
            &&& facts.platform == Platform::MacOs ==> facts.data_dir() == Platform::MacOs.joined(
                base@,
                "TauriPythonSidecar"@,
            )
            &&& facts.platform == Platform::Windows ==> facts.data_dir()
                == Platform::Windows.joined(base@, "TauriPythonSidecar"@)
        },
{
}

/// In development the sidecar is its loader module, run from the project root by
/// the project's own interpreter where there is one.
pub proof fn law_development_runs_the_loader(
    config: SidecarConfig,
    platform: Platform,
    root: Seq<char>,
    venv_exists: bool,
)
    ensures
        is_dev_config(config, platform, Some(root), venv_exists) ==> {
            &&& config.is_dev
            &&& config.working_dir matches Some(dir) && dir@ == root
            &&& config.base_args@.len() == 2
            &&& config.base_args@[0]@ == "-m"@
            &&& config.base_args@[1]@ == "sidecar.loader"@
            &&& venv_exists && platform == Platform::Windows ==> config.executable@ == root
                + "\\.venv\\Scripts\\python.exe"@
            &&& venv_exists && platform != Platform::Windows ==> config.executable@ == root
                + "/.venv/bin/python"@
            &&& !venv_exists && platform == Platform::Windows ==> config.executable@ == "python"@
            &&& !venv_exists && platform != Platform::Windows ==> config.executable@ == "python3"@
        },
        is_dev_config(config, platform, None, venv_exists) ==> is_dev_config(
            config,
            platform,
            Some("."@),
            venv_exists,
        ),
{
    if is_dev_config(config, platform, Some(root), venv_exists) {
        let args = texts(config.base_args@);
        assert(args.len() == 2);
        assert(args[0] == config.base_args@[0]@);
        assert(args[1] == config.base_args@[1]@);
    }
}

/// In production the sidecar is the frozen executable, run without arguments of its
/// own from the data directory.
pub proof fn law_production_runs_the_frozen_sidecar(
    config: SidecarConfig,
    found: Installation,
    path: String,
)
    requires
        is_prod_config(config, found),
        found.sidecar == Ok::<String, String>(path),
    ensures
        config.executable@ == path@,
        config.base_args@.len() == 0,
        config.working_dir matches Some(dir) && dir@ == found.data_dir@,
        !config.is_dev,
{
}

/// An installation is sound exactly where the sidecar was located and found and the
/// data directory is ready, and the first thing amiss is the one that is named.
pub proof fn law_first_fault_is_named(found: Installation)
    ensures
        found.sidecar is Ok && found.sidecar_exists && found.data_dir_ready is Ok
            <==> found.fault() is None,
        found.sidecar matches Err(reason) ==> found.fault() == Some(reason@),
        (found.sidecar matches Ok(path) && !found.sidecar_exists) ==> found.fault() == Some(
            "Sidecar executable not found at '"@ + found.sidecar->Ok_0@
                + "'. The application bundle may be corrupted or incomplete."@,
        ),
        (found.sidecar is Ok && found.sidecar_exists && found.data_dir_ready is Err)
            ==> found.fault() == Some(
            "Failed to create data directory '"@ + found.data_dir@ + "': "@
                + found.data_dir_ready->Err_0@,
        ),
{
}

/// The frozen sidecar lies beside the application's own executable, under its
/// platform's name; where that cannot be told, the reason says which step failed.
pub proof fn law_sidecar_lies_beside_the_application(
    platform: Platform,
    exe_path: Seq<char>,
    exe_dir: Seq<char>,
    reason: Seq<char>,
    any_dir: Option<Seq<char>>,
)
    ensures
        platform == Platform::Windows ==> sidecar_location(platform, Ok(exe_path), Some(exe_dir))
            == Ok::<Seq<char>, Seq<char>>(platform.joined(exe_dir, "py-sidecar.exe"@)),
        platform != Platform::Windows ==> sidecar_location(platform, Ok(exe_path), Some(exe_dir))
            == Ok::<Seq<char>, Seq<char>>(platform.joined(exe_dir, "py-sidecar"@)),
        sidecar_location(platform, Ok(exe_path), None) == Err::<Seq<char>, Seq<char>>(
            "Failed to get exe directory for '"@ + exe_path + "'"@,
        ),
        sidecar_location(platform, Err(reason), any_dir) == Err::<Seq<char>, Seq<char>>(
            "Failed to get current exe path: "@ + reason,
        ),
{
}

/// A command that starts the sidecar runs its executable with its own arguments,
/// then the mode, then what comes behind the mode, in its working directory.
pub proof fn law_mode_follows_own_arguments(
    config: SidecarConfig,
    plan: CommandPlan,
    mode: Seq<char>,
    more: Seq<Seq<char>>,
    i: int,
)
    requires
        config.starts(plan, mode, more),
    ensures
        plan.program@ == config.executable@,
        plan.args@.len() == config.base_args@.len() + 1 + more.len(),
        0 <= i < config.base_args@.len() ==> plan.args@[i]@ == config.base_args@[i]@,
        plan.args@[config.base_args@.len() as int]@ == mode,
        0 <= i < more.len() ==> plan.args@[config.base_args@.len() + 1 + i]@ == more[i],
        plan.cwd is Some <==> config.working_dir is Some,
        plan.cwd is Some ==> plan.cwd->0@ == config.working_dir->0@,
{
    let args = plan.arg_texts();
    assert(args == texts(config.base_args@).push(mode) + more);
    assert(args.len() == config.base_args@.len() + 1 + more.len());
    assert(args[config.base_args@.len() as int] == mode);
    if 0 <= i < config.base_args@.len() {
        assert(args[i] == texts(config.base_args@)[i]);
    }
    if 0 <= i < more.len() {
        assert(args[config.base_args@.len() + 1 + i] == more[i]);
    }
}

/// Locks, token and shutdown flag stand in `.index` below the data directory.
pub proof fn law_index_files(platform: Platform, data_dir: Seq<char>, name: Seq<char>)
    ensures
        index_file(platform, data_dir, name) == platform.joined(
            platform.joined(data_dir, ".index"@),
            name,
        ),
        index_dir(platform, data_dir) == platform.joined(data_dir, ".index"@),
{
}

/// The text of a result is that of its value or of its reason.
pub proof fn law_text_of_a_result(result: Result<String, String>)
    ensures
        result matches Ok(text) ==> result_text(result) == Ok::<Seq<char>, Seq<char>>(text@),
        result matches Err(reason) ==> result_text(result) == Err::<Seq<char>, Seq<char>>(reason@),
{
}

/// The sidecar is told its data directory by a variable of this name.
pub proof fn law_data_dir_variable()
    ensures
        DATA_DIR_VARIABLE@ == "SIDECAR_DATA_DIR"@,
{
}

} // verus!
