use tauri_python_sidecar::command::CommandPlan;
use tauri_python_sidecar::paths::{
    database_path, dev_python_exe, get_data_dir, get_dev_config, get_index_dir, get_prod_config,
    get_project_root_dev, get_sidecar_config, locate_sidecar, makes_data_dir, shutdown_flag_path,
    token_path, DataDirFacts, Environment, Installation, Platform,
};

fn some(text: &str) -> Option<String> {
    Some(text.to_string())
}

fn has_arg(plan: &CommandPlan, arg: &str) -> bool {
    plan.args.iter().any(|a| a == arg)
}

#[test]
fn test_sidecar_config_mode_args() {
    let config = get_dev_config(Platform::Linux, &some("/work"), false);

    let cmd = config.command_for_mode("sidecar-server");

    // Should have: -m, sidecar.loader, sidecar-server
    assert!(has_arg(&cmd, "-m"));
    assert!(has_arg(&cmd, "sidecar.loader"));
    assert!(has_arg(&cmd, "sidecar-server"));
    assert_eq!(cmd.args, vec!["-m", "sidecar.loader", "sidecar-server"]);
}

#[test]
fn test_data_dir_not_empty() {
    let facts = DataDirFacts {
        override_dir: None,
        is_dev: true,
        platform: Platform::Linux,
        project_root: some("/work"),
        user_dir: None,
    };
    let data_dir = get_data_dir(&facts);
    // In development this should be project root
    assert!(!data_dir.is_empty());
    assert_eq!(data_dir, "/work");
}

#[test]
fn data_dir_by_platform() {
    let facts = |platform: Platform, dir: &str| DataDirFacts {
        override_dir: None,
        is_dev: false,
        platform,
        project_root: None,
        user_dir: some(dir),
    };
    assert_eq!(
        get_data_dir(&facts(Platform::Windows, "C:\\Users\\u\\AppData\\Roaming")),
        "C:\\Users\\u\\AppData\\Roaming\\TauriPythonSidecar"
    );
    assert_eq!(
        get_data_dir(&facts(Platform::MacOs, "/Users/u/Library/Application Support")),
        "/Users/u/Library/Application Support/TauriPythonSidecar"
    );
    assert_eq!(
        get_data_dir(&facts(Platform::Linux, "/home/u/.config")),
        "/home/u/.config/tauri-python-sidecar"
    );
}

#[test]
fn data_dir_override_wins_and_unknown_is_here() {
    let mut facts = DataDirFacts {
        override_dir: some("/elsewhere"),
        is_dev: true,
        platform: Platform::Linux,
        project_root: some("/work"),
        user_dir: some("/home/u/.config"),
    };
    assert_eq!(get_data_dir(&facts), "/elsewhere");
    facts.override_dir = None;
    facts.project_root = None;
    assert_eq!(get_data_dir(&facts), ".");
    facts.is_dev = false;
    facts.user_dir = None;
    assert_eq!(get_data_dir(&facts), ".");
}

#[test]
fn files_below_the_data_dir() {
    assert_eq!(get_index_dir(Platform::Linux, "/data"), "/data/.index");
    assert_eq!(
        token_path(Platform::Linux, "/data"),
        "/data/.index/sidecar_server.token"
    );
    assert_eq!(
        shutdown_flag_path(Platform::Windows, "C:\\d"),
        "C:\\d\\.index\\shutdown.flag"
    );
    assert_eq!(database_path(Platform::Linux, "/data"), "/data/sidecar.db");
}

#[test]
fn joining_paths() {
    assert_eq!(Platform::Linux.join("", "a"), "a");
    assert_eq!(Platform::Linux.join("/", "a"), "/a");
    assert_eq!(Platform::Linux.join("d\\", "a"), "d\\/a");
    assert_eq!(Platform::Windows.join("d\\", "a"), "d\\a");
    assert_eq!(Platform::Windows.join("d/", "a"), "d/a");
    assert_eq!(Platform::Windows.join("C:", "a"), "C:a");
    assert_eq!(Platform::Windows.join("CC", "a"), "CC\\a");
}

#[test]
fn interpreter_in_development() {
    assert_eq!(dev_python_exe(Platform::Linux, "/w", true), "/w/.venv/bin/python");
    assert_eq!(
        dev_python_exe(Platform::Windows, "C:\\w", true),
        "C:\\w\\.venv\\Scripts\\python.exe"
    );
    assert_eq!(dev_python_exe(Platform::Windows, "C:\\w", false), "python");
    assert_eq!(dev_python_exe(Platform::MacOs, "/w", false), "python3");
}

#[test]
fn project_root_prefers_the_variable() {
    assert_eq!(get_project_root_dev(some("/var"), some("/parent")), some("/var"));
    assert_eq!(get_project_root_dev(None, some("/parent")), some("/parent"));
    assert_eq!(get_project_root_dev(None, None), None);
}

#[test]
fn server_launch_names_worker_and_data_dir() {
    let config = get_dev_config(Platform::Linux, &None, false);
    assert!(config.is_dev);
    assert_eq!(config.working_dir.as_deref(), Some("."));
    let plan = config.server_launch("/data");
    assert_eq!(plan.program, "python3");
    assert_eq!(
        plan.args,
        vec!["-m", "sidecar.loader", "sidecar-server", "--worker-name=sidecar_server"]
    );
    assert_eq!(plan.env, vec![("SIDECAR_DATA_DIR".to_string(), "/data".to_string())]);
    assert_eq!(config.sidecar_server_command().args.len(), 3);
}

fn installation() -> Installation {
    Installation {
        sidecar: Ok("/opt/app/py-sidecar".to_string()),
        sidecar_exists: true,
        data_dir: "/data".to_string(),
        data_dir_ready: Ok(()),
    }
}

#[test]
fn production_runs_the_frozen_sidecar() {
    let config = get_sidecar_config(&Environment::Production(installation())).unwrap();
    assert_eq!(config.executable, "/opt/app/py-sidecar");
    assert!(config.base_args.is_empty());
    assert_eq!(config.working_dir.as_deref(), Some("/data"));
    assert!(!config.is_dev);
    let development = Environment::Development {
        platform: Platform::Windows,
        project_root: some("C:\\w"),
        venv_exists: true,
    };
    let config = get_sidecar_config(&development).unwrap();
    assert_eq!(config.executable, "C:\\w\\.venv\\Scripts\\python.exe");
}

#[test]
fn production_faults_are_readable() {
    let mut found = installation();
    found.sidecar_exists = false;
    assert_eq!(
        get_prod_config(&found).unwrap_err(),
        "Sidecar executable not found at '/opt/app/py-sidecar'. \
         The application bundle may be corrupted or incomplete."
    );
    found = installation();
    found.data_dir_ready = Err("denied".to_string());
    assert_eq!(
        get_prod_config(&found).unwrap_err(),
        "Failed to create data directory '/data': denied"
    );
    found.sidecar = Err("Failed to get current exe path: gone".to_string());
    assert_eq!(get_prod_config(&found).unwrap_err(), "Failed to get current exe path: gone");
}

#[test]
fn frozen_sidecar_lies_beside_the_executable() {
    let exe = Ok("/opt/app/app".to_string());
    assert_eq!(
        locate_sidecar(Platform::Linux, &exe, &some("/opt/app")),
        Ok("/opt/app/py-sidecar".to_string())
    );
    assert_eq!(
        locate_sidecar(Platform::Windows, &Ok("C:\\a\\a.exe".to_string()), &some("C:\\a")),
        Ok("C:\\a\\py-sidecar.exe".to_string())
    );
    assert_eq!(
        locate_sidecar(Platform::Linux, &exe, &None),
        Err("Failed to get exe directory for '/opt/app/app'".to_string())
    );
    assert_eq!(
        locate_sidecar(Platform::Linux, &Err("gone".to_string()), &None),
        Err("Failed to get current exe path: gone".to_string())
    );
}

#[test]
fn data_dir_is_made_for_a_whole_bundle_only() {
    assert!(makes_data_dir(true, false));
    assert!(!makes_data_dir(true, true));
    assert!(!makes_data_dir(false, false));
    assert!(!makes_data_dir(false, true));
}
