use tauri_python_sidecar::paths::Platform;
use tauri_python_sidecar::process::{
    image_query, is_process_running, is_sidecar_running, kill_command, kill_sidecars_command,
    process_image, running_query, sidecar_query, terminate_command, Ran, SIDECAR_BARE_NAME,
    SIDECAR_IMAGE_NAME,
};

fn wrote(success: bool, text: &str) -> Ran {
    Ran::Finished { success, stdout: Some(text.to_string()) }
}

#[test]
fn commands_on_windows() {
    let plan = running_query(Platform::Windows, 12);
    assert_eq!(plan.program, "tasklist");
    assert_eq!(plan.args, vec!["/FI", "PID eq 12", "/NH"]);
    let plan = image_query(Platform::Windows, 12);
    assert_eq!(plan.program, "tasklist");
    assert_eq!(plan.args, vec!["/FI", "PID eq 12", "/NH", "/FO", "CSV"]);
    let plan = terminate_command(Platform::Windows, 12);
    assert_eq!(plan.program, "taskkill");
    assert_eq!(plan.args, vec!["/PID", "12"]);
    assert_eq!(kill_command(Platform::Windows, 12).args, vec!["/PID", "12", "/F"]);
    let plan = sidecar_query(Platform::Windows);
    assert_eq!(plan.args, vec!["/FI", "IMAGENAME eq py-sidecar.exe", "/NH"]);
    assert_eq!(
        kill_sidecars_command(Platform::Windows).args,
        vec!["/IM", "py-sidecar.exe", "/F"]
    );
}

#[test]
fn commands_elsewhere() {
    for platform in [Platform::Linux, Platform::MacOs] {
        let plan = running_query(platform, 4294967295);
        assert_eq!(plan.program, "ps");
        assert_eq!(plan.args, vec!["-p", "4294967295"]);
        assert_eq!(image_query(platform, 7).args, vec!["-p", "7", "-o", "comm="]);
        let plan = terminate_command(platform, 0);
        assert_eq!(plan.program, "kill");
        assert_eq!(plan.args, vec!["-TERM", "0"]);
        assert_eq!(kill_command(platform, 7).args, vec!["-KILL", "7"]);
        let plan = sidecar_query(platform);
        assert_eq!(plan.program, "pgrep");
        assert_eq!(plan.args, vec!["-f", "py-sidecar"]);
        let plan = kill_sidecars_command(platform);
        assert_eq!(plan.program, "pkill");
        assert_eq!(plan.args, vec!["-f", "py-sidecar"]);
    }
    assert_eq!(SIDECAR_IMAGE_NAME.trim_end_matches(".exe"), SIDECAR_BARE_NAME);
}

#[test]
fn liveness() {
    let listing = "python.exe   1234 Console   1   20,000 K";
    assert!(is_process_running(Platform::Windows, 1234, &wrote(true, listing)));
    assert!(!is_process_running(Platform::Windows, 99, &wrote(true, listing)));
    assert!(is_process_running(Platform::Windows, 99, &Ran::Failed));
    let garbled = Ran::Finished { success: true, stdout: None };
    assert!(!is_process_running(Platform::Windows, 99, &garbled));
    assert!(is_process_running(Platform::Linux, 99, &garbled));
    assert!(!is_process_running(Platform::Linux, 1234, &wrote(false, listing)));
    assert!(is_process_running(Platform::Linux, 99, &Ran::Failed));
    assert!(is_process_running(Platform::MacOs, 99, &Ran::Failed));
}

#[test]
fn image_names() {
    let csv = "\r\n\"python.exe\",\"1234\",\"Console\",\"1\",\"20,000 K\"\r\n";
    assert_eq!(
        process_image(Platform::Windows, &wrote(true, csv)).as_deref(),
        Some("python.exe")
    );
    let none = "INFO: No tasks are running which match the specified criteria.";
    assert_eq!(process_image(Platform::Windows, &wrote(true, none)), None);
    assert_eq!(process_image(Platform::Windows, &wrote(true, "")), None);
    assert_eq!(
        process_image(Platform::Linux, &wrote(true, "python3\n")).as_deref(),
        Some("python3")
    );
    assert_eq!(
        process_image(Platform::MacOs, &wrote(true, "/opt/my app/py-sidecar\n")).as_deref(),
        Some("py-sidecar")
    );
    assert_eq!(process_image(Platform::Linux, &wrote(false, "\n")), None);
    assert_eq!(process_image(Platform::Linux, &Ran::Failed), None);
}

#[test]
fn sidecars_by_name() {
    let listing = "py-sidecar.exe   1234 Console   1   20,000 K";
    assert!(is_sidecar_running(Platform::Windows, &wrote(false, listing)));
    assert!(!is_sidecar_running(Platform::Windows, &wrote(true, "INFO: No tasks")));
    assert!(!is_sidecar_running(Platform::Windows, &Ran::Failed));
    assert!(is_sidecar_running(Platform::Linux, &wrote(true, "1234\n")));
    assert!(!is_sidecar_running(Platform::Linux, &wrote(false, "")));
    assert!(!is_sidecar_running(Platform::MacOs, &Ran::Failed));
}
