use tauri_python_sidecar::oneshot::{
    drop_progress, join_lines, process_request_line, progress_event, sidecar_request_spawn, OneShot,
    OneShotAction, OneShotPhase, OneShotReply, ProcessOutput,
};
use tauri_python_sidecar::paths::{get_dev_config, Platform};

fn strings(list: &[&str]) -> Vec<String> {
    list.iter().map(|s| s.to_string()).collect()
}

fn begin() -> (OneShot, OneShotAction) {
    let config = get_dev_config(Platform::Linux, &Some("/work".to_string()), true);
    sidecar_request_spawn(Ok(config), "/data", r#"{"id":1}"#.to_string()).unwrap()
}

/// Answers with success until the given phase is reached.
fn advanced_to(phase: OneShotPhase) -> OneShot {
    let (mut one_shot, _) = begin();
    while one_shot.phase != phase {
        one_shot.step(OneShotReply::Done);
    }
    one_shot
}

fn failed_with(phase: OneShotPhase, reply: OneShotReply) -> String {
    let mut one_shot = advanced_to(phase);
    match one_shot.step(reply) {
        OneShotAction::Finish(Err(reason)) => {
            assert_eq!(one_shot.phase, OneShotPhase::Finished);
            reason
        }
        other => panic!("unexpected action {:?}", other),
    }
}

#[test]
fn process_is_spawned_in_its_own_mode() {
    let (one_shot, action) = begin();
    assert_eq!(one_shot.phase, OneShotPhase::Spawning);
    match action {
        OneShotAction::Spawn(plan) => {
            assert_eq!(plan.program, "/work/.venv/bin/python");
            assert_eq!(plan.args, strings(&["-m", "sidecar.loader", "sidecar"]));
            assert_eq!(plan.cwd.as_deref(), Some("/work"));
            assert_eq!(
                plan.env,
                vec![("SIDECAR_DATA_DIR".to_string(), "/data".to_string())]
            );
        }
        other => panic!("unexpected action {:?}", other),
    }
}

#[test]
fn process_without_a_sidecar_is_not_spawned() {
    let begun = sidecar_request_spawn(Err("no sidecar".to_string()), "/data", String::new());
    assert_eq!(begun.unwrap_err(), "no sidecar");
}

#[test]
fn request_goes_through_all_phases() {
    let (mut one_shot, _) = begin();
    assert!(matches!(one_shot.step(OneShotReply::Done), OneShotAction::OpenStdin));
    match one_shot.step(OneShotReply::Done) {
        OneShotAction::Write { line } => assert_eq!(line, "{\"id\":1}\n"),
        other => panic!("unexpected action {:?}", other),
    }
    assert!(matches!(one_shot.step(OneShotReply::Done), OneShotAction::OpenStdout));
    assert!(matches!(one_shot.step(OneShotReply::Done), OneShotAction::OpenStderr));
    assert!(matches!(one_shot.step(OneShotReply::Done), OneShotAction::Wait));
    assert!(matches!(one_shot.step(OneShotReply::Done), OneShotAction::CollectStdout));
    let lines = strings(&[r#"{"result":{"n":3}}"#, "ignored"]);
    assert!(matches!(one_shot.step(OneShotReply::Lines(lines)), OneShotAction::CollectStderr));
    match one_shot.step(OneShotReply::Lines(strings(&["warning"]))) {
        OneShotAction::Finish(Ok(result)) => assert_eq!(result["n"], 3),
        other => panic!("unexpected action {:?}", other),
    }
    assert_eq!(one_shot.phase, OneShotPhase::Finished);
}

#[test]
fn silence_brings_what_stands_on_stderr() {
    let mut one_shot = advanced_to(OneShotPhase::CollectingStdout);
    one_shot.step(OneShotReply::Lines(Vec::new()));
    match one_shot.step(OneShotReply::Lines(strings(&["Traceback", "ImportError"]))) {
        OneShotAction::Finish(Err(reason)) => {
            assert_eq!(reason, "No response from sidecar. Stderr: Traceback\nImportError")
        }
        other => panic!("unexpected action {:?}", other),
    }
}

#[test]
fn each_failure_has_its_message() {
    let failed = || OneShotReply::Failed("broken".to_string());
    let lost = || OneShotReply::Lost("panicked".to_string());
    assert_eq!(failed_with(OneShotPhase::Spawning, failed()), "Failed to spawn sidecar: broken");
    assert_eq!(failed_with(OneShotPhase::OpeningStdin, failed()), "Failed to open stdin");
    assert_eq!(
        failed_with(OneShotPhase::Writing, failed()),
        "Failed to write to sidecar stdin: broken"
    );
    assert_eq!(failed_with(OneShotPhase::OpeningStdout, failed()), "Failed to open stdout");
    assert_eq!(failed_with(OneShotPhase::OpeningStderr, failed()), "Failed to open stderr");
    assert_eq!(
        failed_with(OneShotPhase::Waiting, failed()),
        "Failed to wait for child process: broken"
    );
    assert_eq!(
        failed_with(OneShotPhase::Waiting, lost()),
        "Failed to join sidecar wait task: panicked"
    );
    assert_eq!(
        failed_with(OneShotPhase::CollectingStdout, lost()),
        "Failed to read stdout: panicked"
    );
    assert_eq!(
        failed_with(OneShotPhase::CollectingStderr, lost()),
        "Failed to read stderr: panicked"
    );
}

#[test]
fn progress_is_relayed() {
    let event = progress_event("  {\"type\":\"progress\",\"pct\":50}\r").unwrap();
    assert_eq!(event.channel, "query-progress");
    assert_eq!(event.payload["pct"], 50);
    for line in ["{\"type\":\"other\"}", "plain text", "{\"type\":1}", ""] {
        assert!(progress_event(line).is_none(), "{line}");
    }
}

#[test]
fn progress_is_not_kept() {
    let progress = "{\"type\":\"progress\"}";
    let written = strings(&[progress, "a", progress, "b"]);
    assert_eq!(drop_progress(written), strings(&["a", "b"]));

    let mut one_shot = advanced_to(OneShotPhase::CollectingStdout);
    one_shot.step(OneShotReply::Lines(strings(&[progress, r#"{"result":7}"#])));
    match one_shot.step(OneShotReply::Lines(Vec::new())) {
        OneShotAction::Finish(Ok(result)) => assert_eq!(result, 7),
        other => panic!("unexpected action {:?}", other),
    }

    let mut silent = advanced_to(OneShotPhase::CollectingStdout);
    silent.step(OneShotReply::Lines(strings(&[progress])));
    match silent.step(OneShotReply::Lines(strings(&["died"]))) {
        OneShotAction::Finish(Err(reason)) => {
            assert_eq!(reason, "No response from sidecar. Stderr: died")
        }
        other => panic!("unexpected action {:?}", other),
    }
}

#[test]
fn first_line_is_the_response() {
    let mut output = ProcessOutput::new();
    assert_eq!(output.outcome().unwrap_err(), "No response from sidecar. Stderr: ");
    output.stdout = strings(&["{}", r#"{"result":1}"#]);
    assert_eq!(output.outcome().unwrap_err(), "Missing result in JSON-RPC response");
}

#[test]
fn lines_are_joined_with_line_feeds() {
    assert_eq!(join_lines(&Vec::new()), "");
    assert_eq!(join_lines(&strings(&["a"])), "a");
    assert_eq!(join_lines(&strings(&["a", "", "b"])), "a\n\nb");
    assert_eq!(join_lines(&strings(&["", "b"])), "\nb");
    assert_eq!(process_request_line("x"), "x\n");
}
