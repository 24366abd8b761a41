use tts_supervisor::command::CmdOutcome;
use tts_supervisor::container::{
    classify_container_stop, container_start_action, container_start_step, container_stop_command,
    ContainerStartPhase,
};
use tts_supervisor::paths::ResolvedPaths;
use tts_supervisor::platform::Platform;
use tts_supervisor::setup::{
    classify_pip_install, classify_pull_image, classify_venv_create, provision_action,
    provision_phases, provision_plan, provision_step, pull_image_command, ProvisionPhase,
};
use tts_supervisor::subprocess::{
    alive_probe_command, build_launch_plan, classify_alive, kill_command, models_env_var,
    port_kill_command, record_spawn, start_gate, subprocess_stop, StopAction, TtsServerState,
};

fn outcome(success: bool, stdout: &str, stderr: &str) -> CmdOutcome {
    CmdOutcome { success, stdout: stdout.to_string(), stderr: stderr.to_string() }
}

fn resolved(
    script: Option<&str>,
    python: Option<&str>,
    venv: Option<&str>,
    models: Option<&str>,
) -> ResolvedPaths {
    ResolvedPaths {
        script: script.map(|s| s.to_string()),
        python: python.map(|s| s.to_string()),
        venv_dir: venv.map(|s| s.to_string()),
        models_dir: models.map(|s| s.to_string()),
    }
}

// Starting twice without an intervening stop spawns exactly one process:
// the second start's gate reports already-running before any spawn.
#[test]
fn start_twice_spawns_once() {
    let mut state = TtsServerState { kittentts_pid: None };

    let already = start_gate(&mut state, false);
    assert!(!already);
    let status = record_spawn(&mut state, Ok(4242));
    assert_eq!(status.unwrap(), "started");
    assert_eq!(state.kittentts_pid, Some(4242));

    // Second start: the recorded process is alive, so no spawn happens.
    let already = start_gate(&mut state, true);
    assert!(already);
    assert_eq!(state.kittentts_pid, Some(4242));
}

#[test]
fn stale_record_is_cleared_before_respawn() {
    let mut state = TtsServerState { kittentts_pid: Some(99) };
    let already = start_gate(&mut state, false);
    assert!(!already);
    assert_eq!(state.kittentts_pid, None);
}

#[test]
fn spawn_failure_leaves_record_untouched() {
    let mut state = TtsServerState { kittentts_pid: None };
    let r = record_spawn(&mut state, Err("No such file or directory".to_string()));
    assert_eq!(r.unwrap_err(), "Failed to start KittenTTS: No such file or directory");
    assert_eq!(state.kittentts_pid, None);
}

// Stopping when nothing is recorded never returns an error: the status is
// always "stopped" and only a best-effort fallback action is requested.
#[test]
fn stop_with_empty_record_is_not_an_error() {
    let mut state = TtsServerState { kittentts_pid: None };
    let (action, status) = subprocess_stop(&mut state, Platform::Linux);
    assert_eq!(status, "stopped");
    assert!(matches!(action, StopAction::KillByPort));

    let mut state = TtsServerState { kittentts_pid: None };
    let (action, status) = subprocess_stop(&mut state, Platform::Windows);
    assert_eq!(status, "stopped");
    assert!(matches!(action, StopAction::Nothing));
}

#[test]
fn stop_takes_and_clears_the_record() {
    let mut state = TtsServerState { kittentts_pid: Some(4242) };
    let (action, status) = subprocess_stop(&mut state, Platform::Linux);
    assert_eq!(status, "stopped");
    assert!(matches!(action, StopAction::KillPid(4242)));
    assert_eq!(state.kittentts_pid, None);
}

#[test]
fn launch_plan_requires_a_script() {
    let r = build_launch_plan(&resolved(None, Some("py"), None, None), None, Platform::Linux);
    assert_eq!(r.unwrap_err(), "KittenTTS server script not found");
}

#[test]
fn launch_plan_uses_resolved_interpreter_and_threads() {
    let paths = resolved(
        Some("scripts/kittentts-server.py"),
        Some("scripts/.venv/bin/python"),
        Some("scripts/.venv"),
        Some("scripts/models"),
    );
    let plan = build_launch_plan(&paths, Some(4), Platform::Linux).unwrap();
    assert_eq!(plan.program, "scripts/.venv/bin/python");
    assert_eq!(plan.args, vec!["scripts/kittentts-server.py", "--threads", "4"]);
    assert_eq!(plan.models_dir, Some("scripts/models".to_string()));
    assert!(!plan.hide_console);
    assert_eq!(models_env_var(), "HF_HOME");
}

#[test]
fn launch_plan_zero_threads_passes_no_argument() {
    let paths = resolved(Some("s.py"), None, None, None);
    let plan = build_launch_plan(&paths, Some(0), Platform::Linux).unwrap();
    assert_eq!(plan.program, "python3");
    assert_eq!(plan.args, vec!["s.py"]);
    assert_eq!(plan.models_dir, None);

    let plan = build_launch_plan(&paths, None, Platform::Windows).unwrap();
    assert_eq!(plan.program, "python");
    assert!(plan.hide_console);
}

#[test]
fn launch_plan_runs_prebuilt_executable_directly() {
    let paths = resolved(Some("scripts/kittentts-server.exe"), None, None, None);
    let plan = build_launch_plan(&paths, Some(2), Platform::Windows).unwrap();
    assert_eq!(plan.program, "scripts/kittentts-server.exe");
    assert_eq!(plan.args, vec!["--threads", "2"]);

    // Off the hidden-console platform the name is not special.
    let plan = build_launch_plan(&paths, None, Platform::Linux).unwrap();
    assert_eq!(plan.program, "python3");
    assert_eq!(plan.args, vec!["scripts/kittentts-server.exe"]);
}

#[test]
fn liveness_probe_and_kill_are_platform_shaped() {
    let posix = alive_probe_command(4242, Platform::Linux);
    assert_eq!(posix.program, "kill");
    assert_eq!(posix.args, vec!["-0", "4242"]);
    let win = alive_probe_command(4242, Platform::Windows);
    assert_eq!(win.program, "tasklist");
    assert_eq!(win.args, vec!["/FI", "PID eq 4242", "/NH"]);

    assert!(classify_alive(&Some(outcome(true, "", "")), 4242, Platform::Linux));
    assert!(!classify_alive(&Some(outcome(false, "", "")), 4242, Platform::Linux));
    assert!(!classify_alive(&None, 4242, Platform::Linux));
    assert!(classify_alive(
        &Some(outcome(true, "kittentts-server.exe   4242 Console", "")),
        4242,
        Platform::Windows,
    ));
    assert!(!classify_alive(&Some(outcome(true, "INFO: none", "")), 4242, Platform::Windows));

    // The termination request is forceful on both platforms.
    let k = kill_command(4242, Platform::Linux);
    assert_eq!(k.program, "kill");
    assert_eq!(k.args, vec!["-9", "4242"]);
    let kw = kill_command(4242, Platform::Windows);
    assert_eq!(kw.program, "taskkill");
    assert_eq!(kw.args, vec!["/F", "/PID", "4242"]);

    let pk = port_kill_command();
    assert_eq!(pk.program, "sh");
    assert_eq!(pk.args, vec!["-c", "fuser -k 8192/tcp 2>/dev/null"]);
}

// When "start existing" fails, "create and run" is attempted exactly once
// before the procedure reports; no trace observes more than these two.
#[test]
fn container_start_tries_create_exactly_once() {
    let phase = ContainerStartPhase::TryStart;
    let first = container_start_action(&phase).unwrap();
    assert_eq!(first.program, "docker");
    assert_eq!(first.args, vec!["start", "opentts"]);

    // The start of an existing container failed: exactly one create-and-run.
    let phase = container_start_step(phase, Ok(outcome(false, "", "no such container")));
    assert!(matches!(phase, ContainerStartPhase::TryRun));
    let second = container_start_action(&phase).unwrap();
    assert_eq!(
        second.args,
        vec!["run", "-d", "--name", "opentts", "-p", "5500:5500", "synesthesiam/opentts:en"]
    );

    // Whatever the second command does, the procedure is finished.
    let done = container_start_step(phase, Ok(outcome(true, "abc123", "")));
    match done {
        ContainerStartPhase::Done(r) => assert_eq!(r.unwrap(), "started"),
        _ => panic!("procedure must finish after create-and-run"),
    }
}

#[test]
fn container_start_existing_succeeds_without_create() {
    let phase = container_start_step(ContainerStartPhase::TryStart, Ok(outcome(true, "", "")));
    match phase {
        ContainerStartPhase::Done(r) => assert_eq!(r.unwrap(), "started"),
        _ => panic!("successful start must finish the procedure"),
    }
}

#[test]
fn container_start_surfaces_create_failure() {
    let phase = container_start_step(
        ContainerStartPhase::TryRun,
        Ok(outcome(false, "", "port is already allocated\n")),
    );
    match phase {
        ContainerStartPhase::Done(r) => assert_eq!(r.unwrap_err(), "port is already allocated"),
        _ => panic!("failed create-and-run must finish the procedure"),
    }

    let spawn_fail = container_start_step(
        ContainerStartPhase::TryStart,
        Err("No such file or directory".to_string()),
    );
    match spawn_fail {
        ContainerStartPhase::Done(r) => {
            assert_eq!(r.unwrap_err(), "Failed to run docker: No such file or directory")
        },
        _ => panic!("unspawnable runtime must finish the procedure"),
    }
}

#[test]
fn container_stop_classification() {
    let cmd = container_stop_command();
    assert_eq!(cmd.program, "docker");
    assert_eq!(cmd.args, vec!["stop", "opentts"]);

    assert_eq!(classify_container_stop(&Ok(outcome(true, "", ""))).unwrap(), "stopped");
    assert_eq!(
        classify_container_stop(&Ok(outcome(false, "", "no such container: opentts\n")))
            .unwrap_err(),
        "no such container: opentts"
    );
    assert_eq!(
        classify_container_stop(&Err("docker missing".to_string())).unwrap_err(),
        "Failed to run docker: docker missing"
    );
}

#[test]
fn provisioning_plan_gates_creation() {
    // Environment already resolved: no creation step.
    let plan = provision_plan(&Some("scripts/.venv".to_string()), false, true, Platform::Linux);
    assert_eq!(plan.venv_dir, "scripts/.venv");
    assert!(plan.create.is_none());
    assert_eq!(plan.install.program, "scripts/.venv/bin/pip");
    assert_eq!(plan.install.args, vec!["install", "kittentts", "flask", "soundfile", "numpy"]);

    // Nothing resolved, system root present, directory not created yet.
    let plan = provision_plan(&None, true, false, Platform::Linux);
    assert_eq!(plan.venv_dir, "/usr/lib/en-parlant/scripts/.venv");
    let create = plan.create.unwrap();
    assert_eq!(create.program, "python3");
    assert_eq!(create.args, vec!["-m", "venv", "/usr/lib/en-parlant/scripts/.venv"]);

    // Development fallback on the platform with the other layout.
    let plan = provision_plan(&None, false, false, Platform::Windows);
    assert_eq!(plan.venv_dir, "scripts/.venv");
    assert_eq!(plan.create.unwrap().program, "python");
    assert_eq!(plan.install.program, "scripts/.venv/Scripts/pip.exe");
}

#[test]
fn provisioning_classifications() {
    assert!(classify_venv_create(&Ok(outcome(true, "", ""))).is_ok());
    assert_eq!(
        classify_venv_create(&Ok(outcome(false, "", "  venv module missing \n"))).unwrap_err(),
        "Failed to create venv: venv module missing"
    );
    // The detail is the error stream truncated to its first line.
    assert_eq!(
        classify_venv_create(&Ok(outcome(false, "", "first line \nsecond line\nthird")))
            .unwrap_err(),
        "Failed to create venv: first line"
    );
    assert_eq!(
        classify_venv_create(&Err("no python".to_string())).unwrap_err(),
        "Failed to create venv: no python"
    );

    assert_eq!(
        classify_pip_install(&Ok(outcome(true, "", ""))).unwrap(),
        "Packages installed successfully"
    );
    assert_eq!(
        classify_pip_install(&Ok(outcome(false, "", "resolution failed\n"))).unwrap_err(),
        "pip install failed: resolution failed"
    );
    assert_eq!(
        classify_pip_install(&Ok(outcome(false, "", "no matching version\nhint: retry")))
            .unwrap_err(),
        "pip install failed: no matching version"
    );
    assert_eq!(
        classify_pip_install(&Err("no pip".to_string())).unwrap_err(),
        "Failed to run pip: no pip"
    );

    let pull = pull_image_command();
    assert_eq!(pull.args, vec!["pull", "synesthesiam/opentts:en"]);
    assert_eq!(
        classify_pull_image(&Ok(outcome(true, "", ""))).unwrap(),
        "Image pulled successfully"
    );
    assert_eq!(
        classify_pull_image(&Ok(outcome(false, "", "manifest unknown\n"))).unwrap_err(),
        "docker pull failed: manifest unknown"
    );
    assert_eq!(
        classify_pull_image(&Err("docker missing".to_string())).unwrap_err(),
        "Failed to run docker pull: docker missing"
    );
}

// A failed creation finishes the procedure at once: installation is never
// offered as an action after it.
#[test]
fn provisioning_short_circuits_on_creation_failure() {
    let plan = provision_plan(&None, false, false, Platform::Linux);
    let phase = provision_phases(plan);
    let first = provision_action(&phase).unwrap();
    assert_eq!(first.program, "python3");
    assert_eq!(first.args, vec!["-m", "venv", "scripts/.venv"]);

    let phase = provision_step(phase, Ok(outcome(false, "", "venv module missing\n")));
    assert!(provision_action(&phase).is_none());
    match phase {
        ProvisionPhase::Done(r) => {
            assert_eq!(r.unwrap_err(), "Failed to create venv: venv module missing")
        },
        _ => panic!("a failed creation must finish the procedure"),
    }
}

#[test]
fn provisioning_runs_install_after_successful_creation() {
    let plan = provision_plan(&None, false, false, Platform::Linux);
    let phase = provision_phases(plan);
    let phase = provision_step(phase, Ok(outcome(true, "", "")));
    let install = provision_action(&phase).unwrap();
    assert_eq!(install.program, "scripts/.venv/bin/pip");
    assert_eq!(install.args, vec!["install", "kittentts", "flask", "soundfile", "numpy"]);

    let phase = provision_step(phase, Ok(outcome(true, "", "")));
    match phase {
        ProvisionPhase::Done(r) => assert_eq!(r.unwrap(), "Packages installed successfully"),
        _ => panic!("installation must finish the procedure"),
    }
}

#[test]
fn provisioning_skips_creation_when_directory_exists() {
    let plan = provision_plan(&Some("scripts/.venv".to_string()), false, true, Platform::Linux);
    let phase = provision_phases(plan);
    let first = provision_action(&phase).unwrap();
    assert_eq!(first.program, "scripts/.venv/bin/pip");

    let phase = provision_step(phase, Err("no pip".to_string()));
    match phase {
        ProvisionPhase::Done(r) => assert_eq!(r.unwrap_err(), "Failed to run pip: no pip"),
        _ => panic!("a failed installation must finish the procedure"),
    }
}
