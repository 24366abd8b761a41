use tts_supervisor::command::CmdOutcome;
use tts_supervisor::deps::{
    check_script_present, check_venv_present, classify_docker_installed, classify_docker_running,
    classify_opentts_image, classify_packages, classify_python_installed, docker_images_command,
    docker_info_command, docker_version_command, packages_import_command, packages_missing_venv,
    python_version_command,
};
use tts_supervisor::platform::Platform;

fn ran(success: bool, stdout: &str, stderr: &str) -> Option<CmdOutcome> {
    Some(CmdOutcome { success, stdout: stdout.to_string(), stderr: stderr.to_string() })
}

#[test]
fn probe_commands_are_fixed() {
    let v = docker_version_command();
    assert_eq!(v.program, "docker");
    assert_eq!(v.args, vec!["--version"]);
    let i = docker_info_command();
    assert_eq!(i.args, vec!["info"]);
    let im = docker_images_command();
    assert_eq!(im.args, vec!["images", "-q", "synesthesiam/opentts:en"]);
    let py = python_version_command(Platform::Linux);
    assert_eq!(py.program, "python3");
    let py_w = python_version_command(Platform::Windows);
    assert_eq!(py_w.program, "python");
    let imp = packages_import_command(&"scripts/.venv/bin/python".to_string());
    assert_eq!(imp.program, "scripts/.venv/bin/python");
    assert_eq!(
        imp.args,
        vec!["-c", "import kittentts; import flask; import soundfile; import numpy"]
    );
}

#[test]
fn docker_installed_classification() {
    let ok = classify_docker_installed(&ran(true, "Docker version 24.0.7, build afdd53b\n", ""), Platform::Linux);
    assert!(ok.ok);
    assert_eq!(ok.label, "Docker installed");
    assert_eq!(ok.detail, "Docker version 24.0.7, build afdd53b");
    assert_eq!(ok.fix_hint, "");

    let missing = classify_docker_installed(&None, Platform::Linux);
    assert!(!missing.ok);
    assert_eq!(missing.label, "Docker not installed");
    assert_eq!(missing.fix_hint, "sudo apt install docker.io && sudo usermod -aG docker $USER");

    let missing_w = classify_docker_installed(&ran(false, "", ""), Platform::Windows);
    assert_eq!(missing_w.fix_hint, "Install Docker Desktop from docker.com");
}

#[test]
fn docker_running_classification_reads_stderr() {
    let ok = classify_docker_running(&ran(true, "", ""), Platform::Linux);
    assert!(ok.ok);
    assert_eq!(ok.detail, "Docker daemon is active");

    let denied = classify_docker_running(
        &ran(false, "", "permission denied while trying to connect\nrun with sudo"),
        Platform::Linux,
    );
    assert!(!denied.ok);
    assert_eq!(denied.detail, "permission denied while trying to connect");
    assert_eq!(denied.fix_hint, "sudo usermod -aG docker $USER && newgrp docker");

    let down = classify_docker_running(&ran(false, "", "Cannot connect to the Docker daemon\n"), Platform::Linux);
    assert_eq!(down.fix_hint, "sudo systemctl start docker");

    let silent = classify_docker_running(&ran(false, "", ""), Platform::Linux);
    assert_eq!(silent.detail, "Docker daemon is not active");

    let no_run = classify_docker_running(&None, Platform::Windows);
    assert!(!no_run.ok);
    assert_eq!(no_run.detail, "Could not communicate with Docker");
    assert_eq!(no_run.fix_hint, "Start Docker Desktop from the Start menu");
}

#[test]
fn image_classification_requires_nonempty_id() {
    let present = classify_opentts_image(&ran(true, "f2a91732366c\n", ""));
    assert!(present.ok);
    assert_eq!(present.detail, "Image ID: f2a91732366c");

    let absent = classify_opentts_image(&ran(true, "\n", ""));
    assert!(!absent.ok);
    assert_eq!(absent.label, "OpenTTS image not found");
    assert_eq!(absent.fix_hint, "docker pull synesthesiam/opentts:en");

    let unknown = classify_opentts_image(&ran(false, "", "daemon down"));
    assert!(!unknown.ok);
    assert_eq!(unknown.label, "Could not check images");
}

#[test]
fn python_classification() {
    let ok = classify_python_installed(&ran(true, "Python 3.11.6\n", ""), Platform::Linux);
    assert!(ok.ok);
    assert_eq!(ok.detail, "Python 3.11.6");

    let missing = classify_python_installed(&None, Platform::Linux);
    assert!(!missing.ok);
    assert_eq!(missing.fix_hint, "sudo apt install python3 python3-venv");
}

#[test]
fn venv_and_script_checks_follow_resolution() {
    let found = check_venv_present(&Some("scripts/.venv".to_string()), Platform::Linux);
    assert!(found.ok);
    assert_eq!(found.detail, "scripts/.venv");

    let absent = check_venv_present(&None, Platform::Linux);
    assert!(!absent.ok);
    assert_eq!(absent.fix_hint, "python3 -m venv scripts/.venv");
    let absent_w = check_venv_present(&None, Platform::Windows);
    assert_eq!(absent_w.fix_hint, "python -m venv scripts/.venv");

    let script = check_script_present(&Some("scripts/kittentts-server.py".to_string()));
    assert!(script.ok);
    assert_eq!(script.detail, "scripts/kittentts-server.py");
    let no_script = check_script_present(&None);
    assert!(!no_script.ok);
    assert_eq!(no_script.fix_hint, "Reinstall the application");
}

#[test]
fn packages_classification_scans_in_priority_order() {
    let ok = classify_packages(&ran(true, "", ""));
    assert!(ok.ok);
    assert_eq!(ok.detail, "kittentts, flask, soundfile, numpy");

    let flask = classify_packages(&ran(
        false,
        "",
        "ModuleNotFoundError: No module named 'flask'\nTraceback follows",
    ));
    assert!(!flask.ok);
    assert_eq!(flask.label, "Missing: flask");
    assert_eq!(flask.detail, "ModuleNotFoundError: No module named 'flask'");
    assert_eq!(flask.fix_hint, "pip install kittentts flask soundfile numpy");

    // Both names occur; the fixed priority order reports the first.
    let both = classify_packages(&ran(false, "", "numpy missing because kittentts failed"));
    assert_eq!(both.label, "Missing: kittentts");

    let generic = classify_packages(&ran(false, "", "SyntaxError: invalid syntax"));
    assert_eq!(generic.label, "Missing: some packages");

    let unrunnable = classify_packages(&None);
    assert!(!unrunnable.ok);
    assert_eq!(unrunnable.label, "Could not check packages");

    let no_venv = packages_missing_venv();
    assert!(!no_venv.ok);
    assert_eq!(no_venv.label, "Packages not installed");
}

// With every tool absent (no probe could run, nothing resolved), each check
// fails with a non-empty remediation hint, and repeating it with the same
// outcome reproduces the same result field for field.
#[test]
fn all_absent_environment_is_deterministic() {
    for p in [Platform::Windows, Platform::Linux, Platform::OtherUnix] {
        let checks = [
            classify_docker_installed(&None, p),
            classify_docker_running(&None, p),
            classify_opentts_image(&None),
            classify_python_installed(&None, p),
            check_venv_present(&None, p),
            classify_packages(&None),
            check_script_present(&None),
        ];
        let again = [
            classify_docker_installed(&None, p),
            classify_docker_running(&None, p),
            classify_opentts_image(&None),
            classify_python_installed(&None, p),
            check_venv_present(&None, p),
            classify_packages(&None),
            check_script_present(&None),
        ];
        for (c, c2) in checks.iter().zip(again.iter()) {
            assert!(!c.ok);
            assert!(!c.fix_hint.is_empty());
            assert_eq!(c.ok, c2.ok);
            assert_eq!(c.label, c2.label);
            assert_eq!(c.detail, c2.detail);
            assert_eq!(c.fix_hint, c2.fix_hint);
        }
    }
}
