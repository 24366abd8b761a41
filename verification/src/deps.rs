//! Dependency probes.  Each prerequisite of the two server backends has
//! one probe: a fixed command for the embedding program to run (or a
//! resolved path to inspect), and a classifier that turns the outcome into
//! a [`DepCheck`].  The classifiers are total functions of the outcome and
//! the platform — nothing is cached, so a check is deterministic for a
//! fixed environment state — and a failed probe always carries a
//! remediation hint.

use vstd::prelude::*;
use crate::command::{req_is, CmdOutcome, CmdRequest};
use crate::platform::Platform;
use crate::text::{
    concat2,
    contains_sub,
    first_line,
    first_line_of,
    has_sub,
    trimmed,
    trimmed_of,
};

verus! {

/// The structured result of one dependency probe: pass/fail, a short human
/// label, a diagnostic detail, and a remediation hint that is empty
/// exactly when the check passed.  Produced fresh on every check, never
/// cached.
#[derive(Debug)]
pub struct DepCheck {
    pub ok: bool,
    pub label: String,
    pub detail: String,
    pub fix_hint: String,
}

/// The four fields of a check result at view level, for contracts.
pub open spec fn dep_views(d: DepCheck) -> (bool, Seq<char>, Seq<char>, Seq<char>) {
    (d.ok, d.label@, d.detail@, d.fix_hint@)
}

/// The version probe of the container-runtime binary.
pub fn docker_version_command() -> (r: CmdRequest)
    ensures
        req_is(r, "docker"@, seq!["--version"@]),
{
    let mut args: Vec<String> = Vec::new();
    args.push(String::from_str("--version"));
    let r = CmdRequest { program: String::from_str("docker"), args };
    proof {
        assert(crate::text::str_views(r.args@) =~= seq!["--version"@]);
    }
    r
}

/// What the container-runtime-installed check reports for a probe outcome:
/// installed exactly when the version command ran and exited zero, with
/// the trimmed version text as detail; otherwise a platform-appropriate
/// installation hint.
pub open spec fn spec_docker_installed(o: Option<CmdOutcome>, p: Platform) -> (
    bool,
    Seq<char>,
    Seq<char>,
    Seq<char>,
) {
    match o {
        Option::Some(out) => {
            if out.success {
                (true, "Docker installed"@, trimmed_of(out.stdout@), Seq::empty())
            } else {
                spec_docker_missing(p)
            }
        },
        Option::None => spec_docker_missing(p),
    }
}

pub open spec fn spec_docker_missing(p: Platform) -> (bool, Seq<char>, Seq<char>, Seq<char>) {
    (
        false,
        "Docker not installed"@,
        "Docker is required to run OpenTTS"@,
        if p.is_windows() {
            "Install Docker Desktop from docker.com"@
        } else {
            "sudo apt install docker.io && sudo usermod -aG docker $USER"@
        },
    )
}

/// Classifies the outcome of the container-runtime version probe.
pub fn classify_docker_installed(o: &Option<CmdOutcome>, p: Platform) -> (r: DepCheck)
    ensures
        dep_views(r) == spec_docker_installed(*o, p),
{
    match o {
        Some(out) if out.success => DepCheck {
            ok: true,
            label: String::from_str("Docker installed"),
            detail: trimmed(out.stdout.as_str()),
            fix_hint: String::new(),
        },
        _ => DepCheck {
            ok: false,
            label: String::from_str("Docker not installed"),
            detail: String::from_str("Docker is required to run OpenTTS"),
            fix_hint: if p.hides_console() {
                String::from_str("Install Docker Desktop from docker.com")
            } else {
                String::from_str("sudo apt install docker.io && sudo usermod -aG docker $USER")
            },
        },
    }
}

/// The daemon-reachability probe of the container runtime.
pub fn docker_info_command() -> (r: CmdRequest)
    ensures
        req_is(r, "docker"@, seq!["info"@]),
{
    let mut args: Vec<String> = Vec::new();
    args.push(String::from_str("info"));
    let r = CmdRequest { program: String::from_str("docker"), args };
    proof {
        assert(crate::text::str_views(r.args@) =~= seq!["info"@]);
    }
    r
}

/// What the daemon-reachability check reports.  On a failure outcome the
/// hint is chosen from the platform and, on systems with a daemon, from a
/// permission-denied signature in the captured diagnostic text; the detail
/// is the first line of that text, or a fixed line when it is empty.
pub open spec fn spec_docker_running(o: Option<CmdOutcome>, p: Platform) -> (
    bool,
    Seq<char>,
    Seq<char>,
    Seq<char>,
) {
    match o {
        Option::Some(out) => {
            if out.success {
                (true, "Docker running"@, "Docker daemon is active"@, Seq::empty())
            } else {
                (
                    false,
                    "Docker not running"@,
                    if out.stderr@.len() == 0 {
                        "Docker daemon is not active"@
                    } else {
                        first_line_of(out.stderr@)
                    },
                    if p.is_windows() {
                        "Start Docker Desktop from the Start menu"@
                    } else if has_sub(out.stderr@, "permission denied"@) {
                        "sudo usermod -aG docker $USER && newgrp docker"@
                    } else {
                        "sudo systemctl start docker"@
                    },
                )
            }
        },
        Option::None => (
            false,
            "Docker not running"@,
            "Could not communicate with Docker"@,
            if p.is_windows() {
                "Start Docker Desktop from the Start menu"@
            } else {
                "sudo systemctl start docker"@
            },
        ),
    }
}

/// Classifies the outcome of the daemon-reachability probe.
pub fn classify_docker_running(o: &Option<CmdOutcome>, p: Platform) -> (r: DepCheck)
    ensures
        dep_views(r) == spec_docker_running(*o, p),
{
    match o {
        Some(out) if out.success => DepCheck {
            ok: true,
            label: String::from_str("Docker running"),
            detail: String::from_str("Docker daemon is active"),
            fix_hint: String::new(),
        },
        Some(out) => {
            let detail = if out.stderr.as_str().unicode_len() == 0 {
                String::from_str("Docker daemon is not active")
            } else {
                first_line(out.stderr.as_str())
            };
            let hint = if p.hides_console() {
                String::from_str("Start Docker Desktop from the Start menu")
            } else if contains_sub(out.stderr.as_str(), "permission denied") {
                String::from_str("sudo usermod -aG docker $USER && newgrp docker")
            } else {
                String::from_str("sudo systemctl start docker")
            };
            DepCheck {
                ok: false,
                label: String::from_str("Docker not running"),
                detail,
                fix_hint: hint,
            }
        },
        None => DepCheck {
            ok: false,
            label: String::from_str("Docker not running"),
            detail: String::from_str("Could not communicate with Docker"),
            fix_hint: if p.hides_console() {
                String::from_str("Start Docker Desktop from the Start menu")
            } else {
                String::from_str("sudo systemctl start docker")
            },
        },
    }
}

/// The image-present probe: list image identifiers filtered to the fixed
/// reference.
pub fn docker_images_command() -> (r: CmdRequest)
    ensures
        req_is(r, "docker"@, seq!["images"@, "-q"@, "synesthesiam/opentts:en"@]),
{
    let mut args: Vec<String> = Vec::new();
    args.push(String::from_str("images"));
    args.push(String::from_str("-q"));
    args.push(String::from_str("synesthesiam/opentts:en"));
    let r = CmdRequest { program: String::from_str("docker"), args };
    proof {
        assert(crate::text::str_views(r.args@) =~= seq![
            "images"@,
            "-q"@,
            "synesthesiam/opentts:en"@,
        ]);
    }
    r
}

/// What the image-present check reports: present exactly when the listing
/// ran, exited zero, and printed a non-empty identifier.
pub open spec fn spec_opentts_image(o: Option<CmdOutcome>) -> (
    bool,
    Seq<char>,
    Seq<char>,
    Seq<char>,
) {
    match o {
        Option::Some(out) => {
            if out.success {
                if trimmed_of(out.stdout@).len() == 0 {
                    (
                        false,
                        "OpenTTS image not found"@,
                        "Image synesthesiam/opentts:en is not pulled"@,
                        "docker pull synesthesiam/opentts:en"@,
                    )
                } else {
                    (
                        true,
                        "OpenTTS image ready"@,
                        "Image ID: "@ + trimmed_of(out.stdout@),
                        Seq::empty(),
                    )
                }
            } else {
                spec_image_unknown()
            }
        },
        Option::None => spec_image_unknown(),
    }
}

pub open spec fn spec_image_unknown() -> (bool, Seq<char>, Seq<char>, Seq<char>) {
    (
        false,
        "Could not check images"@,
        "Docker may not be running"@,
        "docker pull synesthesiam/opentts:en"@,
    )
}

/// Classifies the outcome of the image-present probe.
pub fn classify_opentts_image(o: &Option<CmdOutcome>) -> (r: DepCheck)
    ensures
        dep_views(r) == spec_opentts_image(*o),
{
    match o {
        Some(out) if out.success => {
            let id = trimmed(out.stdout.as_str());
            if id.as_str().unicode_len() == 0 {
                DepCheck {
                    ok: false,
                    label: String::from_str("OpenTTS image not found"),
                    detail: String::from_str("Image synesthesiam/opentts:en is not pulled"),
                    fix_hint: String::from_str("docker pull synesthesiam/opentts:en"),
                }
            } else {
                DepCheck {
                    ok: true,
                    label: String::from_str("OpenTTS image ready"),
                    detail: concat2("Image ID: ", id.as_str()),
                    fix_hint: String::new(),
                }
            }
        },
        _ => DepCheck {
            ok: false,
            label: String::from_str("Could not check images"),
            detail: String::from_str("Docker may not be running"),
            fix_hint: String::from_str("docker pull synesthesiam/opentts:en"),
        },
    }
}

/// The version probe of the scripting-language runtime.
pub fn python_version_command(p: Platform) -> (r: CmdRequest)
    ensures
        req_is(r, p.spec_python_command(), seq!["--version"@]),
{
    let mut args: Vec<String> = Vec::new();
    args.push(String::from_str("--version"));
    let r = CmdRequest { program: String::from_str(p.python_command()), args };
    proof {
        assert(crate::text::str_views(r.args@) =~= seq!["--version"@]);
    }
    r
}

/// What the runtime-installed check reports.
pub open spec fn spec_python_installed(o: Option<CmdOutcome>, p: Platform) -> (
    bool,
    Seq<char>,
    Seq<char>,
    Seq<char>,
) {
    match o {
        Option::Some(out) => {
            if out.success {
                (true, "Python installed"@, trimmed_of(out.stdout@), Seq::empty())
            } else {
                spec_python_missing(p)
            }
        },
        Option::None => spec_python_missing(p),
    }
}

pub open spec fn spec_python_missing(p: Platform) -> (bool, Seq<char>, Seq<char>, Seq<char>) {
    (
        false,
        "Python 3 not installed"@,
        "Python 3.10+ is required for KittenTTS"@,
        if p.is_windows() {
            "Install Python from python.org"@
        } else {
            "sudo apt install python3 python3-venv"@
        },
    )
}

/// Classifies the outcome of the runtime version probe.
pub fn classify_python_installed(o: &Option<CmdOutcome>, p: Platform) -> (r: DepCheck)
    ensures
        dep_views(r) == spec_python_installed(*o, p),
{
    match o {
        Some(out) if out.success => DepCheck {
            ok: true,
            label: String::from_str("Python installed"),
            detail: trimmed(out.stdout.as_str()),
            fix_hint: String::new(),
        },
        _ => DepCheck {
            ok: false,
            label: String::from_str("Python 3 not installed"),
            detail: String::from_str("Python 3.10+ is required for KittenTTS"),
            fix_hint: if p.hides_console() {
                String::from_str("Install Python from python.org")
            } else {
                String::from_str("sudo apt install python3 python3-venv")
            },
        },
    }
}

/// What the environment-present check reports: present exactly when an
/// environment directory resolved.
pub open spec fn spec_venv_present(dir: Option<Seq<char>>, p: Platform) -> (
    bool,
    Seq<char>,
    Seq<char>,
    Seq<char>,
) {
    match dir {
        Option::Some(d) => (true, "Virtual environment found"@, d, Seq::empty()),
        Option::None => (
            false,
            "Virtual environment not found"@,
            "No .venv directory found in scripts/"@,
            if p.is_windows() {
                "python -m venv scripts/.venv"@
            } else {
                "python3 -m venv scripts/.venv"@
            },
        ),
    }
}

/// The environment-present check, over the resolved environment directory.
pub fn check_venv_present(dir: &Option<String>, p: Platform) -> (r: DepCheck)
    ensures
        dep_views(r) == spec_venv_present(crate::text::str_opt_view(*dir), p),
{
    match dir {
        Some(d) => DepCheck {
            ok: true,
            label: String::from_str("Virtual environment found"),
            detail: d.clone(),
            fix_hint: String::new(),
        },
        None => DepCheck {
            ok: false,
            label: String::from_str("Virtual environment not found"),
            detail: String::from_str("No .venv directory found in scripts/"),
            fix_hint: if p.hides_console() {
                String::from_str("python -m venv scripts/.venv")
            } else {
                String::from_str("python3 -m venv scripts/.venv")
            },
        },
    }
}

/// The import probe run with the resolved environment interpreter: a
/// single script that imports every required package.
pub fn packages_import_command(python: &String) -> (r: CmdRequest)
    ensures
        req_is(
            r,
            python@,
            seq!["-c"@, "import kittentts; import flask; import soundfile; import numpy"@],
        ),
{
    let mut args: Vec<String> = Vec::new();
    args.push(String::from_str("-c"));
    args.push(String::from_str("import kittentts; import flask; import soundfile; import numpy"));
    let r = CmdRequest { program: python.clone(), args };
    proof {
        assert(crate::text::str_views(r.args@) =~= seq![
            "-c"@,
            "import kittentts; import flask; import soundfile; import numpy"@,
        ]);
    }
    r
}

/// What the packages check reports when no environment interpreter
/// resolved at all: the import probe cannot even run.
pub fn packages_missing_venv() -> (r: DepCheck)
    ensures
        dep_views(r) == (
            false,
            "Packages not installed"@,
            "Virtual environment not found - create it first"@,
            "Create venv, then install packages"@,
        ),
{
    DepCheck {
        ok: false,
        label: String::from_str("Packages not installed"),
        detail: String::from_str("Virtual environment not found - create it first"),
        fix_hint: String::from_str("Create venv, then install packages"),
    }
}

/// The first required package whose name occurs in the import probe's
/// diagnostic text, scanned in a fixed priority order; a generic label
/// when none matches.
pub open spec fn spec_missing_package(stderr: Seq<char>) -> Seq<char> {
    if has_sub(stderr, "kittentts"@) {
        "kittentts"@
    } else if has_sub(stderr, "flask"@) {
        "flask"@
    } else if has_sub(stderr, "soundfile"@) {
        "soundfile"@
    } else if has_sub(stderr, "numpy"@) {
        "numpy"@
    } else {
        "some packages"@
    }
}

fn missing_package(stderr: &str) -> (r: &'static str)
    ensures
        r@ == spec_missing_package(stderr@),
{
    if contains_sub(stderr, "kittentts") {
        "kittentts"
    } else if contains_sub(stderr, "flask") {
        "flask"
    } else if contains_sub(stderr, "soundfile") {
        "soundfile"
    } else if contains_sub(stderr, "numpy") {
        "numpy"
    } else {
        "some packages"
    }
}

/// What the packages-importable check reports for an import-probe outcome.
pub open spec fn spec_packages_check(o: Option<CmdOutcome>) -> (
    bool,
    Seq<char>,
    Seq<char>,
    Seq<char>,
) {
    match o {
        Option::Some(out) => {
            if out.success {
                (
                    true,
                    "Python packages installed"@,
                    "kittentts, flask, soundfile, numpy"@,
                    Seq::empty(),
                )
            } else {
                (
                    false,
                    "Missing: "@ + spec_missing_package(out.stderr@),
                    if out.stderr@.len() == 0 {
                        "Import failed"@
                    } else {
                        first_line_of(out.stderr@)
                    },
                    "pip install kittentts flask soundfile numpy"@,
                )
            }
        },
        Option::None => (
            false,
            "Could not check packages"@,
            "Failed to run venv Python"@,
            "Recreate the virtual environment"@,
        ),
    }
}

/// Classifies the outcome of the import probe.
pub fn classify_packages(o: &Option<CmdOutcome>) -> (r: DepCheck)
    ensures
        dep_views(r) == spec_packages_check(*o),
{
    match o {
        Some(out) if out.success => DepCheck {
            ok: true,
            label: String::from_str("Python packages installed"),
            detail: String::from_str("kittentts, flask, soundfile, numpy"),
            fix_hint: String::new(),
        },
        Some(out) => DepCheck {
            ok: false,
            label: concat2("Missing: ", missing_package(out.stderr.as_str())),
            detail: if out.stderr.as_str().unicode_len() == 0 {
                String::from_str("Import failed")
            } else {
                first_line(out.stderr.as_str())
            },
            fix_hint: String::from_str("pip install kittentts flask soundfile numpy"),
        },
        None => DepCheck {
            ok: false,
            label: String::from_str("Could not check packages"),
            detail: String::from_str("Failed to run venv Python"),
            fix_hint: String::from_str("Recreate the virtual environment"),
        },
    }
}

/// What the script-present check reports: present exactly when a server
/// script resolved.
pub open spec fn spec_script_present(script: Option<Seq<char>>) -> (
    bool,
    Seq<char>,
    Seq<char>,
    Seq<char>,
) {
    match script {
        Option::Some(path) => (true, "Server script found"@, path, Seq::empty()),
        Option::None => (
            false,
            "Server script not found"@,
            "kittentts-server.py not found in expected locations"@,
            "Reinstall the application"@,
        ),
    }
}

/// The script-present check, over the resolved script path.
pub fn check_script_present(script: &Option<String>) -> (r: DepCheck)
    ensures
        dep_views(r) == spec_script_present(crate::text::str_opt_view(*script)),
{
    match script {
        Some(path) => DepCheck {
            ok: true,
            label: String::from_str("Server script found"),
            detail: path.clone(),
            fix_hint: String::new(),
        },
        None => DepCheck {
            ok: false,
            label: String::from_str("Server script not found"),
            detail: String::from_str("kittentts-server.py not found in expected locations"),
            fix_hint: String::from_str("Reinstall the application"),
        },
    }
}

/// Law: every dependency check is a pure function of its probe outcome
/// (and the fixed platform), so for a fixed environment state repeated
/// checks return identical results — `ok` cannot flip without an
/// environment change.  And in the environment where every tool is absent
/// (no probe could run, no path resolved), every check reports `ok ==
/// false` together with a non-empty remediation hint.
pub proof fn lemma_absent_checks_fail(p: Platform)
    ensures
        !spec_docker_installed(Option::None, p).0,
        spec_docker_installed(Option::None, p).3.len() > 0,
        !spec_docker_running(Option::None, p).0,
        spec_docker_running(Option::None, p).3.len() > 0,
        !spec_opentts_image(Option::None).0,
        spec_opentts_image(Option::None).3.len() > 0,
        !spec_python_installed(Option::None, p).0,
        spec_python_installed(Option::None, p).3.len() > 0,
        !spec_venv_present(Option::None, p).0,
        spec_venv_present(Option::None, p).3.len() > 0,
        !spec_packages_check(Option::None).0,
        spec_packages_check(Option::None).3.len() > 0,
        !spec_script_present(Option::None).0,
        spec_script_present(Option::None).3.len() > 0,
{
    reveal_strlit("Install Docker Desktop from docker.com");
    reveal_strlit("sudo apt install docker.io && sudo usermod -aG docker $USER");
    reveal_strlit("Start Docker Desktop from the Start menu");
    reveal_strlit("sudo systemctl start docker");
    reveal_strlit("docker pull synesthesiam/opentts:en");
    reveal_strlit("Install Python from python.org");
    reveal_strlit("sudo apt install python3 python3-venv");
    reveal_strlit("python -m venv scripts/.venv");
    reveal_strlit("python3 -m venv scripts/.venv");
    reveal_strlit("Recreate the virtual environment");
    reveal_strlit("Reinstall the application");
}

} // verus!
