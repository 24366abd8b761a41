//! Provisioning actions, invoked on demand by the user, never
//! automatically: creating the virtual environment and installing the
//! fixed package set, and pulling the container image.  The commands are
//! decided and the outcomes classified here; the embedding program runs
//! them and reports back.

use vstd::prelude::*;
use crate::command::{req_is, CmdOutcome, CmdRequest};
use crate::platform::Platform;
use crate::text::{
    concat2,
    first_line,
    first_line_of,
    str_opt_view,
    str_views,
    trimmed,
    trimmed_of,
};

verus! {

/// The directory the environment is provisioned in: the resolved
/// environment directory when one exists, else the system install root's
/// environment when the system scripts directory exists, else the
/// development fallback.
pub open spec fn spec_choose_venv_dir(resolved: Option<Seq<char>>, sys_scripts_exists: bool) -> Seq<
    char,
> {
    match resolved {
        Option::Some(d) => d,
        Option::None => {
            if sys_scripts_exists {
                "/usr/lib/en-parlant/scripts/.venv"@
            } else {
                "scripts/.venv"@
            }
        },
    }
}

/// Chooses the directory the environment is provisioned in, so its
/// existence can be probed before the plan is made.
pub fn choose_venv_dir(resolved: &Option<String>, sys_scripts_exists: bool) -> (r: String)
    ensures
        r@ == spec_choose_venv_dir(str_opt_view(*resolved), sys_scripts_exists),
{
    match resolved {
        Some(d) => d.clone(),
        None => {
            if sys_scripts_exists {
                String::from_str("/usr/lib/en-parlant/scripts/.venv")
            } else {
                String::from_str("scripts/.venv")
            }
        },
    }
}

/// The provisioning plan: which directory to use, the creation command to
/// run first when the directory does not exist yet (creation is a
/// precondition gate, skipped when the directory is already there), and
/// the package-installation command that follows.
#[derive(Debug)]
pub struct ProvisionPlan {
    pub venv_dir: String,
    pub create: Option<CmdRequest>,
    pub install: CmdRequest,
}

/// Decides the provisioning plan.  `sys_scripts_exists` reports whether
/// the system install's scripts directory exists; `venv_dir_exists`
/// whether the chosen environment directory itself already exists.
pub fn provision_plan(
    resolved: &Option<String>,
    sys_scripts_exists: bool,
    venv_dir_exists: bool,
    p: Platform,
) -> (r: ProvisionPlan)
    ensures
        r.venv_dir@ == spec_choose_venv_dir(str_opt_view(*resolved), sys_scripts_exists),
        venv_dir_exists ==> r.create is None,
        !venv_dir_exists ==> (r.create matches Some(c) && req_is(
            c,
            p.spec_python_command(),
            seq!["-m"@, "venv"@, r.venv_dir@],
        )),
        req_is(
            r.install,
            r.venv_dir@ + p.spec_venv_pip_rel(),
            seq!["install"@, "kittentts"@, "flask"@, "soundfile"@, "numpy"@],
        ),
{
    let venv_dir: String = match resolved {
        Some(d) => d.clone(),
        None => {
            if sys_scripts_exists {
                String::from_str("/usr/lib/en-parlant/scripts/.venv")
            } else {
                String::from_str("scripts/.venv")
            }
        },
    };
    let create: Option<CmdRequest> = if venv_dir_exists {
        None
    } else {
        let mut args: Vec<String> = Vec::new();
        args.push(String::from_str("-m"));
        args.push(String::from_str("venv"));
        args.push(venv_dir.clone());
        let c = CmdRequest { program: String::from_str(p.python_command()), args };
        proof {
            assert(str_views(c.args@) =~= seq!["-m"@, "venv"@, venv_dir@]);
        }
        Some(c)
    };
    let pip = concat2(venv_dir.as_str(), p.venv_pip_rel());
    let mut install_args: Vec<String> = Vec::new();
    install_args.push(String::from_str("install"));
    install_args.push(String::from_str("kittentts"));
    install_args.push(String::from_str("flask"));
    install_args.push(String::from_str("soundfile"));
    install_args.push(String::from_str("numpy"));
    let install = CmdRequest { program: pip, args: install_args };
    proof {
        assert(str_views(install.args@) =~= seq![
            "install"@,
            "kittentts"@,
            "flask"@,
            "soundfile"@,
            "numpy"@,
        ]);
    }
    ProvisionPlan { venv_dir, create, install }
}

/// The diagnostic detail a provisioning sub-step surfaces: the tool's
/// captured error stream truncated to its first line, trimmed.
pub open spec fn spec_step_detail(stderr: Seq<char>) -> Seq<char> {
    trimmed_of(first_line_of(stderr))
}

fn step_detail(stderr: &str) -> (r: String)
    ensures
        r@ == spec_step_detail(stderr@),
{
    let line = first_line(stderr);
    trimmed(line.as_str())
}

/// Classifies the environment-creation step.  A creation that could not
/// run or exited nonzero short-circuits provisioning with an error that
/// surfaces the tool's diagnostic: the spawn-failure text, or the error
/// stream truncated to its first line.
pub fn classify_venv_create(run: &Result<CmdOutcome, String>) -> (r: Result<(), String>)
    ensures
        match *run {
            Result::Ok(out) => {
                if out.success {
                    r is Ok
                } else {
                    r matches Err(m) && m@ == "Failed to create venv: "@ + spec_step_detail(
                        out.stderr@,
                    )
                }
            },
            Result::Err(e) => r matches Err(m) && m@ == "Failed to create venv: "@ + e@,
        },
{
    match run {
        Ok(out) => {
            if out.success {
                Ok(())
            } else {
                let t = step_detail(out.stderr.as_str());
                Err(concat2("Failed to create venv: ", t.as_str()))
            }
        },
        Err(e) => Err(concat2("Failed to create venv: ", e.as_str())),
    }
}

/// Classifies the package-installation step; a failure surfaces the
/// tool's error stream truncated to its first line.
pub fn classify_pip_install(run: &Result<CmdOutcome, String>) -> (r: Result<String, String>)
    ensures
        match *run {
            Result::Ok(out) => {
                if out.success {
                    r matches Ok(m) && m@ == "Packages installed successfully"@
                } else {
                    r matches Err(m) && m@ == "pip install failed: "@ + spec_step_detail(
                        out.stderr@,
                    )
                }
            },
            Result::Err(e) => r matches Err(m) && m@ == "Failed to run pip: "@ + e@,
        },
{
    match run {
        Ok(out) => {
            if out.success {
                Ok(String::from_str("Packages installed successfully"))
            } else {
                let t = step_detail(out.stderr.as_str());
                Err(concat2("pip install failed: ", t.as_str()))
            }
        },
        Err(e) => Err(concat2("Failed to run pip: ", e.as_str())),
    }
}

/// Where the provisioning procedure stands: about to create the
/// environment directory (carrying the creation command and the
/// installation command that follows), about to install the packages, or
/// finished with the result the caller sees.
#[derive(Debug)]
pub enum ProvisionPhase {
    Create(CmdRequest, CmdRequest),
    Install(CmdRequest),
    Done(Result<String, String>),
}

/// The phase at view level, for contracts and laws.
pub enum ProvisionPhaseView {
    Create,
    Install,
    DoneOk(Seq<char>),
    DoneErr(Seq<char>),
}

pub open spec fn provision_phase_view(p: ProvisionPhase) -> ProvisionPhaseView {
    match p {
        ProvisionPhase::Create(_, _) => ProvisionPhaseView::Create,
        ProvisionPhase::Install(_) => ProvisionPhaseView::Install,
        ProvisionPhase::Done(Result::Ok(m)) => ProvisionPhaseView::DoneOk(m@),
        ProvisionPhase::Done(Result::Err(m)) => ProvisionPhaseView::DoneErr(m@),
    }
}

/// One step of the provisioning procedure.  From `Create`: a creation
/// that ran and exited zero moves on to installation; any creation
/// failure finishes the procedure with the creation error — installation
/// is never attempted after a failed creation.  From `Install`: the
/// procedure finishes with the installation's result.
pub open spec fn spec_provision_step(
    ph: ProvisionPhaseView,
    run: Result<CmdOutcome, String>,
) -> ProvisionPhaseView {
    match ph {
        ProvisionPhaseView::Create => match run {
            Result::Ok(out) => {
                if out.success {
                    ProvisionPhaseView::Install
                } else {
                    ProvisionPhaseView::DoneErr(
                        "Failed to create venv: "@ + spec_step_detail(out.stderr@),
                    )
                }
            },
            Result::Err(e) => ProvisionPhaseView::DoneErr("Failed to create venv: "@ + e@),
        },
        ProvisionPhaseView::Install => match run {
            Result::Ok(out) => {
                if out.success {
                    ProvisionPhaseView::DoneOk("Packages installed successfully"@)
                } else {
                    ProvisionPhaseView::DoneErr(
                        "pip install failed: "@ + spec_step_detail(out.stderr@),
                    )
                }
            },
            Result::Err(e) => ProvisionPhaseView::DoneErr("Failed to run pip: "@ + e@),
        },
        _ => ph,
    }
}

/// Turns the plan into the procedure's first phase: creation when the
/// plan asks for it, else straight to installation.
pub fn provision_phases(plan: ProvisionPlan) -> (r: ProvisionPhase)
    ensures
        match plan.create {
            Option::Some(c) => r == ProvisionPhase::Create(c, plan.install),
            Option::None => r == ProvisionPhase::Install(plan.install),
        },
{
    match plan.create {
        Some(c) => ProvisionPhase::Create(c, plan.install),
        None => ProvisionPhase::Install(plan.install),
    }
}

/// The command the current phase asks the embedding program to run, or
/// nothing when the procedure is finished.
pub fn provision_action<'a>(phase: &'a ProvisionPhase) -> (r: Option<&'a CmdRequest>)
    ensures
        match *phase {
            ProvisionPhase::Create(c, _) => r matches Some(x) && *x == c,
            ProvisionPhase::Install(i) => r matches Some(x) && *x == i,
            ProvisionPhase::Done(_) => r is None,
        },
{
    match phase {
        ProvisionPhase::Create(c, _) => Some(c),
        ProvisionPhase::Install(i) => Some(i),
        ProvisionPhase::Done(_) => None,
    }
}

/// Advances the provisioning procedure by one step, given how the
/// phase's command went.  The installation command is carried through a
/// successful creation.
pub fn provision_step(phase: ProvisionPhase, run: Result<CmdOutcome, String>) -> (r:
    ProvisionPhase)
    requires
        !(phase is Done),
    ensures
        provision_phase_view(r) == spec_provision_step(provision_phase_view(phase), run),
        match phase {
            ProvisionPhase::Create(_, i) => r is Install ==> r == ProvisionPhase::Install(i),
            _ => true,
        },
{
    match phase {
        ProvisionPhase::Create(_, install) => match classify_venv_create(&run) {
            Ok(()) => ProvisionPhase::Install(install),
            Err(m) => ProvisionPhase::Done(Err(m)),
        },
        ProvisionPhase::Install(_) => ProvisionPhase::Done(classify_pip_install(&run)),
        ProvisionPhase::Done(d) => ProvisionPhase::Done(d),
    }
}

/// Law: provisioning is a strict two-step sequence.  Installation is
/// reached exactly when creation ran and exited zero; a failed creation
/// finishes the procedure at once with an error, so installation is
/// never attempted after it; and one step from `Install` always finishes
/// the procedure.
pub proof fn lemma_provision_short_circuit(
    r1: Result<CmdOutcome, String>,
    r2: Result<CmdOutcome, String>,
)
    ensures
        spec_provision_step(ProvisionPhaseView::Create, r1) is Install <==> (r1
            matches Result::Ok(o) && o.success),
        spec_provision_step(ProvisionPhaseView::Create, r1) is Install || spec_provision_step(
            ProvisionPhaseView::Create,
            r1,
        ) is DoneErr,
        spec_provision_step(ProvisionPhaseView::Install, r2) is DoneOk || spec_provision_step(
            ProvisionPhaseView::Install,
            r2,
        ) is DoneErr,
{
}

/// The image-pull command for the fixed image reference.
pub fn pull_image_command() -> (r: CmdRequest)
    ensures
        req_is(r, "docker"@, seq!["pull"@, "synesthesiam/opentts:en"@]),
{
    let mut args: Vec<String> = Vec::new();
    args.push(String::from_str("pull"));
    args.push(String::from_str("synesthesiam/opentts:en"));
    let r = CmdRequest { program: String::from_str("docker"), args };
    proof {
        assert(str_views(r.args@) =~= seq!["pull"@, "synesthesiam/opentts:en"@]);
    }
    r
}

/// Classifies the image pull: success exactly on exit code zero,
/// otherwise the tool's diagnostic text.
pub fn classify_pull_image(run: &Result<CmdOutcome, String>) -> (r: Result<String, String>)
    ensures
        match *run {
            Result::Ok(out) => {
                if out.success {
                    r matches Ok(m) && m@ == "Image pulled successfully"@
                } else {
                    r matches Err(m) && m@ == "docker pull failed: "@ + trimmed_of(out.stderr@)
                }
            },
            Result::Err(e) => r matches Err(m) && m@ == "Failed to run docker pull: "@ + e@,
        },
{
    match run {
        Ok(out) => {
            if out.success {
                Ok(String::from_str("Image pulled successfully"))
            } else {
                let t = trimmed(out.stderr.as_str());
                Err(concat2("docker pull failed: ", t.as_str()))
            }
        },
        Err(e) => Err(concat2("Failed to run docker pull: ", e.as_str())),
    }
}

} // verus!
