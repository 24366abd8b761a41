//! The container backend's supervisor.  The container carries no
//! in-process record: its state is queried live from the runtime on every
//! operation.  Start tolerates "never created" and "already created but
//! stopped" by a fixed two-step procedure — try to start the existing
//! container by name, and only if that fails, create and run a new one,
//! exactly once.  Stop is a single runtime command.

use vstd::prelude::*;
use crate::command::{req_is, CmdOutcome, CmdRequest};
use crate::text::{concat2, str_views, trimmed, trimmed_of};

verus! {

/// Where the start procedure stands: about to try starting the existing
/// container, about to create and run a new one, or finished with the
/// result the caller sees.
#[derive(Debug)]
pub enum ContainerStartPhase {
    TryStart,
    TryRun,
    Done(Result<String, String>),
}

/// The phase at view level, for contracts and laws.
pub enum StartPhaseView {
    TryStart,
    TryRun,
    DoneOk(Seq<char>),
    DoneErr(Seq<char>),
}

pub open spec fn phase_view(p: ContainerStartPhase) -> StartPhaseView {
    match p {
        ContainerStartPhase::TryStart => StartPhaseView::TryStart,
        ContainerStartPhase::TryRun => StartPhaseView::TryRun,
        ContainerStartPhase::Done(Result::Ok(m)) => StartPhaseView::DoneOk(m@),
        ContainerStartPhase::Done(Result::Err(m)) => StartPhaseView::DoneErr(m@),
    }
}

/// One step of the start procedure.  From `TryStart`: a command that ran
/// and exited zero finishes with "started"; one that ran and failed moves
/// on to create-and-run; a command that could not run at all finishes
/// with the spawn error.  From `TryRun`: zero exit finishes with
/// "started", nonzero finishes with the runtime's trimmed diagnostic, a
/// spawn failure with the spawn error.
pub open spec fn spec_container_step(ph: StartPhaseView, run: Result<CmdOutcome, String>) -> StartPhaseView {
    match ph {
        StartPhaseView::TryStart => match run {
            Result::Ok(out) => {
                if out.success {
                    StartPhaseView::DoneOk("started"@)
                } else {
                    StartPhaseView::TryRun
                }
            },
            Result::Err(e) => StartPhaseView::DoneErr("Failed to run docker: "@ + e@),
        },
        StartPhaseView::TryRun => match run {
            Result::Ok(out) => {
                if out.success {
                    StartPhaseView::DoneOk("started"@)
                } else {
                    StartPhaseView::DoneErr(trimmed_of(out.stderr@))
                }
            },
            Result::Err(e) => StartPhaseView::DoneErr("Failed to run docker: "@ + e@),
        },
        _ => ph,
    }
}

/// The command the current phase asks the embedding program to run, or
/// nothing when the procedure is finished.
pub fn container_start_action(ph: &ContainerStartPhase) -> (r: Option<CmdRequest>)
    ensures
        ph is TryStart ==> (r matches Some(c) && req_is(c, "docker"@, seq!["start"@, "opentts"@])),
        ph is TryRun ==> (r matches Some(c) && req_is(
            c,
            "docker"@,
            seq!["run"@, "-d"@, "--name"@, "opentts"@, "-p"@, "5500:5500"@, "synesthesiam/opentts:en"@],
        )),
        ph is Done ==> r is None,
{
    match ph {
        ContainerStartPhase::TryStart => {
            let mut args: Vec<String> = Vec::new();
            args.push(String::from_str("start"));
            args.push(String::from_str("opentts"));
            let c = CmdRequest { program: String::from_str("docker"), args };
            proof {
                assert(str_views(c.args@) =~= seq!["start"@, "opentts"@]);
            }
            Some(c)
        },
        ContainerStartPhase::TryRun => {
            let mut args: Vec<String> = Vec::new();
            args.push(String::from_str("run"));
            args.push(String::from_str("-d"));
            args.push(String::from_str("--name"));
            args.push(String::from_str("opentts"));
            args.push(String::from_str("-p"));
            args.push(String::from_str("5500:5500"));
            args.push(String::from_str("synesthesiam/opentts:en"));
            let c = CmdRequest { program: String::from_str("docker"), args };
            proof {
                assert(str_views(c.args@) =~= seq![
                    "run"@,
                    "-d"@,
                    "--name"@,
                    "opentts"@,
                    "-p"@,
                    "5500:5500"@,
                    "synesthesiam/opentts:en"@,
                ]);
            }
            Some(c)
        },
        ContainerStartPhase::Done(_) => None,
    }
}

/// Advances the start procedure by one step, given how the phase's
/// command went.
pub fn container_start_step(ph: ContainerStartPhase, run: Result<CmdOutcome, String>) -> (r:
    ContainerStartPhase)
    requires
        !(ph is Done),
    ensures
        phase_view(r) == spec_container_step(phase_view(ph), run),
{
    match ph {
        ContainerStartPhase::TryStart => match run {
            Ok(out) => {
                if out.success {
                    ContainerStartPhase::Done(Ok(String::from_str("started")))
                } else {
                    ContainerStartPhase::TryRun
                }
            },
            Err(e) => ContainerStartPhase::Done(
                Err(concat2("Failed to run docker: ", e.as_str())),
            ),
        },
        _ => match run {
            Ok(out) => {
                if out.success {
                    ContainerStartPhase::Done(Ok(String::from_str("started")))
                } else {
                    ContainerStartPhase::Done(Err(trimmed(out.stderr.as_str())))
                }
            },
            Err(e) => ContainerStartPhase::Done(
                Err(concat2("Failed to run docker: ", e.as_str())),
            ),
        },
    }
}

/// Law: the start procedure attempts "create and run" exactly once when
/// "start existing" ran and failed, and never otherwise.  One step from
/// `TryStart` either finishes or moves to `TryRun`, and one step from
/// `TryRun` always finishes — so no trace of the procedure observes a
/// second create-and-run attempt, or more than two runtime commands.
pub proof fn lemma_container_start_two_steps(
    r1: Result<CmdOutcome, String>,
    r2: Result<CmdOutcome, String>,
)
    ensures
        spec_container_step(StartPhaseView::TryStart, r1) is TryRun <==> (r1 matches Result::Ok(o)
            && !o.success),
        spec_container_step(StartPhaseView::TryStart, r1) is DoneOk || spec_container_step(
            StartPhaseView::TryStart,
            r1,
        ) is DoneErr || spec_container_step(StartPhaseView::TryStart, r1) is TryRun,
        spec_container_step(StartPhaseView::TryRun, r2) is DoneOk || spec_container_step(
            StartPhaseView::TryRun,
            r2,
        ) is DoneErr,
{
}

/// The stop command for the fixed container name.
pub fn container_stop_command() -> (r: CmdRequest)
    ensures
        req_is(r, "docker"@, seq!["stop"@, "opentts"@]),
{
    let mut args: Vec<String> = Vec::new();
    args.push(String::from_str("stop"));
    args.push(String::from_str("opentts"));
    let r = CmdRequest { program: String::from_str("docker"), args };
    proof {
        assert(str_views(r.args@) =~= seq!["stop"@, "opentts"@]);
    }
    r
}

/// Classifies the stop command's outcome: success exactly on exit code
/// zero, otherwise the runtime's trimmed diagnostic text.
pub fn classify_container_stop(run: &Result<CmdOutcome, String>) -> (r: Result<String, String>)
    ensures
        match *run {
            Result::Ok(out) => {
                if out.success {
                    r matches Ok(m) && m@ == "stopped"@
                } else {
                    r matches Err(m) && m@ == trimmed_of(out.stderr@)
                }
            },
            Result::Err(e) => r matches Err(m) && m@ == "Failed to run docker: "@ + e@,
        },
{
    match run {
        Ok(out) => {
            if out.success {
                Ok(String::from_str("stopped"))
            } else {
                Err(trimmed(out.stderr.as_str()))
            }
        },
        Err(e) => Err(concat2("Failed to run docker: ", e.as_str())),
    }
}

} // verus!
