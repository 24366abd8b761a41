//! The spawned backend's supervisor.  [`TtsServerState`] is the sole
//! authoritative record of whether the spawned server is running; the
//! embedding program must hold it behind exclusive access (a lock) so a
//! start and a stop can never interleave.  The decisions — return early
//! when the recorded process is alive, clear a stale record, pick the
//! launch command, record a spawn, take the record on stop — are verified
//! here; probing, spawning and killing are the embedding program's work.

use vstd::prelude::*;
use crate::command::{req_is, CmdOutcome, CmdRequest};
use crate::paths::ResolvedPaths;
use crate::platform::Platform;
use crate::text::{
    concat2,
    contains_sub,
    dec_digits,
    ends_with,
    ends_with_sub,
    has_sub,
    str_opt_view,
    str_views,
    u32_to_dec,
};

verus! {

/// The record of the spawned backend: the identifier of the running
/// process, or nothing.  An absent identifier does not guarantee that no
/// server is running (one may have been started out of band or survive
/// from a prior run); stop therefore has a best-effort port fallback.
#[derive(Debug)]
pub struct TtsServerState {
    pub kittentts_pid: Option<u32>,
}

/// The start gate's transition: with a recorded identifier whose process
/// is alive, report already-running and change nothing; with a stale
/// record, clear it and proceed; with no record, proceed.
pub open spec fn spec_start_gate(s: TtsServerState, alive: bool) -> (TtsServerState, bool) {
    match s.kittentts_pid {
        Option::Some(_) => {
            if alive {
                (s, true)
            } else {
                (TtsServerState { kittentts_pid: Option::None }, false)
            }
        },
        Option::None => (s, false),
    }
}

/// Applies the start gate.  `alive` is the liveness probe's verdict for
/// the recorded process; it is ignored when nothing is recorded.
/// Returns whether the backend is already running, in which case the
/// caller spawns nothing.
pub fn start_gate(s: &mut TtsServerState, alive: bool) -> (already: bool)
    ensures
        (*final(s), already) == spec_start_gate(*old(s), alive),
{
    match s.kittentts_pid {
        Some(_) => {
            if alive {
                true
            } else {
                s.kittentts_pid = None;
                false
            }
        },
        None => false,
    }
}

/// The record after a successful spawn of process `pid`.
pub open spec fn spec_record_ok(pid: u32) -> TtsServerState {
    TtsServerState { kittentts_pid: Option::Some(pid) }
}

/// Records the spawn attempt's result: a new process identifier is
/// recorded and "started" reported; a spawn failure leaves the record
/// untouched and surfaces the I/O error.
pub fn record_spawn(s: &mut TtsServerState, spawn: Result<u32, String>) -> (r: Result<
    String,
    String,
>)
    ensures
        match spawn {
            Result::Ok(pid) => *final(s) == spec_record_ok(pid) && (r matches Ok(m) && m@
                == "started"@),
            Result::Err(e) => *final(s) == *old(s) && (r matches Err(m) && m@
                == "Failed to start KittenTTS: "@ + e@),
        },
{
    match spawn {
        Ok(pid) => {
            s.kittentts_pid = Some(pid);
            Ok(String::from_str("started"))
        },
        Err(e) => Err(concat2("Failed to start KittenTTS: ", e.as_str())),
    }
}

/// Law: start is idempotent.  After a successful spawn is recorded, a
/// second start that finds the recorded process alive reports
/// already-running and leaves the record exactly as it was — so two
/// starts in succession without an intervening stop spawn exactly one
/// process.
pub proof fn lemma_start_idempotent(pid: u32)
    ensures
        spec_start_gate(spec_record_ok(pid), true) == (spec_record_ok(pid), true),
{
}

/// The environment variable through which the spawned server is pointed
/// at the bundled model cache, so it can find model weights without
/// network access.
pub fn models_env_var() -> (r: &'static str)
    ensures
        r@ == "HF_HOME"@,
{
    "HF_HOME"
}

/// How to launch the spawned backend: the program and its arguments, the
/// model cache directory to export (under [`models_env_var`]) when one
/// resolved, and whether to request window suppression at spawn time.
/// The child's output streams are to be discarded.
#[derive(Debug)]
pub struct LaunchPlan {
    pub program: String,
    pub args: Vec<String>,
    pub models_dir: Option<String>,
    pub hide_console: bool,
}

/// The worker-count arguments: present exactly when a positive count was
/// supplied.
pub open spec fn spec_threads_args(threads: Option<u32>) -> Seq<Seq<char>> {
    match threads {
        Option::Some(t) => {
            if t > 0 {
                seq!["--threads"@, dec_digits(t as nat)]
            } else {
                Seq::empty()
            }
        },
        Option::None => Seq::empty(),
    }
}

/// Decides the launch command for the spawned backend.  Fails exactly
/// when no server script resolved.  A pre-built executable (found only on
/// the platform that ships one) is run directly; otherwise the resolved
/// environment interpreter — or, as a fallback, the platform's bare
/// interpreter — runs the script.  A positive worker count is passed
/// along; the resolved model cache is exported to the child.
pub fn build_launch_plan(paths: &ResolvedPaths, threads: Option<u32>, p: Platform) -> (r: Result<
    LaunchPlan,
    String,
>)
    ensures
        paths.script is None ==> (r matches Err(m) && m@ == "KittenTTS server script not found"@),
        paths.script matches Some(script) ==> (r matches Ok(plan) && {
            let exe = p.is_windows() && ends_with(script@, ".exe"@);
            &&& plan.program@ == (if exe {
                script@
            } else {
                match paths.python {
                    Option::Some(py) => py@,
                    Option::None => p.spec_python_command(),
                }
            })
            &&& str_views(plan.args@) == (if exe {
                Seq::<Seq<char>>::empty()
            } else {
                seq![script@]
            }) + spec_threads_args(threads)
            &&& str_opt_view(plan.models_dir) == str_opt_view(paths.models_dir)
            &&& plan.hide_console == p.spec_hides_console()
        }),
{
    let script: &String = match &paths.script {
        Some(script) => script,
        None => {
            return Err(String::from_str("KittenTTS server script not found"));
        },
    };
    let is_exe = p.hides_console() && ends_with_sub(script.as_str(), ".exe");
    let mut args: Vec<String> = Vec::new();
    let program: String = if is_exe {
        script.clone()
    } else {
        args.push(script.clone());
        match &paths.python {
            Some(py) => py.clone(),
            None => String::from_str(p.python_command()),
        }
    };
    let ghost base_args: Seq<Seq<char>> = str_views(args@);
    proof {
        if is_exe {
            assert(base_args =~= Seq::<Seq<char>>::empty());
        } else {
            assert(base_args =~= seq![script@]);
        }
    }
    match threads {
        Some(t) => {
            if t > 0 {
                args.push(String::from_str("--threads"));
                args.push(u32_to_dec(t));
            }
        },
        None => {},
    }
    proof {
        assert(str_views(args@) =~= base_args + spec_threads_args(threads));
    }
    let models_dir: Option<String> = match &paths.models_dir {
        Some(m) => Some(m.clone()),
        None => None,
    };
    Ok(LaunchPlan { program, args, models_dir, hide_console: p.hides_console() })
}

/// What stop does beside clearing the record: kill the recorded process,
/// or — when nothing was recorded — fall back to killing by the
/// backend's well-known port on the platform that has the tool, or do
/// nothing at all.
#[derive(Debug)]
pub enum StopAction {
    KillPid(u32),
    KillByPort,
    Nothing,
}

/// The stop transition: the record is always cleared, the recorded
/// process (if any) is the one to kill, and without a record the
/// port-based fallback applies where available.
pub open spec fn spec_stop(s: TtsServerState, p: Platform) -> (TtsServerState, StopAction) {
    match s.kittentts_pid {
        Option::Some(pid) => (
            TtsServerState { kittentts_pid: Option::None },
            StopAction::KillPid(pid),
        ),
        Option::None => (
            s,
            if p.spec_has_port_kill() {
                StopAction::KillByPort
            } else {
                StopAction::Nothing
            },
        ),
    }
}

/// Applies the stop transition.  Stop cannot fail: whatever is recorded,
/// the record is cleared, the action is best-effort for the embedding
/// program (a failed kill is indistinguishable from "already dead" and is
/// swallowed), and the reported status is always "stopped" — "nothing to
/// stop" is not an error.
pub fn subprocess_stop(s: &mut TtsServerState, p: Platform) -> (r: (StopAction, String))
    ensures
        (*final(s), r.0) == spec_stop(*old(s), p),
        final(s).kittentts_pid is None,
        r.1@ == "stopped"@,
{
    let action = match s.kittentts_pid {
        Some(pid) => {
            s.kittentts_pid = None;
            StopAction::KillPid(pid)
        },
        None => {
            if p.has_port_kill() {
                StopAction::KillByPort
            } else {
                StopAction::Nothing
            }
        },
    };
    (action, String::from_str("stopped"))
}

/// The port-based fallback termination command: asks the shell for the
/// well-known service port's owner to be killed, errors discarded.
pub fn port_kill_command() -> (r: CmdRequest)
    ensures
        req_is(r, "sh"@, seq!["-c"@, "fuser -k 8192/tcp 2>/dev/null"@]),
{
    let mut args: Vec<String> = Vec::new();
    args.push(String::from_str("-c"));
    args.push(String::from_str("fuser -k 8192/tcp 2>/dev/null"));
    let r = CmdRequest { program: String::from_str("sh"), args };
    proof {
        assert(str_views(r.args@) =~= seq!["-c"@, "fuser -k 8192/tcp 2>/dev/null"@]);
    }
    r
}

/// The liveness probe for a recorded process: signal zero where signals
/// exist, a process-list query filtered to the identifier elsewhere.
pub fn alive_probe_command(pid: u32, p: Platform) -> (r: CmdRequest)
    ensures
        p.is_windows() ==> req_is(
            r,
            "tasklist"@,
            seq!["/FI"@, "PID eq "@ + dec_digits(pid as nat), "/NH"@],
        ),
        !p.is_windows() ==> req_is(r, "kill"@, seq!["-0"@, dec_digits(pid as nat)]),
{
    if p.hides_console() {
        let mut args: Vec<String> = Vec::new();
        args.push(String::from_str("/FI"));
        let filter = concat2("PID eq ", u32_to_dec(pid).as_str());
        args.push(filter);
        args.push(String::from_str("/NH"));
        let r = CmdRequest { program: String::from_str("tasklist"), args };
        proof {
            assert(str_views(r.args@) =~= seq![
                "/FI"@,
                "PID eq "@ + dec_digits(pid as nat),
                "/NH"@,
            ]);
        }
        r
    } else {
        let mut args: Vec<String> = Vec::new();
        args.push(String::from_str("-0"));
        args.push(u32_to_dec(pid));
        let r = CmdRequest { program: String::from_str("kill"), args };
        proof {
            assert(str_views(r.args@) =~= seq!["-0"@, dec_digits(pid as nat)]);
        }
        r
    }
}

/// The liveness verdict for the probe's outcome: where signals exist,
/// alive exactly when the probe ran and exited zero; on the process-list
/// platform, alive exactly when the listing ran and its output mentions
/// the identifier.  A probe that could not run counts as not alive.
pub fn classify_alive(o: &Option<CmdOutcome>, pid: u32, p: Platform) -> (r: bool)
    ensures
        p.is_windows() ==> r == (o matches Some(out) && has_sub(
            out.stdout@,
            dec_digits(pid as nat),
        )),
        !p.is_windows() ==> r == (o matches Some(out) && out.success),
{
    if p.hides_console() {
        match o {
            Some(out) => contains_sub(out.stdout.as_str(), u32_to_dec(pid).as_str()),
            None => false,
        }
    } else {
        match o {
            Some(out) => out.success,
            None => false,
        }
    }
}

/// The forceful termination request for a process identifier: on every
/// platform the request is the forced form — the process-list platform's
/// force flag, and the non-catchable kill signal where signals exist.
pub fn kill_command(pid: u32, p: Platform) -> (r: CmdRequest)
    ensures
        p.is_windows() ==> req_is(
            r,
            "taskkill"@,
            seq!["/F"@, "/PID"@, dec_digits(pid as nat)],
        ),
        !p.is_windows() ==> req_is(r, "kill"@, seq!["-9"@, dec_digits(pid as nat)]),
{
    if p.hides_console() {
        let mut args: Vec<String> = Vec::new();
        args.push(String::from_str("/F"));
        args.push(String::from_str("/PID"));
        args.push(u32_to_dec(pid));
        let r = CmdRequest { program: String::from_str("taskkill"), args };
        proof {
            assert(str_views(r.args@) =~= seq!["/F"@, "/PID"@, dec_digits(pid as nat)]);
        }
        r
    } else {
        let mut args: Vec<String> = Vec::new();
        args.push(String::from_str("-9"));
        args.push(u32_to_dec(pid));
        let r = CmdRequest { program: String::from_str("kill"), args };
        proof {
            assert(str_views(r.args@) =~= seq!["-9"@, dec_digits(pid as nat)]);
        }
        r
    }
}

} // verus!
