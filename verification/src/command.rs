//! The boundary between the supervisor's decisions and the operating
//! system: a decision is a [`CmdRequest`] naming one external program to
//! run; the embedding program runs it with both output streams captured and
//! reports back a [`CmdOutcome`].  The supervisor never runs anything
//! itself.

use vstd::prelude::*;
use crate::text::str_views;

verus! {

/// A request to run one external program: the program name or path and its
/// arguments, in order.  The child's standard streams are to be captured
/// (for probes) or discarded (for the spawned backend); nothing here is
/// passed through a shell except where the program itself is a shell.
#[derive(Debug)]
pub struct CmdRequest {
    pub program: String,
    pub args: Vec<String>,
}

/// What running an external program produced: whether it exited with
/// status zero, and its captured output streams decoded to text.  A request
/// that could not even be spawned (program absent, I/O error) has no
/// outcome at all and is reported as `None` by the embedding program.
#[derive(Debug)]
pub struct CmdOutcome {
    pub success: bool,
    pub stdout: String,
    pub stderr: String,
}

/// The request runs `program` with exactly the arguments `args`.
pub open spec fn req_is(r: CmdRequest, program: Seq<char>, args: Seq<Seq<char>>) -> bool {
    r.program@ == program && str_views(r.args@) == args
}

} // verus!
