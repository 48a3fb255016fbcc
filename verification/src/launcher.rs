//! The process supervisor's start/stop protocol.
//!
//! A launcher owns one command descriptor and a shared slot modelling the at
//! most one supervised process. `start` decides whether and what to spawn;
//! `keep_child` and `forget_child` are the slot's two transitions;
//! `plan_stop`, `kill_invocation` and `interpret_kill_status` make up the
//! termination path. The runtime around the library performs the actual
//! spawning, reading and waiting, and feeds the outcomes back in.

use crate::config::Program;
use crate::config::opt_view;
use crate::config::pairs_view;
use crate::config::substitute;
use crate::shell::effective_tokens;
use crate::shell::resolve_tokens;
use crate::shell::strings_view;
use crate::text::dec_rep;
use crate::text::u32_to_string;
use vstd::prelude::*;

verus! {

/// Why `start` refused or failed.
#[derive(Clone, Copy, Debug, PartialEq, Eq, Structural)]
pub enum StartError {
    /// The slot already holds a live process.
    AlreadyRunning,
    /// The command line resolves to zero tokens.
    EmptyCommand,
    /// The operating system could not create the process.
    SpawnFailed,
    /// Writing the configured stdin payload failed.
    StdinWriteFailed,
}

/// Why a synchronous `stop` failed.
#[derive(Clone, Copy, Debug, PartialEq, Eq, Structural)]
pub enum StopError {
    /// The interrupt-sending command exited with this non-zero code.
    TerminationFailed { code: i32 },
    /// The interrupt-sending command ended without an exit code.
    TerminationSignaled,
    /// Waiting for the target process to exit failed.
    WaitFailed,
}

/// The view of a command invocation.
pub struct InvocationV {
    pub program: Seq<char>,
    pub args: Seq<Seq<char>>,
}

/// A program name with its argument list, ready to run.
pub struct Invocation {
    pub program: String,
    pub args: Vec<String>,
}

impl View for Invocation {
    type V = InvocationV;

    open spec fn view(&self) -> InvocationV {
        InvocationV { program: self.program@, args: strings_view(self.args@) }
    }
}

/// The view of a spawn plan.
pub struct SpawnPlanV {
    pub program: Seq<char>,
    pub args: Seq<Seq<char>>,
    pub env: Seq<(Seq<char>, Seq<char>)>,
    pub stdin: Option<Seq<char>>,
}

/// Everything the runtime needs to spawn the supervised process: the program
/// and arguments, the environment overrides to merge over the inherited
/// environment, and the optional stdin payload to seed and close.
pub struct SpawnPlan {
    pub program: String,
    pub args: Vec<String>,
    pub env: Vec<(String, String)>,
    pub stdin: Option<String>,
}

impl View for SpawnPlan {
    type V = SpawnPlanV;

    open spec fn view(&self) -> SpawnPlanV {
        SpawnPlanV {
            program: self.program@,
            args: strings_view(self.args@),
            env: pairs_view(self.env@),
            stdin: opt_view(self.stdin),
        }
    }
}

/// What a stop request amounts to.
#[derive(Clone, Copy, Debug, PartialEq, Eq, Structural)]
pub enum StopPlan {
    /// Nothing is running: succeed without invoking the termination
    /// primitive.
    NoOp,
    /// Send the interrupt to this process, with or without elevation.
    Terminate { pid: u32, superuser: bool },
}

/// The view of a launcher: the resolved descriptor and the shared slot.
pub struct LauncherV {
    pub command: Seq<char>,
    pub superuser: bool,
    pub input: Option<Seq<char>>,
    pub env: Seq<(Seq<char>, Seq<char>)>,
    pub slot: Option<u32>,
}

/// Supervises at most one external process built from one descriptor.
///
/// The `slot` field models the shared slot that the runtime's background
/// tasks and stop paths agree on: it holds the supervised process id exactly
/// while a process is supervised.
pub struct Launcher {
    command: String,
    superuser: bool,
    input: Option<String>,
    env: Vec<(String, String)>,
    slot: Option<u32>,
}

impl View for Launcher {
    type V = LauncherV;

    closed spec fn view(&self) -> LauncherV {
        LauncherV {
            command: self.command@,
            superuser: self.superuser,
            input: opt_view(self.input),
            env: pairs_view(self.env@),
            slot: self.slot,
        }
    }
}

/// What `start` decides for a launcher in the given state: refuse when the
/// slot is occupied or the command line has no tokens, otherwise the spawn
/// plan — the elevation helper given the whole token list when elevation is
/// required, else the first token as the program and the rest as arguments.
pub open spec fn start_result(m: LauncherV) -> Result<SpawnPlanV, StartError> {
    if m.slot is Some {
        Err(StartError::AlreadyRunning)
    } else {
        let tokens = effective_tokens(m.command);
        if tokens.len() == 0 {
            Err(StartError::EmptyCommand)
        } else if m.superuser {
            Ok(
                SpawnPlanV {
                    program: "pkexec"@,
                    args: tokens,
                    env: m.env,
                    stdin: m.input,
                },
            )
        } else {
            Ok(
                SpawnPlanV {
                    program: tokens[0],
                    args: tokens.drop_first(),
                    env: m.env,
                    stdin: m.input,
                },
            )
        }
    }
}

/// What a stop request amounts to in the given state: a no-op with the slot
/// free, else an interrupt to the supervised process id.
pub open spec fn stop_plan_of(m: LauncherV) -> StopPlan {
    match m.slot {
        None => StopPlan::NoOp,
        Some(pid) => StopPlan::Terminate { pid, superuser: m.superuser },
    }
}

/// Copies a list of string pairs.
fn clone_pairs(pairs: &Vec<(String, String)>) -> (r: Vec<(String, String)>)
    ensures
        pairs_view(r@) == pairs_view(pairs@),
{
    let mut out: Vec<(String, String)> = Vec::new();
    let mut k: usize = 0;
    while k < pairs.len()
        invariant
            0 <= k <= pairs.len(),
            out@.len() == k,
            forall|i: int|
                0 <= i < k ==> #[trigger] out@[i].0@ == pairs@[i].0@ && out@[i].1@ == pairs@[i].1@,
        decreases pairs.len() - k,
    {
        out.push((pairs[k].0.clone(), pairs[k].1.clone()));
        k = k + 1;
    }
    proof {
        assert forall|i: int| 0 <= i < out@.len() implies #[trigger] pairs_view(out@)[i]
            == pairs_view(pairs@)[i] by {
            assert(pairs_view(out@)[i] == (out@[i].0@, out@[i].1@));
            assert(pairs_view(pairs@)[i] == (pairs@[i].0@, pairs@[i].1@));
        }
        assert(pairs_view(out@) =~= pairs_view(pairs@));
    }
    out
}

/// Copies an optional string.
fn clone_opt(o: &Option<String>) -> (r: Option<String>)
    ensures
        opt_view(r) == opt_view(*o),
{
    match o {
        Some(s) => Some(s.clone()),
        None => None,
    }
}

impl Launcher {
    /// Builds a launcher from a descriptor, with the slot free. The command
    /// line and stdin payload are taken with their placeholders substituted,
    /// and the privilege requirement comes from the descriptor.
    pub fn new(program: &Program) -> (r: Launcher)
        ensures
            r@.command == substitute(program@.command, program@.args),
            r@.superuser == program@.superuser,
            r@.input is Some <==> program@.input is Some,
            r@.input matches Some(inp) ==> program@.input matches Some(raw) && inp == substitute(
                raw,
                program@.args,
            ),
            r@.env == program@.env,
            r@.slot is None,
    {
        Launcher {
            command: program.get_command(),
            superuser: program.need_superuser(),
            input: program.get_input(),
            env: clone_pairs(program.get_env()),
            slot: None,
        }
    }

    /// Decides whether and what to spawn, without changing the state: the
    /// slot is only filled once the runtime reports the new process id
    /// through `keep_child`.
    pub fn start(&mut self) -> (r: Result<SpawnPlan, StartError>)
        ensures
            final(self)@ == old(self)@,
            match r {
                Ok(plan) => start_result(old(self)@) matches Ok(p) && plan@ == p,
                Err(e) => start_result(old(self)@) == Err::<SpawnPlanV, StartError>(e),
            },
    {
        if self.slot.is_some() {
            return Err(StartError::AlreadyRunning);
        }
        let tokens = resolve_tokens(&self.command);
        let ghost spec_tokens = effective_tokens(self.command@);
        if tokens.len() == 0 {
            proof {
                assert(spec_tokens.len() == 0);
            }
            return Err(StartError::EmptyCommand);
        }
        let env = clone_pairs(&self.env);
        let stdin = clone_opt(&self.input);
        if self.superuser {
            Ok(SpawnPlan { program: String::from_str("pkexec"), args: tokens, env, stdin })
        } else {
            let mut args = tokens;
            let program = args.remove(0);
            proof {
                assert(program@ == spec_tokens[0]);
                assert(strings_view(args@) =~= spec_tokens.drop_first());
            }
            Ok(SpawnPlan { program, args, env, stdin })
        }
    }

    /// Installs the newly spawned process id into the free slot.
    pub fn keep_child(&mut self, pid: u32)
        requires
            old(self)@.slot is None,
        ensures
            final(self)@ == (LauncherV { slot: Some(pid), ..old(self)@ }),
    {
        self.slot = Some(pid);
    }

    /// Clears the slot. Safe from either the poller's exit path or the
    /// synchronous stop path: clearing an already-empty slot changes
    /// nothing.
    pub fn forget_child(&mut self)
        ensures
            final(self)@ == (LauncherV { slot: None, ..old(self)@ }),
    {
        self.slot = None;
    }

    /// Whether a process is currently supervised: a snapshot of the slot,
    /// advisory under concurrent starts and stops.
    pub fn is_running(&self) -> (r: bool)
        ensures
            r == (self@.slot is Some),
    {
        self.slot.is_some()
    }

    /// Decides what a stop request amounts to in the current state.
    pub fn plan_stop(&self) -> (r: StopPlan)
        ensures
            r == stop_plan_of(self@),
    {
        match self.slot {
            None => StopPlan::NoOp,
            Some(pid) => StopPlan::Terminate { pid, superuser: self.superuser },
        }
    }

    /// Records the outcome of the synchronous stop path's blocking wait:
    /// on success the slot is cleared, on failure it is left as it was and
    /// the failure is surfaced.
    pub fn finish_wait(&mut self, wait_ok: bool) -> (r: Result<(), StopError>)
        ensures
            wait_ok ==> final(self)@ == (LauncherV { slot: None, ..old(self)@ }) && r is Ok,
            !wait_ok ==> final(self)@ == old(self)@ && r == Err::<(), StopError>(StopError::WaitFailed),
    {
        if wait_ok {
            self.slot = None;
            Ok(())
        } else {
            Err(StopError::WaitFailed)
        }
    }
}

/// The command that delivers the interrupt signal: directly against the
/// process id, or wrapped in the elevation helper when the process was
/// started with elevation.
pub fn kill_invocation(pid: u32, superuser: bool) -> (r: Invocation)
    ensures
        superuser ==> r@.program == "pkexec"@ && r@.args == seq!["kill"@, "-INT"@, dec_rep(
            pid as nat,
        )],
        !superuser ==> r@.program == "kill"@ && r@.args == seq!["-INT"@, dec_rep(pid as nat)],
{
    let pid_text = u32_to_string(pid);
    if superuser {
        let mut args: Vec<String> = Vec::new();
        args.push(String::from_str("kill"));
        args.push(String::from_str("-INT"));
        args.push(pid_text);
        proof {
            assert(strings_view(args@) =~= seq!["kill"@, "-INT"@, dec_rep(pid as nat)]);
        }
        Invocation { program: String::from_str("pkexec"), args }
    } else {
        let mut args: Vec<String> = Vec::new();
        args.push(String::from_str("-INT"));
        args.push(pid_text);
        proof {
            assert(strings_view(args@) =~= seq!["-INT"@, dec_rep(pid as nat)]);
        }
        Invocation { program: String::from_str("kill"), args }
    }
}

/// Reads the interrupt-sending command's own exit code: zero is success, any
/// other code fails with that code, and a command ended by a signal fails
/// without one.
pub fn interpret_kill_status(code: Option<i32>) -> (r: Result<(), StopError>)
    ensures
        r is Ok <==> code == Some(0i32),
        r == (match code {
            Some(0i32) => Ok(()),
            Some(c) => Err::<(), StopError>(StopError::TerminationFailed { code: c }),
            None => Err::<(), StopError>(StopError::TerminationSignaled),
        }),
{
    match code {
        Some(0) => Ok(()),
        Some(c) => Err(StopError::TerminationFailed { code: c }),
        None => Err(StopError::TerminationSignaled),
    }
}

/// With the slot free and a command line that resolves to zero tokens,
/// `start` fails with `EmptyCommand`; no spawn plan is produced, so no
/// process is spawned.
pub proof fn start_rejects_empty_command(m: LauncherV)
    requires
        m.slot is None,
        effective_tokens(m.command).len() == 0,
    ensures
        start_result(m) == Err::<SpawnPlanV, StartError>(StartError::EmptyCommand),
{
}

/// While a process is supervised, a second `start` fails with
/// `AlreadyRunning` and produces no spawn plan, whatever the command line;
/// `start` never changes the state, so the supervised process is untouched.
pub proof fn start_rejects_when_running(m: LauncherV)
    requires
        m.slot is Some,
    ensures
        start_result(m) == Err::<SpawnPlanV, StartError>(StartError::AlreadyRunning),
{
}

/// A stop request with nothing running amounts to a no-op: the termination
/// primitive is not invoked.
pub proof fn stop_without_process_is_noop(m: LauncherV)
    requires
        m.slot is None,
    ensures
        stop_plan_of(m) == StopPlan::NoOp,
{
}

} // verus!
