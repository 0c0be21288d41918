//! Benchmark executor: sequencing and outcome classification.
//!
//! Commands run strictly sequentially, each as a blocking child process.
//! Process creation, waiting, environment injection and the instrumentation
//! capability's start/stop/record calls are outside work performed by the
//! embedding program; the decisions stand here.  A spawn is prepared as a
//! `SpawnRequest` (argv plus the child-scoped environment), granted by the
//! `Run` sequencer, and the observed results are classified afterwards.
//! Every failure aborts the remaining commands: nothing is retried and no
//! later command is attempted once one has failed.

use crate::audit::audit;
use crate::audit::evidence;
use crate::audit::first_offender;
use crate::command::BenchmarkCommand;
use crate::command::NameAndUri;
use crate::command::generate_name_and_uri;
use crate::command::uri_spec;
use crate::compat::check_ld_preload_compatible;
use crate::compat::compat_verdict;
use crate::errors::RunError;
use vstd::prelude::*;

verus! {

/// One environment variable to set on the child process only; the parent
/// environment is never touched.
#[derive(Debug, Clone)]
pub struct EnvAssignment {
    pub key: String,
    pub value: String,
}

/// Everything the embedding program needs to spawn one benchmark process:
/// the argv, the child-scoped environment on top of the inherited one, and
/// the reportable identity of the execution.
#[derive(Debug, Clone)]
pub struct SpawnRequest {
    /// Program and arguments, exactly the command's own.
    pub argv: Vec<String>,
    /// Child-scoped environment assignments.
    pub env: Vec<EnvAssignment>,
    /// The execution's reportable name and identifier.
    pub id: NameAndUri,
}

/// How the attempt to spawn and wait on a benchmark process ended.
#[derive(Debug, Clone, Copy, PartialEq, Eq)]
pub enum SpawnOutcome {
    /// The operating system could not create the process.
    FailedToSpawn,
    /// The process ran to completion; `code` is its exit status, `None` when
    /// it was terminated by a signal.
    Exited { code: Option<i32> },
}

/// Prepares the spawn of one command in plain mode: the command's own argv,
/// no extra environment, and its derived identity.
pub fn prepare_plain(cmd: &BenchmarkCommand) -> (r: SpawnRequest)
    ensures
        r.argv@ == cmd.command@,
        r.env@.len() == 0,
        r.id.name@ == cmd.name@,
        r.id.uri@ == uri_spec(cmd.name@, cmd.command.deep_view()),
{
    let id = generate_name_and_uri(&cmd.name, &cmd.command);
    let argv = clone_argv(&cmd.command);
    SpawnRequest { argv, env: Vec::new(), id }
}

/// Copies an argv, element for element.
fn clone_argv(command: &Vec<String>) -> (r: Vec<String>)
    ensures
        r@ == command@,
{
    let mut argv: Vec<String> = Vec::new();
    let mut i: usize = 0;
    while i < command.len()
        invariant
            0 <= i <= command@.len(),
            argv@ =~= command@.take(i as int),
        decreases command@.len() - i,
    {
        argv.push(command[i].clone());
        assert(argv@ =~= command@.take(i + 1));
        i = i + 1;
    }
    assert(command@.take(command@.len() as int) =~= command@);
    argv
}

/// Prepares the spawn of one command in injected mode.
///
/// The target's executable image is inspected first; an incompatible target
/// is rejected here, before any process exists for it.  On success the
/// request carries exactly three child-scoped environment variables: the
/// preload path for the dynamic linker, the perf-map flag for interpreted
/// runtimes, and the execution's identifier for the instrumentation runtime
/// to correlate with.
pub fn prepare_injected(cmd: &BenchmarkCommand, preload_path: &String, exe_bytes: &Vec<u8>) -> (r:
    Result<SpawnRequest, RunError>)
    ensures
        (r is Ok) <==> (compat_verdict(exe_bytes@) is Ok),
        r matches Err(e) ==> (compat_verdict(exe_bytes@) matches Err(why) && e
            == RunError::IncompatibleTarget { reason: why }),
        r matches Ok(req) ==> {
            &&& req.argv@ == cmd.command@
            &&& req.id.name@ == cmd.name@
            &&& req.id.uri@ == uri_spec(cmd.name@, cmd.command.deep_view())
            &&& req.env@.len() == 3
            &&& req.env@[0].key@ == "LD_PRELOAD"@
            &&& req.env@[0].value@ == preload_path@
            &&& req.env@[1].key@ == "PYTHONPERFSUPPORT"@
            &&& req.env@[1].value@ == "1"@
            &&& req.env@[2].key@ == "CODSPEED_BENCH_URI"@
            &&& req.env@[2].value@ == uri_spec(cmd.name@, cmd.command.deep_view())
        },
{
    if let Err(why) = check_ld_preload_compatible(exe_bytes) {
        return Err(RunError::IncompatibleTarget { reason: why });
    }
    let id = generate_name_and_uri(&cmd.name, &cmd.command);
    let argv = clone_argv(&cmd.command);
    let mut env: Vec<EnvAssignment> = Vec::new();
    env.push(EnvAssignment { key: "LD_PRELOAD".to_owned(), value: preload_path.clone() });
    env.push(EnvAssignment { key: "PYTHONPERFSUPPORT".to_owned(), value: "1".to_owned() });
    env.push(EnvAssignment { key: "CODSPEED_BENCH_URI".to_owned(), value: id.uri.clone() });
    Ok(SpawnRequest { argv, env, id })
}

/// The verdict on one plain-mode execution, by the precedence the run
/// enforces: an instrumentation failure aborts first, then a failed spawn,
/// then a non-zero exit.
pub open spec fn plain_verdict(start_ok: bool, outcome: SpawnOutcome, stop_ok: bool) -> Result<
    (),
    RunError,
> {
    if !start_ok || !stop_ok {
        Err(RunError::InstrumentationFailure)
    } else {
        match outcome {
            SpawnOutcome::FailedToSpawn => Err(RunError::SpawnFailure),
            SpawnOutcome::Exited { code } => if code == Some(0i32) {
                Ok(())
            } else {
                Err(RunError::NonZeroExit { code })
            },
        }
    }
}

/// Classifies one plain-mode execution.  `start_ok` and `stop_ok` report
/// whether the instrumentation capability accepted the start and stop
/// notifications around the spawn; either failing is fatal.
pub fn classify_plain(start_ok: bool, outcome: &SpawnOutcome, stop_ok: bool) -> (r: Result<
    (),
    RunError,
>)
    ensures
        r == plain_verdict(start_ok, *outcome, stop_ok),
{
    if !start_ok || !stop_ok {
        return Err(RunError::InstrumentationFailure);
    }
    match outcome {
        SpawnOutcome::FailedToSpawn => Err(RunError::SpawnFailure),
        SpawnOutcome::Exited { code } => {
            match code {
                Some(c) => if *c == 0 {
                    Ok(())
                } else {
                    Err(RunError::NonZeroExit { code: Some(*c) })
                },
                None => Err(RunError::NonZeroExit { code: None }),
            }
        },
    }
}

/// Concludes one injected-mode execution after the process exited.
///
/// The subprocess audit runs first: evidence that the benchmark spawned
/// children under injection outweighs whatever the exit status says, since
/// the measurement is corrupt either way.  Only a clean audit lets the exit
/// status decide.  `listing` is the profile directory listing, `None` when
/// the profile-folder environment variable is unset (the audit then passes
/// unconditionally).
pub fn conclude_injected(pid: u32, code: Option<i32>, listing: Option<&Vec<String>>) -> (r: Result<
    (),
    RunError,
>)
    ensures
        (r is Ok) <==> (!(listing matches Some(l) && evidence(l.deep_view(), pid)) && code == Some(
            0i32,
        )),
        listing matches Some(l) ==> (evidence(l.deep_view(), pid) ==> (r matches Err(e)
            && e matches RunError::SubprocessDetected { evidence: ev } && ev.benchmark_pid == pid
            && first_offender(l.deep_view(), pid, ev.subprocess_pid))),
        listing matches Some(l) ==> ((!evidence(l.deep_view(), pid) && code != Some(0i32)) ==> r
            == Result::<(), RunError>::Err(RunError::NonZeroExit { code })),
        (listing is None && code != Some(0i32)) ==> r == Result::<(), RunError>::Err(
            RunError::NonZeroExit { code },
        ),
{
    match audit(listing, pid) {
        Err(ev) => Err(RunError::SubprocessDetected { evidence: ev }),
        Ok(()) => {
            match code {
                Some(c) => if c == 0 {
                    Ok(())
                } else {
                    Err(RunError::NonZeroExit { code: Some(c) })
                },
                None => Err(RunError::NonZeroExit { code: None }),
            }
        },
    }
}

/// Progress of one invocation over its command sequence.  Commands are
/// granted strictly in order; one spawn is outstanding at a time; the first
/// failure is permanent and stops all further grants.
#[derive(Debug, Clone, Copy, PartialEq, Eq, Structural)]
pub struct Run {
    /// How many commands the invocation holds.
    pub total: usize,
    /// How many commands have completed successfully.
    pub done: usize,
    /// Whether a granted spawn has not reported its outcome yet.
    pub pending: bool,
    /// Whether some command has failed.
    pub failed: bool,
}

/// The sequencer's invariant: completions never exceed the total, and a
/// spawn is outstanding only while nothing has failed and work remains.
pub open spec fn run_wf(r: Run) -> bool {
    r.done <= r.total && (r.pending ==> !r.failed && r.done < r.total)
}

/// True when the sequencer may grant the spawn of the next command: nothing
/// has failed, no spawn is outstanding, and commands remain.
pub open spec fn grant_allowed(r: Run) -> bool {
    !r.failed && !r.pending && r.done < r.total
}

/// The sequencer after a grant request: a spawn becomes outstanding when
/// allowed, nothing changes otherwise.
pub open spec fn grant_step(r: Run) -> Run {
    if grant_allowed(r) {
        Run { pending: true, ..r }
    } else {
        r
    }
}

/// The sequencer after an outcome report for the outstanding spawn: success
/// completes the command, failure is recorded permanently.  Without an
/// outstanding spawn there is nothing to report and nothing changes.
pub open spec fn report_step(r: Run, success: bool) -> Run {
    if !r.pending {
        r
    } else if success {
        Run { pending: false, done: (r.done + 1) as usize, ..r }
    } else {
        Run { pending: false, failed: true, ..r }
    }
}

impl Run {
    /// A fresh sequencer over `total` commands.
    pub fn new(total: usize) -> (r: Run)
        ensures
            r == (Run { total, done: 0, pending: false, failed: false }),
            run_wf(r),
    {
        Run { total, done: 0, pending: false, failed: false }
    }

    /// Requests permission to spawn the next command.  Granted exactly when
    /// `grant_allowed`; the index of the command to spawn is `done`.
    pub fn grant(&mut self) -> (g: bool)
        ensures
            g == grant_allowed(*old(self)),
            *final(self) == grant_step(*old(self)),
            run_wf(*old(self)) ==> run_wf(*final(self)),
    {
        if !self.failed && !self.pending && self.done < self.total {
            self.pending = true;
            true
        } else {
            false
        }
    }

    /// Reports how the outstanding spawn ended.
    pub fn report(&mut self, success: bool)
        requires
            run_wf(*old(self)),
        ensures
            *final(self) == report_step(*old(self), success),
            run_wf(*final(self)),
    {
        if self.pending {
            self.pending = false;
            if success {
                self.done = self.done + 1;
            } else {
                self.failed = true;
            }
        }
    }

    /// True when every command completed successfully.
    pub fn is_complete(&self) -> (b: bool)
        ensures
            b == (self.done == self.total && !self.failed),
    {
        self.done == self.total && !self.failed
    }
}

/// Once a command has failed, the failure is permanent: no later command is
/// ever granted a spawn, whatever grants and reports follow.  In particular,
/// for commands `[A, B]` where `A` fails, `B` is never spawned.
pub proof fn lemma_no_spawn_after_failure(r: Run, success: bool)
    requires
        r.failed,
    ensures
        !grant_allowed(r),
        grant_step(r) == r,
        report_step(r, success).failed,
{
}

/// A failure report on the outstanding spawn makes the run failed, and a
/// granted spawn can only be the next unfinished command in order: command
/// `i` is granted only when the `i` before it all completed successfully.
pub proof fn lemma_grant_is_next_in_order(r: Run)
    requires
        grant_allowed(r),
    ensures
        !r.failed,
        grant_step(r).done == r.done,
        report_step(grant_step(r), false).failed,
        report_step(grant_step(r), true).done == r.done + 1,
{
}

} // verus!
