//! Supervisor state and its start/stop transitions.
//!
//! The shell owns one `SupervisorState` behind a lock and calls the
//! transition functions here from its event handlers (setup hook, tray
//! menu, shortcut handler). The functions only decide; the shell performs
//! the spawn and the kill, and reports their outcomes back.

use vstd::prelude::*;
use crate::health::HealthCheckOutcome;
use crate::paths::{PathResolutionError, ResolvedEntryPoint};

verus! {

/// The port the backend listens on; the health endpoint is the root
/// path on this port.
pub const BACKEND_PORT: u16 = 8000;

/// The single owned record of backend-process status.
///
/// `running` is `true` exactly when a process handle is recorded; the
/// handle is the OS process id of the spawned backend.
pub struct SupervisorState {
    pub running: bool,
    pub handle: Option<u64>,
}

impl SupervisorState {
    /// Invariant: `running` holds iff a process handle is present.
    pub open spec fn wf(self) -> bool {
        self.running <==> self.handle is Some
    }

    /// Fresh state: nothing running, no handle recorded.
    pub fn new() -> (s: SupervisorState)
        ensures
            !s.running,
            s.handle is None,
            s.wf(),
    {
        SupervisorState { running: false, handle: None }
    }

    /// Whether a backend process is currently recorded as running.
    pub fn is_running(&self) -> (r: bool)
        ensures
            r == self.running,
    {
        self.running
    }
}

/// The state after a start attempt that spawned a process with id `pid`:
/// a start on an already-running supervisor changes nothing.
pub open spec fn start_spec(s: SupervisorState, pid: u64) -> SupervisorState {
    if s.running {
        s
    } else {
        SupervisorState { running: true, handle: Some(pid) }
    }
}

/// Records a successful spawn: a no-op when already running, otherwise
/// marks the state running and stores the process id.
pub fn start_transition(state: &mut SupervisorState, pid: u64)
    requires
        old(state).wf(),
    ensures
        final(state).wf(),
        *final(state) == start_spec(*old(state), pid),
{
    if !state.running {
        state.running = true;
        state.handle = Some(pid);
    }
}

/// How the shell must terminate the backend on this platform: a forced
/// process-tree kill where child processes would otherwise be orphaned,
/// a direct signal elsewhere.
#[derive(Clone, Copy, PartialEq, Eq, Structural, Debug)]
pub enum KillStrategy {
    ProcessTree,
    Direct,
}

/// What a stop asks of the shell: nothing, or one termination.
#[derive(Clone, Copy, PartialEq, Eq, Structural, Debug)]
pub enum StopAction {
    NoProcess,
    Terminate { pid: u64, strategy: KillStrategy },
}

/// The state every stop leaves behind, whatever it found.
pub open spec fn stopped_spec() -> SupervisorState {
    SupervisorState { running: false, handle: None }
}

pub open spec fn kill_strategy_spec(windows: bool) -> KillStrategy {
    if windows {
        KillStrategy::ProcessTree
    } else {
        KillStrategy::Direct
    }
}

/// The termination a stop issues: one kill of the recorded process, or
/// none when nothing is running.
pub open spec fn stop_action_spec(s: SupervisorState, windows: bool) -> StopAction {
    match s.handle {
        Some(pid) => StopAction::Terminate { pid, strategy: kill_strategy_spec(windows) },
        None => StopAction::NoProcess,
    }
}

/// Takes the process handle out of the state and says how to terminate
/// it. The state is marked not-running unconditionally: termination
/// errors are the shell's to log and never to propagate.
pub fn stop_transition(state: &mut SupervisorState, windows: bool) -> (a: StopAction)
    requires
        old(state).wf(),
    ensures
        final(state).wf(),
        *final(state) == stopped_spec(),
        a == stop_action_spec(*old(state), windows),
{
    let previous = state.handle;
    state.running = false;
    state.handle = None;
    match previous {
        Some(pid) => StopAction::Terminate {
            pid,
            strategy: if windows {
                KillStrategy::ProcessTree
            } else {
                KillStrategy::Direct
            },
        },
        None => StopAction::NoProcess,
    }
}

/// Why a start attempt failed. Health-probe failures are deliberately
/// absent: they are advisory and never fail a start.
#[derive(Debug)]
pub enum StartError {
    /// No entry point was found in any known layout.
    PathResolution(PathResolutionError),
    /// The OS refused both spawn attempts; the two messages describe the
    /// primary and the fallback failure.
    SpawnFailed { primary: String, fallback: String },
}

/// The interpreter tried first: one name on Windows-class systems,
/// another otherwise.
pub open spec fn primary_interpreter_spec(windows: bool) -> Seq<char> {
    if windows {
        "python"@
    } else {
        "python3"@
    }
}

/// The alternate interpreter name, tried exactly once after a primary
/// spawn failure.
pub open spec fn alternate_interpreter_spec(windows: bool) -> Seq<char> {
    if windows {
        "python3"@
    } else {
        "python"@
    }
}

pub fn primary_interpreter(windows: bool) -> (r: String)
    ensures
        r@ == primary_interpreter_spec(windows),
{
    if windows {
        "python".to_owned()
    } else {
        "python3".to_owned()
    }
}

pub fn alternate_interpreter(windows: bool) -> (r: String)
    ensures
        r@ == alternate_interpreter_spec(windows),
{
    if windows {
        "python3".to_owned()
    } else {
        "python".to_owned()
    }
}

/// Everything the shell needs to spawn the backend once: the program
/// name, the launch script, the listening port passed as an argument,
/// and the working directory.
pub struct SpawnCommand {
    pub interpreter: String,
    pub entry_point: Vec<String>,
    pub working_dir: Vec<String>,
    pub port: u16,
}

/// Turns the resolution outcome into the primary spawn command, or into
/// the error a failed resolution surfaces. A resolution failure yields
/// no command: nothing is ever spawned without an entry point.
pub fn plan_spawn(
    resolution: Result<ResolvedEntryPoint, PathResolutionError>,
    windows: bool,
) -> (r: Result<SpawnCommand, StartError>)
    ensures
        resolution matches Ok(ep) ==> (r matches Ok(cmd) && cmd.interpreter@
            == primary_interpreter_spec(windows) && cmd.entry_point == ep.entry_point
            && cmd.working_dir == ep.working_dir && cmd.port == BACKEND_PORT),
        resolution matches Err(e) ==> (r matches Err(se) && se
            == StartError::PathResolution(e)),
{
    match resolution {
        Ok(ep) => Ok(
            SpawnCommand {
                interpreter: primary_interpreter(windows),
                entry_point: ep.entry_point,
                working_dir: ep.working_dir,
                port: BACKEND_PORT,
            },
        ),
        Err(e) => Err(StartError::PathResolution(e)),
    }
}

/// Where one start's spawning stands: trying the primary interpreter,
/// trying the single fallback, or finished.
pub enum SpawnPhase {
    Primary,
    Fallback { primary_error: String },
    Succeeded { pid: u64 },
    Failed { primary_error: String, fallback_error: String },
}

/// The phase after the OS reported one spawn outcome. A failure of the
/// primary attempt moves to the one fallback; a failure of the fallback
/// ends the attempt with both errors; a finished attempt stays as it is.
pub open spec fn spawn_step_spec(p: SpawnPhase, r: Result<u64, String>) -> SpawnPhase {
    match p {
        SpawnPhase::Primary => match r {
            Ok(pid) => SpawnPhase::Succeeded { pid },
            Err(e) => SpawnPhase::Fallback { primary_error: e },
        },
        SpawnPhase::Fallback { primary_error } => match r {
            Ok(pid) => SpawnPhase::Succeeded { pid },
            Err(e) => SpawnPhase::Failed { primary_error, fallback_error: e },
        },
        _ => p,
    }
}

/// One start's spawn attempt: at most two spawns, the second with the
/// alternate interpreter name.
pub struct StartAttempt {
    pub phase: SpawnPhase,
    pub windows: bool,
}

impl StartAttempt {
    /// Whether another spawn is still owed.
    pub open spec fn pending_spec(self) -> bool {
        self.phase is Primary || self.phase is Fallback
    }

    /// The interpreter the next spawn must use.
    pub open spec fn next_interpreter_spec(self) -> Seq<char>
        recommends
            self.pending_spec(),
    {
        if self.phase is Primary {
            primary_interpreter_spec(self.windows)
        } else {
            alternate_interpreter_spec(self.windows)
        }
    }

    pub fn new(windows: bool) -> (a: StartAttempt)
        ensures
            a.phase == SpawnPhase::Primary,
            a.windows == windows,
            a.pending_spec(),
    {
        StartAttempt { phase: SpawnPhase::Primary, windows }
    }

    pub fn pending(&self) -> (r: bool)
        ensures
            r == self.pending_spec(),
    {
        match self.phase {
            SpawnPhase::Primary => true,
            SpawnPhase::Fallback { .. } => true,
            _ => false,
        }
    }

    pub fn next_interpreter(&self) -> (r: String)
        requires
            self.pending_spec(),
        ensures
            r@ == self.next_interpreter_spec(),
    {
        match self.phase {
            SpawnPhase::Primary => primary_interpreter(self.windows),
            _ => alternate_interpreter(self.windows),
        }
    }

    /// Feeds in what the OS reported for the spawn just attempted.
    pub fn record(&mut self, r: Result<u64, String>)
        requires
            old(self).pending_spec(),
        ensures
            final(self).windows == old(self).windows,
            final(self).phase == spawn_step_spec(old(self).phase, r),
    {
        match &self.phase {
            SpawnPhase::Primary => match r {
                Ok(pid) => {
                    self.phase = SpawnPhase::Succeeded { pid };
                },
                Err(e) => {
                    self.phase = SpawnPhase::Fallback { primary_error: e };
                },
            },
            SpawnPhase::Fallback { primary_error } => {
                let first = primary_error.clone();
                match r {
                    Ok(pid) => {
                        self.phase = SpawnPhase::Succeeded { pid };
                    },
                    Err(e) => {
                        self.phase = SpawnPhase::Failed {
                            primary_error: first,
                            fallback_error: e,
                        };
                    },
                }
            },
            _ => {},
        }
    }

    /// The result a finished attempt hands to the caller of start.
    pub fn result(&self) -> (r: Result<u64, StartError>)
        requires
            !self.pending_spec(),
        ensures
            (self.phase matches SpawnPhase::Succeeded { pid } ==> r == Ok::<u64, StartError>(
                pid,
            )),
            (self.phase matches SpawnPhase::Failed { primary_error, fallback_error } ==> r matches Err(
                se,
            ) && se == (StartError::SpawnFailed {
                primary: primary_error,
                fallback: fallback_error,
            })),
    {
        match &self.phase {
            SpawnPhase::Succeeded { pid } => Ok(*pid),
            SpawnPhase::Failed { primary_error, fallback_error } => Err(
                StartError::SpawnFailed {
                    primary: primary_error.clone(),
                    fallback: fallback_error.clone(),
                },
            ),
            _ => unreached(),
        }
    }
}

/// The caller-visible verdict once the spawned backend's health probe
/// has finished (or its grace period has expired): a start that spawned
/// successfully succeeds whatever the probe said — health is advisory,
/// the shell only logs a warning. The supervisor state is untouched and
/// stays running.
pub fn start_verdict(state: &SupervisorState, outcome: HealthCheckOutcome) -> (r: Result<
    (),
    StartError,
>)
    requires
        state.running,
    ensures
        r is Ok,
        state.running,
{
    match outcome {
        HealthCheckOutcome::Healthy => Ok(()),
        HealthCheckOutcome::Unreachable => Ok(()),
        HealthCheckOutcome::TimedOut => Ok(()),
    }
}

/// Starting twice is idempotent: the second start is a no-op, and the
/// state — the recorded process handle included — is exactly the one the
/// first start produced.
pub proof fn lemma_start_idempotent(s: SupervisorState, pid1: u64, pid2: u64)
    ensures
        start_spec(start_spec(s, pid1), pid2) == start_spec(s, pid1),
{
}

/// Stopping twice is idempotent: `running` is false after either stop,
/// and the second stop finds no handle and terminates nothing.
pub proof fn lemma_stop_idempotent(s: SupervisorState, windows: bool)
    ensures
        !stopped_spec().running,
        stop_action_spec(stopped_spec(), windows) == StopAction::NoProcess,
{
}

/// After the OS reports a spawn failure for the primary interpreter,
/// exactly one more spawn stands between that failure and the returned
/// error: the machine asks for the alternate interpreter once, and a
/// second failure ends the attempt with `SpawnFailed` carrying both
/// error messages.
pub proof fn lemma_single_fallback(windows: bool, e1: String, e2: String)
    ensures
        spawn_step_spec(SpawnPhase::Primary, Err(e1)) == (SpawnPhase::Fallback {
            primary_error: e1,
        }),
        (StartAttempt { phase: SpawnPhase::Fallback { primary_error: e1 }, windows }).pending_spec(),
        (StartAttempt {
            phase: SpawnPhase::Fallback { primary_error: e1 },
            windows,
        }).next_interpreter_spec() == alternate_interpreter_spec(windows),
        spawn_step_spec(SpawnPhase::Fallback { primary_error: e1 }, Err(e2))
            == (SpawnPhase::Failed { primary_error: e1, fallback_error: e2 }),
        !(StartAttempt {
            phase: SpawnPhase::Failed { primary_error: e1, fallback_error: e2 },
            windows,
        }).pending_spec(),
{
}

/// A stop issued while a health probe is still mid-flight terminates the
/// process all the same: the stop action and the resulting state depend
/// only on the supervisor state, never on the probe, so a running
/// process is killed and `running` ends false.
pub proof fn lemma_stop_during_probe(s: SupervisorState, windows: bool)
    requires
        s.wf(),
        s.running,
    ensures
        (stop_action_spec(s, windows) matches StopAction::Terminate { pid, strategy } && Some(pid)
            == s.handle && strategy == kill_strategy_spec(windows)),
        !stopped_spec().running,
{
}

} // verus!
