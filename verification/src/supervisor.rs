//! One-shot state machine governing the backend child process.
//!
//! The supervisor never performs the spawn or the kill itself: `request_start`
//! hands the embedding application a [`SpawnCommand`] describing exactly the
//! process to create, the application reports the outcome through
//! `confirm_started` or `note_spawn_failed`, and `request_stop` says whether a
//! kill is due. Start is one-shot: once the phase leaves `NotStarted` it never
//! returns, so at most one backend process is ever spawned.

use vstd::prelude::*;

use crate::paths::ResolvedPaths;

verus! {

/// Why the backend could not be started. Either way the host application
/// keeps running without a backend; neither case is a hard failure.
#[derive(Debug)]
pub enum StartError {
    /// The interpreter path does not exist on disk, detected before any
    /// spawn is attempted.
    InterpreterMissing,
    /// The operating system refused to create the process.
    SpawnFailed(String),
}

/// Lifecycle phase of the supervised backend process.
#[derive(Clone, Copy, PartialEq, Eq, Structural, Debug)]
pub enum SupervisorPhase {
    /// No spawn has been granted yet.
    NotStarted,
    /// A spawn command has been handed out; its outcome is not yet known.
    Spawning,
    /// The backend process is owned and presumed running.
    Running,
    /// Terminal: the backend was stopped, failed to spawn, or shutdown was
    /// requested; no further spawn will ever be granted.
    Stopped,
}

/// The supervisor's whole state. It owns no process handle itself: the
/// embedding application keeps the handle beside it and manipulates it only
/// as the phase transitions direct.
pub struct Supervisor {
    pub phase: SupervisorPhase,
}

/// Everything the embedding application needs to create the backend process:
/// the interpreter to run, the entry script as its sole argument, and the
/// working directory to give it (the backend's own directory, so its relative
/// resource loading works regardless of the shell's current directory).
pub struct SpawnCommand {
    pub program: String,
    pub arg: String,
    pub working_dir: String,
}

/// One phase transition the supervisor may make (staying put included).
pub open spec fn sup_step(pre: SupervisorPhase, post: SupervisorPhase) -> bool {
    ||| post == pre
    ||| grants_spawn(pre, post)
    ||| (pre is Spawning && post is Running)
    ||| post is Stopped
}

/// The transition that hands out a spawn command.
pub open spec fn grants_spawn(pre: SupervisorPhase, post: SupervisorPhase) -> bool {
    pre is NotStarted && post is Spawning
}

impl Supervisor {
    /// A fresh supervisor: nothing spawned yet.
    pub fn new() -> (r: Supervisor)
        ensures
            r.phase is NotStarted,
    {
        Supervisor { phase: SupervisorPhase::NotStarted }
    }

    /// Ask for the backend to be started. `interpreter_exists` is the
    /// pre-flight check the application performed on the resolved interpreter
    /// path; when it fails, no spawn command is handed out and the phase is
    /// unchanged, so no process is ever created. When it holds, the returned
    /// command names exactly the resolved interpreter, entry script, and
    /// working directory.
    pub fn request_start(&mut self, paths: ResolvedPaths, interpreter_exists: bool) -> (r: Result<
        SpawnCommand,
        StartError,
    >)
        requires
            old(self).phase is NotStarted,
        ensures
            sup_step(old(self).phase, final(self).phase),
            !interpreter_exists ==> {
                &&& r matches Err(e) && e is InterpreterMissing
                &&& final(self).phase is NotStarted
            },
            interpreter_exists ==> {
                &&& r matches Ok(c) && c.program == paths.interpreter && c.arg
                    == paths.entry_script && c.working_dir == paths.working_dir
                &&& final(self).phase is Spawning
            },
    {
        if !interpreter_exists {
            Err(StartError::InterpreterMissing)
        } else {
            self.phase = SupervisorPhase::Spawning;
            Ok(
                SpawnCommand {
                    program: paths.interpreter,
                    arg: paths.entry_script,
                    working_dir: paths.working_dir,
                },
            )
        }
    }

    /// The application reports that the spawn succeeded: the supervisor now
    /// owns the running backend.
    pub fn confirm_started(&mut self)
        requires
            old(self).phase is Spawning,
        ensures
            final(self).phase is Running,
            sup_step(old(self).phase, final(self).phase),
    {
        self.phase = SupervisorPhase::Running;
    }

    /// The application reports that the operating system refused the spawn.
    /// The phase becomes terminal — start is one-shot and is never re-armed —
    /// and the error to log is returned.
    pub fn note_spawn_failed(&mut self, message: String) -> (e: StartError)
        requires
            old(self).phase is Spawning,
        ensures
            final(self).phase is Stopped,
            e == StartError::SpawnFailed(message),
            sup_step(old(self).phase, final(self).phase),
    {
        self.phase = SupervisorPhase::Stopped;
        StartError::SpawnFailed(message)
    }

    /// Shutdown signal. Callable in any phase, any number of times; a kill of
    /// the owned process is due exactly when the backend was running. When
    /// nothing was ever started this changes nothing but the phase.
    pub fn request_stop(&mut self) -> (kill: bool)
        ensures
            final(self).phase is Stopped,
            kill == (old(self).phase is Running),
            sup_step(old(self).phase, final(self).phase),
    {
        let kill = matches!(self.phase, SupervisorPhase::Running);
        self.phase = SupervisorPhase::Stopped;
        kill
    }
}

/// Law: no step leads back to `NotStarted`; once the supervisor has moved on,
/// it has moved on for good.
pub proof fn lemma_no_rearm(pre: SupervisorPhase, post: SupervisorPhase)
    requires
        sup_step(pre, post),
        !(pre is NotStarted),
    ensures
        !(post is NotStarted),
{
}

/// Law: in any sequence of supervisor phases linked by steps, once a spawn
/// has been granted no later step grants another — the supervisor never
/// spawns a second backend process.
pub proof fn lemma_single_spawn(tr: Seq<SupervisorPhase>, i: int, j: int)
    requires
        0 <= i < j,
        j + 1 < tr.len(),
        forall|k: int| 0 <= k && k + 1 < tr.len() ==> #[trigger] sup_step(tr[k], tr[k + 1]),
        grants_spawn(tr[i], tr[i + 1]),
    ensures
        !grants_spawn(tr[j], tr[j + 1]),
{
    lemma_stays_armed_off(tr, i + 1, j);
}

/// Helper for [`lemma_single_spawn`]: a phase other than `NotStarted` stays
/// so along the trace.
proof fn lemma_stays_armed_off(tr: Seq<SupervisorPhase>, i: int, j: int)
    requires
        0 <= i <= j < tr.len(),
        forall|k: int| 0 <= k && k + 1 < tr.len() ==> #[trigger] sup_step(tr[k], tr[k + 1]),
        !(tr[i] is NotStarted),
    ensures
        !(tr[j] is NotStarted),
    decreases j - i,
{
    if i < j {
        lemma_stays_armed_off(tr, i, j - 1);
        // instantiates the step hypothesis at k == j - 1
        assert(sup_step(tr[j - 1], tr[j - 1 + 1]));
        lemma_no_rearm(tr[j - 1], tr[j]);
    }
}

} // verus!
