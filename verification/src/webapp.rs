//! Supervision of the shell backend run as a child process: its command line and
//! the way it is stopped.

use vstd::prelude::*;

verus! {

/// Seconds that a child gets to exit after `SIGTERM` before `SIGKILL`.
pub const TERMINATE_GRACE_SECS: u64 = 5;

/// Why the supervised command could not be started.
#[derive(Clone, Copy, Debug, PartialEq, Eq, Structural)]
pub enum WebappError {
    /// The command has no program.
    EmptyCommand,
}

impl WebappError {
    /// The error's message.
    pub fn message(&self) -> (text: String)
        ensures
            text@ == "webapp command is empty"@,
    {
        String::from_str("webapp command is empty")
    }
}

/// Splits a command into its program and arguments.
pub fn split_command(command: Vec<String>) -> (split: Result<(String, Vec<String>), WebappError>)
    ensures
        command@.len() == 0 ==> split == Err::<(String, Vec<String>), _>(
            WebappError::EmptyCommand,
        ),
        command@.len() > 0 ==> (split matches Ok((program, args)) && program == command@[0]
            && args@ == command@.drop_first()),
{
    if command.len() == 0 {
        return Err(WebappError::EmptyCommand);
    }
    let mut command = command;
    let ghost all = command@;
    let program = command.remove(0);
    assert(command@ =~= all.drop_first());
    Ok((program, command))
}

/// The target of a signal to the child's process group: the negated process id of
/// the child, which leads its own group. Process ids fit in `i32` (pid_max is at most
/// 2^22).
pub fn process_group_target(pid: u32) -> (target: i32)
    requires
        0 < pid <= i32::MAX,
    ensures
        target == -(pid as int),
{
    -(pid as i32)
}

/// Where stopping the child stands.
#[derive(Clone, Copy, Debug, PartialEq, Eq, Structural)]
pub enum TerminationPhase {
    /// Nothing has been done yet.
    NotStarted,
    /// `SIGTERM` was sent and the child is given the grace period.
    Terminating,
    /// The child is gone, or has been killed and reaped.
    Finished,
}

/// What to do next to stop the child.
#[derive(Clone, Copy, Debug, PartialEq, Eq, Structural)]
pub enum TerminationAction {
    /// Send `SIGTERM` to the process group; the child had already exited, so stop there.
    SignalTermAndStop,
    /// Send `SIGTERM` to the process group, then wait this many seconds for the child.
    SignalTermAndWait(u64),
    /// The grace period ran out: send `SIGKILL` to the process group and reap the child.
    SignalKillAndReap,
    /// The child exited in time: stop.
    Stop,
}

/// Stopping a supervised child: `SIGTERM`, a grace period, then `SIGKILL` if needed.
pub struct Termination {
    phase: TerminationPhase,
}

impl Termination {
    /// Where stopping stands.
    pub closed spec fn current_phase(&self) -> TerminationPhase {
        self.phase
    }

    /// Nothing done yet.
    pub fn new() -> (t: Self)
        ensures
            t.current_phase() == TerminationPhase::NotStarted,
    {
        Termination { phase: TerminationPhase::NotStarted }
    }

    /// The first step, once it is known whether the child had already exited:
    /// `SIGTERM` always goes out; the grace period follows only for a running child.
    pub fn begin(&mut self, already_exited: bool) -> (action: TerminationAction)
        requires
            old(self).current_phase() == TerminationPhase::NotStarted,
        ensures
            already_exited ==> action == TerminationAction::SignalTermAndStop
                && final(self).current_phase() == TerminationPhase::Finished,
            !already_exited ==> action == TerminationAction::SignalTermAndWait(
                TERMINATE_GRACE_SECS,
            ) && final(self).current_phase() == TerminationPhase::Terminating,
    {
        if already_exited {
            self.phase = TerminationPhase::Finished;
            TerminationAction::SignalTermAndStop
        } else {
            self.phase = TerminationPhase::Terminating;
            TerminationAction::SignalTermAndWait(TERMINATE_GRACE_SECS)
        }
    }

    /// The step after the grace period: `SIGKILL` only if the child did not exit in time.
    pub fn grace_over(&mut self, timed_out: bool) -> (action: TerminationAction)
        requires
            old(self).current_phase() == TerminationPhase::Terminating,
        ensures
            final(self).current_phase() == TerminationPhase::Finished,
            timed_out ==> action == TerminationAction::SignalKillAndReap,
            !timed_out ==> action == TerminationAction::Stop,
    {
        self.phase = TerminationPhase::Finished;
        if timed_out {
            TerminationAction::SignalKillAndReap
        } else {
            TerminationAction::Stop
        }
    }
}

} // verus!
