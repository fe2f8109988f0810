//! The startup handshake: the host posts its bootstrap details to the shell's
//! `/_start` callback, retrying until the shell accepts them, the attempts run out,
//! or the host is cancelled.

use vstd::prelude::*;

verus! {

/// How many times the startup callback is attempted.
pub const STARTUP_ATTEMPTS: u32 = 300;

/// The pause between two attempts, in milliseconds.
pub const STARTUP_RETRY_DELAY_MS: u64 = 100;

/// What happened to one attempt. Cancellation wins over the callback's outcome.
#[derive(Clone, Copy, Debug, PartialEq, Eq, Structural)]
pub enum StartupEvent {
    /// The host was cancelled (the webapp exited) before the shell accepted.
    Cancelled,
    /// The shell accepted the bootstrap details.
    Accepted,
    /// The callback failed.
    Rejected,
}

/// What the host does next.
#[derive(Clone, Copy, Debug, PartialEq, Eq, Structural)]
pub enum StartupAction {
    /// The handshake succeeded.
    Started,
    /// Startup fails: the webapp exited before accepting the startup callback.
    Aborted,
    /// Startup fails with the last callback error: the attempts ran out.
    GaveUp,
    /// Wait this many milliseconds, then attempt again.
    RetryAfterMs(u64),
}

/// The retry loop of the startup handshake. `attempt` counts the attempt under way,
/// from 1.
pub struct StartupRetry {
    attempt: u32,
}

/// The action after `event` on attempt `attempt`.
pub open spec fn startup_action(attempt: u32, event: StartupEvent) -> StartupAction {
    match event {
        StartupEvent::Cancelled => StartupAction::Aborted,
        StartupEvent::Accepted => StartupAction::Started,
        StartupEvent::Rejected => if attempt >= STARTUP_ATTEMPTS {
            StartupAction::GaveUp
        } else {
            StartupAction::RetryAfterMs(STARTUP_RETRY_DELAY_MS)
        },
    }
}

/// Milliseconds spent waiting between attempts before attempt `attempt`.
pub open spec fn waited_before(attempt: u32) -> int {
    (attempt - 1) * STARTUP_RETRY_DELAY_MS
}

impl StartupRetry {
    /// The attempt under way.
    pub closed spec fn attempt_number(&self) -> u32 {
        self.attempt
    }

    /// Attempts are counted from 1 up to the limit.
    #[verifier::type_invariant]
    closed spec fn counts_attempts(&self) -> bool {
        1 <= self.attempt <= STARTUP_ATTEMPTS
    }

    /// The first attempt is under way.
    pub fn new() -> (retry: Self)
        ensures
            retry.attempt_number() == 1,
    {
        StartupRetry { attempt: 1 }
    }

    /// The attempt under way, counted from 1.
    pub fn attempt(&self) -> (attempt: u32)
        ensures
            attempt == self.attempt_number(),
            1 <= attempt <= STARTUP_ATTEMPTS,
    {
        proof {
            use_type_invariant(self);
        }
        self.attempt
    }

    /// Decides what follows `event` on the attempt under way; a retry moves on to the
    /// next attempt.
    pub fn step(&mut self, event: StartupEvent) -> (action: StartupAction)
        ensures
            1 <= old(self).attempt_number() <= STARTUP_ATTEMPTS,
            1 <= final(self).attempt_number() <= STARTUP_ATTEMPTS,
            action == startup_action(old(self).attempt_number(), event),
            action is RetryAfterMs ==> final(self).attempt_number() == old(
                self,
            ).attempt_number() + 1,
            !(action is RetryAfterMs) ==> final(self).attempt_number() == old(
                self,
            ).attempt_number(),
    {
        proof {
            use_type_invariant(&*self);
        }
        match event {
            StartupEvent::Cancelled => StartupAction::Aborted,
            StartupEvent::Accepted => StartupAction::Started,
            StartupEvent::Rejected => {
                if self.attempt >= STARTUP_ATTEMPTS {
                    StartupAction::GaveUp
                } else {
                    self.attempt = self.attempt + 1;
                    StartupAction::RetryAfterMs(STARTUP_RETRY_DELAY_MS)
                }
            },
        }
    }
}

/// The startup wait is bounded: no attempt starts after more than 29.9 s of pauses,
/// so the host waits up to 30 seconds for the shell, and a rejection on the last
/// attempt gives up instead of waiting again.
pub proof fn lemma_startup_wait_bounded(attempt: u32)
    requires
        1 <= attempt <= STARTUP_ATTEMPTS,
    ensures
        0 <= waited_before(attempt) <= 29_900,
        attempt == STARTUP_ATTEMPTS ==> startup_action(attempt, StartupEvent::Rejected)
            == StartupAction::GaveUp,
        attempt < STARTUP_ATTEMPTS ==> startup_action(attempt, StartupEvent::Rejected)
            == StartupAction::RetryAfterMs(STARTUP_RETRY_DELAY_MS) && waited_before(
            (attempt + 1) as u32,
        ) == waited_before(attempt) + STARTUP_RETRY_DELAY_MS,
{
}

/// Cancellation ends startup at once, and an accepted callback ends it with success,
/// on every attempt.
pub proof fn lemma_startup_ends_on_cancel_or_accept(attempt: u32)
    ensures
        startup_action(attempt, StartupEvent::Cancelled) == StartupAction::Aborted,
        startup_action(attempt, StartupEvent::Accepted) == StartupAction::Started,
{
}

} // verus!
