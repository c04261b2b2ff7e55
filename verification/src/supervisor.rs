//! The restart-after-delay state machine shared by every supervised
//! background loop (the outbox publisher and each queue consumer).
//!
//! A supervised loop never terminates the process: when an iteration fails it
//! moves to a back-off phase, waits a configured delay, and runs again.

use vstd::prelude::*;

verus! {

/// How long a faulted loop waits before it runs again, in milliseconds.
///
/// The delay is a parameter rather than a hard-coded constant so that tests
/// and deployments can shorten or lengthen the back-off.
#[derive(Clone, Copy, PartialEq, Eq, Structural, Debug)]
pub struct RetryPolicy {
    pub retry_delay_ms: u64,
}

/// Phase of a supervised background loop: it is either doing its work or
/// waiting out the delay that follows a failure.
#[derive(Clone, Copy, PartialEq, Eq, Structural, Debug)]
pub enum LoopPhase {
    Running,
    Faulted,
}

/// What the runtime reports back to a supervised loop.
#[derive(Clone, Copy, PartialEq, Eq, Structural, Debug)]
pub enum LoopEvent {
    /// The current iteration ended with an error, for the publisher a store
    /// or broker failure while acquiring its connection and channel.
    IterationFailed,
    /// The back-off delay after a failure has passed.
    DelayElapsed,
}

/// What the runtime must do next on behalf of a supervised loop.
#[derive(Clone, Copy, PartialEq, Eq, Structural, Debug)]
pub enum LoopAction {
    /// Run one iteration of the loop's work.
    RunIteration,
    /// Sleep for the given number of milliseconds, then report
    /// [`LoopEvent::DelayElapsed`].
    Wait(u64),
}

/// Transition relation of a supervised loop: a failure moves it into the
/// back-off phase, the elapsed delay moves it back to work.  No event ever
/// leaves the machine without a successor phase.
pub open spec fn spec_loop_step(phase: LoopPhase, event: LoopEvent) -> LoopPhase {
    match (phase, event) {
        (LoopPhase::Running, LoopEvent::IterationFailed) => LoopPhase::Faulted,
        (LoopPhase::Faulted, LoopEvent::DelayElapsed) => LoopPhase::Running,
        (p, _) => p,
    }
}

/// The action owed in each phase.
pub open spec fn spec_loop_action(phase: LoopPhase, policy: RetryPolicy) -> LoopAction {
    match phase {
        LoopPhase::Running => LoopAction::RunIteration,
        LoopPhase::Faulted => LoopAction::Wait(policy.retry_delay_ms),
    }
}

/// A supervised background loop, driven from outside: ask for the next
/// action, perform it, report what happened.
pub struct SupervisedLoop {
    pub phase: LoopPhase,
    pub policy: RetryPolicy,
}

impl SupervisedLoop {
    /// A freshly started loop is running.
    pub fn new(policy: RetryPolicy) -> (r: SupervisedLoop)
        ensures
            r.phase == LoopPhase::Running,
            r.policy == policy,
    {
        SupervisedLoop { phase: LoopPhase::Running, policy }
    }

    pub fn next_action(&self) -> (a: LoopAction)
        ensures
            a == spec_loop_action(self.phase, self.policy),
    {
        match self.phase {
            LoopPhase::Running => LoopAction::RunIteration,
            LoopPhase::Faulted => LoopAction::Wait(self.policy.retry_delay_ms),
        }
    }

    pub fn on_event(&mut self, event: LoopEvent)
        ensures
            final(self).phase == spec_loop_step(old(self).phase, event),
            final(self).policy == old(self).policy,
    {
        let next = match (self.phase, event) {
            (LoopPhase::Running, LoopEvent::IterationFailed) => LoopPhase::Faulted,
            (LoopPhase::Faulted, LoopEvent::DelayElapsed) => LoopPhase::Running,
            (p, _) => p,
        };
        self.phase = next;
    }
}

/// A failed iteration never ends a supervised loop: the loop backs off for
/// exactly the configured delay and is then running again.
pub proof fn lemma_loop_recovers(policy: RetryPolicy)
    ensures
        spec_loop_step(LoopPhase::Running, LoopEvent::IterationFailed) == LoopPhase::Faulted,
        spec_loop_action(LoopPhase::Faulted, policy) == LoopAction::Wait(policy.retry_delay_ms),
        spec_loop_step(LoopPhase::Faulted, LoopEvent::DelayElapsed) == LoopPhase::Running,
        spec_loop_action(LoopPhase::Running, policy) == LoopAction::RunIteration,
{
}

} // verus!
