//! Decision logic of the supervised queue-consumer loop.
//!
//! For each registered queue the runtime keeps one subscription to the broker
//! alive.  The loop here is a state machine: the runtime asks which action to
//! perform (open the subscription, await a delivery, or wait out a back-off
//! delay), performs it, and reports what happened.  A handler error is
//! terminal only for its one delivery; a transport error tears the
//! subscription down and re-creates it after the configured delay.

use vstd::prelude::*;

use crate::app_error::CoreError;
use crate::supervisor::RetryPolicy;

verus! {

/// The binding of a queue name to a handler, supplied at startup.  The
/// handler itself lives with the unverified runtime; the registration names
/// the queue whose subscription the supervised task owns.
#[derive(Debug, Clone)]
pub struct ConsumerRegistration {
    pub queue_name: String,
}

/// Phase of one queue's supervised consumer task.
#[derive(Clone, Copy, PartialEq, Eq, Structural, Debug)]
pub enum ConsumerPhase {
    /// Opening a channel, declaring the queue, opening the delivery stream.
    Subscribing,
    /// Subscribed; handling deliveries as they arrive.
    Consuming,
    /// A failure tore the subscription down; waiting out the delay.
    Backoff,
}

/// What the runtime reports back to the consumer task.
pub enum ConsumerEvent {
    /// Channel, queue and delivery stream were created.
    SubscribeSucceeded,
    /// Opening the channel, queue or stream failed.
    SubscribeFailed(CoreError),
    /// A delivery arrived and its handler returned this result.
    DeliveryHandled(Result<(), CoreError>),
    /// The delivery stream itself yielded a transport error.
    TransportFailed(CoreError),
    /// The delivery stream ended without an error.
    StreamEnded,
    /// The back-off delay has passed.
    DelayElapsed,
}

/// What the runtime must do next for the consumer task.
#[derive(Clone, Copy, PartialEq, Eq, Structural, Debug)]
pub enum ConsumerAction {
    /// Open a fresh channel, declare the queue, open the delivery stream.
    OpenSubscription,
    /// Wait for the next delivery and run the handler on it.
    AwaitDelivery,
    /// Sleep for the given number of milliseconds, then report
    /// [`ConsumerEvent::DelayElapsed`].
    Wait(u64),
}

/// Transition relation of the consumer task.
///
/// A handler's result never changes the phase: a failed delivery is logged
/// and the stream continues.  Transport failures (and failures to subscribe)
/// lead to the back-off phase; an ended stream is re-created at once.
pub open spec fn spec_consumer_step(phase: ConsumerPhase, event: ConsumerEvent) -> ConsumerPhase {
    match (phase, event) {
        (ConsumerPhase::Subscribing, ConsumerEvent::SubscribeSucceeded) => ConsumerPhase::Consuming,
        (ConsumerPhase::Subscribing, ConsumerEvent::SubscribeFailed(_)) => ConsumerPhase::Backoff,
        (ConsumerPhase::Consuming, ConsumerEvent::DeliveryHandled(_)) => ConsumerPhase::Consuming,
        (ConsumerPhase::Consuming, ConsumerEvent::TransportFailed(_)) => ConsumerPhase::Backoff,
        (ConsumerPhase::Consuming, ConsumerEvent::StreamEnded) => ConsumerPhase::Subscribing,
        (ConsumerPhase::Backoff, ConsumerEvent::DelayElapsed) => ConsumerPhase::Subscribing,
        (p, _) => p,
    }
}

/// The action owed in each phase.
pub open spec fn spec_consumer_action(phase: ConsumerPhase, policy: RetryPolicy) -> ConsumerAction {
    match phase {
        ConsumerPhase::Subscribing => ConsumerAction::OpenSubscription,
        ConsumerPhase::Consuming => ConsumerAction::AwaitDelivery,
        ConsumerPhase::Backoff => ConsumerAction::Wait(policy.retry_delay_ms),
    }
}

/// One queue's supervised consumer task.  Each registered queue gets an
/// independent machine, so one queue's failure never touches another's
/// subscription.
pub struct ConsumerTask {
    pub registration: ConsumerRegistration,
    pub phase: ConsumerPhase,
    pub policy: RetryPolicy,
}

impl ConsumerTask {
    /// Registers a queue: its task starts by opening a subscription.
    pub fn register(queue_name: String, policy: RetryPolicy) -> (r: ConsumerTask)
        ensures
            r.registration.queue_name@ == queue_name@,
            r.phase == ConsumerPhase::Subscribing,
            r.policy == policy,
    {
        ConsumerTask {
            registration: ConsumerRegistration { queue_name },
            phase: ConsumerPhase::Subscribing,
            policy,
        }
    }

    pub fn next_action(&self) -> (a: ConsumerAction)
        ensures
            a == spec_consumer_action(self.phase, self.policy),
    {
        match self.phase {
            ConsumerPhase::Subscribing => ConsumerAction::OpenSubscription,
            ConsumerPhase::Consuming => ConsumerAction::AwaitDelivery,
            ConsumerPhase::Backoff => ConsumerAction::Wait(self.policy.retry_delay_ms),
        }
    }

    pub fn on_event(&mut self, event: ConsumerEvent)
        ensures
            final(self).phase == spec_consumer_step(old(self).phase, event),
            final(self).policy == old(self).policy,
            final(self).registration == old(self).registration,
    {
        let next = match (self.phase, &event) {
            (ConsumerPhase::Subscribing, ConsumerEvent::SubscribeSucceeded) => ConsumerPhase::Consuming,
            (ConsumerPhase::Subscribing, ConsumerEvent::SubscribeFailed(_)) => ConsumerPhase::Backoff,
            (ConsumerPhase::Consuming, ConsumerEvent::DeliveryHandled(_)) => ConsumerPhase::Consuming,
            (ConsumerPhase::Consuming, ConsumerEvent::TransportFailed(_)) => ConsumerPhase::Backoff,
            (ConsumerPhase::Consuming, ConsumerEvent::StreamEnded) => ConsumerPhase::Subscribing,
            (ConsumerPhase::Backoff, ConsumerEvent::DelayElapsed) => ConsumerPhase::Subscribing,
            (p, _) => p,
        };
        self.phase = next;
    }
}

/// The phase after a whole sequence of events.
pub open spec fn spec_consumer_run(phase: ConsumerPhase, events: Seq<ConsumerEvent>) -> ConsumerPhase
    decreases events.len(),
{
    if events.len() == 0 {
        phase
    } else {
        spec_consumer_run(spec_consumer_step(phase, events[0]), events.subrange(1, events.len() as int))
    }
}

/// A handler error is terminal only for its one delivery: whatever result the
/// handler returns, the task keeps consuming from the same subscription.
pub proof fn lemma_handler_error_is_isolated(result: Result<(), CoreError>)
    ensures
        spec_consumer_step(ConsumerPhase::Consuming, ConsumerEvent::DeliveryHandled(result))
            == ConsumerPhase::Consuming,
{
}

/// A transport error mid-stream never needs a process restart: the task backs
/// off for exactly the configured delay, then re-creates its subscription,
/// and once the broker accepts it, deliveries are handled again.
pub proof fn lemma_transport_failure_recovers(err: CoreError, policy: RetryPolicy)
    ensures
        spec_consumer_step(ConsumerPhase::Consuming, ConsumerEvent::TransportFailed(err))
            == ConsumerPhase::Backoff,
        spec_consumer_action(ConsumerPhase::Backoff, policy) == ConsumerAction::Wait(policy.retry_delay_ms),
        spec_consumer_step(ConsumerPhase::Backoff, ConsumerEvent::DelayElapsed)
            == ConsumerPhase::Subscribing,
        spec_consumer_action(ConsumerPhase::Subscribing, policy) == ConsumerAction::OpenSubscription,
        spec_consumer_step(ConsumerPhase::Subscribing, ConsumerEvent::SubscribeSucceeded)
            == ConsumerPhase::Consuming,
{
}

/// The same recovery, stated over a whole run: from the consuming phase, the
/// three-event sequence "transport failed, delay elapsed, subscribe
/// succeeded" ends with the task consuming again.
pub proof fn lemma_recovery_run(err: CoreError)
    ensures
        spec_consumer_run(
            ConsumerPhase::Consuming,
            seq![
                ConsumerEvent::TransportFailed(err),
                ConsumerEvent::DelayElapsed,
                ConsumerEvent::SubscribeSucceeded,
            ],
        ) == ConsumerPhase::Consuming,
{
    reveal_with_fuel(spec_consumer_run, 5);
    let events = seq![
        ConsumerEvent::TransportFailed(err),
        ConsumerEvent::DelayElapsed,
        ConsumerEvent::SubscribeSucceeded,
    ];
    assert(events.subrange(1, 3)[0] == ConsumerEvent::DelayElapsed);
    assert(events.subrange(1, 3).subrange(1, 2)[0] == ConsumerEvent::SubscribeSucceeded);
    assert(events.subrange(1, 3).subrange(1, 2).subrange(1, 1).len() == 0);
    assert(spec_consumer_run(ConsumerPhase::Consuming, events)
        == spec_consumer_run(ConsumerPhase::Backoff, events.subrange(1, 3)));
    assert(spec_consumer_run(ConsumerPhase::Backoff, events.subrange(1, 3))
        == spec_consumer_run(ConsumerPhase::Subscribing, events.subrange(1, 3).subrange(1, 2)));
}

} // verus!
