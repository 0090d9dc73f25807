//! The poll engine: a state machine over a poll queue.
//!
//! The engine itself never waits and never touches the attribute store. Its
//! caller waits for the next command, the next store notification about a
//! queued attribute, or the poll timer, whichever comes first, hands the winner
//! to the engine together with the clock's reading, and carries out what the
//! engine answers.

use crate::attribute::{Attribute, AttributeEvent, AttributeEventType, AttributeStoreError};
use crate::config::PollEngineConfig;
use crate::poll_entries::{
    distinct_attributes, earliest_index, entry_index, lemma_earliest_index, lemma_entry_index,
    lemma_entry_index_at, lemma_queue_then_remove, lemma_removed_entry, popped, queued, removed, requeued, PollEntries,
    PollEntry,
};
use crate::timing::{calculate_poll_time, default_if_zero, effective_interval, poll_delay};
use vstd::prelude::*;

verus! {

/// Largest clock reading, in seconds, that the engine accepts. A deadline is a
/// clock reading plus an interval of at most 32 bits; up to here it fits in
/// 64 bits.
pub const MAX_CLOCK_SECONDS: u64 = 0xFFFF_FFFF_0000_0000;

/// A command to the engine.
#[derive(Clone, Copy, Debug, PartialEq, Eq, Structural)]
pub enum PollEngineCommand {
    /// Poll `attribute` every `interval` seconds; 0 stands for the configured
    /// default interval.
    Register { attribute: Attribute, interval: u32 },
    /// Stop polling `attribute`.
    Deregister { attribute: Attribute },
    /// Poll `attribute` as soon as the backoff allows.
    Schedule { attribute: Attribute },
    /// Start the interval of `attribute` anew.
    Restart { attribute: Attribute },
    /// Resume polling.
    Enable,
    /// Suspend polling. Commands and notifications are still handled.
    Disable,
    /// Show the queue.
    PrintQueue,
}

/// What the engine is handed in one round.
#[derive(Clone, Copy, Debug, PartialEq, Eq, Structural)]
pub enum PollEngineDispatch {
    /// A command arrived.
    PollEngineCommand(PollEngineCommand),
    /// The poll timer ran out.
    PollTimeout,
    /// The store changed an attribute that is queued.
    AttributeUpdated(AttributeEvent),
}

/// An attribute taken from the queue to be polled. It returns to the queue,
/// with its interval, once its poll mark is in place.
#[derive(Clone, Copy, Debug, PartialEq, Eq, Structural)]
pub struct PendingPoll {
    pub attribute: Attribute,
    pub interval: u64,
}

/// What the engine answers to a dispatch.
#[derive(Clone, Copy, Debug, PartialEq, Eq, Structural)]
pub enum PollEngineOutcome {
    /// The dispatch was handled; nothing is left to do.
    Done,
    /// The command or notification names an attribute that is not queued.
    /// Nothing changed.
    NotQueued { attribute: Attribute },
    /// A notification of a kind that the engine does not handle. Nothing
    /// changed.
    UnexpectedEvent { event_type: AttributeEventType },
    /// The queue is to be shown. Nothing changed.
    PrintQueue,
    /// The timer ran out, but nothing is queued. Nothing changed.
    NothingToPoll,
    /// The attribute has left the queue: place its poll mark, then report to
    /// `finish_poll`.
    MarkForPoll { pending: PendingPoll },
}

/// The engine's state as a plain value.
pub struct EngineState {
    pub config: PollEngineConfig,
    /// The queue, oldest registration first.
    pub queue: Seq<PollEntry>,
    /// Clock reading at the last poll; 0 before the first.
    pub last_poll: u64,
    /// Whether the poll timer is in use.
    pub running: bool,
}

/// Every interval in the queue fits in 32 bits.
pub open spec fn intervals_fit(s: Seq<PollEntry>) -> bool {
    forall|i: int| 0 <= i < s.len() ==> (#[trigger] s[i]).interval <= u32::MAX
}

/// The state of an engine that has just been made.
pub open spec fn initial_state(config: PollEngineConfig) -> EngineState {
    EngineState { config, queue: Seq::empty(), last_poll: 0, running: true }
}

/// Seconds until the poll timer has to fire, or `None` where no timer is to be
/// started: the engine is suspended, or nothing is queued.
pub open spec fn timeout_at(s: EngineState, now: u64) -> Option<int> {
    if !s.running || s.queue.len() == 0 {
        None
    } else {
        Some(
            poll_delay(
                s.config.backoff as int,
                s.queue[earliest_index(s.queue)].deadline as int,
                now as int,
                s.last_poll as int,
            ),
        )
    }
}

/// The state after a command.
pub open spec fn after_command(s: EngineState, cmd: PollEngineCommand, now: u64) -> EngineState {
    match cmd {
        PollEngineCommand::Register { attribute, interval } => EngineState {
            queue: queued(s.queue, attribute, effective_interval(s.config, interval), now),
            ..s
        },
        PollEngineCommand::Deregister { attribute } => EngineState {
            queue: removed(s.queue, attribute),
            ..s
        },
        PollEngineCommand::Schedule { attribute } => EngineState {
            queue: queued(s.queue, attribute, 0, now),
            ..s
        },
        PollEngineCommand::Restart { attribute } => EngineState {
            queue: requeued(s.queue, attribute, now),
            ..s
        },
        PollEngineCommand::Enable => EngineState { running: true, ..s },
        PollEngineCommand::Disable => EngineState { running: false, ..s },
        PollEngineCommand::PrintQueue => s,
    }
}

/// The answer to a command.
pub open spec fn command_outcome(s: EngineState, cmd: PollEngineCommand) -> PollEngineOutcome {
    match cmd {
        PollEngineCommand::Deregister { attribute } | PollEngineCommand::Restart { attribute } => {
            if entry_index(s.queue, attribute).is_some() {
                PollEngineOutcome::Done
            } else {
                PollEngineOutcome::NotQueued { attribute }
            }
        },
        PollEngineCommand::PrintQueue => PollEngineOutcome::PrintQueue,
        _ => PollEngineOutcome::Done,
    }
}

/// The state after a store notification: a deleted attribute leaves the queue,
/// an updated one starts its interval anew, anything else changes nothing.
pub open spec fn after_attribute_update(s: EngineState, event: AttributeEvent, now: u64) -> EngineState {
    match event.event_type {
        AttributeEventType::ATTRIBUTE_DELETED => EngineState {
            queue: removed(s.queue, event.attribute),
            ..s
        },
        AttributeEventType::ATTRIBUTE_UPDATED => EngineState {
            queue: requeued(s.queue, event.attribute, now),
            ..s
        },
        _ => s,
    }
}

/// The answer to a store notification.
pub open spec fn attribute_update_outcome(s: EngineState, event: AttributeEvent) -> PollEngineOutcome {
    match event.event_type {
        AttributeEventType::ATTRIBUTE_DELETED | AttributeEventType::ATTRIBUTE_UPDATED => {
            if entry_index(s.queue, event.attribute).is_some() {
                PollEngineOutcome::Done
            } else {
                PollEngineOutcome::NotQueued { attribute: event.attribute }
            }
        },
        other => PollEngineOutcome::UnexpectedEvent { event_type: other },
    }
}

/// The state after the timer ran out: the entry that is due first has left the
/// queue.
pub open spec fn after_poll_timeout(s: EngineState) -> EngineState {
    EngineState { queue: popped(s.queue), ..s }
}

/// The answer to the timer: the attribute that is due first, with its
/// interval.
pub open spec fn poll_timeout_outcome(s: EngineState) -> PollEngineOutcome {
    if s.queue.len() == 0 {
        PollEngineOutcome::NothingToPoll
    } else {
        PollEngineOutcome::MarkForPoll {
            pending: PendingPoll {
                attribute: s.queue[earliest_index(s.queue)].attribute,
                interval: s.queue[earliest_index(s.queue)].interval,
            },
        }
    }
}

/// The state after the poll mark of `pending` was placed at `now`, or could
/// not be placed. With the mark in place the poll counts as done and the
/// attribute is queued again; without it nothing changes, and the attribute
/// stays out of the queue.
pub open spec fn after_poll_marked(s: EngineState, pending: PendingPoll, marked: bool, now: u64) -> EngineState {
    if marked {
        EngineState {
            queue: queued(s.queue, pending.attribute, pending.interval, now),
            last_poll: now,
            ..s
        }
    } else {
        s
    }
}

/// The state after one dispatch.
pub open spec fn after_dispatch(s: EngineState, dispatch: PollEngineDispatch, now: u64) -> EngineState {
    match dispatch {
        PollEngineDispatch::PollEngineCommand(cmd) => after_command(s, cmd, now),
        PollEngineDispatch::PollTimeout => after_poll_timeout(s),
        PollEngineDispatch::AttributeUpdated(event) => after_attribute_update(s, event, now),
    }
}

/// The answer to one dispatch.
pub open spec fn dispatch_outcome(s: EngineState, dispatch: PollEngineDispatch) -> PollEngineOutcome {
    match dispatch {
        PollEngineDispatch::PollEngineCommand(cmd) => command_outcome(s, cmd),
        PollEngineDispatch::PollTimeout => poll_timeout_outcome(s),
        PollEngineDispatch::AttributeUpdated(event) => attribute_update_outcome(s, event),
    }
}

/// The scheduler: a poll queue, the time of the last poll, and whether polling
/// is suspended.
pub struct PollEngine {
    config: PollEngineConfig,
    poll_queue: PollEntries,
    last_poll: u64,
    running: bool,
}

impl View for PollEngine {
    type V = EngineState;

    closed spec fn view(&self) -> EngineState {
        EngineState {
            config: self.config,
            queue: self.poll_queue@,
            last_poll: self.last_poll,
            running: self.running,
        }
    }
}

impl PollEngine {
    /// The engine's invariant: no attribute is queued twice, and every queued
    /// interval fits in 32 bits.
    pub open spec fn wf(&self) -> bool {
        distinct_attributes(self@.queue) && intervals_fit(self@.queue)
    }

    /// An engine with an empty queue that has not polled yet and is running.
    pub fn new(config: PollEngineConfig) -> (engine: PollEngine)
        ensures
            engine.wf(),
            engine@ == initial_state(config),
    {
        PollEngine { config, poll_queue: PollEntries::new(), last_poll: 0, running: true }
    }

    /// The configuration the engine was made with.
    pub fn config(&self) -> (config: PollEngineConfig)
        ensures
            config == self@.config,
    {
        self.config
    }

    /// The queue, to look at.
    pub fn poll_queue(&self) -> (queue: &PollEntries)
        ensures
            queue@ == self@.queue,
            self.wf() ==> queue.wf(),
    {
        &self.poll_queue
    }

    /// Clock reading at the last poll.
    pub fn last_poll(&self) -> (at: u64)
        ensures
            at == self@.last_poll,
    {
        self.last_poll
    }

    /// Whether the poll timer is in use.
    pub fn is_running(&self) -> (running: bool)
        ensures
            running == self@.running,
    {
        self.running
    }

    /// Seconds until the poll timer has to fire, whether or not the engine is
    /// suspended: as long as the attribute that is due first asks for, but not
    /// before the backoff since the last poll is over, and one second where
    /// that moment has passed. `None` exactly where nothing is queued.
    pub fn next_poll_timeout(&self, now: u64) -> (timeout: Option<u64>)
        requires
            self@.last_poll <= now,
        ensures
            timeout.is_some() == (self@.queue.len() > 0),
            timeout matches Some(t) ==> timeout_at(EngineState { running: true, ..self@ }, now)
                == Some(t as int),
    {
        match self.poll_queue.upcoming() {
            None => None,
            Some((_, upcoming_deadline)) => {
                let backoff: u64 = self.config.backoff as u64;
                Some(calculate_poll_time(backoff, upcoming_deadline, now, self.last_poll))
            },
        }
    }

    /// Seconds until the poll timer has to fire, or `None` where no timer is
    /// to be started: the engine is suspended, or nothing is queued.
    pub fn is_running_and_upcoming_timeout(&self, now: u64) -> (timeout: Option<u64>)
        requires
            self@.last_poll <= now,
        ensures
            timeout.is_some() == (self@.running && self@.queue.len() > 0),
            timeout.is_some() == timeout_at(self@, now).is_some(),
            timeout matches Some(t) ==> timeout_at(self@, now) == Some(t as int),
    {
        if self.running {
            self.next_poll_timeout(now)
        } else {
            None
        }
    }

    /// Decides whether a store notification concerns the engine: it does
    /// exactly where its attribute is queued. Any other notification is to be
    /// dropped.
    pub fn find_updated_attribute(&self, event: AttributeEvent) -> (dispatch: Option<
        PollEngineDispatch,
    >)
        ensures
            dispatch == if entry_index(self@.queue, event.attribute).is_some() {
                Some(PollEngineDispatch::AttributeUpdated(event))
            } else {
                None
            },
    {
        if self.poll_queue.contains(&event.attribute) {
            Some(PollEngineDispatch::AttributeUpdated(event))
        } else {
            None
        }
    }

    /// Takes the attribute that is due first out of the queue, to be marked
    /// for polling. With an empty queue there is nothing to poll.
    pub fn do_poll(&mut self) -> (outcome: PollEngineOutcome)
        requires
            old(self).wf(),
        ensures
            final(self).wf(),
            final(self)@ == after_poll_timeout(old(self)@),
            outcome == poll_timeout_outcome(old(self)@),
    {
        proof {
            lemma_changes_keep_intervals(self@.queue, Attribute { handle: 0, type_id: 0 }, 0, 0);
        }
        match self.poll_queue.pop_next() {
            Some((attribute, interval)) => PollEngineOutcome::MarkForPoll {
                pending: PendingPoll { attribute, interval },
            },
            None => PollEngineOutcome::NothingToPoll,
        }
    }

    /// Ends the poll that `do_poll` began. `marked` tells how placing the poll
    /// mark went, `now` is the clock's reading after that. With the mark in
    /// place, `now` becomes the time of the last poll and the attribute is
    /// queued again with its interval, counted from `now`. Where the store
    /// refused the mark, nothing changes: the attribute stays out of the queue
    /// until it is registered again. Returns whether the attribute was queued.
    pub fn finish_poll(
        &mut self,
        pending: PendingPoll,
        marked: Result<(), AttributeStoreError>,
        now: u64,
    ) -> (queued_again: bool)
        requires
            old(self).wf(),
            pending.interval <= u32::MAX,
            now <= MAX_CLOCK_SECONDS,
        ensures
            final(self).wf(),
            final(self)@ == after_poll_marked(old(self)@, pending, marked.is_ok(), now),
            queued_again == marked.is_ok(),
    {
        match marked {
            Ok(()) => {
                proof {
                    lemma_changes_keep_intervals(
                        self@.queue,
                        pending.attribute,
                        pending.interval,
                        now,
                    );
                }
                self.last_poll = now;
                self.poll_queue.queue(pending.attribute, pending.interval, now);
                true
            },
            Err(_) => false,
        }
    }

    /// Handles a command.
    pub fn on_handle_command(&mut self, cmd: PollEngineCommand, now: u64) -> (outcome:
        PollEngineOutcome)
        requires
            old(self).wf(),
            now <= MAX_CLOCK_SECONDS,
        ensures
            final(self).wf(),
            final(self)@ == after_command(old(self)@, cmd, now),
            outcome == command_outcome(old(self)@, cmd),
    {
        match cmd {
            PollEngineCommand::Register { attribute, interval } => {
                self.on_register(attribute, interval, now);
                PollEngineOutcome::Done
            },
            PollEngineCommand::Deregister { attribute } => self.on_deregister(attribute),
            PollEngineCommand::Schedule { attribute } => {
                self.on_schedule(attribute, now);
                PollEngineOutcome::Done
            },
            PollEngineCommand::Restart { attribute } => self.on_restart(attribute, now),
            PollEngineCommand::Enable => {
                self.on_enable();
                PollEngineOutcome::Done
            },
            PollEngineCommand::Disable => {
                self.on_disable();
                PollEngineOutcome::Done
            },
            PollEngineCommand::PrintQueue => PollEngineOutcome::PrintQueue,
        }
    }

    /// Handles a store notification. A deleted attribute leaves the queue. An
    /// updated one starts its interval anew, so that a write from elsewhere
    /// does not bring on a poll too early. In both cases an attribute that is
    /// not queued is answered with `NotQueued`. For any other kind of
    /// notification the engine has not asked.
    pub fn on_handle_attribute_update(&mut self, event: AttributeEvent, now: u64) -> (outcome:
        PollEngineOutcome)
        requires
            old(self).wf(),
            now <= MAX_CLOCK_SECONDS,
        ensures
            final(self).wf(),
            final(self)@ == after_attribute_update(old(self)@, event, now),
            outcome == attribute_update_outcome(old(self)@, event),
    {
        match event.event_type {
            AttributeEventType::ATTRIBUTE_DELETED => self.on_deregister(event.attribute),
            AttributeEventType::ATTRIBUTE_UPDATED => self.on_restart(event.attribute, now),
            other => PollEngineOutcome::UnexpectedEvent { event_type: other },
        }
    }

    /// Queues `attribute` to be polled every `interval` seconds, first at
    /// `now` plus that interval; interval 0 stands for the default interval.
    /// An attribute that is queued already gets the new interval and deadline.
    pub fn on_register(&mut self, attribute: Attribute, interval: u32, now: u64)
        requires
            old(self).wf(),
            now <= MAX_CLOCK_SECONDS,
        ensures
            final(self).wf(),
            final(self)@ == after_command(
                old(self)@,
                PollEngineCommand::Register { attribute, interval },
                now,
            ),
    {
        let used_interval: u64 = default_if_zero(&self.config, interval);
        proof {
            lemma_changes_keep_intervals(self@.queue, attribute, used_interval, now);
        }
        self.poll_queue.queue(attribute, used_interval, now);
    }

    /// Takes `attribute` out of the queue.
    pub fn on_deregister(&mut self, attribute: Attribute) -> (outcome: PollEngineOutcome)
        requires
            old(self).wf(),
        ensures
            final(self).wf(),
            final(self)@ == (EngineState {
                queue: removed(old(self)@.queue, attribute),
                ..old(self)@
            }),
            outcome == if entry_index(old(self)@.queue, attribute).is_some() {
                PollEngineOutcome::Done
            } else {
                PollEngineOutcome::NotQueued { attribute }
            },
    {
        proof {
            lemma_changes_keep_intervals(self@.queue, attribute, 0, 0);
        }
        if self.poll_queue.remove(&attribute) {
            PollEngineOutcome::Done
        } else {
            PollEngineOutcome::NotQueued { attribute }
        }
    }

    /// Queues `attribute` with interval 0: it is due at `now`, and again after
    /// every poll.
    pub fn on_schedule(&mut self, attribute: Attribute, now: u64)
        requires
            old(self).wf(),
        ensures
            final(self).wf(),
            final(self)@ == after_command(
                old(self)@,
                PollEngineCommand::Schedule { attribute },
                now,
            ),
    {
        proof {
            lemma_changes_keep_intervals(self@.queue, attribute, 0, now);
        }
        self.poll_queue.queue(attribute, 0, now);
    }

    /// Gives `attribute` the deadline `now` plus the interval it is queued
    /// with.
    pub fn on_restart(&mut self, attribute: Attribute, now: u64) -> (outcome: PollEngineOutcome)
        requires
            old(self).wf(),
            now <= MAX_CLOCK_SECONDS,
        ensures
            final(self).wf(),
            final(self)@ == (EngineState {
                queue: requeued(old(self)@.queue, attribute, now),
                ..old(self)@
            }),
            outcome == if entry_index(old(self)@.queue, attribute).is_some() {
                PollEngineOutcome::Done
            } else {
                PollEngineOutcome::NotQueued { attribute }
            },
    {
        proof {
            lemma_entry_index(self@.queue, attribute);
            lemma_changes_keep_intervals(self@.queue, attribute, 0, now);
        }
        if self.poll_queue.requeue(attribute, now) {
            PollEngineOutcome::Done
        } else {
            PollEngineOutcome::NotQueued { attribute }
        }
    }

    /// Resumes polling.
    pub fn on_enable(&mut self)
        ensures
            final(self)@ == (EngineState { running: true, ..old(self)@ }),
    {
        self.running = true;
    }

    /// Suspends polling: until the engine is enabled again, no poll timer is
    /// started.
    pub fn on_disable(&mut self)
        ensures
            final(self)@ == (EngineState { running: false, ..old(self)@ }),
    {
        self.running = false;
    }

    /// Handles the winner of one round: a command, the poll timer, or a store
    /// notification about a queued attribute. Exactly one of the three
    /// handlers runs. The caller carries out the answer and starts the next
    /// round.
    pub fn run(context: &mut PollEngine, dispatch: PollEngineDispatch, now: u64) -> (outcome:
        PollEngineOutcome)
        requires
            old(context).wf(),
            now <= MAX_CLOCK_SECONDS,
        ensures
            final(context).wf(),
            final(context)@ == after_dispatch(old(context)@, dispatch, now),
            outcome == dispatch_outcome(old(context)@, dispatch),
    {
        match dispatch {
            PollEngineDispatch::PollEngineCommand(cmd) => context.on_handle_command(cmd, now),
            PollEngineDispatch::PollTimeout => context.do_poll(),
            PollEngineDispatch::AttributeUpdated(event) => context.on_handle_attribute_update(
                event,
                now,
            ),
        }
    }
}

/// Each change of the queue keeps its intervals within 32 bits, as long as the
/// interval that comes in is.
pub proof fn lemma_changes_keep_intervals(
    s: Seq<PollEntry>,
    attribute: Attribute,
    interval: u64,
    now: u64,
)
    requires
        intervals_fit(s),
        interval <= u32::MAX,
    ensures
        intervals_fit(queued(s, attribute, interval, now)),
        intervals_fit(requeued(s, attribute, now)),
        intervals_fit(removed(s, attribute)),
        intervals_fit(popped(s)),
{
    lemma_entry_index(s, attribute);
    if s.len() > 0 {
        lemma_earliest_index(s);
    }
}

/// An engine with nothing queued starts no poll timer, at whatever time it is
/// asked and however often. Should a timer run out all the same, the engine
/// has nothing to poll and stays as it is.
pub proof fn lemma_empty_queue_is_idle(s: EngineState, now: u64)
    requires
        s.queue.len() == 0,
    ensures
        timeout_at(s, now).is_none(),
        after_dispatch(s, PollEngineDispatch::PollTimeout, now) == s,
        dispatch_outcome(s, PollEngineDispatch::PollTimeout) == PollEngineOutcome::NothingToPoll,
{
}

/// Registering an attribute and then deregistering it leaves the queue as it
/// is without that attribute, and changes nothing else. Where nothing else
/// was queued, the queue is empty again and no poll timer is started.
pub proof fn lemma_register_then_deregister(
    s: EngineState,
    attribute: Attribute,
    interval: u32,
    registered_at: u64,
    deregistered_at: u64,
    now: u64,
)
    requires
        distinct_attributes(s.queue),
    ensures
        ({
            let registered = after_command(
                s,
                PollEngineCommand::Register { attribute, interval },
                registered_at,
            );
            let deregistered = after_command(
                registered,
                PollEngineCommand::Deregister { attribute },
                deregistered_at,
            );
            &&& entry_index(registered.queue, attribute).is_some()
            &&& command_outcome(registered, PollEngineCommand::Deregister { attribute })
                == PollEngineOutcome::Done
            &&& deregistered == (EngineState { queue: removed(s.queue, attribute), ..s })
            &&& entry_index(deregistered.queue, attribute).is_none()
            &&& s.queue.len() == 0 ==> deregistered.queue.len() == 0 && timeout_at(
                deregistered,
                now,
            ).is_none()
        }),
{
    let used = effective_interval(s.config, interval);
    lemma_queue_then_remove(s.queue, attribute, used, registered_at);
    lemma_removed_entry(s.queue, attribute);
    lemma_entry_index(s.queue, attribute);
    lemma_entry_index(queued(s.queue, attribute, used, registered_at), attribute);
}

/// A suspended engine starts no poll timer, whatever is queued. Enabling it
/// brings the timer back as it would be had the engine never been suspended:
/// the queue and the time of the last poll are untouched by both commands.
pub proof fn lemma_disable_then_enable(s: EngineState, disabled_at: u64, enabled_at: u64, now: u64)
    ensures
        ({
            let disabled = after_command(s, PollEngineCommand::Disable, disabled_at);
            let enabled = after_command(disabled, PollEngineCommand::Enable, enabled_at);
            &&& timeout_at(disabled, now).is_none()
            &&& disabled == (EngineState { running: false, ..s })
            &&& enabled == (EngineState { running: true, ..s })
            &&& timeout_at(enabled, now).is_some() == (s.queue.len() > 0)
            &&& s.running ==> timeout_at(enabled, now) == timeout_at(s, now)
        }),
{
}

/// A delete notification takes a queued attribute out of the queue and leaves
/// every other entry in it. For an attribute that is not queued it changes
/// nothing and is answered with `NotQueued`.
pub proof fn lemma_delete_notification(s: EngineState, event: AttributeEvent, now: u64)
    requires
        distinct_attributes(s.queue),
        event.event_type == AttributeEventType::ATTRIBUTE_DELETED,
    ensures
        ({
            let after = after_attribute_update(s, event, now);
            let was_queued = entry_index(s.queue, event.attribute).is_some();
            &&& entry_index(after.queue, event.attribute).is_none()
            &&& forall|other: Attribute|
                other != event.attribute ==> (#[trigger] entry_index(after.queue, other)).is_some()
                    == entry_index(s.queue, other).is_some()
            &&& was_queued ==> after.queue.len() == s.queue.len() - 1 && attribute_update_outcome(
                s,
                event,
            ) == PollEngineOutcome::Done
            &&& !was_queued ==> after == s && attribute_update_outcome(s, event) == (
            PollEngineOutcome::NotQueued { attribute: event.attribute })
        }),
{
    lemma_removed_entry(s.queue, event.attribute);
}

/// A poll takes the attribute that the timer was set for: the one that is due
/// first. Once its mark is in place at `now`, that is the time of the last
/// poll, the attribute is queued again with the interval it had, due at `now`
/// plus that interval, and the queue is as long as before the poll. Where the
/// mark could not be placed, the attribute is out of the queue and the time of
/// the last poll is unchanged.
pub proof fn lemma_poll_cycle(s: EngineState, marked: bool, now: u64)
    requires
        distinct_attributes(s.queue),
        s.queue.len() > 0,
    ensures
        ({
            let due = s.queue[earliest_index(s.queue)];
            let pending = PendingPoll { attribute: due.attribute, interval: due.interval };
            let taken = after_poll_timeout(s);
            let after = after_poll_marked(taken, pending, marked, now);
            &&& poll_timeout_outcome(s) == PollEngineOutcome::MarkForPoll { pending }
            &&& entry_index(taken.queue, due.attribute).is_none()
            &&& taken.queue.len() == s.queue.len() - 1
            &&& marked ==> after.last_poll == now && after.queue == taken.queue.push(
                PollEntry {
                    attribute: due.attribute,
                    interval: due.interval,
                    deadline: (now + due.interval) as u64,
                },
            )
            &&& !marked ==> after == taken && after.last_poll == s.last_poll
        }),
{
    lemma_earliest_index(s.queue);
    let e = earliest_index(s.queue);
    lemma_entry_index_at(s.queue, e);
    lemma_removed_entry(s.queue, s.queue[e].attribute);
    assert(removed(s.queue, s.queue[e].attribute) == popped(s.queue));
}

/// The time of the last poll changes only when a poll is finished, and then
/// to the clock's reading: with a clock that does not run backwards it never
/// decreases and never lies ahead of the clock.
pub proof fn lemma_last_poll_follows_clock(
    s: EngineState,
    dispatch: PollEngineDispatch,
    pending: PendingPoll,
    marked: bool,
    now: u64,
)
    requires
        s.last_poll <= now,
    ensures
        after_dispatch(s, dispatch, now).last_poll == s.last_poll,
        s.last_poll <= after_poll_marked(s, pending, marked, now).last_poll <= now,
{
}

} // verus!
