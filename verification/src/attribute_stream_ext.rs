//! A stream of store notifications that starts with the present: first one
//! forced update for every attribute that is in the store already, then the
//! changes as they happen.
//!
//! The forced updates wait in a backlog that is filled in the background. This
//! module chooses them and decides, each time the stream is polled, where the
//! next notification comes from; reading the backlog and the live stream is
//! the caller's part.

use crate::attribute::{Attribute, AttributeEvent, AttributeEventType, AttributeValueState};
use vstd::prelude::*;

verus! {

/// The notification that stands for an attribute that is already in the
/// store: an update of its reported value.
pub open spec fn forced_update(attribute: Attribute) -> AttributeEvent {
    AttributeEvent {
        attribute,
        event_type: AttributeEventType::ATTRIBUTE_UPDATED,
        value_state: AttributeValueState::REPORTED_ATTRIBUTE,
    }
}

/// Whether `changes` holds, in the order of `attributes`, the forced update
/// of each attribute for which `predicate` answered true, and nothing else.
pub open spec fn is_selection<F: Fn(&AttributeEvent) -> bool>(
    predicate: F,
    attributes: Seq<Attribute>,
    changes: Seq<AttributeEvent>,
) -> bool
    decreases attributes.len(),
{
    if attributes.len() == 0 {
        changes.len() == 0
    } else {
        let event = forced_update(attributes.last());
        ||| {
            &&& call_ensures(predicate, (&event,), true)
            &&& changes.len() > 0
            &&& changes.last() == event
            &&& is_selection(predicate, attributes.drop_last(), changes.drop_last())
        }
        ||| {
            &&& call_ensures(predicate, (&event,), false)
            &&& is_selection(predicate, attributes.drop_last(), changes)
        }
    }
}

/// The forced updates for the attributes of a store, given in the order in
/// which the store lists them, as far as `predicate` lets them pass.
pub fn get_changes<F: Fn(&AttributeEvent) -> bool>(attributes: &Vec<Attribute>, predicate: &F) -> (changes:
    Vec<AttributeEvent>)
    requires
        forall|event: AttributeEvent| call_requires(*predicate, (&event,)),
    ensures
        is_selection(*predicate, attributes@, changes@),
{
    let mut changes: Vec<AttributeEvent> = Vec::new();
    let n: usize = attributes.len();
    let mut k: usize = 0;
    while k < n
        invariant
            n == attributes@.len(),
            k <= n,
            forall|event: AttributeEvent| call_requires(*predicate, (&event,)),
            is_selection(*predicate, attributes@.take(k as int), changes@),
        decreases n - k,
    {
        let change = AttributeEvent {
            attribute: attributes[k],
            event_type: AttributeEventType::ATTRIBUTE_UPDATED,
            value_state: AttributeValueState::REPORTED_ATTRIBUTE,
        };
        let ghost before = changes@;
        let keep: bool = predicate(&change);
        if keep {
            changes.push(change);
        }
        proof {
            let upto = attributes@.take(k + 1);
            assert(upto.drop_last() =~= attributes@.take(k as int));
            assert(upto.last() == attributes@[k as int]);
            if keep {
                assert(changes@.drop_last() =~= before);
            }
        }
        k = k + 1;
    }
    assert(attributes@.take(n as int) =~= attributes@);
    changes
}

/// What a read of the backlog gave.
#[derive(Clone, Copy, Debug, PartialEq, Eq, Structural)]
pub enum BacklogRead {
    /// The next forced update.
    Event(AttributeEvent),
    /// Nothing: every forced update has been read.
    Closed,
    /// Nothing yet: the backlog is still being filled.
    Empty,
}

/// Where the next notification of the stream comes from.
#[derive(Clone, Copy, Debug, PartialEq, Eq, Structural)]
pub enum StreamPoll {
    /// The stream yields this forced update.
    Ready(AttributeEvent),
    /// Poll the live stream.
    PollLive,
    /// Make sure that the stream is polled again once the backlog had its
    /// chance to fill, then poll the live stream.
    WakeAndPollLive,
}

/// The answer to a poll of a stream whose backlog may or may not be open.
pub open spec fn stream_poll(backlog_open: bool, read: BacklogRead) -> StreamPoll {
    if !backlog_open {
        StreamPoll::PollLive
    } else {
        match read {
            BacklogRead::Event(event) => StreamPoll::Ready(event),
            BacklogRead::Closed => StreamPoll::PollLive,
            BacklogRead::Empty => StreamPoll::WakeAndPollLive,
        }
    }
}

/// The stream's bookkeeping: whether forced updates may still come.
pub struct ForceUpdateAttributeStream {
    backlog_open: bool,
}

impl ForceUpdateAttributeStream {
    /// Whether the backlog is still to be read before the live stream.
    pub closed spec fn backlog_open(&self) -> bool {
        self.backlog_open
    }

    /// Starts a stream over the attributes that the store lists. Returns the
    /// stream, with its backlog open, and the forced updates that are to be
    /// put into the backlog.
    pub fn new<F: Fn(&AttributeEvent) -> bool>(attributes: &Vec<Attribute>, predicate: &F) -> (made: (
        ForceUpdateAttributeStream,
        Vec<AttributeEvent>,
    ))
        requires
            forall|event: AttributeEvent| call_requires(*predicate, (&event,)),
        ensures
            made.0.backlog_open(),
            is_selection(*predicate, attributes@, made.1@),
    {
        (ForceUpdateAttributeStream { backlog_open: true }, get_changes(attributes, predicate))
    }

    /// Whether a poll has to read the backlog first.
    pub fn reads_backlog(&self) -> (open: bool)
        ensures
            open == self.backlog_open(),
    {
        self.backlog_open
    }

    /// Decides one poll of the stream. `read` is what the backlog gave; it is
    /// looked at only while the backlog is open. A forced update is yielded at
    /// once. Once the backlog reports that it is closed, it is never read
    /// again, and this poll and all later ones go to the live stream.
    pub fn poll_next(&mut self, read: BacklogRead) -> (poll: StreamPoll)
        ensures
            poll == stream_poll(old(self).backlog_open(), read),
            final(self).backlog_open() == (old(self).backlog_open() && read
                != BacklogRead::Closed),
    {
        if !self.backlog_open {
            return StreamPoll::PollLive;
        }
        match read {
            BacklogRead::Event(event) => StreamPoll::Ready(event),
            BacklogRead::Closed => {
                self.backlog_open = false;
                StreamPoll::PollLive
            },
            BacklogRead::Empty => StreamPoll::WakeAndPollLive,
        }
    }
}

} // verus!
