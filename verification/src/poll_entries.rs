//! The poll queue: one entry per registered attribute, ordered by deadline.

use crate::attribute::Attribute;
use vstd::prelude::*;

verus! {

/// One attribute waiting to be polled.
#[derive(Clone, Copy, Debug, PartialEq, Eq, Structural)]
pub struct PollEntry {
    pub attribute: Attribute,
    /// Seconds between two polls of the attribute.
    pub interval: u64,
    /// Clock reading, in seconds, from which the attribute may be polled.
    pub deadline: u64,
}

/// No two entries are for the same attribute.
pub open spec fn distinct_attributes(s: Seq<PollEntry>) -> bool {
    forall|i: int, j: int|
        0 <= i < s.len() && 0 <= j < s.len() && i != j ==> s[i].attribute != s[j].attribute
}

/// Position of the first entry for `attribute`, if there is one.
pub open spec fn entry_index(s: Seq<PollEntry>, attribute: Attribute) -> Option<int>
    decreases s.len(),
{
    if s.len() == 0 {
        None
    } else {
        match entry_index(s.drop_last(), attribute) {
            Some(i) => Some(i),
            None => if s.last().attribute == attribute {
                Some(s.len() - 1)
            } else {
                None
            },
        }
    }
}

/// Position of the entry that is due first. Of several entries with the
/// earliest deadline, the one that stands first in the queue. 0 for an empty
/// queue.
pub open spec fn earliest_index(s: Seq<PollEntry>) -> int
    decreases s.len(),
{
    if s.len() <= 1 {
        0
    } else {
        let i = earliest_index(s.drop_last());
        if s.last().deadline < s[i].deadline {
            s.len() - 1
        } else {
            i
        }
    }
}

/// The entry that `queue` writes.
pub open spec fn fresh_entry(attribute: Attribute, interval: u64, now: u64) -> PollEntry {
    PollEntry { attribute, interval, deadline: (now + interval) as u64 }
}

/// The queue after `attribute` was queued at `now`: its entry is rewritten in
/// place, or appended where it had none.
pub open spec fn queued(s: Seq<PollEntry>, attribute: Attribute, interval: u64, now: u64) -> Seq<
    PollEntry,
> {
    match entry_index(s, attribute) {
        Some(i) => s.update(i, fresh_entry(attribute, interval, now)),
        None => s.push(fresh_entry(attribute, interval, now)),
    }
}

/// The queue after `attribute` was requeued at `now`: its entry keeps its
/// interval and gets a new deadline. Without an entry nothing changes.
pub open spec fn requeued(s: Seq<PollEntry>, attribute: Attribute, now: u64) -> Seq<PollEntry> {
    match entry_index(s, attribute) {
        Some(i) => s.update(i, fresh_entry(attribute, s[i].interval, now)),
        None => s,
    }
}

/// The queue without the entry of `attribute`.
pub open spec fn removed(s: Seq<PollEntry>, attribute: Attribute) -> Seq<PollEntry> {
    match entry_index(s, attribute) {
        Some(i) => s.remove(i),
        None => s,
    }
}

/// The queue without the entry that is due first.
pub open spec fn popped(s: Seq<PollEntry>) -> Seq<PollEntry> {
    if s.len() == 0 {
        s
    } else {
        s.remove(earliest_index(s))
    }
}

/// `entry_index` finds the first entry of the attribute, and finds one
/// whenever the queue holds one.
pub proof fn lemma_entry_index(s: Seq<PollEntry>, attribute: Attribute)
    ensures
        match entry_index(s, attribute) {
            Some(i) => 0 <= i < s.len() && s[i].attribute == attribute && forall|j: int|
                0 <= j < i ==> s[j].attribute != attribute,
            None => forall|j: int| 0 <= j < s.len() ==> s[j].attribute != attribute,
        },
    decreases s.len(),
{
    if s.len() > 0 {
        let front = s.drop_last();
        lemma_entry_index(front, attribute);
        assert(forall|j: int| 0 <= j < front.len() ==> front[j] == s[j]);
    }
}

/// In a queue without duplicates, the position of an entry is the index of
/// its attribute.
pub proof fn lemma_entry_index_at(s: Seq<PollEntry>, i: int)
    requires
        distinct_attributes(s),
        0 <= i < s.len(),
    ensures
        entry_index(s, s[i].attribute) == Some(i),
{
    lemma_entry_index(s, s[i].attribute);
}

/// No entry has an earlier deadline than the one at `earliest_index`, and
/// every entry before it has a later one.
pub proof fn lemma_earliest_index(s: Seq<PollEntry>)
    requires
        s.len() > 0,
    ensures
        0 <= earliest_index(s) < s.len(),
        forall|j: int| 0 <= j < s.len() ==> s[earliest_index(s)].deadline <= (#[trigger] s[j]).deadline,
        forall|j: int|
            0 <= j < earliest_index(s) ==> s[earliest_index(s)].deadline < (#[trigger] s[j]).deadline,
    decreases s.len(),
{
    if s.len() > 1 {
        let front = s.drop_last();
        lemma_earliest_index(front);
        let e = earliest_index(s);
        assert forall|j: int| 0 <= j < s.len() implies s[e].deadline <= (#[trigger] s[j]).deadline by {
            if j < front.len() {
                assert(front[j] == s[j]);
            }
        }
        assert forall|j: int| 0 <= j < e implies s[e].deadline < (#[trigger] s[j]).deadline by {
            assert(front[j] == s[j]);
        }
    }
}

/// Each of the four changes keeps the queue free of duplicates.
pub proof fn lemma_changes_keep_distinct(
    s: Seq<PollEntry>,
    attribute: Attribute,
    interval: u64,
    now: u64,
)
    requires
        distinct_attributes(s),
    ensures
        distinct_attributes(queued(s, attribute, interval, now)),
        distinct_attributes(requeued(s, attribute, now)),
        distinct_attributes(removed(s, attribute)),
        distinct_attributes(popped(s)),
{
    lemma_entry_index(s, attribute);
    if s.len() > 0 {
        lemma_earliest_index(s);
    }
}

/// The queue of a poll engine. It holds at most one entry per attribute; its
/// view is the sequence of its entries, oldest registration first.
pub struct PollEntries {
    entries: Vec<PollEntry>,
}

impl View for PollEntries {
    type V = Seq<PollEntry>;

    closed spec fn view(&self) -> Seq<PollEntry> {
        self.entries@
    }
}

impl PollEntries {
    /// The queue's invariant: no attribute has two entries.
    pub open spec fn wf(&self) -> bool {
        distinct_attributes(self@)
    }

    /// An empty queue.
    pub fn new() -> (queue: PollEntries)
        ensures
            queue.wf(),
            queue@ == Seq::<PollEntry>::empty(),
    {
        PollEntries { entries: Vec::new() }
    }

    /// Number of entries.
    pub fn len(&self) -> (n: usize)
        ensures
            n == self@.len(),
    {
        self.entries.len()
    }

    /// Whether no attribute is queued.
    pub fn is_empty(&self) -> (empty: bool)
        ensures
            empty == (self@.len() == 0),
    {
        self.entries.len() == 0
    }

    /// The entry at `index`, counted from the oldest registration.
    pub fn get(&self, index: usize) -> (entry: Option<PollEntry>)
        ensures
            entry == if index < self@.len() {
                Some(self@[index as int])
            } else {
                None
            },
    {
        if index < self.entries.len() {
            Some(self.entries[index])
        } else {
            None
        }
    }

    fn position(&self, attribute: &Attribute) -> (found: Option<usize>)
        ensures
            match found {
                Some(i) => entry_index(self@, *attribute) == Some(i as int) && i < self@.len(),
                None => entry_index(self@, *attribute).is_none(),
            },
    {
        let n: usize = self.entries.len();
        let mut k: usize = 0;
        while k < n
            invariant
                n == self.entries@.len(),
                k <= n,
                forall|j: int| 0 <= j < k ==> self.entries@[j].attribute != *attribute,
            decreases n - k,
        {
            if self.entries[k].attribute == *attribute {
                proof {
                    lemma_entry_index(self.entries@, *attribute);
                }
                return Some(k);
            }
            k = k + 1;
        }
        proof {
            lemma_entry_index(self.entries@, *attribute);
        }
        None
    }

    /// Whether `attribute` has an entry.
    pub fn contains(&self, attribute: &Attribute) -> (present: bool)
        ensures
            present == entry_index(self@, *attribute).is_some(),
    {
        self.position(attribute).is_some()
    }

    /// Inserts the entry for `attribute`, or replaces the one it has. The
    /// deadline is `now + interval`; with interval 0 the attribute is due at
    /// once. Returns whether the attribute was new to the queue.
    pub fn queue(&mut self, attribute: Attribute, interval: u64, now: u64) -> (inserted: bool)
        requires
            old(self).wf(),
            now + interval <= u64::MAX,
        ensures
            final(self).wf(),
            final(self)@ == queued(old(self)@, attribute, interval, now),
            inserted == entry_index(old(self)@, attribute).is_none(),
    {
        proof {
            lemma_changes_keep_distinct(self@, attribute, interval, now);
        }
        let entry = PollEntry { attribute, interval, deadline: now + interval };
        match self.position(&attribute) {
            Some(i) => {
                self.entries.set(i, entry);
                false
            },
            None => {
                self.entries.push(entry);
                true
            },
        }
    }

    /// Gives the entry of `attribute` the deadline `now` plus its stored
    /// interval. Returns false, and changes nothing, where the attribute has
    /// no entry.
    pub fn requeue(&mut self, attribute: Attribute, now: u64) -> (found: bool)
        requires
            old(self).wf(),
            match entry_index(old(self)@, attribute) {
                Some(i) => now + old(self)@[i].interval <= u64::MAX,
                None => true,
            },
        ensures
            final(self).wf(),
            final(self)@ == requeued(old(self)@, attribute, now),
            found == entry_index(old(self)@, attribute).is_some(),
    {
        proof {
            lemma_changes_keep_distinct(self@, attribute, 0, now);
        }
        match self.position(&attribute) {
            Some(i) => {
                let interval: u64 = self.entries[i].interval;
                self.entries.set(i, PollEntry { attribute, interval, deadline: now + interval });
                true
            },
            None => false,
        }
    }

    /// Removes the entry of `attribute`. Returns false, and changes nothing,
    /// where it has none.
    pub fn remove(&mut self, attribute: &Attribute) -> (found: bool)
        requires
            old(self).wf(),
        ensures
            final(self).wf(),
            final(self)@ == removed(old(self)@, *attribute),
            found == entry_index(old(self)@, *attribute).is_some(),
    {
        proof {
            lemma_changes_keep_distinct(self@, *attribute, 0, 0);
        }
        match self.position(attribute) {
            Some(i) => {
                self.entries.remove(i);
                true
            },
            None => false,
        }
    }

    fn earliest(&self) -> (best: usize)
        requires
            self@.len() > 0,
        ensures
            best == earliest_index(self@),
            best < self@.len(),
    {
        let n: usize = self.entries.len();
        let mut best: usize = 0;
        let mut k: usize = 1;
        assert(self.entries@.take(1).len() == 1);
        while k < n
            invariant
                n == self.entries@.len(),
                1 <= k <= n,
                best < k,
                best == earliest_index(self.entries@.take(k as int)),
            decreases n - k,
        {
            proof {
                let upto = self.entries@.take(k + 1);
                assert(upto.drop_last() =~= self.entries@.take(k as int));
                assert(upto.last() == self.entries@[k as int]);
                assert(upto[best as int] == self.entries@[best as int]);
            }
            if self.entries[k].deadline < self.entries[best].deadline {
                best = k;
            }
            k = k + 1;
        }
        assert(self.entries@.take(n as int) =~= self.entries@);
        best
    }

    /// The attribute that is due first, with its deadline. Of several
    /// attributes with the earliest deadline, the one that stands first in the
    /// queue. `None` exactly for an empty queue.
    pub fn upcoming(&self) -> (next: Option<(Attribute, u64)>)
        ensures
            next == if self@.len() == 0 {
                None
            } else {
                Some((self@[earliest_index(self@)].attribute, self@[earliest_index(self@)].deadline))
            },
    {
        if self.entries.len() == 0 {
            None
        } else {
            let best: usize = self.earliest();
            Some((self.entries[best].attribute, self.entries[best].deadline))
        }
    }

    /// Removes the entry that `upcoming` names and returns its attribute with
    /// its interval. `None` exactly for an empty queue, which stays empty.
    pub fn pop_next(&mut self) -> (next: Option<(Attribute, u64)>)
        requires
            old(self).wf(),
        ensures
            final(self).wf(),
            final(self)@ == popped(old(self)@),
            next == if old(self)@.len() == 0 {
                None
            } else {
                Some(
                    (
                        old(self)@[earliest_index(old(self)@)].attribute,
                        old(self)@[earliest_index(old(self)@)].interval,
                    ),
                )
            },
    {
        proof {
            lemma_changes_keep_distinct(self@, Attribute { handle: 0, type_id: 0 }, 0, 0);
        }
        if self.entries.len() == 0 {
            None
        } else {
            let best: usize = self.earliest();
            let entry: PollEntry = self.entries.remove(best);
            Some((entry.attribute, entry.interval))
        }
    }
}

/// After `queue`, the attribute has exactly the entry that was written, at
/// the place its old entry had or at the end. The queue grows by one where
/// the attribute was new, and keeps its length where it was not: queueing an
/// attribute again never gives it a second entry.
pub proof fn lemma_queued_entry(s: Seq<PollEntry>, attribute: Attribute, interval: u64, now: u64)
    ensures
        ({
            let q = queued(s, attribute, interval, now);
            &&& entry_index(q, attribute) == Some(
                match entry_index(s, attribute) {
                    Some(i) => i,
                    None => s.len() as int,
                },
            )
            &&& q[entry_index(q, attribute).unwrap()] == fresh_entry(attribute, interval, now)
            &&& q.len() == if entry_index(s, attribute).is_some() {
                s.len()
            } else {
                s.len() + 1
            }
        }),
{
    let q = queued(s, attribute, interval, now);
    lemma_entry_index(s, attribute);
    lemma_entry_index(q, attribute);
    match entry_index(s, attribute) {
        Some(i) => {
            assert(q[i].attribute == attribute);
            assert(forall|j: int| 0 <= j < i ==> q[j] == s[j]);
        },
        None => {
            assert(q.drop_last() =~= s);
        },
    }
}

/// After `remove`, the attribute has no entry, and every other entry is still
/// there, in the same order.
pub proof fn lemma_removed_entry(s: Seq<PollEntry>, attribute: Attribute)
    requires
        distinct_attributes(s),
    ensures
        entry_index(removed(s, attribute), attribute).is_none(),
        removed(s, attribute).len() == if entry_index(s, attribute).is_some() {
            s.len() - 1
        } else {
            s.len() as int
        },
        forall|other: Attribute|
            other != attribute ==> (#[trigger] entry_index(removed(s, attribute), other)).is_some()
                == entry_index(s, other).is_some(),
{
    let r = removed(s, attribute);
    lemma_entry_index(s, attribute);
    lemma_entry_index(r, attribute);
    assert forall|other: Attribute| other != attribute implies (#[trigger] entry_index(
        r,
        other,
    )).is_some() == entry_index(s, other).is_some() by {
        lemma_entry_index(s, other);
        lemma_entry_index(r, other);
        match entry_index(s, attribute) {
            Some(i) => {
                if let Some(k) = entry_index(s, other) {
                    let at: int = if k < i {
                        k
                    } else {
                        k - 1
                    };
                    assert(r[at] == s[k]);
                }
                if let Some(k) = entry_index(r, other) {
                    let at: int = if k < i {
                        k
                    } else {
                        k + 1
                    };
                    assert(s[at] == r[k]);
                }
            },
            None => {},
        }
    }
}

/// Queueing an attribute and then removing it leaves the queue as it is
/// without that attribute.
pub proof fn lemma_queue_then_remove(s: Seq<PollEntry>, attribute: Attribute, interval: u64, now: u64)
    ensures
        removed(queued(s, attribute, interval, now), attribute) == removed(s, attribute),
{
    lemma_queued_entry(s, attribute, interval, now);
    lemma_entry_index(s, attribute);
    assert(removed(queued(s, attribute, interval, now), attribute) =~= removed(s, attribute));
}

} // verus!
