//! The bounded log of the most recent links.

use vstd::prelude::*;

verus! {

/// How many entries the log keeps.
pub const HISTORY_CAPACITY: usize = 5;

/// One link that was created: where it points and where it lies.
pub struct HistoryEntry {
    source: String,
    destination: String,
}

impl View for HistoryEntry {
    type V = (Seq<char>, Seq<char>);

    closed spec fn view(&self) -> (Seq<char>, Seq<char>) {
        (self.source@, self.destination@)
    }
}

impl HistoryEntry {
    pub fn new(source: String, destination: String) -> (entry: HistoryEntry)
        ensures
            entry@ == (source@, destination@),
    {
        HistoryEntry { source, destination }
    }

    pub fn source(&self) -> (text: &str)
        ensures
            text@ == self@.0,
    {
        self.source.as_str()
    }

    pub fn destination(&self) -> (text: &str)
        ensures
            text@ == self@.1,
    {
        self.destination.as_str()
    }

    pub fn duplicate(&self) -> (copy: HistoryEntry)
        ensures
            copy@ == self@,
    {
        HistoryEntry { source: self.source.clone(), destination: self.destination.clone() }
    }
}

/// The log after `entry` was recorded in `log`: the entry comes last, and the
/// oldest entry leaves once there would be more than five.
pub open spec fn recorded<E>(log: Seq<E>, entry: E) -> Seq<E> {
    let grown = log.push(entry);
    if grown.len() > HISTORY_CAPACITY {
        grown.subrange(1, grown.len() as int)
    } else {
        grown
    }
}

/// The log after every entry of `entries` was recorded in `log`, first to last.
pub open spec fn recorded_all<E>(log: Seq<E>, entries: Seq<E>) -> Seq<E>
    decreases entries.len(),
{
    if entries.len() == 0 {
        log
    } else {
        recorded(recorded_all(log, entries.drop_last()), entries.last())
    }
}

/// The last `count` items of `items`, or all of them where there are fewer.
pub open spec fn latest<E>(items: Seq<E>, count: nat) -> Seq<E> {
    if items.len() <= count {
        items
    } else {
        items.subrange(items.len() - count, items.len() as int)
    }
}

/// A log that holds at most five entries still does after one more was
/// recorded, and the new entry is its last.
pub proof fn lemma_recorded_bounded<E>(log: Seq<E>, entry: E)
    requires
        log.len() <= HISTORY_CAPACITY,
    ensures
        recorded(log, entry).len() <= HISTORY_CAPACITY,
        recorded(log, entry).len() == if log.len() < HISTORY_CAPACITY {
            log.len() + 1
        } else {
            log.len()
        },
        recorded(log, entry).last() == entry,
{
}

/// Recording never brings a log above five entries, however many entries are
/// recorded, and what it holds are the latest of all that it was given:
/// recording `entries` in an empty log leaves the last five of them, in the
/// order in which they came.
pub proof fn lemma_log_keeps_latest<E>(entries: Seq<E>)
    ensures
        recorded_all(Seq::<E>::empty(), entries) == latest(entries, HISTORY_CAPACITY as nat),
        recorded_all(Seq::<E>::empty(), entries).len() <= HISTORY_CAPACITY,
    decreases entries.len(),
{
    if entries.len() > 0 {
        let earlier = entries.drop_last();
        lemma_log_keeps_latest(earlier);
        assert(recorded_all(Seq::<E>::empty(), entries) =~= latest(
            entries,
            HISTORY_CAPACITY as nat,
        ));
    }
}

/// After six links the first one has left the log: what is held are the
/// second to the sixth, so the first is found there only where it was
/// recorded again.
pub proof fn lemma_sixth_evicts_first<E>(entries: Seq<E>)
    requires
        entries.len() == 6,
    ensures
        recorded_all(Seq::<E>::empty(), entries) == entries.subrange(1, 6),
        (forall|i: int| 1 <= i < 6 ==> #[trigger] entries[i] != entries[0]) ==> !recorded_all(
            Seq::<E>::empty(),
            entries,
        ).contains(entries[0]),
{
    lemma_log_keeps_latest(entries);
}

/// The most recent links, oldest first, never more than five.
pub struct HistoryLog {
    entries: Vec<HistoryEntry>,
}

impl View for HistoryLog {
    type V = Seq<(Seq<char>, Seq<char>)>;

    closed spec fn view(&self) -> Seq<(Seq<char>, Seq<char>)> {
        Seq::new(self.entries@.len(), |i: int| self.entries@[i]@)
    }
}

impl HistoryLog {
    #[verifier::type_invariant]
    spec fn bounded(&self) -> bool {
        self.entries@.len() <= HISTORY_CAPACITY
    }

    pub fn new() -> (log: HistoryLog)
        ensures
            log@ == Seq::<(Seq<char>, Seq<char>)>::empty(),
    {
        HistoryLog { entries: Vec::new() }
    }

    pub fn len(&self) -> (count: usize)
        ensures
            count == self@.len(),
            count <= HISTORY_CAPACITY,
    {
        proof {
            use_type_invariant(self);
        }
        self.entries.len()
    }

    /// Appends an entry; the oldest one leaves where the log was full.
    pub fn record(&mut self, source: String, destination: String)
        ensures
            final(self)@ == recorded(old(self)@, (source@, destination@)),
            final(self)@.len() <= HISTORY_CAPACITY,
    {
        proof {
            use_type_invariant(&*self);
        }
        let mut entries: Vec<HistoryEntry> = Vec::new();
        core::mem::swap(&mut self.entries, &mut entries);
        if entries.len() >= HISTORY_CAPACITY {
            let _ = entries.remove(0);
        }
        entries.push(HistoryEntry::new(source, destination));
        self.entries = entries;
    }

    /// The entries, oldest first.
    pub fn items(&self) -> (list: Vec<HistoryEntry>)
        ensures
            list@.len() == self@.len(),
            forall|i: int| 0 <= i < list@.len() ==> (#[trigger] list@[i])@ == self@[i],
            list@.len() <= HISTORY_CAPACITY,
    {
        proof {
            use_type_invariant(self);
        }
        let mut list: Vec<HistoryEntry> = Vec::new();
        let mut i: usize = 0;
        while i < self.entries.len()
            invariant
                i <= self.entries@.len(),
                list@.len() == i,
                forall|j: int| 0 <= j < i ==> (#[trigger] list@[j])@ == self.entries@[j]@,
            decreases self.entries@.len() - i,
        {
            list.push(self.entries[i].duplicate());
            i += 1;
        }
        list
    }
}

} // verus!
