//! The bounded store of log entries.
//!
//! Entries are kept in arrival order. The store never holds more than
//! `CAPACITY` entries: an append that would exceed it first drops the
//! `EVICTION_BLOCK` oldest ones.

use vstd::prelude::*;

verus! {

/// The most entries that the buffer ever holds.
pub const CAPACITY: usize = 10000;

/// How many of the oldest entries leave when the buffer is full.
pub const EVICTION_BLOCK: usize = 1000;

/// One line of log output with the moment it belongs to.
#[derive(Debug)]
pub struct LogEntry {
    /// The moment, written as `YYYY-MM-DD HH:MM:SS`.
    pub timestamp: String,
    /// The line, without the timestamp that was found in it.
    pub content: String,
}

/// What a `LogEntry` holds, as sequences of characters.
pub struct EntryView {
    pub timestamp: Seq<char>,
    pub content: Seq<char>,
}

impl View for LogEntry {
    type V = EntryView;

    open spec fn view(&self) -> EntryView {
        EntryView { timestamp: self.timestamp@, content: self.content@ }
    }
}

/// The sequence `s` after `e` arrives: `e` goes to the end, and where that
/// would make more than `CAPACITY`, the `EVICTION_BLOCK` oldest leave.
pub open spec fn appended<T>(s: Seq<T>, e: T) -> Seq<T> {
    if s.len() + 1 > CAPACITY {
        s.push(e).skip(EVICTION_BLOCK as int)
    } else {
        s.push(e)
    }
}

/// The sequence `s` after the items of `es` arrive one by one, `es[0]` first.
pub open spec fn appended_all<T>(s: Seq<T>, es: Seq<T>) -> Seq<T>
    decreases es.len(),
{
    if es.len() == 0 {
        s
    } else {
        appended(appended_all(s, es.drop_last()), es.last())
    }
}

/// An append never leaves more than `CAPACITY` entries.
pub proof fn lemma_append_bounded<T>(s: Seq<T>, e: T)
    requires
        s.len() <= CAPACITY,
    ensures
        appended(s, e).len() <= CAPACITY,
        appended(s, e).len() >= 1,
        appended(s, e).last() == e,
{
}

/// Below capacity an append only adds the entry at the end.
pub proof fn lemma_append_below_capacity<T>(s: Seq<T>, e: T)
    requires
        s.len() < CAPACITY,
    ensures
        appended(s, e) == s.push(e),
{
}

/// An append to a full buffer leaves `CAPACITY - EVICTION_BLOCK + 1` entries:
/// the `EVICTION_BLOCK` oldest are gone, the others keep their order, and the
/// new entry comes last.
pub proof fn lemma_append_evicts_oldest_block<T>(s: Seq<T>, e: T)
    requires
        s.len() == CAPACITY,
    ensures
        appended(s, e).len() == CAPACITY - EVICTION_BLOCK + 1,
        appended(s, e) == s.skip(EVICTION_BLOCK as int).push(e),
        forall|i: int|
            0 <= i < CAPACITY - EVICTION_BLOCK ==> #[trigger] appended(s, e)[i] == s[i
                + EVICTION_BLOCK],
{
}

/// Whatever arrives, and however much: the buffer never holds more than
/// `CAPACITY` entries, and what it holds is the newest part of all that ever
/// arrived, in arrival order.
pub proof fn lemma_appends_keep_newest_in_order<T>(s: Seq<T>, es: Seq<T>)
    requires
        s.len() <= CAPACITY,
    ensures
        appended_all(s, es).len() <= CAPACITY,
        exists|k: int|
            0 <= k <= (s + es).len() && appended_all(s, es) == #[trigger] (s + es).skip(k),
    decreases es.len(),
{
    if es.len() == 0 {
        assert((s + es).skip(0) =~= s);
    } else {
        let front = es.drop_last();
        lemma_appends_keep_newest_in_order(s, front);
        let before = appended_all(s, front);
        let k = choose|k: int| 0 <= k <= (s + front).len() && before == (s + front).skip(k);
        if before.len() + 1 > CAPACITY {
            assert(before.push(es.last()).skip(EVICTION_BLOCK as int) =~= (s + es).skip(
                k + EVICTION_BLOCK,
            ));
        } else {
            assert(before.push(es.last()) =~= (s + es).skip(k));
        }
    }
}

/// What arrives in two batches leaves the buffer as if it had arrived in
/// one.
pub proof fn lemma_appends_compose<T>(s: Seq<T>, first: Seq<T>, second: Seq<T>)
    ensures
        appended_all(appended_all(s, first), second) == appended_all(s, first + second),
    decreases second.len(),
{
    if second.len() > 0 {
        lemma_appends_compose(s, first, second.drop_last());
        assert((first + second).drop_last() =~= first + second.drop_last());
    }
}

/// The bounded, ordered store of entries.
pub struct LogBuffer {
    entries: Vec<LogEntry>,
}

impl View for LogBuffer {
    type V = Seq<EntryView>;

    closed spec fn view(&self) -> Seq<EntryView> {
        self.entries@.map_values(|e: LogEntry| e@)
    }
}

impl LogBuffer {
    #[verifier::type_invariant]
    spec fn within_capacity(&self) -> bool {
        self.entries.len() <= CAPACITY
    }

    /// An empty buffer.
    pub fn new() -> (buffer: Self)
        ensures
            buffer@ == Seq::<EntryView>::empty(),
    {
        let buffer = LogBuffer { entries: Vec::new() };
        buffer
    }

    /// The number of entries held, never more than `CAPACITY`.
    pub fn len(&self) -> (n: usize)
        ensures
            n == self@.len(),
            n <= CAPACITY,
    {
        proof {
            use_type_invariant(self);
        }
        self.entries.len()
    }

    /// The entry at position `i`, counted from the oldest.
    pub fn get(&self, i: usize) -> (entry: &LogEntry)
        requires
            i < self@.len(),
        ensures
            entry@ == self@[i as int],
    {
        &self.entries[i]
    }

    /// Adds `entry` as the newest; a full buffer first drops its
    /// `EVICTION_BLOCK` oldest entries.
    pub fn append(&mut self, entry: LogEntry)
        ensures
            final(self)@ == appended(old(self)@, entry@),
            final(self)@.len() <= CAPACITY,
    {
        proof {
            use_type_invariant(&*self);
        }
        let mut entries: Vec<LogEntry> = Vec::new();
        core::mem::swap(&mut self.entries, &mut entries);
        if entries.len() >= CAPACITY {
            entries = entries.split_off(EVICTION_BLOCK);
        }
        entries.push(entry);
        self.entries = entries;
    }

    /// Drops every entry.
    pub fn clear(&mut self)
        ensures
            final(self)@ == Seq::<EntryView>::empty(),
    {
        self.entries = Vec::new();
    }
}

} // verus!
