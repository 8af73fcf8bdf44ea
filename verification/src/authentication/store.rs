//! The session store: keys with a time to live.
//!
//! Sessions live in a store that forgets each key once its time to live has run
//! out. This module states what such a store does, as a map from keys to dated
//! entries, and holds an in-memory store that meets it. Time is a count of
//! seconds that the caller supplies.

use crate::authentication::text::same_text;
use vstd::prelude::*;

verus! {

/// Why the store gave no answer.
#[derive(Clone, Copy, Debug, PartialEq, Eq, Structural)]
pub enum StoreError {
    /// The store could not be reached, or did not answer in time.
    Unavailable,
}

/// How long a call to the store may take, in seconds.
pub const STORE_TIMEOUT_SECONDS: u64 = 2;

/// How one call to the store ended.
#[derive(Debug, PartialEq, Eq)]
pub enum Attempt<T> {
    /// The store answered.
    Answered(T),
    /// The connection or the transport failed.
    Failed,
    /// No answer came within `STORE_TIMEOUT_SECONDS`.
    TimedOut,
}

impl<T> Attempt<T> {
    /// The answer of the store, or that it was unavailable. A call that ran out
    /// of time counts as one that failed.
    pub fn outcome(self) -> (r: Result<T, StoreError>)
        ensures
            r == match self {
                Attempt::Answered(answer) => Ok::<T, StoreError>(answer),
                Attempt::Failed => Err::<T, StoreError>(StoreError::Unavailable),
                Attempt::TimedOut => Err::<T, StoreError>(StoreError::Unavailable),
            },
    {
        match self {
            Attempt::Answered(answer) => Ok(answer),
            Attempt::Failed => Err(StoreError::Unavailable),
            Attempt::TimedOut => Err(StoreError::Unavailable),
        }
    }
}

/// What the store holds under one key.
pub struct Entry {
    pub value: Seq<char>,
    pub stored_at: nat,
    pub ttl: nat,
}

/// The contents of a store: its entries by key, expired ones included.
pub type Sessions = Map<Seq<char>, Entry>;

/// True while the entry's time to live has not run out. An entry counts from
/// the moment it was written, so it is live at that moment unless its time to
/// live is zero.
pub open spec fn is_live(entry: Entry, now: nat) -> bool {
    now < entry.stored_at + entry.ttl
}

/// What a read of `key` at time `now` finds.
pub open spec fn lookup(sessions: Sessions, key: Seq<char>, now: nat) -> Option<Seq<char>> {
    if sessions.contains_key(key) && is_live(sessions[key], now) {
        Some(sessions[key].value)
    } else {
        None
    }
}

/// The contents after a write at time `now`; an entry under the same key is replaced.
pub open spec fn stored(
    sessions: Sessions,
    key: Seq<char>,
    value: Seq<char>,
    ttl: nat,
    now: nat,
) -> Sessions {
    sessions.insert(key, Entry { value, stored_at: now, ttl })
}

/// One key of the in-memory store.
struct Slot {
    key: String,
    value: String,
    stored_at: u64,
    ttl: u64,
}

impl Slot {
    spec fn entry(&self) -> Entry {
        Entry { value: self.value@, stored_at: self.stored_at as nat, ttl: self.ttl as nat }
    }
}

/// A store in memory, which can be switched to unreachable.
pub struct SessionStore {
    slots: Vec<Slot>,
    reachable: bool,
}

spec fn holds_at(slots: Seq<Slot>, key: Seq<char>, i: int) -> bool {
    0 <= i < slots.len() && slots[i].key@ == key
}

/// The slot that answers for a key is the first one that holds it.
spec fn first_at(slots: Seq<Slot>, key: Seq<char>, i: int) -> bool {
    holds_at(slots, key, i) && forall|j: int| 0 <= j < i ==> !holds_at(slots, key, j)
}

spec fn sessions_of(slots: Seq<Slot>) -> Sessions {
    Map::new(
        |key: Seq<char>| exists|i: int| first_at(slots, key, i),
        |key: Seq<char>| slots[choose|i: int| first_at(slots, key, i)].entry(),
    )
}

impl SessionStore {
    /// The entries of the store by key.
    pub closed spec fn view(&self) -> Sessions {
        sessions_of(self.slots@)
    }

    /// Whether the store answers.
    pub closed spec fn is_reachable(&self) -> bool {
        self.reachable
    }

    /// An empty store that answers.
    pub fn new() -> (store: SessionStore)
        ensures
            store@ == Map::<Seq<char>, Entry>::empty(),
            store.is_reachable(),
    {
        let store = SessionStore { slots: Vec::new(), reachable: true };
        assert forall|key: Seq<char>| !store@.contains_key(key) by {
            if store@.contains_key(key) {
                let i = choose|i: int| first_at(store.slots@, key, i);
                assert(holds_at(store.slots@, key, i));
            }
        }
        assert(store@ =~= Map::<Seq<char>, Entry>::empty());
        store
    }

    /// Makes the store answer, or fail, from now on. Its entries stay.
    pub fn set_reachable(&mut self, reachable: bool)
        ensures
            final(self)@ == old(self)@,
            final(self).is_reachable() == reachable,
    {
        self.reachable = reachable;
    }

    fn position(&self, key: &str) -> (r: Option<usize>)
        ensures
            match r {
                Some(i) => first_at(self.slots@, key@, i as int),
                None => forall|i: int| !holds_at(self.slots@, key@, i),
            },
    {
        let mut i: usize = 0;
        while i < self.slots.len()
            invariant
                i <= self.slots.len(),
                forall|j: int| 0 <= j < i ==> self.slots@[j].key@ != key@,
            decreases self.slots.len() - i,
        {
            if same_text(self.slots[i].key.as_str(), key) {
                return Some(i);
            }
            i = i + 1;
        }
        None
    }

    /// Sets `key` to `value` for `ttl` seconds from `now`, replacing what was there.
    /// An unreachable store fails and keeps its entries.
    pub fn put(&mut self, key: &str, value: &str, ttl: u64, now: u64) -> (r: Result<
        (),
        StoreError,
    >)
        ensures
            final(self).is_reachable() == old(self).is_reachable(),
            old(self).is_reachable() ==> r is Ok && final(self)@ == stored(
                old(self)@,
                key@,
                value@,
                ttl as nat,
                now as nat,
            ),
            !old(self).is_reachable() ==> r == Err::<(), _>(StoreError::Unavailable)
                && final(self)@ == old(self)@,
    {
        if !self.reachable {
            return Err(StoreError::Unavailable);
        }
        let slot = Slot { key: key.to_owned(), value: value.to_owned(), stored_at: now, ttl };
        let ghost before = self.slots@;
        match self.position(key) {
            Some(i) => {
                self.slots.set(i, slot);
                proof {
                    lemma_replaced(before, self.slots@, i as int, key@);
                }
            },
            None => {
                self.slots.push(slot);
                proof {
                    lemma_appended(before, self.slots@, key@);
                }
            },
        }
        Ok(())
    }

    /// The value under `key` if it is there and its time to live has not run out
    /// at `now`. An unreachable store fails.
    pub fn get(&self, key: &str, now: u64) -> (r: Result<Option<String>, StoreError>)
        ensures
            self.is_reachable() ==> r is Ok && found_view(r->Ok_0) == lookup(
                self@,
                key@,
                now as nat,
            ),
            !self.is_reachable() ==> r == Err::<Option<String>, _>(StoreError::Unavailable),
    {
        if !self.reachable {
            return Err(StoreError::Unavailable);
        }
        match self.position(key) {
            Some(i) => {
                let slot = &self.slots[i];
                proof {
                    lemma_held(self.slots@, i as int, key@);
                }
                if now < slot.stored_at || now - slot.stored_at < slot.ttl {
                    Ok(Some(slot.value.clone()))
                } else {
                    Ok(None)
                }
            },
            None => Ok(None),
        }
    }
}

/// The view of what a read found.
pub open spec fn found_view(found: Option<String>) -> Option<Seq<char>> {
    match found {
        Some(value) => Some(value@),
        None => None,
    }
}

proof fn lemma_held(slots: Seq<Slot>, i: int, key: Seq<char>)
    requires
        first_at(slots, key, i),
    ensures
        sessions_of(slots).contains_key(key),
        sessions_of(slots)[key] == slots[i].entry(),
{
    let j = choose|j: int| first_at(slots, key, j);
    assert(i == j) by {
        if i < j {
            assert(holds_at(slots, key, i));
        }
        if j < i {
            assert(holds_at(slots, key, j));
        }
    }
}

proof fn lemma_same_keys(before: Seq<Slot>, after: Seq<Slot>, key: Seq<char>, i: int)
    requires
        after.len() >= before.len(),
        forall|j: int| 0 <= j < before.len() ==> after[j].key@ == before[j].key@,
        first_at(before, key, i),
    ensures
        first_at(after, key, i),
{
    assert forall|j: int| 0 <= j < i implies !holds_at(after, key, j) by {
        assert(!holds_at(before, key, j));
    }
}

proof fn lemma_replaced(before: Seq<Slot>, after: Seq<Slot>, i: int, key: Seq<char>)
    requires
        first_at(before, key, i),
        after == before.update(i, after[i]),
        after[i].key@ == key,
    ensures
        sessions_of(after) == sessions_of(before).insert(key, after[i].entry()),
{
    let m = sessions_of(before).insert(key, after[i].entry());
    assert forall|k: Seq<char>| sessions_of(after).contains_key(k) == m.contains_key(k) by {
        if sessions_of(after).contains_key(k) {
            let j = choose|j: int| first_at(after, k, j);
            lemma_same_keys(after, before, k, j);
        }
        if m.contains_key(k) && k != key {
            let j = choose|j: int| first_at(before, k, j);
            lemma_same_keys(before, after, k, j);
        }
        if k == key {
            lemma_same_keys(before, after, k, i);
        }
    }
    assert forall|k: Seq<char>| sessions_of(after).contains_key(k) implies sessions_of(after)[k]
        == m[k] by {
        let j = choose|j: int| first_at(after, k, j);
        lemma_held(after, j, k);
        lemma_same_keys(after, before, k, j);
        lemma_held(before, j, k);
        if k == key {
            lemma_same_keys(before, after, k, i);
            lemma_held(after, i, k);
        }
    }
    assert(sessions_of(after) =~= m);
}

proof fn lemma_appended(before: Seq<Slot>, after: Seq<Slot>, key: Seq<char>)
    requires
        forall|i: int| !holds_at(before, key, i),
        after == before.push(after[before.len() as int]),
        after.len() == before.len() + 1,
        after[before.len() as int].key@ == key,
    ensures
        sessions_of(after) == sessions_of(before).insert(key, after[before.len() as int].entry()),
{
    let n = before.len() as int;
    assert(first_at(after, key, n)) by {
        assert forall|j: int| 0 <= j < n implies !holds_at(after, key, j) by {
            assert(after[j] == before[j]);
            assert(!holds_at(before, key, j));
        }
    }
    let m = sessions_of(before).insert(key, after[n].entry());
    assert forall|k: Seq<char>| sessions_of(after).contains_key(k) == m.contains_key(k) by {
        if sessions_of(after).contains_key(k) && k != key {
            let j = choose|j: int| first_at(after, k, j);
            assert(j < n);
            assert forall|l: int| 0 <= l < j implies !holds_at(before, k, l) by {
                assert(!holds_at(after, k, l));
                assert(after[l] == before[l]);
            }
            assert(after[j] == before[j]);
            assert(first_at(before, k, j));
        }
        if m.contains_key(k) && k != key {
            let j = choose|j: int| first_at(before, k, j);
            lemma_same_keys(before, after, k, j);
        }
    }
    assert forall|k: Seq<char>| sessions_of(after).contains_key(k) implies sessions_of(after)[k]
        == m[k] by {
        let j = choose|j: int| first_at(after, k, j);
        lemma_held(after, j, k);
        if k != key {
            assert(j < n);
            assert forall|l: int| 0 <= l < j implies !holds_at(before, k, l) by {
                assert(!holds_at(after, k, l));
                assert(after[l] == before[l]);
            }
            assert(after[j] == before[j]);
            assert(first_at(before, k, j));
            lemma_held(before, j, k);
        } else {
            lemma_held(after, n, k);
        }
    }
    assert(sessions_of(after) =~= m);
}

} // verus!
