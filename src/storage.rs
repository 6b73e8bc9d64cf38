use crate::primitives::Word;
use vstd::prelude::*;

verus! {

/// The value stored under the first of `entries` from `i` on whose key equals `key`.
pub open spec fn stored_value(entries: Seq<(Word, Word)>, key: Word, i: int) -> Option<Word>
    decreases entries.len() - i,
{
    if i < 0 || i >= entries.len() {
        None
    } else if entries[i].0.bytes@ == key.bytes@ {
        Some(entries[i].1)
    } else {
        stored_value(entries, key, i + 1)
    }
}

/// An account's persistent key-to-word mapping.
#[derive(Debug)]
pub struct Storage {
    entries: Vec<(Word, Word)>,
}

impl View for Storage {
    type V = Seq<(Word, Word)>;

    /// The (key, value) entries, one per key, in the order of insertion.
    closed spec fn view(&self) -> Seq<(Word, Word)> {
        self.entries@
    }
}

impl Storage {
    /// The word stored under `key`, if any.
    pub open spec fn lookup(&self, key: Word) -> Option<Word> {
        stored_value(self@, key, 0)
    }

    /// No key is stored twice.
    pub closed spec fn wf(&self) -> bool {
        forall|i: int, j: int|
            0 <= i < j < self.entries@.len() ==> self.entries@[i].0.bytes@
                != self.entries@[j].0.bytes@
    }

    pub fn new() -> (r: Storage)
        ensures
            r.wf(),
            r@.len() == 0,
    {
        Storage { entries: Vec::new() }
    }

    /// Where `key` is stored in the entries.
    fn position(&self, key: &Word) -> (r: Option<usize>)
        ensures
            r is None ==> self.lookup(*key) is None,
            r is None ==> forall|k: int| 0 <= k < self@.len() ==> self@[k].0.bytes@ != key.bytes@,
            r matches Some(i) ==> i < self@.len() && self.lookup(*key) == Some(self@[i as int].1)
                && self@[i as int].0.bytes@ == key.bytes@ && forall|k: int|
                0 <= k < i ==> self@[k].0.bytes@ != key.bytes@,
    {
        let mut i: usize = 0;
        while i < self.entries.len()
            invariant
                0 <= i <= self.entries@.len(),
                stored_value(self.entries@, *key, 0) == stored_value(self.entries@, *key, i as int),
                forall|k: int| 0 <= k < i ==> self.entries@[k].0.bytes@ != key.bytes@,
            decreases self.entries@.len() - i,
        {
            if self.entries[i].0 == *key {
                return Some(i);
            }
            i = i + 1;
        }
        None
    }

    /// The word stored under `key`, if any.
    pub fn get(&self, key: &Word) -> (r: Option<Word>)
        ensures
            r == self.lookup(*key),
    {
        match self.position(key) {
            Some(i) => Some(self.entries[i].1),
            None => None,
        }
    }

    /// Stores `value` under `key`, replacing what was stored there.
    pub fn insert(&mut self, key: Word, value: Word)
        requires
            old(self).wf(),
        ensures
            final(self).wf(),
            final(self).lookup(key) == Some(value),
            forall|other: Word|
                other.bytes@ != key.bytes@ ==> final(self).lookup(other) == old(self).lookup(other),
    {
        match self.position(&key) {
            Some(i) => {
                self.entries.set(i, (key, value));
                proof {
                    lemma_stored_value_update(old(self).entries@, i as int, key, value, 0);
                }
            },
            None => {
                self.entries.push((key, value));
                proof {
                    lemma_stored_value_push(old(self).entries@, key, value, 0);
                }
            },
        }
    }
}

proof fn lemma_stored_value_update(
    entries: Seq<(Word, Word)>,
    j: int,
    key: Word,
    value: Word,
    i: int,
)
    requires
        0 <= i <= j < entries.len(),
        entries[j].0.bytes@ == key.bytes@,
        stored_value(entries, key, i) == Some(entries[j].1),
        forall|k: int| i <= k < j ==> entries[k].0.bytes@ != key.bytes@,
    ensures
        stored_value(entries.update(j, (key, value)), key, i) == Some(value),
        forall|other: Word|
            other.bytes@ != key.bytes@ ==> stored_value(entries.update(j, (key, value)), other, i)
                == stored_value(entries, other, i),
    decreases j - i,
{
    if i < j {
        lemma_stored_value_update(entries, j, key, value, i + 1);
    }
    assert forall|other: Word| other.bytes@ != key.bytes@ implies stored_value(
        entries.update(j, (key, value)),
        other,
        i,
    ) == stored_value(entries, other, i) by {
        lemma_stored_value_tail(entries, j, key, value, other, i);
    }
}

proof fn lemma_stored_value_tail(
    entries: Seq<(Word, Word)>,
    j: int,
    key: Word,
    value: Word,
    other: Word,
    i: int,
)
    requires
        0 <= j < entries.len(),
        entries[j].0.bytes@ == key.bytes@,
        other.bytes@ != key.bytes@,
    ensures
        stored_value(entries.update(j, (key, value)), other, i) == stored_value(entries, other, i),
    decreases entries.len() - i,
{
    if 0 <= i < entries.len() {
        lemma_stored_value_tail(entries, j, key, value, other, i + 1);
    }
}

proof fn lemma_stored_value_push(entries: Seq<(Word, Word)>, key: Word, value: Word, i: int)
    requires
        0 <= i <= entries.len(),
        stored_value(entries, key, i) is None,
    ensures
        stored_value(entries.push((key, value)), key, i) == Some(value),
        forall|other: Word|
            other.bytes@ != key.bytes@ ==> stored_value(entries.push((key, value)), other, i)
                == stored_value(entries, other, i),
    decreases entries.len() - i,
{
    if i < entries.len() {
        lemma_stored_value_push(entries, key, value, i + 1);
    }
    assert forall|other: Word| other.bytes@ != key.bytes@ implies stored_value(
        entries.push((key, value)),
        other,
        i,
    ) == stored_value(entries, other, i) by {
        lemma_stored_value_push_other(entries, key, value, other, i);
    }
}

proof fn lemma_stored_value_push_other(
    entries: Seq<(Word, Word)>,
    key: Word,
    value: Word,
    other: Word,
    i: int,
)
    requires
        0 <= i <= entries.len(),
        other.bytes@ != key.bytes@,
    ensures
        stored_value(entries.push((key, value)), other, i) == stored_value(entries, other, i),
    decreases entries.len() - i,
{
    if i < entries.len() {
        lemma_stored_value_push_other(entries, key, value, other, i + 1);
    } else {
        assert(stored_value(entries.push((key, value)), other, i + 1) is None);
    }
}

} // verus!
