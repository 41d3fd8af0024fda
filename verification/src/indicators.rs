//! Named numeric indicators attached to an event.
//!
//! An [`IndicatorSet`] is a small association list with the meaning of a map
//! from indicator name to value. Names are not predeclared; a consumer asks
//! for the names it knows and ignores the rest.

use crate::text::same_text;
use vstd::prelude::*;

verus! {

/// One named measurement, in millionths.
#[derive(Clone, Debug)]
struct Indicator {
    key: String,
    value: i64,
}

/// A map from indicator name to value.
#[derive(Clone, Debug)]
pub struct IndicatorSet {
    entries: Vec<Indicator>,
}

/// The value bound to `key` in an association list in which a later entry
/// shadows an earlier one.
spec fn lookup(entries: Seq<Indicator>, key: Seq<char>) -> Option<i64>
    decreases entries.len(),
{
    if entries.len() == 0 {
        None
    } else if entries.last().key@ == key {
        Some(entries.last().value)
    } else {
        lookup(entries.drop_last(), key)
    }
}

proof fn lemma_lookup_push(entries: Seq<Indicator>, item: Indicator, key: Seq<char>)
    ensures
        lookup(entries.push(item), key) == if key == item.key@ {
            Some(item.value)
        } else {
            lookup(entries, key)
        },
{
    assert(entries.push(item).drop_last() =~= entries);
}

proof fn lemma_lookup_replace(entries: Seq<Indicator>, i: int, item: Indicator, key: Seq<char>)
    requires
        0 <= i < entries.len(),
        entries[i].key@ == item.key@,
        forall|j: int| i < j < entries.len() ==> entries[j].key@ != item.key@,
    ensures
        lookup(entries.update(i, item), key) == if key == item.key@ {
            Some(item.value)
        } else {
            lookup(entries, key)
        },
    decreases entries.len(),
{
    let updated = entries.update(i, item);
    if i == entries.len() - 1 {
        assert(updated.drop_last() =~= entries.drop_last());
    } else {
        assert(updated.drop_last() =~= entries.drop_last().update(i, item));
        lemma_lookup_replace(entries.drop_last(), i, item, key);
    }
}

impl View for IndicatorSet {
    type V = Map<Seq<char>, i64>;

    closed spec fn view(&self) -> Map<Seq<char>, i64> {
        Map::new(
            |k: Seq<char>| lookup(self.entries@, k) is Some,
            |k: Seq<char>| lookup(self.entries@, k).unwrap(),
        )
    }
}

impl IndicatorSet {
    /// The set with no indicator.
    pub fn new() -> (set: Self)
        ensures
            set@ == Map::<Seq<char>, i64>::empty(),
    {
        let set = IndicatorSet { entries: Vec::new() };
        set
    }

    /// Position of the entry that currently binds `key`, if any.
    fn position(&self, key: &str) -> (found: Option<usize>)
        ensures
            match found {
                Some(i) => {
                    &&& i < self.entries@.len()
                    &&& self.entries@[i as int].key@ == key@
                    &&& forall|j: int| i < j < self.entries@.len() ==> self.entries@[j].key@ != key@
                    &&& lookup(self.entries@, key@) == Some(self.entries@[i as int].value)
                },
                None => lookup(self.entries@, key@) is None,
            },
    {
        let mut i: usize = self.entries.len();
        assert(self.entries@.take(i as int) =~= self.entries@);
        while i > 0
            invariant
                i <= self.entries@.len(),
                forall|j: int| i <= j < self.entries@.len() ==> self.entries@[j].key@ != key@,
                lookup(self.entries@, key@) == lookup(self.entries@.take(i as int), key@),
            decreases i,
        {
            i = i - 1;
            assert(self.entries@.take(i + 1).drop_last() =~= self.entries@.take(i as int));
            if same_text(self.entries[i].key.as_str(), key) {
                return Some(i);
            }
        }
        None
    }

    /// The value of the indicator named `key`, or `None` when the event
    /// carries no such indicator.
    pub fn get(&self, key: &str) -> (value: Option<i64>)
        ensures
            value == if self@.contains_key(key@) {
                Some(self@[key@])
            } else {
                None
            },
    {
        match self.position(key) {
            Some(i) => Some(self.entries[i].value),
            None => None,
        }
    }

    /// Whether the event carries an indicator named `key`.
    pub fn contains_key(&self, key: &str) -> (present: bool)
        ensures
            present == self@.contains_key(key@),
    {
        self.position(key).is_some()
    }

    /// Binds `key` to `value`, replacing an earlier binding of the same name.
    pub fn insert(&mut self, key: &str, value: i64)
        ensures
            final(self)@ == old(self)@.insert(key@, value),
    {
        let found = self.position(key);
        let item = Indicator { key: key.to_owned(), value };
        let ghost before = self.entries@;
        match found {
            Some(i) => {
                self.entries.set(i, item);
                assert forall|k: Seq<char>|
                    lookup(self.entries@, k) == if k == key@ {
                        Some(value)
                    } else {
                        lookup(before, k)
                    } by {
                    lemma_lookup_replace(before, i as int, item, k);
                }
            },
            None => {
                self.entries.push(item);
                assert forall|k: Seq<char>|
                    lookup(self.entries@, k) == if k == key@ {
                        Some(value)
                    } else {
                        lookup(before, k)
                    } by {
                    lemma_lookup_push(before, item, k);
                }
            },
        }
    }

    /// Whether no indicator is bound.
    pub fn is_empty(&self) -> (empty: bool)
        ensures
            empty == (self@ == Map::<Seq<char>, i64>::empty()),
    {
        let n = self.entries.len();
        proof {
            if n == 0 {
                assert(self@ =~= Map::<Seq<char>, i64>::empty());
            } else {
                let k = self.entries@.last().key@;
                assert(self@.contains_key(k));
            }
        }
        n == 0
    }
}

} // verus!
