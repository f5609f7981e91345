//! Tallies keyed by unit type or by ability.

use vstd::prelude::*;
use crate::ids::{AbilityId, UnitTypeId};

verus! {

/// A key that can be compared for equality in executable code.
pub trait CountKey: Copy {
    /// Whether the two keys are equal.
    fn same(&self, other: &Self) -> (r: bool)
        ensures
            r == (*self == *other),
    ;
}

impl CountKey for UnitTypeId {
    fn same(&self, other: &Self) -> (r: bool) {
        *self == *other
    }
}

impl CountKey for AbilityId {
    fn same(&self, other: &Self) -> (r: bool) {
        *self == *other
    }
}

/// The count recorded for `k` in `s`: that of its first entry, or `0`.
pub open spec fn count_in<K>(s: Seq<(K, usize)>, k: K) -> nat
    decreases s.len(),
{
    if s.len() == 0 {
        0
    } else if s[0].0 == k {
        s[0].1 as nat
    } else {
        count_in(s.drop_first(), k)
    }
}

/// The position of the first entry for `k`, if any.
pub open spec fn first_entry<K>(s: Seq<(K, usize)>, k: K) -> Option<int>
    decreases s.len(),
{
    if s.len() == 0 {
        None
    } else if s[0].0 == k {
        Some(0)
    } else {
        match first_entry(s.drop_first(), k) {
            Some(i) => Some(i + 1),
            None => None,
        }
    }
}

proof fn lemma_first_entry<K>(s: Seq<(K, usize)>, k: K)
    ensures
        match first_entry(s, k) {
            Some(i) => 0 <= i < s.len() && s[i].0 == k && count_in(s, k) == s[i].1 && forall|j: int|
                0 <= j < i ==> s[j].0 != k,
            None => count_in(s, k) == 0 && forall|j: int| 0 <= j < s.len() ==> s[j].0 != k,
        },
    decreases s.len(),
{
    if s.len() > 0 && s[0].0 != k {
        lemma_first_entry(s.drop_first(), k);
        match first_entry(s.drop_first(), k) {
            Some(i) => {
                assert forall|j: int| 0 <= j < i + 1 implies s[j].0 != k by {
                    if j > 0 {
                        assert(s[j] == s.drop_first()[j - 1]);
                    }
                }
            },
            None => {
                assert forall|j: int| 0 <= j < s.len() implies s[j].0 != k by {
                    if j > 0 {
                        assert(s[j] == s.drop_first()[j - 1]);
                    }
                }
            },
        }
    }
}

proof fn lemma_count_update<K>(s: Seq<(K, usize)>, i: int, k: K, v: usize, other: K)
    requires
        first_entry(s, k) == Some(i),
    ensures
        count_in(s.update(i, (k, v)), k) == v,
        other != k ==> count_in(s.update(i, (k, v)), other) == count_in(s, other),
    decreases s.len(),
{
    lemma_first_entry(s, k);
    if i > 0 {
        assert(s[0].0 != k);
        assert(first_entry(s.drop_first(), k) == Some(i - 1));
        assert(s.update(i, (k, v)).drop_first() =~= s.drop_first().update(i - 1, (k, v)));
        lemma_count_update(s.drop_first(), i - 1, k, v, other);
    } else {
        assert(s.update(i, (k, v)).drop_first() =~= s.drop_first());
    }
}

proof fn lemma_count_push<K>(s: Seq<(K, usize)>, k: K, other: K)
    requires
        first_entry(s, k) is None,
    ensures
        count_in(s.push((k, 1)), k) == 1,
        other != k ==> count_in(s.push((k, 1)), other) == count_in(s, other),
    decreases s.len(),
{
    if s.len() > 0 {
        assert(s[0].0 != k);
        assert(first_entry(s.drop_first(), k) is None);
        assert(s.push((k, 1)).drop_first() =~= s.drop_first().push((k, 1)));
        lemma_count_push(s.drop_first(), k, other);
    } else {
        assert(s.push((k, 1)).drop_first() =~= s);
    }
}

/// A tally: how many times each key was counted.
pub struct Counts<K> {
    entries: Vec<(K, usize)>,
}

impl<K: CountKey> Counts<K> {
    /// The count recorded for `k`.
    pub closed spec fn get_spec(&self, k: K) -> nat {
        count_in(self.entries@, k)
    }

    /// No count recorded.
    pub fn new() -> (r: Counts<K>)
        ensures
            forall|k: K| r.get_spec(k) == 0,
    {
        Counts { entries: Vec::new() }
    }

    /// How many times `k` was counted.
    pub fn get(&self, k: K) -> (r: usize)
        ensures
            r == self.get_spec(k),
    {
        let mut i: usize = 0;
        while i < self.entries.len()
            invariant
                0 <= i <= self.entries@.len(),
                forall|j: int| 0 <= j < i ==> self.entries@[j].0 != k,
            decreases self.entries@.len() - i,
        {
            if self.entries[i].0.same(&k) {
                proof {
                    lemma_first_entry(self.entries@, k);
                }
                return self.entries[i].1;
            }
            i = i + 1;
        }
        proof {
            lemma_first_entry(self.entries@, k);
        }
        0
    }

    /// Counts `k` once more.
    pub fn increment(&mut self, k: K)
        requires
            old(self).get_spec(k) < usize::MAX,
        ensures
            final(self).get_spec(k) == old(self).get_spec(k) + 1,
            forall|o: K| o != k ==> final(self).get_spec(o) == old(self).get_spec(o),
    {
        proof {
            lemma_first_entry(self.entries@, k);
        }
        let mut i: usize = 0;
        while i < self.entries.len()
            invariant
                0 <= i <= self.entries@.len(),
                self.entries@ == old(self).entries@,
                count_in(self.entries@, k) < usize::MAX,
                forall|j: int| 0 <= j < i ==> self.entries@[j].0 != k,
            decreases self.entries@.len() - i,
        {
            if self.entries[i].0.same(&k) {
                let v = self.entries[i].1;
                proof {
                    lemma_first_entry(self.entries@, k);
                    assert(v == count_in(self.entries@, k));
                    assert(first_entry(self.entries@, k) == Some(i as int)) by {
                        lemma_first_entry(self.entries@, k);
                        if let Some(f) = first_entry(self.entries@, k) {
                            assert(f == i);
                        }
                    }
                    assert forall|o: K| o != k implies count_in(
                        self.entries@.update(i as int, (k, (v + 1) as usize)),
                        o,
                    ) == count_in(self.entries@, o) by {
                        lemma_count_update(self.entries@, i as int, k, (v + 1) as usize, o);
                    }
                    lemma_count_update(self.entries@, i as int, k, (v + 1) as usize, k);
                }
                self.entries.set(i, (k, v + 1));
                return;
            }
            i = i + 1;
        }
        proof {
            assert(first_entry(self.entries@, k) is None) by {
                lemma_first_entry(self.entries@, k);
                if let Some(f) = first_entry(self.entries@, k) {
                    assert(self.entries@[f].0 != k);
                }
            }
            assert forall|o: K| o != k implies count_in(self.entries@.push((k, 1usize)), o)
                == count_in(self.entries@, o) by {
                lemma_count_push(self.entries@, k, o);
            }
            lemma_count_push(self.entries@, k, k);
        }
        self.entries.push((k, 1));
    }
}

} // verus!
