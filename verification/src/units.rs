//! Collections of units keyed by tag, kept in insertion order, and the
//! filters a bot applies to them every step.

pub mod iter;

use vstd::prelude::*;
use indexmap::IndexMap;
use rustc_hash::FxHasher;
use std::hash::BuildHasherDefault;
use crate::ids::UnitTypeId;
use crate::unit::{DisplayType, Unit, UnitView, slice_contains_u64};

verus! {

#[verifier::external_type_specification]
#[verifier::external_body]
pub struct ExFxHasher(FxHasher);

#[verifier::external_type_specification]
#[verifier::external_body]
#[verifier::reject_recursive_types(H)]
pub struct ExBuildHasherDefault<H>(BuildHasherDefault<H>);

#[verifier::external_type_specification]
#[verifier::external_body]
#[verifier::reject_recursive_types(K)]
#[verifier::reject_recursive_types(V)]
#[verifier::reject_recursive_types(S)]
pub struct ExIndexMap<K, V, S>(IndexMap<K, V, S>);

/// The map that holds units by tag, hashed with `FxHasher`.
pub type UnitMap = IndexMap<u64, Unit, BuildHasherDefault<FxHasher>>;

/// The (tag, unit) entries of a unit map, in the map's order.
pub uninterp spec fn unit_map_entries(m: UnitMap) -> Seq<(u64, Unit)>;

/// Whether no two entries share a key.
pub open spec fn keys_distinct(s: Seq<(u64, Unit)>) -> bool {
    forall|i: int, j: int| 0 <= i < s.len() && 0 <= j < s.len() && i != j ==> s[i].0 != s[j].0
}

/// The position of the entry with key `k`, if any.
pub open spec fn key_index(s: Seq<(u64, Unit)>, k: u64) -> Option<int> {
    if exists|i: int| 0 <= i < s.len() && s[i].0 == k {
        Some(choose|i: int| 0 <= i < s.len() && s[i].0 == k)
    } else {
        None
    }
}

/// Entries after a swap-removal at `i`: the last entry takes position `i`
/// and the sequence loses its last place.
pub open spec fn swap_removed<A>(s: Seq<A>, i: int) -> Seq<A> {
    s.update(i, s.last()).drop_last()
}

/// An empty map, by `IndexMap::default`.
#[verifier::external_body]
fn map_new() -> (m: UnitMap)
    ensures
        unit_map_entries(m) == Seq::<(u64, Unit)>::empty(),
{
    IndexMap::default()
}

/// The number of entries, by `IndexMap::len`.
#[verifier::external_body]
fn map_len(m: &UnitMap) -> (r: usize)
    ensures
        r == unit_map_entries(*m).len(),
{
    m.len()
}

/// `IndexMap::insert`: an existing key keeps its place and gets the new
/// value, the old one being returned; a new key is appended last.
#[verifier::external_body]
fn map_insert(m: &mut UnitMap, k: u64, v: Unit) -> (r: Option<Unit>)
    requires
        keys_distinct(unit_map_entries(*old(m))),
    ensures
        match key_index(unit_map_entries(*old(m)), k) {
            Some(i) => unit_map_entries(*final(m)) == unit_map_entries(*old(m)).update(i, (k, v))
                && r == Some(unit_map_entries(*old(m))[i].1),
            None => unit_map_entries(*final(m)) == unit_map_entries(*old(m)).push((k, v))
                && r is None,
        },
{
    m.insert(k, v)
}

/// `IndexMap::remove`, which in this version of the crate is
/// `swap_remove`: the last entry moves into the removed entry's place.
#[verifier::external_body]
fn map_remove(m: &mut UnitMap, k: u64) -> (r: Option<Unit>)
    requires
        keys_distinct(unit_map_entries(*old(m))),
    ensures
        match key_index(unit_map_entries(*old(m)), k) {
            Some(i) => unit_map_entries(*final(m)) == swap_removed(unit_map_entries(*old(m)), i)
                && r == Some(unit_map_entries(*old(m))[i].1),
            None => unit_map_entries(*final(m)) == unit_map_entries(*old(m)) && r is None,
        },
{
    m.remove(&k)
}

/// `IndexMap::pop`: removes and returns the last entry.
#[verifier::external_body]
fn map_pop(m: &mut UnitMap) -> (r: Option<(u64, Unit)>)
    ensures
        if unit_map_entries(*old(m)).len() == 0 {
            unit_map_entries(*final(m)) == unit_map_entries(*old(m)) && r is None
        } else {
            unit_map_entries(*final(m)) == unit_map_entries(*old(m)).drop_last() && r == Some(
                unit_map_entries(*old(m)).last(),
            )
        },
{
    m.pop()
}

/// `IndexMap::get`: the value stored under the key.
#[verifier::external_body]
fn map_get(m: &UnitMap, k: u64) -> (r: Option<&Unit>)
    requires
        keys_distinct(unit_map_entries(*m)),
    ensures
        match key_index(unit_map_entries(*m), k) {
            Some(i) => r == Some(&unit_map_entries(*m)[i].1),
            None => r is None,
        },
{
    m.get(&k)
}

/// `IndexMap::get_index`: the value of the entry at a position.
#[verifier::external_body]
fn map_value_at(m: &UnitMap, i: usize) -> (r: &Unit)
    requires
        i < unit_map_entries(*m).len(),
    ensures
        *r == unit_map_entries(*m)[i as int].1,
{
    m.get_index(i).unwrap().1
}

/// `IndexMap::clear`: removes every entry.
#[verifier::external_body]
fn map_clear(m: &mut UnitMap)
    ensures
        unit_map_entries(*final(m)) == Seq::<(u64, Unit)>::empty(),
{
    m.clear()
}

/// The position of the unit with the given tag, if any.
pub open spec fn tag_index(s: Seq<UnitView>, tag: u64) -> Option<int> {
    if exists|i: int| 0 <= i < s.len() && s[i].tag == tag {
        Some(choose|i: int| 0 <= i < s.len() && s[i].tag == tag)
    } else {
        None
    }
}

/// Whether no two units share a tag.
pub open spec fn tags_distinct(s: Seq<UnitView>) -> bool {
    forall|i: int, j: int| 0 <= i < s.len() && 0 <= j < s.len() && i != j ==> s[i].tag != s[j].tag
}

/// The elements of `s` whose place in `keep` is `true`, in order.
pub open spec fn select<A>(s: Seq<A>, keep: Seq<bool>) -> Seq<A>
    decreases s.len(),
{
    if s.len() == 0 {
        Seq::empty()
    } else {
        let rest = select(s.drop_last(), keep.drop_last());
        if keep[s.len() - 1] {
            rest.push(s.last())
        } else {
            rest
        }
    }
}

/// Selected elements come from the sequence.
pub proof fn lemma_select_subset<A>(s: Seq<A>, keep: Seq<bool>)
    requires
        keep.len() == s.len(),
    ensures
        forall|x: A| select(s, keep).contains(x) ==> s.contains(x),
        select(s, keep).len() <= s.len(),
    decreases s.len(),
{
    if s.len() > 0 {
        lemma_select_subset(s.drop_last(), keep.drop_last());
        let rest = select(s.drop_last(), keep.drop_last());
        assert forall|x: A| select(s, keep).contains(x) implies s.contains(x) by {
            if rest.contains(x) {
                assert(s.drop_last().contains(x));
                let j = choose|j: int| 0 <= j < s.drop_last().len() && s.drop_last()[j] == x;
                assert(s[j] == x);
            } else {
                assert(x == s.last());
                assert(s[s.len() - 1] == x);
            }
        }
    }
}

/// Selecting by a mask that follows a predicate is filtering by it.
pub proof fn lemma_select_is_filter<A>(s: Seq<A>, keep: Seq<bool>, p: spec_fn(A) -> bool)
    requires
        keep.len() == s.len(),
        forall|j: int| 0 <= j < s.len() ==> keep[j] == p(s[j]),
    ensures
        select(s, keep) == s.filter(p),
    decreases s.len(),
{
    reveal_with_fuel(Seq::filter, 1);
    if s.len() > 0 {
        lemma_select_is_filter(s.drop_last(), keep.drop_last(), p);
        assert(keep[s.len() - 1] == p(s.last()));
    }
}

/// Whether a unit has no orders, or fewer than two when its addon is one
/// of the given reactors.
pub open spec fn unused_with(u: UnitView, reactor_tags: Seq<u64>) -> bool {
    if (match u.addon_tag {
        Some(t) => reactor_tags.contains(t),
        None => false,
    }) {
        u.orders.len() < 2
    } else {
        u.orders.len() == 0
    }
}

/// A collection that can say whether it holds an item.
pub trait Container<T> {
    /// Whether the item is held.
    spec fn spec_contains(&self, item: T) -> bool;

    /// Whether the item is held.
    fn contains(&self, item: &T) -> (r: bool)
        ensures
            r == self.spec_contains(*item),
    ;
}

impl Container<UnitTypeId> for Vec<UnitTypeId> {
    open spec fn spec_contains(&self, item: UnitTypeId) -> bool {
        self@.contains(item)
    }

    fn contains(&self, item: &UnitTypeId) -> (r: bool) {
        let mut i: usize = 0;
        while i < self.len()
            invariant
                0 <= i <= self@.len(),
                forall|j: int| 0 <= j < i ==> self@[j] != *item,
            decreases self@.len() - i,
        {
            if self[i] == *item {
                return true;
            }
            i = i + 1;
        }
        false
    }
}

impl Container<u64> for Vec<u64> {
    open spec fn spec_contains(&self, item: u64) -> bool {
        self@.contains(item)
    }

    fn contains(&self, item: &u64) -> (r: bool) {
        slice_contains_u64(self.as_slice(), *item)
    }
}

/// The units of `view` whose tags occur in `tags`, in the order of first
/// mention.
pub open spec fn find_tags_view(view: Seq<UnitView>, tags: Seq<u64>) -> Seq<UnitView>
    decreases tags.len(),
{
    if tags.len() == 0 {
        Seq::empty()
    } else {
        let acc = find_tags_view(view, tags.drop_last());
        match tag_index(view, tags.last()) {
            Some(i) => if tag_index(acc, tags.last()) is Some {
                acc
            } else {
                acc.push(view[i])
            },
            None => acc,
        }
    }
}

/// The collection after `push` of `u`: replaced in place when its tag is
/// present, appended otherwise.
pub open spec fn push_view(s: Seq<UnitView>, u: UnitView) -> Seq<UnitView> {
    match tag_index(s, u.tag) {
        Some(i) => s.update(i, u),
        None => s.push(u),
    }
}

/// The collection after pushing each of `us` in turn.
pub open spec fn extend_view(s: Seq<UnitView>, us: Seq<UnitView>) -> Seq<UnitView>
    decreases us.len(),
{
    if us.len() == 0 {
        s
    } else {
        push_view(extend_view(s, us.drop_last()), us.last())
    }
}

/// The collection after removing each of `tags` in turn, as `remove` does.
pub open spec fn remove_view(s: Seq<UnitView>, tags: Seq<u64>) -> Seq<UnitView>
    decreases tags.len(),
{
    if tags.len() == 0 {
        s
    } else {
        let t = remove_view(s, tags.drop_last());
        match tag_index(t, tags.last()) {
            Some(i) => swap_removed(t, i),
            None => t,
        }
    }
}

/// The units, those with the given tags marked as hallucinations.
pub open spec fn marked_hallucinations(s: Seq<UnitView>, tags: Seq<u64>) -> Seq<UnitView> {
    s.map_values(
        |u: UnitView| if tags.contains(u.tag) {
            UnitView { is_hallucination: true, ..u }
        } else {
            u
        },
    )
}

/// The units, those with the given tags marked as snapshots (and as
/// burrowed when `burrowed` holds).
pub open spec fn marked_snapshots(s: Seq<UnitView>, tags: Seq<u64>, burrowed: bool) -> Seq<UnitView> {
    s.map_values(
        |u: UnitView| if tags.contains(u.tag) {
            snapshot_of(u, burrowed)
        } else {
            u
        },
    )
}

/// A unit marked as a snapshot, and as burrowed when `burrowed` holds.
pub open spec fn snapshot_of(u: UnitView, burrowed: bool) -> UnitView {
    UnitView { display_type: DisplayType::Snapshot, is_burrowed: burrowed || u.is_burrowed, ..u }
}

/// A prefix one longer holds what the shorter one holds and the next tag.
pub proof fn lemma_take_contains(s: Seq<u64>, i: int)
    requires
        0 <= i < s.len(),
    ensures
        forall|x: u64| #[trigger] s.take(i + 1).contains(x) == (s.take(i).contains(x) || x == s[i]),
{
    assert forall|x: u64| #[trigger] s.take(i + 1).contains(x) == (s.take(i).contains(x) || x == s[i]) by {
        if s.take(i + 1).contains(x) {
            let k = choose|k: int| 0 <= k < i + 1 && #[trigger] s.take(i + 1)[k] == x;
            if k < i {
                assert(s.take(i)[k] == x);
            }
        }
        if s.take(i).contains(x) {
            let k = choose|k: int| 0 <= k < i && #[trigger] s.take(i)[k] == x;
            assert(s.take(i + 1)[k] == x);
        }
        if x == s[i] {
            assert(s.take(i + 1)[i] == x);
        }
    }
}

/// Pushing units with fresh, distinct tags appends them.
pub proof fn lemma_extend_fresh(s: Seq<UnitView>, us: Seq<UnitView>)
    requires
        tags_distinct(us),
        forall|i: int, j: int| 0 <= i < s.len() && 0 <= j < us.len() ==> s[i].tag != us[j].tag,
    ensures
        extend_view(s, us) == s + us,
    decreases us.len(),
{
    if us.len() > 0 {
        lemma_extend_fresh(s, us.drop_last());
        let t = s + us.drop_last();
        assert forall|k: int| 0 <= k < t.len() implies t[k].tag != us.last().tag by {
            if k >= s.len() {
                assert(t[k] == us[k - s.len()]);
            }
        }
        assert(tag_index(t, us.last().tag) is None);
        assert(t.push(us.last()) =~= s + us);
    }
}

/// A collection of units keyed by tag, in the order they were added.
pub struct Units {
    map: UnitMap,
}

impl View for Units {
    type V = Seq<UnitView>;

    closed spec fn view(&self) -> Seq<UnitView> {
        unit_map_entries(self.map).map_values(|e: (u64, Unit)| e.1@)
    }
}

impl Units {
    /// The entries of the underlying map.
    pub closed spec fn entries(&self) -> Seq<(u64, Unit)> {
        unit_map_entries(self.map)
    }

    /// Keys are distinct and each is the tag of its unit.
    pub closed spec fn wf(&self) -> bool {
        &&& keys_distinct(self.entries())
        &&& forall|i: int| 0 <= i < self.entries().len() ==> #[trigger] self.entries()[i].0
            == self.entries()[i].1.tag
    }

    /// The unit at a position.
    pub closed spec fn unit(&self, i: int) -> Unit {
        self.entries()[i].1
    }

    /// Facts that hold of every well-formed collection.
    pub proof fn lemma_wf(&self)
        requires
            self.wf(),
        ensures
            tags_distinct(self@),
            self@.len() == self.entries().len(),
            forall|i: int| 0 <= i < self@.len() ==> #[trigger] self.unit(i)@ == self@[i],
    {
        assert forall|i: int, j: int|
            0 <= i < self@.len() && 0 <= j < self@.len() && i != j implies self@[i].tag
            != self@[j].tag by {
            assert(self.entries()[i].0 == self.entries()[i].1.tag);
            assert(self.entries()[j].0 == self.entries()[j].1.tag);
        }
    }

    proof fn lemma_key_index(&self, k: u64)
        requires
            self.wf(),
        ensures
            key_index(self.entries(), k) == tag_index(self@, k),
            match tag_index(self@, k) {
                Some(i) => 0 <= i < self@.len() && self@[i].tag == k,
                None => forall|i: int| 0 <= i < self@.len() ==> self@[i].tag != k,
            },
    {
        self.lemma_wf();
        let e = self.entries();
        if exists|i: int| 0 <= i < e.len() && e[i].0 == k {
            let i = choose|i: int| 0 <= i < e.len() && e[i].0 == k;
            assert(e[i].0 == e[i].1.tag);
            assert(self@[i].tag == k);
            let j = choose|j: int| 0 <= j < self@.len() && self@[j].tag == k;
            assert(e[j].0 == e[j].1.tag);
            assert(i == j);
        } else {
            assert forall|i: int| 0 <= i < self@.len() implies self@[i].tag != k by {
                assert(e[i].0 == e[i].1.tag);
            }
        }
    }

    /// An empty collection.
    pub fn new() -> (r: Units)
        ensures
            r.wf(),
            r@ == Seq::<UnitView>::empty(),
    {
        let r = Units { map: map_new() };
        proof {
            assert(r@ =~= Seq::<UnitView>::empty());
        }
        r
    }

    /// The number of units.
    pub fn len(&self) -> (r: usize)
        requires
            self.wf(),
        ensures
            r == self@.len(),
    {
        map_len(&self.map)
    }

    /// Whether there are no units.
    pub fn is_empty(&self) -> (r: bool)
        requires
            self.wf(),
        ensures
            r == (self@.len() == 0),
    {
        map_len(&self.map) == 0
    }

    /// Removes every unit.
    pub fn clear(&mut self)
        ensures
            final(self).wf(),
            final(self)@ == Seq::<UnitView>::empty(),
    {
        map_clear(&mut self.map);
        proof {
            assert(self@ =~= Seq::<UnitView>::empty());
        }
    }

    /// The unit at a position.
    pub fn at(&self, i: usize) -> (r: &Unit)
        requires
            self.wf(),
            i < self@.len(),
        ensures
            *r == self.unit(i as int),
            r@ == self@[i as int],
    {
        proof {
            self.lemma_wf();
        }
        map_value_at(&self.map, i)
    }

    /// The first unit, if any.
    pub fn first(&self) -> (r: Option<&Unit>)
        requires
            self.wf(),
        ensures
            match r {
                Some(u) => self@.len() > 0 && u@ == self@[0],
                None => self@.len() == 0,
            },
    {
        if self.is_empty() {
            None
        } else {
            Some(self.at(0))
        }
    }

    /// The unit with the given tag, if any.
    pub fn get(&self, tag: u64) -> (r: Option<&Unit>)
        requires
            self.wf(),
        ensures
            match tag_index(self@, tag) {
                Some(i) => r matches Some(u) && u@ == self@[i],
                None => r is None,
            },
    {
        proof {
            self.lemma_key_index(tag);
            self.lemma_wf();
        }
        let r = map_get(&self.map, tag);
        proof {
            if let Some(i) = tag_index(self@, tag) {
                assert(self.unit(i)@ == self@[i]);
            }
        }
        r
    }

    /// Whether a unit with the given tag is present.
    pub fn contains_tag(&self, tag: u64) -> (r: bool)
        requires
            self.wf(),
        ensures
            r == (tag_index(self@, tag) is Some),
    {
        self.get(tag).is_some()
    }

    /// Adds a unit under its tag. A unit already present with that tag is
    /// replaced in its place and returned; otherwise the unit goes last.
    pub fn push(&mut self, u: Unit) -> (r: Option<Unit>)
        requires
            old(self).wf(),
        ensures
            final(self).wf(),
            match tag_index(old(self)@, u@.tag) {
                Some(i) => {
                    &&& final(self)@ == old(self)@.update(i, u@)
                    &&& r matches Some(p)
                    &&& p@ == old(self)@[i]
                },
                None => final(self)@ == old(self)@.push(u@) && r is None,
            },
    {
        let ghost old_e = self.entries();
        let ghost uv = u@;
        proof {
            self.lemma_key_index(u.tag);
            self.lemma_wf();
        }
        let tag = u.tag;
        let r = map_insert(&mut self.map, tag, u);
        proof {
            let e = self.entries();
            match key_index(old_e, tag) {
                Some(i) => {
                    assert(e == old_e.update(i, (tag, e[i].1)));
                    assert forall|a: int, b: int|
                        0 <= a < e.len() && 0 <= b < e.len() && a != b implies e[a].0
                        != e[b].0 by {
                        assert(old_e[a].0 != old_e[b].0);
                    }
                    assert(self@ =~= old(self)@.update(i, uv));
                },
                None => {
                    assert forall|a: int, b: int|
                        0 <= a < e.len() && 0 <= b < e.len() && a != b implies e[a].0
                        != e[b].0 by {
                        if a < old_e.len() && b < old_e.len() {
                            assert(old_e[a].0 != old_e[b].0);
                        } else if a < old_e.len() {
                            assert(old_e[a].0 != tag);
                        } else {
                            assert(old_e[b].0 != tag);
                        }
                    }
                    assert(self@ =~= old(self)@.push(uv));
                },
            }
        }
        r
    }

    /// Removes and returns the last unit.
    pub fn pop(&mut self) -> (r: Option<Unit>)
        requires
            old(self).wf(),
        ensures
            final(self).wf(),
            if old(self)@.len() == 0 {
                final(self)@ == old(self)@ && r is None
            } else {
                &&& final(self)@ == old(self)@.drop_last()
                &&& r matches Some(u)
                &&& u@ == old(self)@.last()
            },
    {
        let ghost old_e = self.entries();
        let r = map_pop(&mut self.map);
        proof {
            let e = self.entries();
            if old_e.len() > 0 {
                assert(self@ =~= old(self)@.drop_last());
            }
        }
        match r {
            Some(pair) => Some(pair.1),
            None => None,
        }
    }

    /// Removes and returns the unit with the given tag. The last unit takes
    /// its place, as `swap_remove` of the underlying map does.
    pub fn remove(&mut self, tag: u64) -> (r: Option<Unit>)
        requires
            old(self).wf(),
        ensures
            final(self).wf(),
            match tag_index(old(self)@, tag) {
                Some(i) => {
                    &&& final(self)@ == swap_removed(old(self)@, i)
                    &&& r matches Some(u)
                    &&& u@ == old(self)@[i]
                },
                None => final(self)@ == old(self)@ && r is None,
            },
    {
        let ghost old_e = self.entries();
        proof {
            self.lemma_key_index(tag);
            self.lemma_wf();
        }
        let r = map_remove(&mut self.map, tag);
        proof {
            let e = self.entries();
            if let Some(i) = key_index(old_e, tag) {
                let n = old_e.len() - 1;
                assert forall|a: int, b: int|
                    0 <= a < e.len() && 0 <= b < e.len() && a != b implies e[a].0 != e[b].0 by {
                    let oa = if a == i { n } else { a };
                    let ob = if b == i { n } else { b };
                    assert(e[a] == old_e[oa]);
                    assert(e[b] == old_e[ob]);
                    assert(old_e[oa].0 != old_e[ob].0);
                }
                assert forall|a: int| 0 <= a < e.len() implies #[trigger] e[a].0 == e[a].1.tag by {
                    let oa = if a == i { n } else { a };
                    assert(e[a] == old_e[oa]);
                    assert(old_e[oa].0 == old_e[oa].1.tag);
                }
                assert(self@ =~= swap_removed(old(self)@, i));
            } else {
                assert(self@ =~= old(self)@);
            }
        }
        r
    }

    /// The tags of the units, in order.
    pub fn tags(&self) -> (r: Vec<u64>)
        requires
            self.wf(),
        ensures
            r@ == self@.map_values(|u: UnitView| u.tag),
    {
        let n = self.len();
        let mut r: Vec<u64> = Vec::new();
        let mut i: usize = 0;
        while i < n
            invariant
                self.wf(),
                n == self@.len(),
                0 <= i <= n,
                r@ == self@.take(i as int).map_values(|u: UnitView| u.tag),
            decreases n - i,
        {
            let u = self.at(i);
            r.push(u.tag);
            proof {
                assert(self@.take(i + 1).map_values(|u: UnitView| u.tag) =~= self@.take(
                    i as int,
                ).map_values(|u: UnitView| u.tag).push(u.tag));
            }
            i = i + 1;
        }
        proof {
            assert(self@.take(n as int) =~= self@);
        }
        r
    }

    /// Copies of the units, in order.
    pub fn to_vec(&self) -> (r: Vec<Unit>)
        requires
            self.wf(),
        ensures
            r@.map_values(|u: Unit| u@) == self@,
    {
        let n = self.len();
        let mut r: Vec<Unit> = Vec::new();
        let mut i: usize = 0;
        while i < n
            invariant
                self.wf(),
                n == self@.len(),
                0 <= i <= n,
                r@.map_values(|u: Unit| u@) == self@.take(i as int),
            decreases n - i,
        {
            let u = self.at(i).clone();
            let ghost prev = r@;
            let ghost uv = u@;
            r.push(u);
            proof {
                assert(r@ == prev.push(u));
                assert(uv == self@[i as int]);
                assert(r@.map_values(|u: Unit| u@) =~= prev.map_values(|u: Unit| u@).push(uv));
                assert(self@.take(i + 1) =~= self@.take(i as int).push(self@[i as int]));
            }
            i = i + 1;
        }
        proof {
            assert(self@.take(n as int) =~= self@);
        }
        r
    }

    /// Adds copies of the given units, one after another, as `push` does.
    pub fn extend_from(&mut self, other: &Units)
        requires
            old(self).wf(),
            other.wf(),
        ensures
            final(self).wf(),
            final(self)@ == extend_view(old(self)@, other@),
    {
        let n = other.len();
        let mut i: usize = 0;
        proof {
            assert(other@.take(0) =~= Seq::<UnitView>::empty());
        }
        while i < n
            invariant
                self.wf(),
                other.wf(),
                n == other@.len(),
                0 <= i <= n,
                self@ == extend_view(old(self)@, other@.take(i as int)),
            decreases n - i,
        {
            let u = other.at(i).clone();
            proof {
                assert(other@.take(i + 1).drop_last() =~= other@.take(i as int));
                assert(other@.take(i + 1).last() == other@[i as int]);
            }
            self.push(u);
            i = i + 1;
        }
        proof {
            assert(other@.take(n as int) =~= other@);
        }
    }

    /// A copy of the collection.
    pub fn copy(&self) -> (r: Units)
        requires
            self.wf(),
        ensures
            r.wf(),
            r@ == self@,
    {
        let mut r = Units::new();
        r.extend_from(self);
        proof {
            self.lemma_wf();
            lemma_extend_fresh(Seq::<UnitView>::empty(), self@);
            assert(Seq::<UnitView>::empty() + self@ =~= self@);
        }
        r
    }

    /// Marks the units with the given tags as hallucinations.
    pub fn mark_hallucinations(&mut self, tags: &[u64])
        requires
            old(self).wf(),
        ensures
            final(self).wf(),
            final(self)@ == marked_hallucinations(old(self)@, tags@),
    {
        let mut i: usize = 0;
        proof {
            assert(old(self)@ =~= old(self)@.map_values(
                |u: UnitView| if tags@.take(0).contains(u.tag) {
                    UnitView { is_hallucination: true, ..u }
                } else {
                    u
                },
            ));
        }
        while i < tags.len()
            invariant
                self.wf(),
                0 <= i <= tags@.len(),
                self@ == old(self)@.map_values(
                    |u: UnitView| if tags@.take(i as int).contains(u.tag) {
                        UnitView { is_hallucination: true, ..u }
                    } else {
                        u
                    },
                ),
                tags_distinct(old(self)@),
            decreases tags@.len() - i,
        {
            let t = tags[i];
            let ghost before = self@;
            proof {
                self.lemma_wf();
                self.lemma_key_index(t);
            }
            self.set_hallucination(t);
            proof {
                lemma_take_contains(tags@, i as int);
                assert(self@ =~= old(self)@.map_values(
                    |u: UnitView| if tags@.take(i + 1).contains(u.tag) {
                        UnitView { is_hallucination: true, ..u }
                    } else {
                        u
                    },
                ));
            }
            i = i + 1;
        }
        proof {
            assert(tags@.take(tags@.len() as int) =~= tags@);
            assert(self@ =~= marked_hallucinations(old(self)@, tags@));
        }
    }

    /// Marks the units with the given tags as snapshots, and as burrowed
    /// when `burrowed` holds.
    pub fn mark_snapshots(&mut self, tags: &[u64], burrowed: bool)
        requires
            old(self).wf(),
        ensures
            final(self).wf(),
            final(self)@ == marked_snapshots(old(self)@, tags@, burrowed),
    {
        let mut i: usize = 0;
        proof {
            assert(old(self)@ =~= old(self)@.map_values(
                |u: UnitView| if tags@.take(0).contains(u.tag) {
                    snapshot_of(u, burrowed)
                } else {
                    u
                },
            ));
        }
        while i < tags.len()
            invariant
                self.wf(),
                0 <= i <= tags@.len(),
                self@ == old(self)@.map_values(
                    |u: UnitView| if tags@.take(i as int).contains(u.tag) {
                        snapshot_of(u, burrowed)
                    } else {
                        u
                    },
                ),
                tags_distinct(old(self)@),
            decreases tags@.len() - i,
        {
            let t = tags[i];
            proof {
                self.lemma_wf();
                self.lemma_key_index(t);
            }
            self.set_snapshot(t, burrowed);
            proof {
                lemma_take_contains(tags@, i as int);
                assert(self@ =~= old(self)@.map_values(
                    |u: UnitView| if tags@.take(i + 1).contains(u.tag) {
                        snapshot_of(u, burrowed)
                    } else {
                        u
                    },
                ));
            }
            i = i + 1;
        }
        proof {
            assert(tags@.take(tags@.len() as int) =~= tags@);
            assert(self@ =~= marked_snapshots(old(self)@, tags@, burrowed));
        }
    }

    /// Removes the units with the given tags, one after another, as
    /// `remove` does.
    pub fn remove_tags(&mut self, tags: &[u64])
        requires
            old(self).wf(),
        ensures
            final(self).wf(),
            final(self)@ == remove_view(old(self)@, tags@),
    {
        let mut i: usize = 0;
        proof {
            assert(tags@.take(0) =~= Seq::<u64>::empty());
        }
        while i < tags.len()
            invariant
                self.wf(),
                0 <= i <= tags@.len(),
                self@ == remove_view(old(self)@, tags@.take(i as int)),
            decreases tags@.len() - i,
        {
            proof {
                assert(tags@.take(i + 1).drop_last() =~= tags@.take(i as int));
                assert(tags@.take(i + 1).last() == tags@[i as int]);
            }
            self.remove(tags[i]);
            i = i + 1;
        }
        proof {
            assert(tags@.take(tags@.len() as int) =~= tags@);
        }
    }

    /// Copies of the units for which `f` holds, in order. `keep` records
    /// what `f` answered for each unit.
    pub fn filter<F: Fn(&Unit) -> bool>(&self, f: F) -> (r: Units)
        requires
            self.wf(),
            forall|i: int| 0 <= i < self@.len() ==> call_requires(f, (&self.unit(i),)),
        ensures
            r.wf(),
            exists|keep: Seq<bool>|
                {
                    &&& keep.len() == self@.len()
                    &&& forall|i: int|
                        0 <= i < self@.len() ==> call_ensures(f, (&self.unit(i),), #[trigger] keep[i])
                    &&& r@ == select(self@, keep)
                },
    {
        proof {
            self.lemma_wf();
        }
        let n = self.len();
        let mut r = Units::new();
        let ghost mut keep: Seq<bool> = Seq::empty();
        let mut i: usize = 0;
        while i < n
            invariant
                self.wf(),
                r.wf(),
                n == self@.len(),
                0 <= i <= n,
                tags_distinct(self@),
                forall|j: int| 0 <= j < self@.len() ==> #[trigger] self.unit(j)@ == self@[j],
                forall|j: int| 0 <= j < self@.len() ==> call_requires(f, (&self.unit(j),)),
                keep.len() == i,
                forall|j: int| 0 <= j < i ==> call_ensures(f, (&self.unit(j),), #[trigger] keep[j]),
                r@ == select(self@.take(i as int), keep),
            decreases n - i,
        {
            let u = self.at(i);
            let b = f(u);
            let ghost prev = r@;
            proof {
                assert(self@.take(i + 1).drop_last() =~= self@.take(i as int));
                assert(keep.push(b).drop_last() =~= keep);
            }
            if b {
                proof {
                    lemma_select_subset(self@.take(i as int), keep);
                    assert forall|k: int| 0 <= k < prev.len() implies prev[k].tag != u@.tag by {
                        assert(prev.contains(prev[k]));
                        assert(self@.take(i as int).contains(prev[k]));
                        let m = choose|m: int|
                            0 <= m < self@.take(i as int).len() && self@.take(i as int)[m]
                                == prev[k];
                        assert(self@[m] == prev[k]);
                    }
                }
                r.push(u.clone());
            }
            proof {
                keep = keep.push(b);
            }
            i = i + 1;
        }
        proof {
            assert(self@.take(n as int) =~= self@);
        }
        r
    }

    /// Copies of the units for which `f`, which answers as `p` does, holds.
    fn filter_pred<F: Fn(&Unit) -> bool>(&self, f: F, Ghost(p): Ghost<spec_fn(UnitView) -> bool>) -> (r: Units)
        requires
            self.wf(),
            forall|u: &Unit| call_requires(f, (u,)),
            forall|u: &Unit, b: bool| call_ensures(f, (u,), b) ==> b == p(u@),
        ensures
            r.wf(),
            r@ == self@.filter(p),
    {
        let ghost g = f;
        let r = self.filter(f);
        proof {
            self.lemma_wf();
            let keep = choose|keep: Seq<bool>|
                {
                    &&& keep.len() == self@.len()
                    &&& forall|i: int|
                        0 <= i < self@.len() ==> call_ensures(g, (&self.unit(i),), #[trigger] keep[i])
                    &&& r@ == select(self@, keep)
                };
            assert forall|j: int| 0 <= j < self@.len() implies keep[j] == p(self@[j]) by {
                assert(call_ensures(g, (&self.unit(j),), keep[j]));
                assert(self.unit(j)@ == self@[j]);
            }
            lemma_select_is_filter(self@, keep, p);
        }
        r
    }

    /// Copies of the units of the given type.
    pub fn of_type(&self, unit_type: UnitTypeId) -> (r: Units)
        requires
            self.wf(),
        ensures
            r.wf(),
            r@ == self@.filter(|u: UnitView| u.type_id == unit_type),
    {
        let f = |u: &Unit| -> (b: bool)
            ensures
                b == (u.type_id == unit_type),
            { u.type_id == unit_type };
        self.filter_pred(f, Ghost(|u: UnitView| u.type_id == unit_type))
    }

    /// Copies of the units of any other type than the given one.
    pub fn exclude_type(&self, unit_type: UnitTypeId) -> (r: Units)
        requires
            self.wf(),
        ensures
            r.wf(),
            r@ == self@.filter(|u: UnitView| u.type_id != unit_type),
    {
        let f = |u: &Unit| -> (b: bool)
            ensures
                b == (u.type_id != unit_type),
            { u.type_id != unit_type };
        self.filter_pred(f, Ghost(|u: UnitView| u.type_id != unit_type))
    }

    /// Copies of the units that are not flying.
    pub fn ground(&self) -> (r: Units)
        requires
            self.wf(),
        ensures
            r.wf(),
            r@ == self@.filter(|u: UnitView| !u.is_flying),
    {
        let f = |u: &Unit| -> (b: bool)
            ensures
                b == (!u.is_flying),
            { !u.is_flying };
        self.filter_pred(f, Ghost(|u: UnitView| !u.is_flying))
    }

    /// Copies of the flying units.
    pub fn flying(&self) -> (r: Units)
        requires
            self.wf(),
        ensures
            r.wf(),
            r@ == self@.filter(|u: UnitView| u.is_flying),
    {
        let f = |u: &Unit| -> (b: bool)
            ensures
                b == (u.is_flying),
            { u.is_flying };
        self.filter_pred(f, Ghost(|u: UnitView| u.is_flying))
    }

    /// Copies of the units whose construction is complete.
    pub fn ready(&self) -> (r: Units)
        requires
            self.wf(),
        ensures
            r.wf(),
            r@ == self@.filter(|u: UnitView| u.build_complete),
    {
        let f = |u: &Unit| -> (b: bool)
            ensures
                b == (u.build_complete),
            { u.build_complete };
        self.filter_pred(f, Ghost(|u: UnitView| u.build_complete))
    }

    /// Copies of the units whose construction is in progress.
    pub fn not_ready(&self) -> (r: Units)
        requires
            self.wf(),
        ensures
            r.wf(),
            r@ == self@.filter(|u: UnitView| !u.build_complete),
    {
        let f = |u: &Unit| -> (b: bool)
            ensures
                b == (!u.build_complete),
            { !u.build_complete };
        self.filter_pred(f, Ghost(|u: UnitView| !u.build_complete))
    }

    /// Copies of the units that have no orders.
    pub fn idle(&self) -> (r: Units)
        requires
            self.wf(),
        ensures
            r.wf(),
            r@ == self@.filter(|u: UnitView| u.orders.len() == 0),
    {
        let f = |u: &Unit| -> (b: bool)
            ensures
                b == (u.orders@.len() == 0),
            { u.orders.len() == 0 };
        self.filter_pred(f, Ghost(|u: UnitView| u.orders.len() == 0))
    }

    /// Copies of the units whose type is among `types`.
    pub fn of_types<T: Container<UnitTypeId>>(&self, types: &T) -> (r: Units)
        requires
            self.wf(),
        ensures
            r.wf(),
            r@ == self@.filter(|u: UnitView| types.spec_contains(u.type_id)),
    {
        let f = |u: &Unit| -> (b: bool)
            ensures
                b == types.spec_contains(u.type_id),
            { types.contains(&u.type_id) };
        self.filter_pred(f, Ghost(|u: UnitView| types.spec_contains(u.type_id)))
    }

    /// Copies of the units whose type is not among `types`.
    pub fn exclude_types<T: Container<UnitTypeId>>(&self, types: &T) -> (r: Units)
        requires
            self.wf(),
        ensures
            r.wf(),
            r@ == self@.filter(|u: UnitView| !types.spec_contains(u.type_id)),
    {
        let f = |u: &Unit| -> (b: bool)
            ensures
                b == !types.spec_contains(u.type_id),
            { !types.contains(&u.type_id) };
        self.filter_pred(f, Ghost(|u: UnitView| !types.spec_contains(u.type_id)))
    }

    /// Copies of the units that have no orders, or fewer than two when a
    /// reactor from `reactor_tags` is attached.
    pub fn unused(&self, reactor_tags: &[u64]) -> (r: Units)
        requires
            self.wf(),
        ensures
            r.wf(),
            r@ == self@.filter(|u: UnitView| unused_with(u, reactor_tags@)),
    {
        let f = |u: &Unit| -> (b: bool)
            ensures
                b == unused_with(u@, reactor_tags@),
            { u.is_unused(reactor_tags) };
        self.filter_pred(f, Ghost(|u: UnitView| unused_with(u, reactor_tags@)))
    }

    /// Copies of the units whose tags are given, in the order of their
    /// first mention in `tags`; tags of absent units are skipped.
    pub fn find_tags(&self, tags: &[u64]) -> (r: Units)
        requires
            self.wf(),
        ensures
            r.wf(),
            r@ == find_tags_view(self@, tags@),
    {
        proof {
            self.lemma_wf();
        }
        let mut r = Units::new();
        let mut i: usize = 0;
        while i < tags.len()
            invariant
                self.wf(),
                r.wf(),
                tags_distinct(self@),
                0 <= i <= tags@.len(),
                r@ == find_tags_view(self@, tags@.take(i as int)),
                forall|x: UnitView| r@.contains(x) ==> self@.contains(x),
            decreases tags@.len() - i,
        {
            let t = tags[i];
            let ghost prev = r@;
            proof {
                assert(tags@.take(i + 1).drop_last() =~= tags@.take(i as int));
                assert(tags@.take(i + 1).last() == t);
                self.lemma_key_index(t);
                r.lemma_key_index(t);
            }
            match self.get(t) {
                Some(u) => {
                    if !r.contains_tag(t) {
                        r.push(u.clone());
                    }
                },
                None => {},
            }
            proof {
                assert forall|x: UnitView| r@.contains(x) implies self@.contains(x) by {
                    if !prev.contains(x) {
                        let k = choose|k: int| 0 <= k < r@.len() && r@[k] == x;
                        assert(k == prev.len());
                    }
                }
            }
            i = i + 1;
        }
        proof {
            assert(tags@.take(tags@.len() as int) =~= tags@);
        }
        r
    }

    /// Marks the unit with the given tag as a hallucination.
    pub fn set_hallucination(&mut self, tag: u64)
        requires
            old(self).wf(),
        ensures
            final(self).wf(),
            match tag_index(old(self)@, tag) {
                Some(i) => final(self)@ == old(self)@.update(
                    i,
                    UnitView { is_hallucination: true, ..old(self)@[i] },
                ),
                None => final(self)@ == old(self)@,
            },
    {
        proof {
            self.lemma_key_index(tag);
        }
        let found = match self.get(tag) {
            Some(u) => {
                let mut c = u.clone();
                c.is_hallucination = true;
                Some(c)
            },
            None => None,
        };
        if let Some(c) = found {
            let ghost cv = c@;
            self.push(c);
            proof {
                let i = tag_index(old(self)@, tag).unwrap();
                assert(cv == UnitView { is_hallucination: true, ..old(self)@[i] });
            }
        }
    }

    /// Marks the unit with the given tag as a snapshot, and as burrowed when
    /// `burrowed` holds.
    pub fn set_snapshot(&mut self, tag: u64, burrowed: bool)
        requires
            old(self).wf(),
        ensures
            final(self).wf(),
            match tag_index(old(self)@, tag) {
                Some(i) => final(self)@ == old(self)@.update(
                    i,
                    UnitView {
                        display_type: DisplayType::Snapshot,
                        is_burrowed: burrowed || old(self)@[i].is_burrowed,
                        ..old(self)@[i]
                    },
                ),
                None => final(self)@ == old(self)@,
            },
    {
        proof {
            self.lemma_key_index(tag);
        }
        let found = match self.get(tag) {
            Some(u) => {
                let mut c = u.clone();
                c.display_type = DisplayType::Snapshot;
                if burrowed {
                    c.is_burrowed = true;
                }
                Some(c)
            },
            None => None,
        };
        if let Some(c) = found {
            let ghost cv = c@;
            self.push(c);
            proof {
                let i = tag_index(old(self)@, tag).unwrap();
                assert(cv == UnitView {
                    display_type: DisplayType::Snapshot,
                    is_burrowed: burrowed || old(self)@[i].is_burrowed,
                    ..old(self)@[i]
                });
            }
        }
    }
}

/// A player's units, grouped.
pub struct PlayerUnits {
    /// All the player's units and structures.
    pub all: Units,
    /// Units only, without structures.
    pub units: Units,
    /// Structures only.
    pub structures: Units,
    /// Townhalls among the structures.
    pub townhalls: Units,
    /// Workers (not MULEs).
    pub workers: Units,
    /// Buildings that extract vespene gas.
    pub gas_buildings: Units,
    /// Larvae.
    pub larvas: Units,
    /// Structures ordered but not yet started.
    pub placeholders: Units,
}

impl PlayerUnits {
    /// Every group is well formed.
    pub open spec fn wf(&self) -> bool {
        self.all.wf()
        && self.units.wf()
        && self.structures.wf()
        && self.townhalls.wf()
        && self.workers.wf()
        && self.gas_buildings.wf()
        && self.larvas.wf()
        && self.placeholders.wf()
    }

    /// Empty groups.
    pub fn new() -> (r: PlayerUnits)
        ensures
            r.wf(),
            r.all@.len() == 0,
            r.units@.len() == 0,
            r.structures@.len() == 0,
            r.townhalls@.len() == 0,
            r.workers@.len() == 0,
            r.gas_buildings@.len() == 0,
            r.larvas@.len() == 0,
            r.placeholders@.len() == 0,
    {
        PlayerUnits {
            all: Units::new(),
            units: Units::new(),
            structures: Units::new(),
            townhalls: Units::new(),
            workers: Units::new(),
            gas_buildings: Units::new(),
            larvas: Units::new(),
            placeholders: Units::new(),
        }
    }

    /// Empties every group.
    pub fn clear(&mut self)
        ensures
            final(self).wf(),
            final(self).all@.len() == 0,
            final(self).units@.len() == 0,
            final(self).structures@.len() == 0,
            final(self).townhalls@.len() == 0,
            final(self).workers@.len() == 0,
            final(self).gas_buildings@.len() == 0,
            final(self).larvas@.len() == 0,
            final(self).placeholders@.len() == 0,
    {
        self.all.clear();
        self.units.clear();
        self.structures.clear();
        self.townhalls.clear();
        self.workers.clear();
        self.gas_buildings.clear();
        self.larvas.clear();
        self.placeholders.clear();
    }
}

/// All the units a bot sees, grouped.
pub struct AllUnits {
    /// All units: own, enemy and neutral.
    pub all: Units,
    /// The bot's own units.
    pub my: PlayerUnits,
    /// The opponent's units seen on this step.
    pub enemy: PlayerUnits,
    /// The opponent's units, including some remembered from earlier steps.
    pub cached: PlayerUnits,
    /// Mineral fields.
    pub mineral_fields: Units,
    /// Vespene geysers.
    pub vespene_geysers: Units,
    /// Mineral fields and vespene geysers.
    pub resources: Units,
    /// Destructible rocks and other neutral objects.
    pub destructables: Units,
    /// Watchtowers.
    pub watchtowers: Units,
    /// Inhibitor zones.
    pub inhibitor_zones: Units,
}

impl AllUnits {
    /// Every group is well formed.
    pub open spec fn wf(&self) -> bool {
        self.all.wf()
        && self.my.wf()
        && self.enemy.wf()
        && self.cached.wf()
        && self.mineral_fields.wf()
        && self.vespene_geysers.wf()
        && self.resources.wf()
        && self.destructables.wf()
        && self.watchtowers.wf()
        && self.inhibitor_zones.wf()
    }

    /// Empty groups.
    pub fn new() -> (r: AllUnits)
        ensures
            r.wf(),
            r.all@.len() == 0,
            r.my.all@.len() == 0 && r.my.units@.len() == 0 && r.my.structures@.len() == 0
                && r.my.townhalls@.len() == 0 && r.my.workers@.len() == 0 && r.my.gas_buildings@.len() == 0
                && r.my.larvas@.len() == 0 && r.my.placeholders@.len() == 0,
            r.enemy.all@.len() == 0 && r.enemy.units@.len() == 0 && r.enemy.structures@.len() == 0
                && r.enemy.townhalls@.len() == 0 && r.enemy.workers@.len() == 0 && r.enemy.gas_buildings@.len()
                == 0 && r.enemy.larvas@.len() == 0 && r.enemy.placeholders@.len() == 0,
            r.cached.all@.len() == 0 && r.cached.units@.len() == 0 && r.cached.structures@.len() == 0
                && r.cached.townhalls@.len() == 0 && r.cached.workers@.len() == 0 && r.cached.gas_buildings@.len()
                == 0 && r.cached.larvas@.len() == 0 && r.cached.placeholders@.len() == 0,
            r.mineral_fields@.len() == 0,
            r.vespene_geysers@.len() == 0,
            r.resources@.len() == 0,
            r.destructables@.len() == 0,
            r.watchtowers@.len() == 0,
            r.inhibitor_zones@.len() == 0,
    {
        AllUnits {
            all: Units::new(),
            my: PlayerUnits::new(),
            enemy: PlayerUnits::new(),
            cached: PlayerUnits::new(),
            mineral_fields: Units::new(),
            vespene_geysers: Units::new(),
            resources: Units::new(),
            destructables: Units::new(),
            watchtowers: Units::new(),
            inhibitor_zones: Units::new(),
        }
    }

    /// Empties every group but the cache of opponent's units.
    pub fn clear(&mut self)
        requires
            old(self).wf(),
        ensures
            final(self).wf(),
            final(self).cached == old(self).cached,
            final(self).all@.len() == 0,
            final(self).my.all@.len() == 0,
            final(self).enemy.all@.len() == 0,
            final(self).mineral_fields@.len() == 0,
            final(self).vespene_geysers@.len() == 0,
            final(self).resources@.len() == 0,
            final(self).destructables@.len() == 0,
            final(self).watchtowers@.len() == 0,
            final(self).inhibitor_zones@.len() == 0,
    {
        self.all.clear();
        self.my.clear();
        self.enemy.clear();
        self.mineral_fields.clear();
        self.vespene_geysers.clear();
        self.resources.clear();
        self.destructables.clear();
        self.watchtowers.clear();
        self.inhibitor_zones.clear();
    }
}

} // verus!
