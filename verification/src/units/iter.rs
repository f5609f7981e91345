//! Adaptors that walk a collection of units from both ends and yield only
//! the units that pass a test.

use vstd::prelude::*;
use crate::ids::UnitTypeId;
use crate::unit::{Unit, UnitView};
use crate::units::{Container, Units};

verus! {

broadcast use vstd::seq_lib::group_filter_ensures;

/// A sequence in which the test holds of no element filters to nothing.
proof fn lemma_filter_none(s: Seq<UnitView>, p: spec_fn(UnitView) -> bool)
    requires
        forall|i: int| 0 <= i < s.len() ==> !p(#[trigger] s[i]),
    ensures
        s.filter(p) == Seq::<UnitView>::empty(),
{
    if s.filter(p).len() > 0 {
        let x = s.filter(p)[0];
        s.lemma_filter_pred(p, 0);
        s.lemma_filter_contains_rev(p, x);
        assert(s.filter(p).contains(x));
    }
    assert(s.filter(p) =~= Seq::<UnitView>::empty());
}

/// What remains between `front` and `back` after the front moves to the
/// first match at `k`, and past it.
proof fn lemma_front_step(s: Seq<UnitView>, front: int, k: int, back: int, p: spec_fn(UnitView) -> bool)
    requires
        0 <= front <= k <= back <= s.len(),
        forall|j: int| front <= j < k ==> !p(#[trigger] s[j]),
        k < back ==> p(s[k]),
    ensures
        k == back ==> s.subrange(front, back).filter(p) == Seq::<UnitView>::empty(),
        k < back ==> s.subrange(front, back).filter(p) == seq![s[k]] + s.subrange(k + 1, back).filter(p),
{
    assert(s.subrange(front, back) =~= s.subrange(front, k) + s.subrange(k, back));
    Seq::filter_distributes_over_add(s.subrange(front, k), s.subrange(k, back), p);
    lemma_filter_none(s.subrange(front, k), p);
    assert(s.subrange(front, k).filter(p) + s.subrange(k, back).filter(p) =~= s.subrange(k, back).filter(p));
    if k < back {
        assert(s.subrange(k, back) =~= seq![s[k]] + s.subrange(k + 1, back));
        Seq::filter_distributes_over_add(seq![s[k]], s.subrange(k + 1, back), p);
        reveal_with_fuel(Seq::filter, 2);
        assert(seq![s[k]].drop_last() =~= Seq::<UnitView>::empty());
        assert(seq![s[k]].filter(p) =~= seq![s[k]]);
    } else {
        assert(s.subrange(k, back) =~= Seq::<UnitView>::empty());
        lemma_filter_none(s.subrange(k, back), p);
    }
}

/// What remains between `front` and `back` after the back moves to the
/// last match at `k`.
proof fn lemma_back_step(s: Seq<UnitView>, front: int, k: int, back: int, p: spec_fn(UnitView) -> bool)
    requires
        0 <= front <= k < back <= s.len(),
        forall|j: int| k < j < back ==> !p(#[trigger] s[j]),
        p(s[k]),
    ensures
        s.subrange(front, back).filter(p) == s.subrange(front, k).filter(p).push(s[k]),
{
    assert(s.subrange(front, back) =~= s.subrange(front, k + 1) + s.subrange(k + 1, back));
    Seq::filter_distributes_over_add(s.subrange(front, k + 1), s.subrange(k + 1, back), p);
    lemma_filter_none(s.subrange(k + 1, back), p);
    assert(s.subrange(front, k + 1).drop_last() =~= s.subrange(front, k));
    reveal_with_fuel(Seq::filter, 1);
    assert(s.subrange(front, k + 1).filter(p) + Seq::<UnitView>::empty() =~= s.subrange(front, k + 1).filter(
        p,
    ));
}

/// No match between `front` and `back` leaves nothing.
proof fn lemma_no_match(s: Seq<UnitView>, front: int, back: int, p: spec_fn(UnitView) -> bool)
    requires
        0 <= front <= back <= s.len(),
        forall|j: int| front <= j < back ==> !p(#[trigger] s[j]),
    ensures
        s.subrange(front, back).filter(p) == Seq::<UnitView>::empty(),
{
    lemma_filter_none(s.subrange(front, back), p);
}

/// The position of the first unit in `[front, back)` for which `f`
/// (which answers as `p`) holds, or `back`.
fn seek_front<F: Fn(&Unit) -> bool>(
    units: &Units,
    front: usize,
    back: usize,
    f: &F,
    Ghost(p): Ghost<spec_fn(UnitView) -> bool>,
) -> (k: usize)
    requires
        units.wf(),
        front <= back <= units@.len(),
        forall|u: &Unit| call_requires(*f, (u,)),
        forall|u: &Unit, b: bool| call_ensures(*f, (u,), b) ==> b == p(u@),
    ensures
        front <= k <= back,
        forall|j: int| front <= j < k ==> !p(#[trigger] units@[j]),
        k < back ==> p(units@[k as int]),
{
    let mut k = front;
    while k < back
        invariant
            units.wf(),
            front <= k <= back <= units@.len(),
            forall|u: &Unit| call_requires(*f, (u,)),
            forall|u: &Unit, b: bool| call_ensures(*f, (u,), b) ==> b == p(u@),
            forall|j: int| front <= j < k ==> !p(#[trigger] units@[j]),
        decreases back - k,
    {
        let u = units.at(k);
        if f(u) {
            return k;
        }
        k = k + 1;
    }
    k
}

/// The position of the last unit in `[front, back)` for which `f` (which
/// answers as `p`) holds, if any.
fn seek_back<F: Fn(&Unit) -> bool>(
    units: &Units,
    front: usize,
    back: usize,
    f: &F,
    Ghost(p): Ghost<spec_fn(UnitView) -> bool>,
) -> (r: Option<usize>)
    requires
        units.wf(),
        front <= back <= units@.len(),
        forall|u: &Unit| call_requires(*f, (u,)),
        forall|u: &Unit, b: bool| call_ensures(*f, (u,), b) ==> b == p(u@),
    ensures
        match r {
            Some(k) => front <= k < back && p(units@[k as int]) && forall|j: int|
                k < j < back ==> !p(#[trigger] units@[j]),
            None => forall|j: int| front <= j < back ==> !p(#[trigger] units@[j]),
        },
{
    let mut k = back;
    while k > front
        invariant
            units.wf(),
            front <= k <= back <= units@.len(),
            forall|u: &Unit| call_requires(*f, (u,)),
            forall|u: &Unit, b: bool| call_ensures(*f, (u,), b) ==> b == p(u@),
            forall|j: int| k <= j < back ==> !p(#[trigger] units@[j]),
        decreases k - front,
    {
        let u = units.at(k - 1);
        if f(u) {
            return Some(k - 1);
        }
        k = k - 1;
    }
    None
}

/// The units of a collection that carry one of the given tags.
pub struct FindTags<'a, T: Container<u64>> {
    units: &'a Units,
    front: usize,
    back: usize,
    tags: &'a T,
}

impl<'a, T: Container<u64>> FindTags<'a, T> {
    /// The test of a unit.
    pub closed spec fn holds(&self) -> spec_fn(UnitView) -> bool {
        |u: UnitView| self.tags.spec_contains(u.tag)
    }

    /// The positions yet to walk are within the collection.
    pub closed spec fn wf(&self) -> bool {
        self.units.wf() && self.front <= self.back <= self.units@.len()
    }

    /// The units still to be yielded, in order.
    pub closed spec fn rest(&self) -> Seq<UnitView> {
        self.units@.subrange(self.front as int, self.back as int).filter(self.holds())
    }

    /// Walks `units`, yielding those with a tag in `tags`.
    pub fn new(units: &'a Units, tags: &'a T) -> (r: Self)
        requires
            units.wf(),
        ensures
            r.wf(),
            r.rest() == units@.filter(|u: UnitView| tags.spec_contains(u.tag)),
    {
        let r = FindTags { units, front: 0, back: units.len(), tags };
        proof {
            assert(units@.subrange(0, units@.len() as int) =~= units@);
            assert(r.holds() == (|u: UnitView| tags.spec_contains(u.tag)));
        }
        r
    }

    /// The next unit, from the front.
    pub fn next(&mut self) -> (r: Option<&'a Unit>)
        requires
            old(self).wf(),
        ensures
            final(self).wf(),
            final(self).holds() == old(self).holds(),
            match r {
                Some(u) => old(self).rest().len() > 0 && u@ == old(self).rest()[0] && final(self).rest()
                    == old(self).rest().drop_first(),
                None => old(self).rest().len() == 0 && final(self).rest() == old(self).rest(),
            },
    {
        let tags = self.tags;
        let f = |u: &Unit| -> (b: bool)
            ensures
                b == tags.spec_contains(u.tag),
            { tags.contains(&u.tag) };
        let ghost p = self.holds();
        let k = seek_front(self.units, self.front, self.back, &f, Ghost(p));
        proof {
            lemma_front_step(self.units@, self.front as int, k as int, self.back as int, p);
        }
        if k < self.back {
            self.front = k + 1;
            proof {
                assert((seq![self.units@[k as int]] + self.rest()).drop_first() =~= self.rest());
            }
            Some(self.units.at(k))
        } else {
            self.front = k;
            proof {
                assert(self.units@.subrange(k as int, self.back as int) =~= Seq::<UnitView>::empty());
            }
            None
        }
    }

    /// The next unit, from the back.
    pub fn next_back(&mut self) -> (r: Option<&'a Unit>)
        requires
            old(self).wf(),
        ensures
            final(self).wf(),
            final(self).holds() == old(self).holds(),
            match r {
                Some(u) => old(self).rest().len() > 0 && u@ == old(self).rest().last() && final(self).rest()
                    == old(self).rest().drop_last(),
                None => old(self).rest().len() == 0 && final(self).rest() == old(self).rest(),
            },
    {
        let tags = self.tags;
        let f = |u: &Unit| -> (b: bool)
            ensures
                b == tags.spec_contains(u.tag),
            { tags.contains(&u.tag) };
        let ghost p = self.holds();
        match seek_back(self.units, self.front, self.back, &f, Ghost(p)) {
            Some(k) => {
                proof {
                    lemma_back_step(self.units@, self.front as int, k as int, self.back as int, p);
                }
                self.back = k;
                Some(self.units.at(k))
            },
            None => {
                proof {
                    lemma_no_match(self.units@, self.front as int, self.back as int, p);
                }
                None
            },
        }
    }
}

/// The units of a collection of the given type.
pub struct OfType<'a> {
    units: &'a Units,
    front: usize,
    back: usize,
    unit_type: UnitTypeId,
}

impl<'a> OfType<'a> {
    /// The test of a unit.
    pub closed spec fn holds(&self) -> spec_fn(UnitView) -> bool {
        |u: UnitView| u.type_id == self.unit_type
    }

    /// The positions yet to walk are within the collection.
    pub closed spec fn wf(&self) -> bool {
        self.units.wf() && self.front <= self.back <= self.units@.len()
    }

    /// The units still to be yielded, in order.
    pub closed spec fn rest(&self) -> Seq<UnitView> {
        self.units@.subrange(self.front as int, self.back as int).filter(self.holds())
    }

    /// Walks `units`, yielding those of type `unit_type`.
    pub fn new(units: &'a Units, unit_type: UnitTypeId) -> (r: Self)
        requires
            units.wf(),
        ensures
            r.wf(),
            r.rest() == units@.filter(|u: UnitView| u.type_id == unit_type),
    {
        let r = OfType { units, front: 0, back: units.len(), unit_type };
        proof {
            assert(units@.subrange(0, units@.len() as int) =~= units@);
            assert(r.holds() == (|u: UnitView| u.type_id == unit_type));
        }
        r
    }

    /// The next unit, from the front.
    pub fn next(&mut self) -> (r: Option<&'a Unit>)
        requires
            old(self).wf(),
        ensures
            final(self).wf(),
            final(self).holds() == old(self).holds(),
            match r {
                Some(u) => old(self).rest().len() > 0 && u@ == old(self).rest()[0] && final(self).rest()
                    == old(self).rest().drop_first(),
                None => old(self).rest().len() == 0 && final(self).rest() == old(self).rest(),
            },
    {
        let unit_type = self.unit_type;
        let f = |u: &Unit| -> (b: bool)
            ensures
                b == (u.type_id == unit_type),
            { u.type_id == unit_type };
        let ghost p = self.holds();
        let k = seek_front(self.units, self.front, self.back, &f, Ghost(p));
        proof {
            lemma_front_step(self.units@, self.front as int, k as int, self.back as int, p);
        }
        if k < self.back {
            self.front = k + 1;
            proof {
                assert((seq![self.units@[k as int]] + self.rest()).drop_first() =~= self.rest());
            }
            Some(self.units.at(k))
        } else {
            self.front = k;
            proof {
                assert(self.units@.subrange(k as int, self.back as int) =~= Seq::<UnitView>::empty());
            }
            None
        }
    }

    /// The next unit, from the back.
    pub fn next_back(&mut self) -> (r: Option<&'a Unit>)
        requires
            old(self).wf(),
        ensures
            final(self).wf(),
            final(self).holds() == old(self).holds(),
            match r {
                Some(u) => old(self).rest().len() > 0 && u@ == old(self).rest().last() && final(self).rest()
                    == old(self).rest().drop_last(),
                None => old(self).rest().len() == 0 && final(self).rest() == old(self).rest(),
            },
    {
        let unit_type = self.unit_type;
        let f = |u: &Unit| -> (b: bool)
            ensures
                b == (u.type_id == unit_type),
            { u.type_id == unit_type };
        let ghost p = self.holds();
        match seek_back(self.units, self.front, self.back, &f, Ghost(p)) {
            Some(k) => {
                proof {
                    lemma_back_step(self.units@, self.front as int, k as int, self.back as int, p);
                }
                self.back = k;
                Some(self.units.at(k))
            },
            None => {
                proof {
                    lemma_no_match(self.units@, self.front as int, self.back as int, p);
                }
                None
            },
        }
    }
}

/// The units of a collection of any other type than the given one.
pub struct ExcludeType<'a> {
    units: &'a Units,
    front: usize,
    back: usize,
    unit_type: UnitTypeId,
}

impl<'a> ExcludeType<'a> {
    /// The test of a unit.
    pub closed spec fn holds(&self) -> spec_fn(UnitView) -> bool {
        |u: UnitView| u.type_id != self.unit_type
    }

    /// The positions yet to walk are within the collection.
    pub closed spec fn wf(&self) -> bool {
        self.units.wf() && self.front <= self.back <= self.units@.len()
    }

    /// The units still to be yielded, in order.
    pub closed spec fn rest(&self) -> Seq<UnitView> {
        self.units@.subrange(self.front as int, self.back as int).filter(self.holds())
    }

    /// Walks `units`, yielding those not of type `unit_type`.
    pub fn new(units: &'a Units, unit_type: UnitTypeId) -> (r: Self)
        requires
            units.wf(),
        ensures
            r.wf(),
            r.rest() == units@.filter(|u: UnitView| u.type_id != unit_type),
    {
        let r = ExcludeType { units, front: 0, back: units.len(), unit_type };
        proof {
            assert(units@.subrange(0, units@.len() as int) =~= units@);
            assert(r.holds() == (|u: UnitView| u.type_id != unit_type));
        }
        r
    }

    /// The next unit, from the front.
    pub fn next(&mut self) -> (r: Option<&'a Unit>)
        requires
            old(self).wf(),
        ensures
            final(self).wf(),
            final(self).holds() == old(self).holds(),
            match r {
                Some(u) => old(self).rest().len() > 0 && u@ == old(self).rest()[0] && final(self).rest()
                    == old(self).rest().drop_first(),
                None => old(self).rest().len() == 0 && final(self).rest() == old(self).rest(),
            },
    {
        let unit_type = self.unit_type;
        let f = |u: &Unit| -> (b: bool)
            ensures
                b == (u.type_id != unit_type),
            { u.type_id != unit_type };
        let ghost p = self.holds();
        let k = seek_front(self.units, self.front, self.back, &f, Ghost(p));
        proof {
            lemma_front_step(self.units@, self.front as int, k as int, self.back as int, p);
        }
        if k < self.back {
            self.front = k + 1;
            proof {
                assert((seq![self.units@[k as int]] + self.rest()).drop_first() =~= self.rest());
            }
            Some(self.units.at(k))
        } else {
            self.front = k;
            proof {
                assert(self.units@.subrange(k as int, self.back as int) =~= Seq::<UnitView>::empty());
            }
            None
        }
    }

    /// The next unit, from the back.
    pub fn next_back(&mut self) -> (r: Option<&'a Unit>)
        requires
            old(self).wf(),
        ensures
            final(self).wf(),
            final(self).holds() == old(self).holds(),
            match r {
                Some(u) => old(self).rest().len() > 0 && u@ == old(self).rest().last() && final(self).rest()
                    == old(self).rest().drop_last(),
                None => old(self).rest().len() == 0 && final(self).rest() == old(self).rest(),
            },
    {
        let unit_type = self.unit_type;
        let f = |u: &Unit| -> (b: bool)
            ensures
                b == (u.type_id != unit_type),
            { u.type_id != unit_type };
        let ghost p = self.holds();
        match seek_back(self.units, self.front, self.back, &f, Ghost(p)) {
            Some(k) => {
                proof {
                    lemma_back_step(self.units@, self.front as int, k as int, self.back as int, p);
                }
                self.back = k;
                Some(self.units.at(k))
            },
            None => {
                proof {
                    lemma_no_match(self.units@, self.front as int, self.back as int, p);
                }
                None
            },
        }
    }
}

/// The units of a collection of one of the given types.
pub struct OfTypes<'a, T: Container<UnitTypeId>> {
    units: &'a Units,
    front: usize,
    back: usize,
    types: &'a T,
}

impl<'a, T: Container<UnitTypeId>> OfTypes<'a, T> {
    /// The test of a unit.
    pub closed spec fn holds(&self) -> spec_fn(UnitView) -> bool {
        |u: UnitView| self.types.spec_contains(u.type_id)
    }

    /// The positions yet to walk are within the collection.
    pub closed spec fn wf(&self) -> bool {
        self.units.wf() && self.front <= self.back <= self.units@.len()
    }

    /// The units still to be yielded, in order.
    pub closed spec fn rest(&self) -> Seq<UnitView> {
        self.units@.subrange(self.front as int, self.back as int).filter(self.holds())
    }

    /// Walks `units`, yielding those of a type in `types`.
    pub fn new(units: &'a Units, types: &'a T) -> (r: Self)
        requires
            units.wf(),
        ensures
            r.wf(),
            r.rest() == units@.filter(|u: UnitView| types.spec_contains(u.type_id)),
    {
        let r = OfTypes { units, front: 0, back: units.len(), types };
        proof {
            assert(units@.subrange(0, units@.len() as int) =~= units@);
            assert(r.holds() == (|u: UnitView| types.spec_contains(u.type_id)));
        }
        r
    }

    /// The next unit, from the front.
    pub fn next(&mut self) -> (r: Option<&'a Unit>)
        requires
            old(self).wf(),
        ensures
            final(self).wf(),
            final(self).holds() == old(self).holds(),
            match r {
                Some(u) => old(self).rest().len() > 0 && u@ == old(self).rest()[0] && final(self).rest()
                    == old(self).rest().drop_first(),
                None => old(self).rest().len() == 0 && final(self).rest() == old(self).rest(),
            },
    {
        let types = self.types;
        let f = |u: &Unit| -> (b: bool)
            ensures
                b == types.spec_contains(u.type_id),
            { types.contains(&u.type_id) };
        let ghost p = self.holds();
        let k = seek_front(self.units, self.front, self.back, &f, Ghost(p));
        proof {
            lemma_front_step(self.units@, self.front as int, k as int, self.back as int, p);
        }
        if k < self.back {
            self.front = k + 1;
            proof {
                assert((seq![self.units@[k as int]] + self.rest()).drop_first() =~= self.rest());
            }
            Some(self.units.at(k))
        } else {
            self.front = k;
            proof {
                assert(self.units@.subrange(k as int, self.back as int) =~= Seq::<UnitView>::empty());
            }
            None
        }
    }

    /// The next unit, from the back.
    pub fn next_back(&mut self) -> (r: Option<&'a Unit>)
        requires
            old(self).wf(),
        ensures
            final(self).wf(),
            final(self).holds() == old(self).holds(),
            match r {
                Some(u) => old(self).rest().len() > 0 && u@ == old(self).rest().last() && final(self).rest()
                    == old(self).rest().drop_last(),
                None => old(self).rest().len() == 0 && final(self).rest() == old(self).rest(),
            },
    {
        let types = self.types;
        let f = |u: &Unit| -> (b: bool)
            ensures
                b == types.spec_contains(u.type_id),
            { types.contains(&u.type_id) };
        let ghost p = self.holds();
        match seek_back(self.units, self.front, self.back, &f, Ghost(p)) {
            Some(k) => {
                proof {
                    lemma_back_step(self.units@, self.front as int, k as int, self.back as int, p);
                }
                self.back = k;
                Some(self.units.at(k))
            },
            None => {
                proof {
                    lemma_no_match(self.units@, self.front as int, self.back as int, p);
                }
                None
            },
        }
    }
}

/// The units of a collection of none of the given types.
pub struct ExcludeTypes<'a, T: Container<UnitTypeId>> {
    units: &'a Units,
    front: usize,
    back: usize,
    types: &'a T,
}

impl<'a, T: Container<UnitTypeId>> ExcludeTypes<'a, T> {
    /// The test of a unit.
    pub closed spec fn holds(&self) -> spec_fn(UnitView) -> bool {
        |u: UnitView| !self.types.spec_contains(u.type_id)
    }

    /// The positions yet to walk are within the collection.
    pub closed spec fn wf(&self) -> bool {
        self.units.wf() && self.front <= self.back <= self.units@.len()
    }

    /// The units still to be yielded, in order.
    pub closed spec fn rest(&self) -> Seq<UnitView> {
        self.units@.subrange(self.front as int, self.back as int).filter(self.holds())
    }

    /// Walks `units`, yielding those of no type in `types`.
    pub fn new(units: &'a Units, types: &'a T) -> (r: Self)
        requires
            units.wf(),
        ensures
            r.wf(),
            r.rest() == units@.filter(|u: UnitView| !types.spec_contains(u.type_id)),
    {
        let r = ExcludeTypes { units, front: 0, back: units.len(), types };
        proof {
            assert(units@.subrange(0, units@.len() as int) =~= units@);
            assert(r.holds() == (|u: UnitView| !types.spec_contains(u.type_id)));
        }
        r
    }

    /// The next unit, from the front.
    pub fn next(&mut self) -> (r: Option<&'a Unit>)
        requires
            old(self).wf(),
        ensures
            final(self).wf(),
            final(self).holds() == old(self).holds(),
            match r {
                Some(u) => old(self).rest().len() > 0 && u@ == old(self).rest()[0] && final(self).rest()
                    == old(self).rest().drop_first(),
                None => old(self).rest().len() == 0 && final(self).rest() == old(self).rest(),
            },
    {
        let types = self.types;
        let f = |u: &Unit| -> (b: bool)
            ensures
                b == !types.spec_contains(u.type_id),
            { !types.contains(&u.type_id) };
        let ghost p = self.holds();
        let k = seek_front(self.units, self.front, self.back, &f, Ghost(p));
        proof {
            lemma_front_step(self.units@, self.front as int, k as int, self.back as int, p);
        }
        if k < self.back {
            self.front = k + 1;
            proof {
                assert((seq![self.units@[k as int]] + self.rest()).drop_first() =~= self.rest());
            }
            Some(self.units.at(k))
        } else {
            self.front = k;
            proof {
                assert(self.units@.subrange(k as int, self.back as int) =~= Seq::<UnitView>::empty());
            }
            None
        }
    }

    /// The next unit, from the back.
    pub fn next_back(&mut self) -> (r: Option<&'a Unit>)
        requires
            old(self).wf(),
        ensures
            final(self).wf(),
            final(self).holds() == old(self).holds(),
            match r {
                Some(u) => old(self).rest().len() > 0 && u@ == old(self).rest().last() && final(self).rest()
                    == old(self).rest().drop_last(),
                None => old(self).rest().len() == 0 && final(self).rest() == old(self).rest(),
            },
    {
        let types = self.types;
        let f = |u: &Unit| -> (b: bool)
            ensures
                b == !types.spec_contains(u.type_id),
            { !types.contains(&u.type_id) };
        let ghost p = self.holds();
        match seek_back(self.units, self.front, self.back, &f, Ghost(p)) {
            Some(k) => {
                proof {
                    lemma_back_step(self.units@, self.front as int, k as int, self.back as int, p);
                }
                self.back = k;
                Some(self.units.at(k))
            },
            None => {
                proof {
                    lemma_no_match(self.units@, self.front as int, self.back as int, p);
                }
                None
            },
        }
    }
}

} // verus!
