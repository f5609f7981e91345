//! The search for a place to build on: the places asked of the game lie
//! on square rings around the wanted position, one ring after another
//! until the game accepts some. The library decides what to ask and what
//! the answers mean; the caller asks the game.
use vstd::prelude::*;
use crate::action::ActionResult;
use crate::bot::{Bot, PlacementOptions};
use crate::game_data::find_unit_data;
use crate::ids::{AbilityId, UnitTypeId};
use crate::unit::copy_vec;

verus! {

/// The offsets, from the wanted position, of the square ring at `distance`
/// walked with `stride`: for each `o` from `-distance` up to `distance` by
/// `stride`, the points `(o, -distance)`, `(o, distance)`, `(-distance, o)`
/// and `(distance, o)`, in this order. The ring is empty for a negative
/// distance.
pub open spec fn spec_ring(distance: int, stride: int) -> Seq<(isize, isize)> {
    if distance < 0 || stride <= 0 {
        Seq::empty()
    } else {
        Seq::new(
            (4 * ((2 * distance) / stride + 1)) as nat,
            |i: int|
                {
                    let o = (-distance + (i / 4) * stride) as isize;
                    if i % 4 == 0 {
                        (o, (-distance) as isize)
                    } else if i % 4 == 1 {
                        (o, distance as isize)
                    } else if i % 4 == 2 {
                        ((-distance) as isize, o)
                    } else {
                        (distance as isize, o)
                    }
                },
        )
    }
}

/// The offsets of the square ring at `distance` walked with `stride`.
pub fn ring_offsets(distance: isize, stride: usize) -> (r: Vec<(isize, isize)>)
    requires
        distance != isize::MIN,
        stride > 0,
    ensures
        r@ == spec_ring(distance as int, stride as int),
{
    let mut r: Vec<(isize, isize)> = Vec::new();
    if distance < 0 {
        return r;
    }
    let ghost d = distance as int;
    let ghost s = stride as int;
    let mut o: isize = -distance;
    let ghost mut k: int = 0;
    loop
        invariant
            d == distance as int,
            s == stride as int,
            0 <= d,
            s > 0,
            0 <= k,
            o as int == -d + k * s,
            o as int <= d,
            r@.len() == 4 * k,
            forall|i: int| 0 <= i < 4 * k ==> r@[i] == #[trigger] spec_ring(d, s)[i],
            k * s <= 2 * d,
        decreases 2 * d - k * s,
    {
        proof {
            assert(k * s <= 2 * d);
            assert((2 * d) / s >= k) by (nonlinear_arith)
                requires k * s <= 2 * d, s > 0, k >= 0;
        }
        r.push((o, -distance));
        r.push((o, distance));
        r.push((-distance, o));
        r.push((distance, o));
        proof {
            assert forall|i: int| 0 <= i < 4 * (k + 1) implies r@[i] == #[trigger] spec_ring(d, s)[i] by {
                if i >= 4 * k {
                    assert(i / 4 == k);
                }
            }
        }
        if (o as i128) + (stride as i128) > (distance as i128) {
            proof {
                assert((k + 1) * s == k * s + s) by (nonlinear_arith);
                assert((2 * d) / s == k) by (nonlinear_arith)
                    requires k * s <= 2 * d, 2 * d < (k + 1) * s, s > 0, k >= 0;
                assert(r@ =~= spec_ring(d, s));
            }
            return r;
        }
        o = ((o as i128) + (stride as i128)) as isize;
        proof {
            assert((k + 1) * s == k * s + s) by (nonlinear_arith);
            k = k + 1;
        }
    }
}

/// The offsets among the first `n` of `offsets` whose answer, at the same
/// place of `results`, is `Success`, in order.
pub open spec fn passed_upto(offsets: Seq<(isize, isize)>, results: Seq<ActionResult>, n: int) -> Seq<(isize, isize)>
    decreases n,
{
    if n <= 0 {
        Seq::empty()
    } else {
        let before = passed_upto(offsets, results, n - 1);
        if results[n - 1] is Success {
            before.push(offsets[n - 1])
        } else {
            before
        }
    }
}

/// The offsets whose answer is `Success`, each offset paired with the
/// answer at its place; offsets or answers beyond the shorter of the two
/// are left out.
pub open spec fn passed(offsets: Seq<(isize, isize)>, results: Seq<ActionResult>) -> Seq<(isize, isize)> {
    passed_upto(offsets, results, if offsets.len() <= results.len() { offsets.len() as int } else { results.len() as int })
}

/// The offsets whose answer is `Success`.
pub fn passed_offsets(offsets: &[(isize, isize)], results: &[ActionResult]) -> (r: Vec<(isize, isize)>)
    ensures
        r@ == passed(offsets@, results@),
{
    let n: usize = if offsets.len() <= results.len() { offsets.len() } else { results.len() };
    let mut r: Vec<(isize, isize)> = Vec::new();
    let mut i: usize = 0;
    while i < n
        invariant
            i <= n,
            n <= offsets@.len(),
            n <= results@.len(),
            r@ == passed_upto(offsets@, results@, i as int),
        decreases n - i,
    {
        if results[i].is_success() {
            r.push(offsets[i]);
        }
        i = i + 1;
    }
    r
}

/// Whether every answer is `Success`.
pub open spec fn all_success(results: Seq<ActionResult>) -> bool {
    forall|i: int| 0 <= i < results.len() ==> #[trigger] results[i] is Success
}

/// The squared distance of an offset from the wanted position.
pub open spec fn norm(o: (isize, isize)) -> int {
    o.0 * o.0 + o.1 * o.1
}

/// Whether the offset at `i` is the first of those closest to the wanted
/// position.
pub open spec fn first_closest(v: Seq<(isize, isize)>, i: int) -> bool {
    &&& 0 <= i < v.len()
    &&& forall|j: int| 0 <= j < v.len() ==> norm(v[i]) <= #[trigger] norm(v[j])
    &&& forall|j: int| 0 <= j < i ==> norm(v[i]) < #[trigger] norm(v[j])
}

/// The first of the offsets closest to the wanted position.
pub open spec fn closest_of(v: Seq<(isize, isize)>) -> (isize, isize) {
    v[choose|i: int| first_closest(v, i)]
}

fn norm_of(o: (isize, isize)) -> (r: u128)
    ensures
        r as int == norm(o),
{
    let a: u128 = if o.0 < 0 { (-(o.0 as i128)) as u128 } else { o.0 as u128 };
    let b: u128 = if o.1 < 0 { (-(o.1 as i128)) as u128 } else { o.1 as u128 };
    proof {
        assert(a * a == o.0 * o.0) by (nonlinear_arith)
            requires a == o.0 || a == -o.0;
        assert(b * b == o.1 * o.1) by (nonlinear_arith)
            requires b == o.1 || b == -o.1;
        assert(a * a <= 0x4000_0000_0000_0000_0000_0000_0000_0000) by (nonlinear_arith)
            requires 0 <= a <= 0x8000_0000_0000_0000;
        assert(b * b <= 0x4000_0000_0000_0000_0000_0000_0000_0000) by (nonlinear_arith)
            requires 0 <= b <= 0x8000_0000_0000_0000;
    }
    a * a + b * b
}

/// The first of the offsets closest to the wanted position.
pub fn closest_offset(v: &[(isize, isize)]) -> (r: (isize, isize))
    requires
        v@.len() > 0,
    ensures
        r == closest_of(v@),
{
    let mut best: usize = 0;
    let mut best_norm: u128 = norm_of(v[0]);
    let mut i: usize = 1;
    while i < v.len()
        invariant
            1 <= i <= v@.len(),
            best < i,
            best_norm as int == norm(v@[best as int]),
            forall|j: int| 0 <= j < i ==> norm(v@[best as int]) <= #[trigger] norm(v@[j]),
            forall|j: int| 0 <= j < best ==> norm(v@[best as int]) < #[trigger] norm(v@[j]),
        decreases v@.len() - i,
    {
        let n = norm_of(v[i]);
        if n < best_norm {
            best = i;
            best_norm = n;
        }
        i = i + 1;
    }
    proof {
        assert(first_closest(v@, best as int));
        assert forall|i: int| first_closest(v@, i) implies i == best by {
            if i < best {
            } else if i > best {
            }
        }
    }
    v[best]
}

/// Where a search for a place stands.
#[derive(Debug, Clone, PartialEq, Eq)]
pub enum PlacementStage {
    /// The wanted position itself is asked.
    Near,
    /// The ring at `distance` is asked.
    Ring { distance: isize },
    /// The addons of the places of the ring at `distance` that the game
    /// accepted are asked.
    Addons { distance: isize, valid: Vec<(isize, isize)> },
    /// The search is over.
    Done,
}

/// A search for a place to build on with `ability`, around a wanted
/// position. Places are given as offsets from that position.
#[derive(Debug, Clone)]
pub struct PlacementSearch {
    pub ability: AbilityId,
    pub options: PlacementOptions,
    pub stage: PlacementStage,
}

/// What the caller does after an answer of the game.
#[derive(Debug)]
pub enum PlacementAction {
    /// Ask the game what `asking` gives now.
    Ask,
    /// Build at this offset.
    Place((isize, isize)),
    /// Build at one of these offsets, picked at random.
    PlaceRandom(Vec<(isize, isize)>),
    /// There is no place.
    GiveUp,
}

/// The stride with which distances and rings are walked: the step taken as
/// an unsigned number.
pub open spec fn stride(o: PlacementOptions) -> int {
    if o.step >= 0 {
        o.step as int
    } else {
        o.step + usize::MAX + 1
    }
}

/// The step taken as an unsigned number.
fn stride_of(o: PlacementOptions) -> (r: usize)
    ensures
        r as int == stride(o),
{
    if o.step >= 0 {
        o.step as usize
    } else {
        ((o.step as i128) + (usize::MAX as i128) + 1) as usize
    }
}

/// The first ring's distance: the step, when it is below the maximum.
pub open spec fn first_distance(o: PlacementOptions) -> Option<isize> {
    if o.step < o.max_distance {
        Some(o.step)
    } else {
        None
    }
}

/// The ring's distance after `d`: one stride further, while below the
/// maximum.
pub open spec fn next_distance(d: isize, o: PlacementOptions) -> Option<isize> {
    if d + stride(o) < o.max_distance {
        Some((d + stride(o)) as isize)
    } else {
        None
    }
}

/// Whether, with the places `valid` accepted on the ring at `d`, the search
/// goes on to `stage` with `action`: the first closest place is taken (a
/// random one, if the options say so); with none, the next ring is asked,
/// and past the last the search gives up.
pub open spec fn decided(
    valid: Seq<(isize, isize)>,
    d: isize,
    o: PlacementOptions,
    stage: PlacementStage,
    action: PlacementAction,
) -> bool {
    if valid.len() > 0 {
        &&& stage is Done
        &&& if o.random {
            action is PlaceRandom && action->PlaceRandom_0@ == valid
        } else {
            action == PlacementAction::Place(closest_of(valid))
        }
    } else {
        match next_distance(d, o) {
            Some(d2) => stage == PlacementStage::Ring { distance: d2 } && action is Ask,
            None => stage is Done && action is GiveUp,
        }
    }
}

impl PlacementSearch {
    /// A ring is asked only with a nonzero step and at a distance that can
    /// be negated.
    pub open spec fn wf(&self) -> bool {
        match self.stage {
            PlacementStage::Ring { distance } => self.options.step != 0 && distance != isize::MIN,
            PlacementStage::Addons { distance, .. } => self.options.step != 0 && distance != isize::MIN,
            _ => true,
        }
    }

    /// What is asked of the game now: the offsets of places for the
    /// building, then the offsets of places whose addon is asked.
    pub fn asking(&self) -> (r: (Vec<(isize, isize)>, Vec<(isize, isize)>))
        requires
            self.wf(),
        ensures
            match self.stage {
                PlacementStage::Near => {
                    &&& r.0@ == seq![(0isize, 0isize)]
                    &&& self.options.addon ==> r.1@ == seq![(0isize, 0isize)]
                    &&& !self.options.addon ==> r.1@ == Seq::<(isize, isize)>::empty()
                },
                PlacementStage::Ring { distance } => r.0@ == spec_ring(distance as int, stride(self.options))
                    && r.1@ == Seq::<(isize, isize)>::empty(),
                PlacementStage::Addons { valid, .. } => r.0@ == Seq::<(isize, isize)>::empty() && r.1@ == valid@,
                PlacementStage::Done => r.0@ == Seq::<(isize, isize)>::empty() && r.1@ == Seq::<(isize, isize)>::empty(),
            },
    {
        match &self.stage {
            PlacementStage::Near => {
                let mut addon: Vec<(isize, isize)> = Vec::new();
                if self.options.addon {
                    addon.push((0, 0));
                }
                let mut here: Vec<(isize, isize)> = Vec::new();
                here.push((0, 0));
                proof {
                    assert(here@ =~= seq![(0isize, 0isize)]);
                    if self.options.addon {
                        assert(addon@ =~= seq![(0isize, 0isize)]);
                    } else {
                        assert(addon@ =~= Seq::<(isize, isize)>::empty());
                    }
                }
                (here, addon)
            },
            PlacementStage::Ring { distance } => {
                (ring_offsets(*distance, stride_of(self.options)), Vec::new())
            },
            PlacementStage::Addons { valid, .. } => (Vec::new(), copy_vec(valid)),
            PlacementStage::Done => (Vec::new(), Vec::new()),
        }
    }
    /// Goes on from the places `valid` accepted on the ring at `d`.
    fn decide(&mut self, valid: Vec<(isize, isize)>, d: isize) -> (r: PlacementAction)
        requires
            old(self).options.step != 0,
            d != isize::MIN,
        ensures
            final(self).wf(),
            final(self).ability == old(self).ability,
            final(self).options == old(self).options,
            decided(valid@, d, old(self).options, final(self).stage, r),
    {
        if valid.len() > 0 {
            self.stage = PlacementStage::Done;
            if self.options.random {
                PlacementAction::PlaceRandom(valid)
            } else {
                PlacementAction::Place(closest_offset(&valid))
            }
        } else {
            let s: usize = stride_of(self.options);
            if (d as i128) + (s as i128) < (self.options.max_distance as i128) {
                let d2: isize = ((d as i128) + (s as i128)) as isize;
                self.stage = PlacementStage::Ring { distance: d2 };
                PlacementAction::Ask
            } else {
                self.stage = PlacementStage::Done;
                PlacementAction::GiveUp
            }
        }
    }

    /// Takes the game's answers to what `asking` gave, in the same order,
    /// and says what to do next. At the wanted position, the search ends
    /// there when every answer is `Success`, and goes on to the first ring
    /// otherwise; on a ring, the places accepted are kept (and, where an
    /// addon must fit, their addons are asked next); among those kept the
    /// first closest is taken, or a random one; with none, the next ring is
    /// asked, and past the last the search gives up. Answers beyond the
    /// places asked, or places beyond the answers, are left out.
    pub fn next(&mut self, results: &[ActionResult]) -> (r: PlacementAction)
        requires
            old(self).wf(),
            old(self).stage is Near && !all_success(results@) ==> {
                &&& old(self).options.step != 0
                &&& old(self).options.step == isize::MIN ==> first_distance(old(self).options) is None
            },
        ensures
            final(self).wf(),
            final(self).ability == old(self).ability,
            final(self).options == old(self).options,
            match old(self).stage {
                PlacementStage::Near => if all_success(results@) {
                    final(self).stage is Done && r == PlacementAction::Place((0isize, 0isize))
                } else {
                    match first_distance(old(self).options) {
                        Some(d) => final(self).stage == PlacementStage::Ring { distance: d } && r is Ask,
                        None => final(self).stage is Done && r is GiveUp,
                    }
                },
                PlacementStage::Ring { distance } => {
                    let valid = passed(spec_ring(distance as int, stride(old(self).options)), results@);
                    if old(self).options.addon {
                        &&& final(self).stage is Addons
                        &&& final(self).stage->Addons_distance == distance
                        &&& final(self).stage->Addons_valid@ == valid
                        &&& r is Ask
                    } else {
                        decided(valid, distance, old(self).options, final(self).stage, r)
                    }
                },
                PlacementStage::Addons { distance, valid } => decided(
                    passed(valid@, results@),
                    distance,
                    old(self).options,
                    final(self).stage,
                    r,
                ),
                PlacementStage::Done => final(self).stage is Done && r is GiveUp,
            },
    {
        match &self.stage {
            PlacementStage::Near => {
                let mut all: bool = true;
                let mut i: usize = 0;
                while i < results.len()
                    invariant
                        i <= results@.len(),
                        all == (forall|j: int| 0 <= j < i ==> #[trigger] results@[j] is Success),
                    decreases results@.len() - i,
                {
                    if !results[i].is_success() {
                        all = false;
                    }
                    i = i + 1;
                }
                if all {
                    self.stage = PlacementStage::Done;
                    PlacementAction::Place((0, 0))
                } else if self.options.step < self.options.max_distance {
                    self.stage = PlacementStage::Ring { distance: self.options.step };
                    PlacementAction::Ask
                } else {
                    self.stage = PlacementStage::Done;
                    PlacementAction::GiveUp
                }
            },
            PlacementStage::Ring { distance } => {
                let d: isize = *distance;
                let ring = ring_offsets(d, stride_of(self.options));
                let valid = passed_offsets(&ring, results);
                if self.options.addon {
                    self.stage = PlacementStage::Addons { distance: d, valid };
                    PlacementAction::Ask
                } else {
                    self.decide(valid, d)
                }
            },
            PlacementStage::Addons { distance, valid } => {
                let d: isize = *distance;
                let kept = passed_offsets(valid, results);
                self.decide(kept, d)
            },
            PlacementStage::Done => PlacementAction::GiveUp,
        }
    }
}

impl Bot {
    /// A search for a place for `building` with `options`, at the wanted
    /// position first; none where the game data gives no ability that
    /// builds it (there is then no place).
    pub fn placement_search(&self, building: UnitTypeId, options: PlacementOptions) -> (r: Option<PlacementSearch>)
        ensures
            match find_unit_data(self.game_data.units@, building) {
                Some(d) => match d.ability {
                    Some(a) => r == Some(PlacementSearch { ability: a, options, stage: PlacementStage::Near }),
                    None => r is None,
                },
                None => r is None,
            },
    {
        match self.game_data.unit_data(building) {
            Some(d) => match d.ability {
                Some(a) => Some(PlacementSearch { ability: a, options, stage: PlacementStage::Near }),
                None => None,
            },
            None => None,
        }
    }
}

} // verus!
