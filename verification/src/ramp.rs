//! Ramps: groups of map cells that can be walked but not built on, between
//! levels of different height.
use vstd::prelude::*;
use crate::bot::Bot;
use crate::geometry::Rect;
use crate::pixel_map::ByteMap;
use crate::utils::{answered, answers_by_point, clustered_by_neighbors, grown, grown_at, in_some, is_core, lemma_neighbors_of, neighbors_of, cluster_views, dbscan, extend_unique, index_set_items, index_set_of, lemma_extend_unique, FxIndexSet};

verus! {

/// The highest of the heights, 0 for none.
pub open spec fn max_height(h: Seq<u8>) -> u8
    decreases h.len(),
{
    if h.len() == 0 {
        0
    } else {
        let m = max_height(h.drop_last());
        if h.last() > m {
            h.last()
        } else {
            m
        }
    }
}

/// The lowest of the heights, 255 for none.
pub open spec fn min_height(h: Seq<u8>) -> u8
    decreases h.len(),
{
    if h.len() == 0 {
        255
    } else {
        let m = min_height(h.drop_last());
        if h.last() < m {
            h.last()
        } else {
            m
        }
    }
}

/// The points among the first `n` whose height is `level`, in order.
pub open spec fn points_at(points: Seq<(usize, usize)>, heights: Seq<u8>, level: u8, n: int) -> Seq<(usize, usize)>
    decreases n,
{
    if n <= 0 {
        Seq::empty()
    } else {
        let before = points_at(points, heights, level, n - 1);
        if heights[n - 1] == level {
            before.push(points[n - 1])
        } else {
            before
        }
    }
}

/// The sum of the first coordinates of the points.
pub open spec fn sum_x(ps: Seq<(usize, usize)>) -> int
    decreases ps.len(),
{
    if ps.len() == 0 {
        0
    } else {
        sum_x(ps.drop_last()) + ps.last().0
    }
}

/// The sum of the second coordinates of the points.
pub open spec fn sum_y(ps: Seq<(usize, usize)>) -> int
    decreases ps.len(),
{
    if ps.len() == 0 {
        0
    } else {
        sum_y(ps.drop_last()) + ps.last().1
    }
}

/// The center of the points, each coordinate the mean rounded down; none
/// for no points.
pub open spec fn center_of(ps: Seq<(usize, usize)>) -> Option<(usize, usize)> {
    if ps.len() == 0 {
        None
    } else {
        Some(((sum_x(ps) / ps.len() as int) as usize, (sum_y(ps) / ps.len() as int) as usize))
    }
}

proof fn lemma_max_height(h: Seq<u8>)
    ensures
        forall|i: int| 0 <= i < h.len() ==> #[trigger] h[i] <= max_height(h),
        h.len() > 0 ==> exists|i: int| 0 <= i < h.len() && h[i] == max_height(h),
    decreases h.len(),
{
    if h.len() > 0 {
        lemma_max_height(h.drop_last());
        assert forall|i: int| 0 <= i < h.len() implies #[trigger] h[i] <= max_height(h) by {
            if i < h.len() - 1 {
                assert(h.drop_last()[i] == h[i]);
            }
        }
        if h.last() <= max_height(h.drop_last()) && h.len() > 1 {
            let i = choose|i: int| 0 <= i < h.drop_last().len() && h.drop_last()[i] == max_height(h.drop_last());
            assert(h[i] == max_height(h));
        }
    }
}

proof fn lemma_min_height(h: Seq<u8>)
    ensures
        forall|i: int| 0 <= i < h.len() ==> #[trigger] h[i] >= min_height(h),
    decreases h.len(),
{
    if h.len() > 0 {
        lemma_min_height(h.drop_last());
        assert forall|i: int| 0 <= i < h.len() implies #[trigger] h[i] >= min_height(h) by {
            if i < h.len() - 1 {
                assert(h.drop_last()[i] == h[i]);
            }
        }
    }
}

/// No point among the first `n` is at a level above every height there.
proof fn lemma_points_above(points: Seq<(usize, usize)>, heights: Seq<u8>, level: u8, n: int)
    requires
        0 <= n <= heights.len(),
        forall|i: int| 0 <= i < n ==> #[trigger] heights[i] < level,
    ensures
        points_at(points, heights, level, n) == Seq::<(usize, usize)>::empty(),
    decreases n,
{
    if n > 0 {
        lemma_points_above(points, heights, level, n - 1);
    }
}

/// A ramp: its points, and the height of each.
#[derive(Debug, Clone)]
pub struct Ramp {
    /// The points of the ramp.
    pub points: Vec<(usize, usize)>,
    /// The terrain height at each point, in the same order.
    pub heights: Vec<u8>,
}

impl Ramp {
    /// Each point has its height.
    pub open spec fn wf(&self) -> bool {
        self.points@.len() == self.heights@.len()
    }

    /// The points of the ramp at its top height.
    pub open spec fn spec_upper(&self) -> Seq<(usize, usize)> {
        points_at(self.points@, self.heights@, max_height(self.heights@), self.points@.len() as int)
    }

    /// The points of the ramp at its bottom height.
    pub open spec fn spec_lower(&self) -> Seq<(usize, usize)> {
        points_at(self.points@, self.heights@, min_height(self.heights@), self.points@.len() as int)
    }

    /// A ramp of the given points, with their heights read from `height`.
    pub fn new(points: Vec<(usize, usize)>, height: &ByteMap) -> (r: Ramp)
        requires
            forall|i: int| 0 <= i < points@.len() ==> (#[trigger] points@[i]).0 < height.width() && points@[i].1 < height.height(),
        ensures
            r.wf(),
            r.points@ == points@,
            forall|i: int| 0 <= i < points@.len() ==> #[trigger] r.heights@[i] == height.cell(points@[i].0 as int, points@[i].1 as int),
    {
        let mut heights: Vec<u8> = Vec::new();
        let mut i: usize = 0;
        while i < points.len()
            invariant
                i <= points@.len(),
                heights@.len() == i,
                forall|i: int| 0 <= i < points@.len() ==> (#[trigger] points@[i]).0 < height.width() && points@[i].1 < height.height(),
                forall|j: int| 0 <= j < i ==> #[trigger] heights@[j] == height.cell(points@[j].0 as int, points@[j].1 as int),
            decreases points@.len() - i,
        {
            let (x, y) = points[i];
            heights.push(height.get(x, y));
            i = i + 1;
        }
        Ramp { points, heights }
    }

    /// The points of the ramp at its top height, in order.
    pub fn upper(&self) -> (r: Vec<(usize, usize)>)
        requires
            self.wf(),
        ensures
            r@ == self.spec_upper(),
    {
        let mut max: u8 = 0;
        let mut result: Vec<(usize, usize)> = Vec::new();
        let mut i: usize = 0;
        while i < self.points.len()
            invariant
                self.wf(),
                i <= self.points@.len(),
                max == max_height(self.heights@.take(i as int)),
                result@ == points_at(self.points@, self.heights@, max, i as int),
            decreases self.points@.len() - i,
        {
            proof {
                assert(self.heights@.take(i + 1).drop_last() =~= self.heights@.take(i as int));
                lemma_max_height(self.heights@.take(i as int));
            }
            let p = self.points[i];
            let h = self.heights[i];
            if h > max {
                proof {
                    assert forall|j: int| 0 <= j < i implies #[trigger] self.heights@[j] < h by {
                        assert(self.heights@.take(i as int)[j] == self.heights@[j]);
                    }
                    lemma_points_above(self.points@, self.heights@, h, i as int);
                }
                max = h;
                result = Vec::new();
                result.push(p);
                proof {
                    assert(result@ =~= Seq::<(usize, usize)>::empty().push(p));
                }
            } else if h == max {
                result.push(p);
            }
            i = i + 1;
        }
        proof {
            assert(self.heights@.take(self.points@.len() as int) =~= self.heights@);
        }
        result
    }
    /// The points of the ramp at its bottom height, in order.
    pub fn lower(&self) -> (r: Vec<(usize, usize)>)
        requires
            self.wf(),
        ensures
            r@ == self.spec_lower(),
    {
        let mut min: u8 = 255;
        let mut result: Vec<(usize, usize)> = Vec::new();
        let mut i: usize = 0;
        while i < self.points.len()
            invariant
                self.wf(),
                i <= self.points@.len(),
                min == min_height(self.heights@.take(i as int)),
                result@ == points_at(self.points@, self.heights@, min, i as int),
            decreases self.points@.len() - i,
        {
            proof {
                assert(self.heights@.take(i + 1).drop_last() =~= self.heights@.take(i as int));
                lemma_min_height(self.heights@.take(i as int));
            }
            let p = self.points[i];
            let h = self.heights[i];
            if h < min {
                proof {
                    assert forall|j: int| 0 <= j < i implies #[trigger] self.heights@[j] > h by {
                        assert(self.heights@.take(i as int)[j] == self.heights@[j]);
                    }
                    lemma_points_below(self.points@, self.heights@, h, i as int);
                }
                min = h;
                result = Vec::new();
                result.push(p);
                proof {
                    assert(result@ =~= Seq::<(usize, usize)>::empty().push(p));
                }
            } else if h == min {
                result.push(p);
            }
            i = i + 1;
        }
        proof {
            assert(self.heights@.take(self.points@.len() as int) =~= self.heights@);
        }
        result
    }

    /// The center of the top points of the ramp; none for a ramp without
    /// points.
    pub fn top_center(&self) -> (r: Option<(usize, usize)>)
        requires
            self.wf(),
            sum_x(self.spec_upper()) <= usize::MAX,
            sum_y(self.spec_upper()) <= usize::MAX,
        ensures
            r == center_of(self.spec_upper()),
    {
        let ps = self.upper();
        center(&ps)
    }

    /// The center of the bottom points of the ramp; none for a ramp without
    /// points.
    pub fn bottom_center(&self) -> (r: Option<(usize, usize)>)
        requires
            self.wf(),
            sum_x(self.spec_lower()) <= usize::MAX,
            sum_y(self.spec_lower()) <= usize::MAX,
        ensures
            r == center_of(self.spec_lower()),
    {
        let ps = self.lower();
        center(&ps)
    }
}

proof fn lemma_sums_grow(ps: Seq<(usize, usize)>, i: int)
    requires
        0 <= i <= ps.len(),
    ensures
        sum_x(ps.take(i)) <= sum_x(ps),
        sum_y(ps.take(i)) <= sum_y(ps),
    decreases ps.len() - i,
{
    if i < ps.len() {
        lemma_sums_grow(ps, i + 1);
        assert(ps.take(i + 1).drop_last() =~= ps.take(i));
    } else {
        assert(ps.take(i) =~= ps);
    }
}

/// The center of the points, each coordinate the mean rounded down.
fn center(ps: &Vec<(usize, usize)>) -> (r: Option<(usize, usize)>)
    requires
        sum_x(ps@) <= usize::MAX,
        sum_y(ps@) <= usize::MAX,
    ensures
        r == center_of(ps@),
{
    if ps.len() == 0 {
        return None;
    }
    let mut x: usize = 0;
    let mut y: usize = 0;
    let mut i: usize = 0;
    while i < ps.len()
        invariant
            i <= ps@.len(),
            sum_x(ps@) <= usize::MAX,
            sum_y(ps@) <= usize::MAX,
            x == sum_x(ps@.take(i as int)),
            y == sum_y(ps@.take(i as int)),
        decreases ps@.len() - i,
    {
        proof {
            assert(ps@.take(i + 1).drop_last() =~= ps@.take(i as int));
            lemma_sums_grow(ps@, i + 1);
        }
        x = x + ps[i].0;
        y = y + ps[i].1;
        i = i + 1;
    }
    proof {
        assert(ps@.take(ps@.len() as int) =~= ps@);
    }
    Some((x / ps.len(), y / ps.len()))
}

/// No point among the first `n` is at a level below every height there.
proof fn lemma_points_below(points: Seq<(usize, usize)>, heights: Seq<u8>, level: u8, n: int)
    requires
        0 <= n <= heights.len(),
        forall|i: int| 0 <= i < n ==> #[trigger] heights[i] > level,
    ensures
        points_at(points, heights, level, n) == Seq::<(usize, usize)>::empty(),
    decreases n,
{
    if n > 0 {
        lemma_points_below(points, heights, level, n - 1);
    }
}

/// The number of cells of the area.
pub open spec fn area_len(a: Rect) -> int {
    if a.x0 < a.x1 && a.y0 < a.y1 {
        (a.x1 - a.x0) * (a.y1 - a.y0)
    } else {
        0
    }
}

/// The cell at place `k` of the area, walked column by column: each `x`
/// in turn, and for it each `y`.
pub open spec fn area_cell(a: Rect, k: int) -> (usize, usize) {
    let n = a.y1 - a.y0;
    ((a.x0 + k / n) as usize, (a.y0 + k % n) as usize)
}

/// Whether a cell can be walked but not built on.
pub open spec fn ramp_candidate(bot: Bot, p: (usize, usize)) -> bool {
    bot.game_info.pathing_grid.cell(p.0 as int, p.1 as int) is Empty
        && !(bot.game_info.placement_grid.cell(p.0 as int, p.1 as int) is Empty)
}

/// The terrain height at a cell.
pub open spec fn height_at(bot: Bot, x: int, y: int) -> u8 {
    bot.game_info.terrain_height.cell(x, y)
}

/// Whether the eight cells around a cell have its height.
pub open spec fn level_around(bot: Bot, p: (usize, usize)) -> bool {
    let (x, y) = (p.0 as int, p.1 as int);
    let h = height_at(bot, x, y);
    &&& height_at(bot, x + 1, y) == h
    &&& height_at(bot, x - 1, y) == h
    &&& height_at(bot, x, y + 1) == h
    &&& height_at(bot, x, y - 1) == h
    &&& height_at(bot, x + 1, y + 1) == h
    &&& height_at(bot, x - 1, y - 1) == h
    &&& height_at(bot, x + 1, y - 1) == h
    &&& height_at(bot, x - 1, y + 1) == h
}

/// Whether the grids can be read where the search for ramps reads them at
/// cell `p`: its own cell, and, for a cell that can be walked but not
/// built on, the cells around it as far as they are compared.
pub open spec fn readable_at(bot: Bot, p: (usize, usize)) -> bool {
    let (x, y) = (p.0 as int, p.1 as int);
    let g = bot.game_info;
    &&& x < g.pathing_grid.width() && y < g.pathing_grid.height()
    &&& g.pathing_grid.cell(x, y) is Empty ==> x < g.placement_grid.width() && y < g.placement_grid.height()
    &&& ramp_candidate(bot, p) ==> {
        &&& 1 <= x && 1 <= y
        &&& x + 1 <= usize::MAX && y + 1 <= usize::MAX
        &&& x + 1 < g.terrain_height.width()
        &&& y < g.terrain_height.height()
        &&& height_at(bot, x + 1, y) == height_at(bot, x, y) && height_at(bot, x - 1, y) == height_at(bot, x, y)
            ==> y + 1 < g.terrain_height.height()
    }
}

/// The cells among the first `k` of the area that can be walked but not
/// built on, and whose surroundings are level (`level`) or not.
pub open spec fn picked_cells(bot: Bot, a: Rect, level: bool, k: int) -> Seq<(usize, usize)>
    decreases k,
{
    if k <= 0 {
        Seq::empty()
    } else {
        let before = picked_cells(bot, a, level, k - 1);
        let p = area_cell(a, k - 1);
        if ramp_candidate(bot, p) && level_around(bot, p) == level {
            before.push(p)
        } else {
            before
        }
    }
}

impl Bot {
    /// Whether the eight cells around (x, y) have its height, comparing them
    /// in turn and stopping at the first that differs.
    fn is_level_around(&self, x: usize, y: usize) -> (r: bool)
        requires
            readable_at(*self, (x, y)),
            ramp_candidate(*self, (x, y)),
        ensures
            r == level_around(*self, (x, y)),
    {
        let h = self.get_height((x, y));
        if self.get_height((x + 1, y)) != h {
            return false;
        }
        if self.get_height((x - 1, y)) != h {
            return false;
        }
        self.get_height((x, y + 1)) == h && self.get_height((x, y - 1)) == h
            && self.get_height((x + 1, y + 1)) == h && self.get_height((x - 1, y - 1)) == h
            && self.get_height((x + 1, y - 1)) == h && self.get_height((x - 1, y + 1)) == h
    }

    /// Sorts the cells of the playable area that can be walked but not built
    /// on: those beside a cell of another height are ramp points, the others
    /// vision blockers. Both come in the order of the area, column by column.
    pub fn find_ramp_points(&self) -> (r: (Vec<(usize, usize)>, Vec<(usize, usize)>))
        requires
            forall|k: int| 0 <= k < area_len(self.game_info.playable_area) ==> readable_at(*self, #[trigger] area_cell(self.game_info.playable_area, k)),
        ensures
            r.0@ == picked_cells(*self, self.game_info.playable_area, false, area_len(self.game_info.playable_area)),
            r.1@ == picked_cells(*self, self.game_info.playable_area, true, area_len(self.game_info.playable_area)),
    {
        let a = self.game_info.playable_area;
        let mut ramp: Vec<(usize, usize)> = Vec::new();
        let mut blockers: Vec<(usize, usize)> = Vec::new();
        if a.x0 >= a.x1 || a.y0 >= a.y1 {
            return (ramp, blockers);
        }
        let ghost n = a.y1 - a.y0;
        let mut x: usize = a.x0;
        let ghost mut k: int = 0;
        while x < a.x1
            invariant
                a == self.game_info.playable_area,
                a.x0 < a.x1 && a.y0 < a.y1,
                n == a.y1 - a.y0,
                a.x0 <= x <= a.x1,
                k == (x - a.x0) * n,
                forall|k: int| 0 <= k < area_len(self.game_info.playable_area) ==> readable_at(*self, #[trigger] area_cell(self.game_info.playable_area, k)),
                ramp@ == picked_cells(*self, a, false, k),
                blockers@ == picked_cells(*self, a, true, k),
            decreases a.x1 - x,
        {
            let mut y: usize = a.y0;
            while y < a.y1
                invariant
                    a == self.game_info.playable_area,
                    a.x0 < a.x1 && a.y0 < a.y1,
                    n == a.y1 - a.y0,
                    a.x0 <= x < a.x1,
                    a.y0 <= y <= a.y1,
                    k == (x - a.x0) * n + (y - a.y0),
                    forall|k: int| 0 <= k < area_len(self.game_info.playable_area) ==> readable_at(*self, #[trigger] area_cell(self.game_info.playable_area, k)),
                    ramp@ == picked_cells(*self, a, false, k),
                    blockers@ == picked_cells(*self, a, true, k),
                decreases a.y1 - y,
            {
                proof {
                    let q = x - a.x0;
                    let m = y - a.y0;
                    assert(0 <= k < area_len(a)) by (nonlinear_arith)
                        requires k == q * n + m, 0 <= m < n, 0 <= q < a.x1 - a.x0, area_len(a) == (a.x1 - a.x0) * n;
                    assert(k / n == q && k % n == m) by (nonlinear_arith)
                        requires k == q * n + m, 0 <= m < n, 0 <= q;
                    assert(area_cell(a, k) == (x, y));
                    assert(readable_at(*self, area_cell(a, k)));
                }
                if self.is_pathable((x, y)) && !self.is_placeable((x, y)) {
                    if self.is_level_around(x, y) {
                        blockers.push((x, y));
                    } else {
                        ramp.push((x, y));
                    }
                }
                y = y + 1;
                proof {
                    k = k + 1;
                }
            }
            x = x + 1;
            proof {
                assert(k == (x - a.x0) * n) by (nonlinear_arith)
                    requires k == (x - 1 - a.x0) * n + n;
            }
        }
        proof {
            assert(k == area_len(a));
        }
        (ramp, blockers)
    }
}

/// The eight cells around a cell, in the order they are looked at.
pub open spec fn cells_around(p: (usize, usize)) -> Seq<(int, int)> {
    let (x, y) = (p.0 as int, p.1 as int);
    seq![(x + 1, y), (x - 1, y), (x, y + 1), (x, y - 1), (x + 1, y + 1), (x - 1, y - 1), (x + 1, y - 1), (x - 1, y + 1)]
}

/// The place of cell `c` among the first `n` points, the first if it is
/// there more than once.
pub open spec fn place_of(points: Seq<(usize, usize)>, c: (int, int), n: int) -> Option<int>
    decreases n,
{
    if n <= 0 {
        None
    } else {
        match place_of(points, c, n - 1) {
            Some(i) => Some(i),
            None => if points[n - 1].0 == c.0 && points[n - 1].1 == c.1 {
                Some(n - 1)
            } else {
                None
            },
        }
    }
}

/// The places of the first `m` cells of `cells` among the points, for the
/// cells that are points, in order.
pub open spec fn places_of(points: Seq<(usize, usize)>, cells: Seq<(int, int)>, m: int) -> Seq<u64>
    decreases m,
{
    if m <= 0 {
        Seq::empty()
    } else {
        let before = places_of(points, cells, m - 1);
        match place_of(points, cells[m - 1], points.len() as int) {
            Some(i) => before.push(i as u64),
            None => before,
        }
    }
}

/// The places among the points of the points around the point at place
/// `i`.
pub open spec fn ramp_neighbor_places(points: Seq<(usize, usize)>, i: int) -> Seq<u64> {
    if 0 <= i < points.len() {
        places_of(points, cells_around(points[i]), 8)
    } else {
        Seq::empty()
    }
}

/// Whether each point has a cell on every side, inside the numbers.
pub open spec fn inner_points(points: Seq<(usize, usize)>) -> bool {
    forall|i: int| 0 <= i < points.len() ==> 1 <= #[trigger] points[i].0 && points[i].0 < usize::MAX && 1 <= points[i].1
        && points[i].1 < usize::MAX
}

proof fn lemma_place_of(points: Seq<(usize, usize)>, c: (int, int), n: int)
    requires
        0 <= n <= points.len(),
    ensures
        match place_of(points, c, n) {
            Some(i) => 0 <= i < n,
            None => true,
        },
    decreases n,
{
    if n > 0 {
        lemma_place_of(points, c, n - 1);
    }
}

proof fn lemma_places_below(points: Seq<(usize, usize)>, cells: Seq<(int, int)>, m: int)
    requires
        0 <= m <= cells.len(),
        points.len() <= u64::MAX,
    ensures
        forall|x: u64| #[trigger] places_of(points, cells, m).contains(x) ==> x < points.len(),
    decreases m,
{
    if m > 0 {
        lemma_places_below(points, cells, m - 1);
        lemma_place_of(points, cells[m - 1], points.len() as int);
        let before = places_of(points, cells, m - 1);
        assert forall|x: u64| #[trigger] places_of(points, cells, m).contains(x) implies x < points.len() by {
            if before.contains(x) {
            } else {
                let k = choose|k: int| 0 <= k < places_of(points, cells, m).len() && places_of(points, cells, m)[k] == x;
                assert(k == before.len());
            }
        }
    }
}

/// The place among `points` of the cell (x, y), if it is there.
fn find_place(points: &[(usize, usize)], x: usize, y: usize) -> (r: Option<usize>)
    ensures
        match r {
            Some(i) => place_of(points@, (x as int, y as int), points@.len() as int) == Some(i as int),
            None => place_of(points@, (x as int, y as int), points@.len() as int) is None,
        },
{
    let mut i: usize = 0;
    while i < points.len()
        invariant
            i <= points@.len(),
            place_of(points@, (x as int, y as int), i as int) is None,
        decreases points@.len() - i,
    {
        if points[i].0 == x && points[i].1 == y {
            proof {
                assert(place_of(points@, (x as int, y as int), i + 1) == Some(i as int));
                lemma_place_after(points@, (x as int, y as int), i + 1, points@.len() as int);
            }
            return Some(i);
        }
        i = i + 1;
    }
    None
}

proof fn lemma_place_after(points: Seq<(usize, usize)>, c: (int, int), n: int, m: int)
    requires
        0 <= n <= m,
        place_of(points, c, n) is Some,
    ensures
        place_of(points, c, m) == place_of(points, c, n),
    decreases m - n,
{
    if m > n {
        lemma_place_after(points, c, n, m - 1);
    }
}

/// The places among `points` of the points around the point at place `i`,
/// as a set in the order the cells around are looked at.
pub fn ramp_neighbors(points: &[(usize, usize)], i: u64) -> (r: FxIndexSet<u64>)
    requires
        inner_points(points@),
        points@.len() <= u64::MAX,
    ensures
        index_set_items(r) == extend_unique(Seq::empty(), ramp_neighbor_places(points@, i as int)),
        distinct_points(points@) && i < points@.len() ==> forall|b: u64|
            #[trigger] index_set_items(r).contains(b) <==> (b < points@.len() && beside(
                points@[i as int],
                (points@[b as int].0 as int, points@[b as int].1 as int),
            )),
{
    let mut found: Vec<u64> = Vec::new();
    if (i as u128) < (points.len() as u128) {
        let (x, y) = points[i as usize];
        let cells: [(usize, usize); 8] = [
            (x + 1, y),
            (x - 1, y),
            (x, y + 1),
            (x, y - 1),
            (x + 1, y + 1),
            (x - 1, y - 1),
            (x + 1, y - 1),
            (x - 1, y + 1),
        ];
        let ghost around = cells_around(points@[i as int]);
        let mut m: usize = 0;
        while m < 8
            invariant
                m <= 8,
                around == cells_around(points@[i as int]),
                forall|k: int| 0 <= k < 8 ==> (#[trigger] cells@[k]).0 as int == around[k].0 && cells@[k].1 as int == around[k].1,
                found@ == places_of(points@, around, m as int),
            decreases 8 - m,
        {
            let (cx, cy) = cells[m];
            match find_place(points, cx, cy) {
                Some(j) => found.push(j as u64),
                None => {},
            }
            m = m + 1;
        }
    }
    let r = index_set_of(found.as_slice());
    proof {
        if distinct_points(points@) && i < points@.len() {
            assert forall|b: u64| #[trigger] index_set_items(r).contains(b) <==> (b < points@.len() && beside(
                points@[i as int],
                (points@[b as int].0 as int, points@[b as int].1 as int),
            )) by {
                lemma_ramp_neighbor_places(points@, i as int, b);
            }
        }
    }
    r
}

/// The clusters among the first `n` with at least eight points, in order.
pub open spec fn large_clusters(cs: Seq<Seq<u64>>, n: int) -> Seq<Seq<u64>>
    decreases n,
{
    if n <= 0 {
        Seq::empty()
    } else {
        let before = large_clusters(cs, n - 1);
        if cs[n - 1].len() >= 8 {
            before.push(cs[n - 1])
        } else {
            before
        }
    }
}

/// The points at the given places.
pub open spec fn points_of(points: Seq<(usize, usize)>, c: Seq<u64>) -> Seq<(usize, usize)> {
    c.map_values(|j: u64| points[j as int])
}

/// Whether every point of the ramp is in terrain `height`.
pub open spec fn within(points: Seq<(usize, usize)>, height: ByteMap) -> bool {
    forall|i: int| 0 <= i < points.len() ==> (#[trigger] points[i]).0 < height.width() && points[i].1 < height.height()
}

/// Whether `r` is the ramp of the points `ps` with their heights in
/// `height`.
pub open spec fn ramp_of(r: Ramp, ps: Seq<(usize, usize)>, height: ByteMap) -> bool {
    &&& r.wf()
    &&& r.points@ == ps
    &&& forall|i: int| 0 <= i < ps.len() ==> #[trigger] r.heights@[i] == height.cell(ps[i].0 as int, ps[i].1 as int)
}

impl Bot {
    /// The ramps made of the clusters of places among `points` that have at
    /// least eight points, in order, with the heights of the terrain.
    pub fn ramps_of(&self, points: &[(usize, usize)], clusters: &[Vec<u64>]) -> (r: Vec<Ramp>)
        requires
            within(points@, self.game_info.terrain_height),
            forall|k: int, j: int| 0 <= k < clusters@.len() && 0 <= j < clusters@[k]@.len() ==> #[trigger] clusters@[k]@[j] < points@.len(),
        ensures
            ({
                let big = large_clusters(cluster_views(clusters@), clusters@.len() as int);
                &&& r@.len() == big.len()
                &&& forall|k: int| 0 <= k < big.len() ==> ramp_of(#[trigger] r@[k], points_of(points@, big[k]), self.game_info.terrain_height)
            }),
    {
        let ghost cs = cluster_views(clusters@);
        let mut r: Vec<Ramp> = Vec::new();
        let mut k: usize = 0;
        while k < clusters.len()
            invariant
                k <= clusters@.len(),
                cs == cluster_views(clusters@),
                within(points@, self.game_info.terrain_height),
                forall|k: int, j: int| 0 <= k < clusters@.len() && 0 <= j < clusters@[k]@.len() ==> #[trigger] clusters@[k]@[j] < points@.len(),
                r@.len() == large_clusters(cs, k as int).len(),
                forall|m: int| 0 <= m < r@.len() ==> ramp_of(#[trigger] r@[m], points_of(points@, large_clusters(cs, k as int)[m]), self.game_info.terrain_height),
            decreases clusters@.len() - k,
        {
            let c = &clusters[k];
            if c.len() >= 8 {
                let mut ps: Vec<(usize, usize)> = Vec::new();
                let mut j: usize = 0;
                while j < c.len()
                    invariant
                        j <= c@.len(),
                        c == clusters@[k as int],
                        k < clusters@.len(),
                        forall|k: int, j: int| 0 <= k < clusters@.len() && 0 <= j < clusters@[k]@.len() ==> #[trigger] clusters@[k]@[j] < points@.len(),
                        ps@ == points_of(points@, c@.take(j as int)),
                    decreases c@.len() - j,
                {
                    ps.push(points[c[j] as usize]);
                    j = j + 1;
                    proof {
                        assert(ps@ =~= points_of(points@, c@.take(j as int)));
                    }
                }
                proof {
                    assert(c@.take(c@.len() as int) =~= c@);
                    assert(cs[k as int] == c@);
                    assert forall|i: int| 0 <= i < ps@.len() implies (#[trigger] ps@[i]).0 < self.game_info.terrain_height.width()
                        && ps@[i].1 < self.game_info.terrain_height.height() by {
                        assert(ps@[i] == points@[c@[i] as int]);
                        assert(clusters@[k as int]@[i] < points@.len());
                    }
                }
                let ramp = Ramp::new(ps, &self.game_info.terrain_height);
                r.push(ramp);
            }
            k = k + 1;
        }
        r
    }

    /// The ramps of the map: the ramp points (see `find_ramp_points`)
    /// grouped into clusters of points each beside another, as `dbscan`
    /// groups them with one neighbor enough, the clusters of at least eight
    /// points kept. Each ramp has its points from `points`, with their
    /// heights. Where no point is given twice, the ramps are exactly the
    /// whole groups of points beside one another that have at least eight
    /// points: each ramp is such a group, no point is in two ramps, and a
    /// point in no ramp lies in a group of fewer than eight. The order of
    /// the ramps, and of the points in each, is the order in which the
    /// clustering found them.
    pub fn find_ramps(&self, points: &[(usize, usize)]) -> (r: Vec<Ramp>)
        requires
            inner_points(points@),
            within(points@, self.game_info.terrain_height),
        ensures
            forall|k: int| 0 <= k < r@.len() ==> {
                &&& (#[trigger] r@[k]).wf()
                &&& r@[k].points@.len() >= 8
                &&& forall|j: int| 0 <= j < r@[k].points@.len() ==> points@.contains(#[trigger] r@[k].points@[j])
                &&& forall|j: int| 0 <= j < r@[k].points@.len() ==> #[trigger] r@[k].heights@[j] == self.game_info.terrain_height.cell(
                    r@[k].points@[j].0 as int,
                    r@[k].points@[j].1 as int,
                )
            },
            distinct_points(points@) ==> {
                &&& forall|k: int| 0 <= k < r@.len() ==> whole_group(points@, (#[trigger] r@[k]).points@)
                &&& forall|k1: int, j1: int, k2: int, j2: int|
                    0 <= k1 < r@.len() && 0 <= k2 < r@.len() && k1 != k2 && 0 <= j1 < r@[k1].points@.len() && 0 <= j2
                        < r@[k2].points@.len() ==> #[trigger] r@[k1].points@[j1] != #[trigger] r@[k2].points@[j2]
                &&& forall|i: int| 0 <= i < points@.len() ==> in_some_ramp(r@, #[trigger] points@[i]) || in_small_group(points@, points@[i])
            },
    {
        let n: usize = points.len();
        let mut data: Vec<u64> = Vec::new();
        let mut i: usize = 0;
        while i < n
            invariant
                i <= n,
                n == points@.len(),
                data@.len() == i,
                forall|j: int| 0 <= j < i ==> #[trigger] data@[j] == j,
            decreases n - i,
        {
            data.push(i as u64);
            i = i + 1;
        }
        let query = |p: &u64| -> (s: FxIndexSet<u64>)
            requires
                inner_points(points@),
                points@.len() <= u64::MAX,
            ensures
                index_set_items(s) == extend_unique(Seq::empty(), ramp_neighbor_places(points@, *p as int)),
        { ramp_neighbors(points, *p) };
        proof {
            assert forall|p: u64, found: FxIndexSet<u64>, x: u64|
                #![trigger call_ensures(query, (&p,), found), index_set_items(found).contains(x)]
                call_ensures(query, (&p,), found) && index_set_items(found).contains(x) implies data@.contains(x) by {
                lemma_extend_unique(Seq::empty(), ramp_neighbor_places(points@, p as int));
                if 0 <= p < points@.len() {
                    lemma_places_below(points@, cells_around(points@[p as int]), 8);
                }
                assert(data@[x as int] == x);
            }
        }
        let (clusters, _noise) = dbscan(data.as_slice(), query, 1);
        proof {
            let c = cluster_views(clusters@);
            assert forall|k: int, j: int| 0 <= k < clusters@.len() && 0 <= j < clusters@[k]@.len() implies #[trigger] clusters@[k]@[j] < points@.len() by {
                assert(c[k] == clusters@[k]@);
                assert(data@.contains(c[k][j]));
            }
        }
        let r = self.ramps_of(points, clusters.as_slice());
        proof {
            let big = large_clusters(cluster_views(clusters@), clusters@.len() as int);
            lemma_large_clusters(cluster_views(clusters@), clusters@.len() as int, points@.len() as int);
            assert forall|k: int| 0 <= k < r@.len() implies {
                &&& (#[trigger] r@[k]).wf()
                &&& r@[k].points@.len() >= 8
                &&& forall|j: int| 0 <= j < r@[k].points@.len() ==> points@.contains(#[trigger] r@[k].points@[j])
                &&& forall|j: int| 0 <= j < r@[k].points@.len() ==> #[trigger] r@[k].heights@[j] == self.game_info.terrain_height.cell(
                    r@[k].points@[j].0 as int,
                    r@[k].points@[j].1 as int,
                )
            } by {
                assert(ramp_of(r@[k], points_of(points@, big[k]), self.game_info.terrain_height));
                assert forall|j: int| 0 <= j < r@[k].points@.len() implies points@.contains(#[trigger] r@[k].points@[j]) by {
                    let at = big[k][j] as int;
                    assert(points@[at] == r@[k].points@[j]);
                }
            }
            if distinct_points(points@) {
                let c = cluster_views(clusters@);
                let noise = _noise@;
                assert(answers_by_point(query)) by {
                    assert forall|p: u64, r1: FxIndexSet<u64>, r2: FxIndexSet<u64>|
                        #![trigger call_ensures(query, (&p,), r1), call_ensures(query, (&p,), r2)]
                        call_ensures(query, (&p,), r1) && call_ensures(query, (&p,), r2) implies index_set_items(r1)
                            == index_set_items(r2) by {}
                }
                assert(clustered_by_neighbors(query, 1, c, noise));
                assert forall|k: int, j: int| 0 <= k < c.len() && 0 <= j < c[k].len() implies #[trigger] c[k][j] < points@.len()
                    && answered(query, c[k][j]) by {
                    assert(c[k] == clusters@[k]@);
                }
                let clen = clusters@.len() as int;
                lemma_large_index(c, clen);
                assert(big == large_clusters(c, clen));
                assert forall|k: int| 0 <= k < r@.len() implies whole_group(points@, (#[trigger] r@[k]).points@) by {
                    let m = large_index(c, clen, k);
                    assert(ramp_of(r@[k], points_of(points@, big[k]), self.game_info.terrain_height));
                    lemma_cluster_group(query, points@, c, noise, m);
                }
                assert forall|k1: int, j1: int, k2: int, j2: int|
                    0 <= k1 < r@.len() && 0 <= k2 < r@.len() && k1 != k2 && 0 <= j1 < r@[k1].points@.len() && 0 <= j2
                        < r@[k2].points@.len() implies #[trigger] r@[k1].points@[j1] != #[trigger] r@[k2].points@[j2] by {
                    let m1 = large_index(c, clen, k1);
                    let m2 = large_index(c, clen, k2);
                    if k1 < k2 {
                        assert(large_index(c, clen, k1) < large_index(c, clen, k2));
                    } else {
                        assert(large_index(c, clen, k2) < large_index(c, clen, k1));
                    }
                    assert(ramp_of(r@[k1], points_of(points@, big[k1]), self.game_info.terrain_height));
                    assert(ramp_of(r@[k2], points_of(points@, big[k2]), self.game_info.terrain_height));
                    assert(c[m1][j1] != c[m2][j2]);
                    assert(c[m1][j1] < points@.len() && c[m2][j2] < points@.len());
                    assert(r@[k1].points@[j1] == points@[c[m1][j1] as int]);
                    assert(r@[k2].points@[j2] == points@[c[m2][j2] as int]);
                }
                assert forall|i: int| 0 <= i < points@.len() implies in_some_ramp(r@, #[trigger] points@[i]) || in_small_group(
                    points@,
                    points@[i],
                ) by {
                    assert(data@[i] == i as u64);
                    if noise.contains(i as u64) {
                        assert(answered(query, i as u64));
                        lemma_lone_point(query, points@, i as u64);
                        let g = seq![points@[i]];
                        assert(g[0] == points@[i]);
                        assert(whole_group(points@, g) && g.contains(points@[i]) && g.len() < 8);
                    } else {
                        assert(in_some(c, i as u64));
                        let m = choose|m: int| 0 <= m < c.len() && #[trigger] c[m].contains(i as u64);
                        let t = choose|t: int| 0 <= t < c[m].len() && c[m][t] == i as u64;
                        if c[m].len() >= 8 {
                            let k = choose|k: int| 0 <= k < big.len() && #[trigger] large_index(c, clen, k) == m;
                            assert(ramp_of(r@[k], points_of(points@, big[k]), self.game_info.terrain_height));
                            assert(r@[k].points@[t] == points@[i]);
                            assert(r@[k].points@.contains(points@[i]));
                        } else {
                            lemma_cluster_group(query, points@, c, noise, m);
                            let g = points_of(points@, c[m]);
                            assert(g[t] == points@[i]);
                            assert(whole_group(points@, g) && g.contains(points@[i]) && g.len() < 8);
                        }
                    }
                }
            }
        }
        r
    }
}

proof fn lemma_large_clusters(cs: Seq<Seq<u64>>, n: int, len: int)
    requires
        0 <= n <= cs.len(),
        forall|k: int, j: int| 0 <= k < cs.len() && 0 <= j < cs[k].len() ==> #[trigger] cs[k][j] < len,
    ensures
        forall|k: int| 0 <= k < large_clusters(cs, n).len() ==> (#[trigger] large_clusters(cs, n)[k]).len() >= 8
            && forall|j: int| 0 <= j < large_clusters(cs, n)[k].len() ==> #[trigger] large_clusters(cs, n)[k][j] < len,
        forall|k: int| 0 <= k < large_clusters(cs, n).len() ==> exists|m: int| 0 <= m < n && cs[m] == #[trigger] large_clusters(cs, n)[k],
    decreases n,
{
    if n > 0 {
        lemma_large_clusters(cs, n - 1, len);
        let before = large_clusters(cs, n - 1);
        let now = large_clusters(cs, n);
        assert forall|k: int| 0 <= k < now.len() implies (#[trigger] now[k]).len() >= 8
            && forall|j: int| 0 <= j < now[k].len() ==> #[trigger] now[k][j] < len by {
            if k < before.len() {
                assert(now[k] == before[k]);
            } else {
                assert(now[k] == cs[n - 1]);
                assert forall|j: int| 0 <= j < now[k].len() implies #[trigger] now[k][j] < len by {
                    assert(cs[n - 1][j] < len);
                }
            }
        }
        assert forall|k: int| 0 <= k < now.len() implies exists|m: int| 0 <= m < n && cs[m] == #[trigger] now[k] by {
            if k < before.len() {
                assert(now[k] == before[k]);
                let m = choose|m: int| 0 <= m < n - 1 && cs[m] == #[trigger] before[k];
                assert(cs[m] == now[k]);
            } else {
                assert(cs[n - 1] == now[k]);
            }
        }
    }
}

/// The squared distance from `loc` to the center of the top of the ramp.
pub open spec fn ramp_distance(r: Ramp, loc: (usize, usize)) -> int {
    let c = center_of(r.spec_upper()).unwrap();
    (c.0 - loc.0) * (c.0 - loc.0) + (c.1 - loc.1) * (c.1 - loc.1)
}

/// Whether the top of the ramp has `a` or `b` points.
pub open spec fn top_size_in(r: Ramp, a: nat, b: nat) -> bool {
    r.spec_upper().len() == a || r.spec_upper().len() == b
}

/// Whether the ramp at `i` is the first of those whose top has `a` or `b`
/// points that are closest to `loc`.
pub open spec fn first_closest_ramp(ramps: Seq<Ramp>, loc: (usize, usize), a: nat, b: nat, i: int) -> bool {
    &&& 0 <= i < ramps.len()
    &&& top_size_in(ramps[i], a, b)
    &&& forall|j: int| 0 <= j < ramps.len() && top_size_in(#[trigger] ramps[j], a, b) ==> ramp_distance(ramps[i], loc) <= ramp_distance(ramps[j], loc)
    &&& forall|j: int| 0 <= j < i && top_size_in(#[trigger] ramps[j], a, b) ==> ramp_distance(ramps[i], loc) < ramp_distance(ramps[j], loc)
}

/// Whether the distances to the ramps can be measured: each ramp is well
/// formed, and for each whose top has 2, 4, 5 or 9 points the sums of its
/// top's coordinates and the squared distance fit in a machine word.
pub open spec fn measurable(ramps: Seq<Ramp>, loc: (usize, usize)) -> bool {
    forall|j: int| 0 <= j < ramps.len() ==> {
        &&& (#[trigger] ramps[j]).wf()
        &&& (top_size_in(ramps[j], 2, 5) || top_size_in(ramps[j], 4, 9)) ==> {
            &&& sum_x(ramps[j].spec_upper()) <= usize::MAX
            &&& sum_y(ramps[j].spec_upper()) <= usize::MAX
            &&& ramp_distance(ramps[j], loc) <= usize::MAX
        }
    }
}

/// The first ramp whose top has `a` or `b` points closest to `loc`.
fn closest_with(ramps: &[Ramp], loc: (usize, usize), a: usize, b: usize) -> (r: Option<usize>)
    requires
        measurable(ramps@, loc),
        a == 2 && b == 5 || a == 4 && b == 9,
    ensures
        match r {
            Some(i) => first_closest_ramp(ramps@, loc, a as nat, b as nat, i as int),
            None => forall|j: int| 0 <= j < ramps@.len() ==> !top_size_in(#[trigger] ramps@[j], a as nat, b as nat),
        },
{
    let mut best: Option<usize> = None;
    let mut best_d: usize = 0;
    let mut i: usize = 0;
    while i < ramps.len()
        invariant
            i <= ramps@.len(),
            measurable(ramps@, loc),
            a == 2 && b == 5 || a == 4 && b == 9,
            match best {
                Some(k) => {
                    &&& k < i
                    &&& top_size_in(ramps@[k as int], a as nat, b as nat)
                    &&& best_d == ramp_distance(ramps@[k as int], loc)
                    &&& forall|j: int| 0 <= j < i && top_size_in(#[trigger] ramps@[j], a as nat, b as nat) ==> ramp_distance(ramps@[k as int], loc) <= ramp_distance(ramps@[j], loc)
                    &&& forall|j: int| 0 <= j < k && top_size_in(#[trigger] ramps@[j], a as nat, b as nat) ==> ramp_distance(ramps@[k as int], loc) < ramp_distance(ramps@[j], loc)
                },
                None => forall|j: int| 0 <= j < i ==> !top_size_in(#[trigger] ramps@[j], a as nat, b as nat),
            },
        decreases ramps@.len() - i,
    {
        let ramp = &ramps[i];
        proof {
            assert(ramps@[i as int].wf());
        }
        let upper = ramp.upper();
        if upper.len() == a || upper.len() == b {
            let c = ramp.top_center().unwrap();
            let dx: usize = if loc.0 >= c.0 { loc.0 - c.0 } else { c.0 - loc.0 };
            let dy: usize = if loc.1 >= c.1 { loc.1 - c.1 } else { c.1 - loc.1 };
            proof {
                assert(dx * dx == (c.0 - loc.0) * (c.0 - loc.0)) by (nonlinear_arith)
                    requires dx == c.0 - loc.0 || dx == loc.0 - c.0;
                assert(dy * dy == (c.1 - loc.1) * (c.1 - loc.1)) by (nonlinear_arith)
                    requires dy == c.1 - loc.1 || dy == loc.1 - c.1;
                assert(0 <= dx * dx) by (nonlinear_arith);
                assert(0 <= dy * dy) by (nonlinear_arith);
            }
            let d: usize = dx * dx + dy * dy;
            match best {
                Some(_) => {
                    if d < best_d {
                        best = Some(i);
                        best_d = d;
                    }
                },
                None => {
                    best = Some(i);
                    best_d = d;
                },
            }
        }
        i = i + 1;
    }
    best
}

/// The ramp closest to `loc` (by the center of its top) among those whose
/// top has 2 or 5 points, or, with none such, among those whose top has 4
/// or 9 points; the first of the closest. None where no ramp has such a
/// top.
pub fn closest_ramp(ramps: &[Ramp], loc: (usize, usize)) -> (r: Option<usize>)
    requires
        measurable(ramps@, loc),
    ensures
        match r {
            Some(i) => first_closest_ramp(ramps@, loc, 2, 5, i as int) || {
                &&& forall|j: int| 0 <= j < ramps@.len() ==> !top_size_in(#[trigger] ramps@[j], 2, 5)
                &&& first_closest_ramp(ramps@, loc, 4, 9, i as int)
            },
            None => forall|j: int| 0 <= j < ramps@.len() ==> !top_size_in(#[trigger] ramps@[j], 2, 5) && !top_size_in(ramps@[j], 4, 9),
        },
{
    match closest_with(ramps, loc, 2, 5) {
        Some(i) => Some(i),
        None => closest_with(ramps, loc, 4, 9),
    }
}

/// Whether no two points are the same.
pub open spec fn distinct_points(points: Seq<(usize, usize)>) -> bool {
    forall|i: int, j: int| 0 <= i < points.len() && 0 <= j < points.len() && i != j ==> points[i] != points[j]
}

/// Whether cell `c` is one of the eight cells around `p`.
pub open spec fn beside(p: (usize, usize), c: (int, int)) -> bool {
    let dx = c.0 - p.0;
    let dy = c.1 - p.1;
    -1 <= dx <= 1 && -1 <= dy <= 1 && !(dx == 0 && dy == 0)
}

proof fn lemma_cells_around(p: (usize, usize), c: (int, int))
    ensures
        cells_around(p).contains(c) == beside(p, c),
{
    let a = cells_around(p);
    if a.contains(c) {
        let t = choose|t: int| 0 <= t < a.len() && a[t] == c;
        assert(0 <= t < 8);
    }
    if beside(p, c) {
        let (x, y) = (p.0 as int, p.1 as int);
        if c == (x + 1, y) {
            assert(a[0] == c);
        } else if c == (x - 1, y) {
            assert(a[1] == c);
        } else if c == (x, y + 1) {
            assert(a[2] == c);
        } else if c == (x, y - 1) {
            assert(a[3] == c);
        } else if c == (x + 1, y + 1) {
            assert(a[4] == c);
        } else if c == (x - 1, y - 1) {
            assert(a[5] == c);
        } else if c == (x + 1, y - 1) {
            assert(a[6] == c);
        } else {
            assert(a[7] == c);
        }
    }
}

proof fn lemma_place_of_distinct(points: Seq<(usize, usize)>, c: (int, int), n: int, i: int)
    requires
        distinct_points(points),
        0 <= n <= points.len(),
    ensures
        place_of(points, c, n) == Some(i) <==> (0 <= i < n && points[i].0 == c.0 && points[i].1 == c.1),
    decreases n,
{
    if n > 0 {
        lemma_place_of_distinct(points, c, n - 1, i);
        lemma_place_of(points, c, n - 1);
        if place_of(points, c, n - 1) is Some {
            let k = place_of(points, c, n - 1).unwrap();
            lemma_place_of_distinct(points, c, n - 1, k);
            if i == n - 1 && points[i].0 == c.0 && points[i].1 == c.1 {
                assert(points[k] == points[i]);
            }
        }
    }
}

proof fn lemma_places_of(points: Seq<(usize, usize)>, cells: Seq<(int, int)>, m: int, x: u64)
    requires
        0 <= m <= cells.len(),
        points.len() <= u64::MAX,
    ensures
        places_of(points, cells, m).contains(x) <==> exists|t: int|
            0 <= t < m && #[trigger] place_of(points, cells[t], points.len() as int) == Some(x as int),
    decreases m,
{
    if m > 0 {
        lemma_places_of(points, cells, m - 1, x);
        let before = places_of(points, cells, m - 1);
        let now = places_of(points, cells, m);
        if now.contains(x) && !before.contains(x) {
            let k = choose|k: int| 0 <= k < now.len() && now[k] == x;
            assert(k == before.len());
            let t = m - 1;
            lemma_place_of(points, cells[t], points.len() as int);
            assert(place_of(points, cells[t], points.len() as int) == Some(x as int));
        }
        if exists|t: int| 0 <= t < m && #[trigger] place_of(points, cells[t], points.len() as int) == Some(x as int) {
            let t = choose|t: int| 0 <= t < m && #[trigger] place_of(points, cells[t], points.len() as int) == Some(x as int);
            if t == m - 1 {
                assert(now[before.len() as int] == x);
            } else {
                let k = choose|k: int| 0 <= k < before.len() && before[k] == x;
                assert(now[k] == x);
            }
        }
    }
}

/// Over distinct points, the point at place `b` is among the neighbors of
/// the point at place `a` exactly when it lies beside it.
proof fn lemma_ramp_neighbor_places(points: Seq<(usize, usize)>, a: int, b: u64)
    requires
        distinct_points(points),
        0 <= a < points.len(),
        points.len() <= u64::MAX,
    ensures
        extend_unique(Seq::empty(), ramp_neighbor_places(points, a)).contains(b) <==> (b < points.len() && beside(
            points[a],
            (points[b as int].0 as int, points[b as int].1 as int),
        )),
{
    let cells = cells_around(points[a]);
    lemma_extend_unique(Seq::empty(), ramp_neighbor_places(points, a));
    lemma_places_of(points, cells, 8, b);
    if b < points.len() {
        let c = (points[b as int].0 as int, points[b as int].1 as int);
        lemma_cells_around(points[a], c);
        if beside(points[a], c) {
            let t = choose|t: int| 0 <= t < cells.len() && cells[t] == c;
            lemma_place_of_distinct(points, cells[t], points.len() as int, b as int);
        }
    }
    if places_of(points, cells, 8).contains(b) {
        let t = choose|t: int| 0 <= t < 8 && #[trigger] place_of(points, cells[t], points.len() as int) == Some(b as int);
        lemma_place_of_distinct(points, cells[t], points.len() as int, b as int);
        lemma_cells_around(points[a], cells[t]);
        assert(cells.contains(cells[t]));
    }
}

/// The neighbors that a query answering as `ramp_neighbors` gives of the
/// point at place `a`, once asked of it: the places of the points beside it.
proof fn lemma_answered_neighbors<F: Fn(&u64) -> FxIndexSet<u64>>(query: F, points: Seq<(usize, usize)>, a: u64, b: u64)
    requires
        distinct_points(points),
        points.len() <= u64::MAX,
        a < points.len(),
        answers_by_point(query),
        answered(query, a),
        forall|p: u64, r: FxIndexSet<u64>| #[trigger] call_ensures(query, (&p,), r) ==> index_set_items(r) == extend_unique(
            Seq::empty(),
            ramp_neighbor_places(points, p as int),
        ),
    ensures
        neighbors_of(query, a).contains(b) <==> (b < points.len() && beside(
            points[a as int],
            (points[b as int].0 as int, points[b as int].1 as int),
        )),
{
    let ra = choose|r: FxIndexSet<u64>| #[trigger] call_ensures(query, (&a,), r);
    lemma_neighbors_of(query, a, ra);
    lemma_ramp_neighbor_places(points, a as int, b);
}

/// With such a query, a cluster holds every point beside one of its
/// points.
proof fn lemma_cluster_closed<F: Fn(&u64) -> FxIndexSet<u64>>(
    query: F,
    points: Seq<(usize, usize)>,
    c: Seq<Seq<u64>>,
    noise: Set<u64>,
    k: int,
    j: int,
    b: u64,
)
    requires
        distinct_points(points),
        points.len() <= u64::MAX,
        answers_by_point(query),
        forall|p: u64, r: FxIndexSet<u64>| #[trigger] call_ensures(query, (&p,), r) ==> index_set_items(r) == extend_unique(
            Seq::empty(),
            ramp_neighbor_places(points, p as int),
        ),
        clustered_by_neighbors(query, 1, c, noise),
        forall|k1: int, j1: int, k2: int, j2: int|
            0 <= k1 < c.len() && 0 <= j1 < c[k1].len() && 0 <= k2 < c.len() && 0 <= j2 < c[k2].len() && (k1
                != k2 || j1 != j2) ==> #[trigger] c[k1][j1] != #[trigger] c[k2][j2],
        forall|k: int, j: int| 0 <= k < c.len() && 0 <= j < c[k].len() ==> #[trigger] c[k][j] < points.len() && answered(query, c[k][j]),
        0 <= k < c.len(),
        0 <= j < c[k].len(),
        b < points.len(),
        beside(points[c[k][j] as int], (points[b as int].0 as int, points[b as int].1 as int)),
    ensures
        c[k].contains(b),
{
    let a = c[k][j];
    lemma_answered_neighbors(query, points, a, b);
    assert(neighbors_of(query, a)[neighbors_of(query, a).index_of(b)] == b);
    assert(is_core(query, a, 1));
    assert(in_some(c.take(k + 1), b));
    let k2 = choose|k2: int| 0 <= k2 < c.take(k + 1).len() && #[trigger] c.take(k + 1)[k2].contains(b);
    assert(c[k2] == c.take(k + 1)[k2]);
    if k2 != k {
        let j2 = choose|j2: int| 0 <= j2 < c[k2].len() && c[k2][j2] == b;
        lemma_answered_neighbors(query, points, b, a);
        assert(neighbors_of(query, b)[neighbors_of(query, b).index_of(a)] == a);
        assert(is_core(query, c[k2][j2], 1));
        assert(in_some(c.take(k2 + 1), a));
        let k3 = choose|k3: int| 0 <= k3 < c.take(k2 + 1).len() && #[trigger] c.take(k2 + 1)[k3].contains(a);
        assert(c[k3] == c.take(k2 + 1)[k3]);
        let j3 = choose|j3: int| 0 <= j3 < c[k3].len() && c[k3][j3] == a;
        assert(c[k3][j3] == c[k][j]);
    }
}

/// Whether the points `p` and `q` lie beside each other.
pub open spec fn touching(p: (usize, usize), q: (usize, usize)) -> bool {
    beside(p, (q.0 as int, q.1 as int))
}

/// Whether the group `g` holds, with each of its points, every point of
/// `points` beside it.
pub open spec fn closed_in(points: Seq<(usize, usize)>, g: Seq<(usize, usize)>) -> bool {
    forall|j: int, i: int|
        #![trigger g[j], points[i]]
        0 <= j < g.len() && 0 <= i < points.len() && touching(g[j], points[i]) ==> g.contains(points[i])
}

/// Whether the point at place `j` of `g` lies beside an earlier one.
pub open spec fn joined_at(g: Seq<(usize, usize)>, j: int) -> bool {
    exists|j2: int| 0 <= j2 < j && #[trigger] touching(g[j2], g[j])
}

/// Whether each point of `g` after the first lies beside an earlier one, so
/// that the points of `g` hang together.
pub open spec fn joined(g: Seq<(usize, usize)>) -> bool {
    forall|j: int| 0 < j < g.len() ==> #[trigger] joined_at(g, j)
}

/// Whether `g` is a whole group of `points`: points of `points`, none
/// twice, hanging together, with every point of `points` beside one of
/// them. Over points none of which is given twice, the group of a point is
/// the same set of points however it is listed.
pub open spec fn whole_group(points: Seq<(usize, usize)>, g: Seq<(usize, usize)>) -> bool {
    &&& forall|j: int| 0 <= j < g.len() ==> points.contains(#[trigger] g[j])
    &&& distinct_points(g)
    &&& joined(g)
    &&& closed_in(points, g)
}

/// The place among the first `n` clusters of the `k`-th cluster with at
/// least eight points.
pub open spec fn large_index(cs: Seq<Seq<u64>>, n: int, k: int) -> int
    decreases n,
{
    if n <= 0 {
        0
    } else if cs[n - 1].len() >= 8 && k == large_clusters(cs, n - 1).len() {
        n - 1
    } else {
        large_index(cs, n - 1, k)
    }
}

proof fn lemma_large_index(cs: Seq<Seq<u64>>, n: int)
    requires
        0 <= n <= cs.len(),
    ensures
        forall|k: int|
            0 <= k < large_clusters(cs, n).len() ==> 0 <= #[trigger] large_index(cs, n, k) < n && cs[large_index(cs, n, k)]
                == large_clusters(cs, n)[k],
        forall|k1: int, k2: int|
            0 <= k1 < k2 < large_clusters(cs, n).len() ==> #[trigger] large_index(cs, n, k1) < #[trigger] large_index(
                cs,
                n,
                k2,
            ),
        forall|m: int|
            0 <= m < n && (#[trigger] cs[m]).len() >= 8 ==> exists|k: int|
                0 <= k < large_clusters(cs, n).len() && #[trigger] large_index(cs, n, k) == m,
    decreases n,
{
    if n > 0 {
        lemma_large_index(cs, n - 1);
        let before = large_clusters(cs, n - 1);
        let now = large_clusters(cs, n);
        assert forall|k: int| 0 <= k < now.len() implies 0 <= #[trigger] large_index(cs, n, k) < n && cs[large_index(cs, n, k)] == now[k] by {
            if k < before.len() {
                assert(now[k] == before[k]);
                assert(large_index(cs, n, k) == large_index(cs, n - 1, k));
            }
        }
        assert forall|k1: int, k2: int| 0 <= k1 < k2 < now.len() implies #[trigger] large_index(cs, n, k1) < #[trigger] large_index(cs, n, k2) by {
            assert(large_index(cs, n, k1) == large_index(cs, n - 1, k1));
            if k2 < before.len() {
                assert(large_index(cs, n, k2) == large_index(cs, n - 1, k2));
            }
        }
        assert forall|m: int| 0 <= m < n && (#[trigger] cs[m]).len() >= 8 implies exists|k: int|
            0 <= k < now.len() && #[trigger] large_index(cs, n, k) == m by {
            if m < n - 1 {
                let k = choose|k: int| 0 <= k < before.len() && #[trigger] large_index(cs, n - 1, k) == m;
                assert(large_index(cs, n, k) == large_index(cs, n - 1, k));
            } else {
                assert(large_index(cs, n, before.len() as int) == m);
            }
        }
    }
}

/// With a query answering as `ramp_neighbors`, the points of a cluster
/// form a whole group.
proof fn lemma_cluster_group<F: Fn(&u64) -> FxIndexSet<u64>>(
    query: F,
    points: Seq<(usize, usize)>,
    c: Seq<Seq<u64>>,
    noise: Set<u64>,
    m: int,
)
    requires
        distinct_points(points),
        points.len() <= u64::MAX,
        answers_by_point(query),
        forall|p: u64, r: FxIndexSet<u64>| #[trigger] call_ensures(query, (&p,), r) ==> index_set_items(r) == extend_unique(
            Seq::empty(),
            ramp_neighbor_places(points, p as int),
        ),
        clustered_by_neighbors(query, 1, c, noise),
        forall|k1: int, j1: int, k2: int, j2: int|
            0 <= k1 < c.len() && 0 <= j1 < c[k1].len() && 0 <= k2 < c.len() && 0 <= j2 < c[k2].len() && (k1
                != k2 || j1 != j2) ==> #[trigger] c[k1][j1] != #[trigger] c[k2][j2],
        forall|k: int, j: int| 0 <= k < c.len() && 0 <= j < c[k].len() ==> #[trigger] c[k][j] < points.len() && answered(query, c[k][j]),
        0 <= m < c.len(),
    ensures
        whole_group(points, points_of(points, c[m])),
{
    let g = points_of(points, c[m]);
    let cm = c[m];
    assert forall|j: int| 0 <= j < g.len() implies points.contains(#[trigger] g[j]) by {
        assert(cm[j] < points.len());
        assert(points[cm[j] as int] == g[j]);
    }
    assert forall|j1: int, j2: int| 0 <= j1 < g.len() && 0 <= j2 < g.len() && j1 != j2 implies g[j1] != g[j2] by {
        assert(c[m][j1] != c[m][j2]);
        assert(cm[j1] < points.len() && cm[j2] < points.len());
    }
    assert forall|j: int| 0 < j < g.len() implies #[trigger] joined_at(g, j) by {
        assert(grown(query, 1, c[m]));
        assert(grown_at(query, 1, cm, j));
        let j2 = choose|j2: int|
            #![trigger neighbors_of(query, cm[j2]).contains(cm[j])]
            0 <= j2 < j && is_core(query, cm[j2], 1) && neighbors_of(query, cm[j2]).contains(cm[j]);
        assert(cm[j2] < points.len() && answered(query, cm[j2]));
        lemma_answered_neighbors(query, points, cm[j2], cm[j]);
        assert(touching(g[j2], g[j]));
    }
    assert forall|j: int, i: int|
        #![trigger g[j], points[i]]
        0 <= j < g.len() && 0 <= i < points.len() && touching(g[j], points[i]) implies g.contains(points[i]) by {
        assert(g[j] == points[cm[j] as int]);
        lemma_cluster_closed(query, points, c, noise, m, j, i as u64);
        let t = choose|t: int| 0 <= t < cm.len() && cm[t] == i as u64;
        assert(g[t] == points[i]);
    }
}

/// With a query answering as `ramp_neighbors`, a point that is no core
/// point has no point beside it, and is a whole group alone.
proof fn lemma_lone_point<F: Fn(&u64) -> FxIndexSet<u64>>(query: F, points: Seq<(usize, usize)>, a: u64)
    requires
        distinct_points(points),
        points.len() <= u64::MAX,
        answers_by_point(query),
        forall|p: u64, r: FxIndexSet<u64>| #[trigger] call_ensures(query, (&p,), r) ==> index_set_items(r) == extend_unique(
            Seq::empty(),
            ramp_neighbor_places(points, p as int),
        ),
        a < points.len(),
        answered(query, a),
        !is_core(query, a, 1),
    ensures
        whole_group(points, seq![points[a as int]]),
{
    let g = seq![points[a as int]];
    assert(points.contains(g[0]));
    assert forall|j: int, i: int|
        #![trigger g[j], points[i]]
        0 <= j < g.len() && 0 <= i < points.len() && touching(g[j], points[i]) implies g.contains(points[i]) by {
        lemma_answered_neighbors(query, points, a, i as u64);
        assert(neighbors_of(query, a).contains(i as u64));
    }
}

/// Whether one of the ramps holds the point `p`.
pub open spec fn in_some_ramp(rs: Seq<Ramp>, p: (usize, usize)) -> bool {
    exists|k: int| 0 <= k < rs.len() && #[trigger] rs[k].points@.contains(p)
}

/// Whether the point `p` lies in a whole group of `points` of fewer than
/// eight points.
pub open spec fn in_small_group(points: Seq<(usize, usize)>, p: (usize, usize)) -> bool {
    exists|g: Seq<(usize, usize)>| whole_group(points, g) && #[trigger] g.contains(p) && g.len() < 8
}

} // verus!
