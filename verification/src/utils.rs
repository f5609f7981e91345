//! Clustering of points by density (DBSCAN), over points named by `u64`
//! keys and a query that gives the neighbors of a point.

use vstd::prelude::*;
use vstd::seq_lib::seq_to_set_is_finite;
use indexmap::IndexSet;
use rustc_hash::FxHasher;
use std::collections::HashSet;
use std::hash::BuildHasherDefault;

verus! {

broadcast use vstd::std_specs::hash::group_hash_axioms;

#[verifier::external_type_specification]
#[verifier::external_body]
#[verifier::reject_recursive_types(T)]
#[verifier::reject_recursive_types(S)]
pub struct ExIndexSet<T, S>(IndexSet<T, S>);

/// A set that keeps the order in which its items were inserted, hashed
/// with `FxHasher`.
pub type FxIndexSet<T> = IndexSet<T, BuildHasherDefault<FxHasher>>;

/// The items of a set of keys, in order.
pub uninterp spec fn index_set_items(s: IndexSet<u64, BuildHasherDefault<FxHasher>>) -> Seq<u64>;

/// `s` with each item of `t` not yet in it added last, in the order of `t`.
pub open spec fn extend_unique(s: Seq<u64>, t: Seq<u64>) -> Seq<u64>
    decreases t.len(),
{
    if t.len() == 0 {
        s
    } else {
        let u = extend_unique(s, t.drop_last());
        if u.contains(t.last()) {
            u
        } else {
            u.push(t.last())
        }
    }
}

/// `IndexSet::len`: the number of items.
#[verifier::external_body]
fn index_set_len(s: &FxIndexSet<u64>) -> (r: usize)
    ensures
        r == index_set_items(*s).len(),
{
    s.len()
}

/// `IndexSet::pop`: removes and returns the last item, if any.
#[verifier::external_body]
fn index_set_pop(s: &mut FxIndexSet<u64>) -> (r: Option<u64>)
    ensures
        index_set_items(*old(s)).len() == 0 ==> r is None && index_set_items(*final(s)) == index_set_items(
            *old(s),
        ),
        index_set_items(*old(s)).len() > 0 ==> r == Some(index_set_items(*old(s)).last()) && index_set_items(
            *final(s),
        ) == index_set_items(*old(s)).drop_last(),
{
    s.pop()
}

/// `IndexSet::extend` with the items of another set, in its order: each
/// item not yet present is inserted last; a present one stays in place.
#[verifier::external_body]
fn index_set_extend(s: &mut FxIndexSet<u64>, other: FxIndexSet<u64>)
    ensures
        index_set_items(*final(s)) == extend_unique(index_set_items(*old(s)), index_set_items(other)),
{
    s.extend(other)
}

/// `IndexSet::default`: an empty set.
#[verifier::external_body]
fn index_set_new() -> (r: FxIndexSet<u64>)
    ensures
        index_set_items(r) == Seq::<u64>::empty(),
{
    IndexSet::default()
}

/// `IndexSet::insert`: an item not yet present goes last; a present one
/// stays in place. Returns whether it was new.
#[verifier::external_body]
fn index_set_insert(s: &mut FxIndexSet<u64>, x: u64) -> (r: bool)
    ensures
        r == !index_set_items(*old(s)).contains(x),
        index_set_items(*final(s)) == extend_unique(index_set_items(*old(s)), seq![x]),
{
    s.insert(x)
}

/// The set of the given items, each once, in the order of first mention.
pub fn index_set_of(items: &[u64]) -> (r: FxIndexSet<u64>)
    ensures
        index_set_items(r) == extend_unique(Seq::empty(), items@),
{
    let mut r = index_set_new();
    let mut i: usize = 0;
    while i < items.len()
        invariant
            0 <= i <= items@.len(),
            index_set_items(r) == extend_unique(Seq::empty(), items@.take(i as int)),
        decreases items@.len() - i,
    {
        let ghost before = index_set_items(r);
        index_set_insert(&mut r, items[i]);
        proof {
            let t = items@.take(i + 1);
            assert(t.drop_last() =~= items@.take(i as int));
            assert(t.last() == items@[i as int]);
            assert(seq![items@[i as int]].drop_last() =~= Seq::<u64>::empty());
            assert(extend_unique(before, Seq::<u64>::empty()) == before);
        }
        i = i + 1;
    }
    proof {
        assert(items@.take(items@.len() as int) =~= items@);
    }
    r
}

/// Extending keeps what was there, in place, and adds exactly the new items.
pub proof fn lemma_extend_unique(s: Seq<u64>, t: Seq<u64>)
    ensures
        extend_unique(s, t).len() >= s.len(),
        extend_unique(s, t).subrange(0, s.len() as int) == s,
        forall|x: u64| #[trigger] extend_unique(s, t).contains(x) <==> (s.contains(x) || t.contains(x)),
    decreases t.len(),
{
    if t.len() > 0 {
        lemma_extend_unique(s, t.drop_last());
        let u = extend_unique(s, t.drop_last());
        assert forall|x: u64| #[trigger] extend_unique(s, t).contains(x) <==> (s.contains(x) || t.contains(x)) by {
            assert(t.drop_last().contains(x) ==> t.contains(x)) by {
                if t.drop_last().contains(x) {
                    let k = choose|k: int| 0 <= k < t.drop_last().len() && t.drop_last()[k] == x;
                    assert(t[k] == x);
                }
            }
            assert(t.contains(x) ==> t.drop_last().contains(x) || x == t.last()) by {
                if t.contains(x) {
                    let k = choose|k: int| 0 <= k < t.len() && t[k] == x;
                    if k < t.len() - 1 {
                        assert(t.drop_last()[k] == x);
                    }
                }
            }
            if !u.contains(t.last()) {
                assert(u.push(t.last())[u.len() as int] == t.last());
                if u.push(t.last()).contains(x) {
                    let k = choose|k: int| 0 <= k < u.push(t.last()).len() && u.push(t.last())[k] == x;
                    if k < u.len() {
                        assert(u[k] == x);
                    }
                }
                if u.contains(x) {
                    let k = choose|k: int| 0 <= k < u.len() && u[k] == x;
                    assert(u.push(t.last())[k] == x);
                }
            }
        }
        if !u.contains(t.last()) {
            assert(u.push(t.last()).subrange(0, s.len() as int) =~= u.subrange(0, s.len() as int));
        }
    }
}

/// The neighbors that `query` gives of the point `p`.
pub open spec fn neighbors_of<F: Fn(&u64) -> FxIndexSet<u64>>(query: F, p: u64) -> Seq<u64> {
    index_set_items(choose|r: FxIndexSet<u64>| call_ensures(query, (&p,), r))
}

/// Whether `query` gives the same neighbors each time it is asked of a point.
pub open spec fn answers_by_point<F: Fn(&u64) -> FxIndexSet<u64>>(query: F) -> bool {
    forall|p: u64, r1: FxIndexSet<u64>, r2: FxIndexSet<u64>|
        #![trigger call_ensures(query, (&p,), r1), call_ensures(query, (&p,), r2)]
        call_ensures(query, (&p,), r1) && call_ensures(query, (&p,), r2) ==> index_set_items(r1)
            == index_set_items(r2)
}

/// Whether every point is a neighbor of its neighbors.
pub open spec fn symmetric<F: Fn(&u64) -> FxIndexSet<u64>>(query: F) -> bool {
    forall|a: u64, b: u64| #[trigger] neighbors_of(query, a).contains(b) ==> neighbors_of(query, b).contains(a)
}

/// Whether `p` has at least `min_points` neighbors: a core point.
pub open spec fn is_core<F: Fn(&u64) -> FxIndexSet<u64>>(query: F, p: u64, min_points: usize) -> bool {
    neighbors_of(query, p).len() >= min_points
}

/// Whether `x` is in one of the clusters `c`.
pub open spec fn in_some(c: Seq<Seq<u64>>, x: u64) -> bool {
    exists|k: int| 0 <= k < c.len() && #[trigger] c[k].contains(x)
}

/// The clusters as sequences.
pub open spec fn cluster_views(c: Seq<Vec<u64>>) -> Seq<Seq<u64>> {
    c.map_values(|v: Vec<u64>| v@)
}

/// A result of the query is what `neighbors_of` names.
pub proof fn lemma_neighbors_of<F: Fn(&u64) -> FxIndexSet<u64>>(query: F, p: u64, r: FxIndexSet<u64>)
    requires
        answers_by_point(query),
        call_ensures(query, (&p,), r),
    ensures
        neighbors_of(query, p) == index_set_items(r),
{
    let c = choose|c: FxIndexSet<u64>| call_ensures(query, (&p,), c);
    assert(call_ensures(query, (&p,), c));
}

/// How the clusters `all` (the last of which, numbered `cur`, may still
/// grow) stand: `owner` gives the cluster of each point clustered; every
/// neighbor of a core point of a cluster is clustered, in the same cluster
/// when it is a core point and the neighbors are symmetric, unless it waits
/// in `pending` for the cluster `cur`; and every point of a cluster that is
/// not a core point is a neighbor of one that is.
pub open spec fn clusters_stand<F: Fn(&u64) -> FxIndexSet<u64>>(
    query: F,
    min_points: usize,
    all: Seq<Seq<u64>>,
    owner: Map<u64, int>,
    pending: Seq<u64>,
    cur: int,
) -> bool {
    &&& forall|k: int, j: int|
        0 <= k < all.len() && 0 <= j < all[k].len() ==> owner.contains_key(#[trigger] all[k][j]) && owner[all[k][j]]
            == k
    &&& forall|x: u64| #[trigger] owner.contains_key(x) ==> 0 <= owner[x] < all.len() && all[owner[x]].contains(x)
    &&& forall|k: int, j1: int, j2: int|
        0 <= k < all.len() && 0 <= j1 < all[k].len() && 0 <= j2 < all[k].len() && j1 != j2 ==> #[trigger] all[k][j1]
            != #[trigger] all[k][j2]
    &&& forall|k: int| 0 <= k < all.len() ==> #[trigger] all[k].len() > 0
    &&& answers_by_point(query) ==> neighbors_stand(query, min_points, all, owner, pending, cur)
}

/// The part of `clusters_stand` that speaks of the neighbors of points.
pub open spec fn neighbors_stand<F: Fn(&u64) -> FxIndexSet<u64>>(
    query: F,
    min_points: usize,
    all: Seq<Seq<u64>>,
    owner: Map<u64, int>,
    pending: Seq<u64>,
    cur: int,
) -> bool {
    &&& forall|k: int| 0 <= k < all.len() ==> is_core(query, #[trigger] all[k][0], min_points)
    &&& forall|k: int, j: int, x: u64|
        0 <= k < all.len() && 0 <= j < all[k].len() && is_core(query, all[k][j], min_points) && #[trigger] neighbors_of(
            query,
            all[k][j],
        ).contains(x) ==> (k == cur && pending.contains(x)) || (owner.contains_key(x) && owner[x] <= k && (symmetric(query)
            && is_core(query, x, min_points) ==> owner[x] == k))
    &&& forall|k: int, j: int|
        0 <= k < all.len() && 0 <= j < all[k].len() && !is_core(query, #[trigger] all[k][j], min_points) ==> exists|
            j2: int,
        |
            0 <= j2 < all[k].len() && is_core(query, all[k][j2], min_points) && #[trigger] neighbors_of(
                query,
                all[k][j2],
            ).contains(all[k][j])
}

/// Whether some core point of the cluster `c` has `x` as a neighbor.
pub open spec fn found_from<F: Fn(&u64) -> FxIndexSet<u64>>(query: F, min_points: usize, c: Seq<u64>, x: u64) -> bool {
    exists|j: int|
        0 <= j < c.len() && is_core(query, c[j], min_points) && #[trigger] neighbors_of(query, c[j]).contains(x)
}

/// A new cluster starts from a core point not yet clustered, its neighbors
/// pending.
proof fn lemma_start_cluster<F: Fn(&u64) -> FxIndexSet<u64>>(
    query: F,
    min_points: usize,
    gc: Seq<Seq<u64>>,
    owner: Map<u64, int>,
    p: u64,
)
    requires
        clusters_stand(query, min_points, gc, owner, Seq::empty(), -1),
        !owner.contains_key(p),
        answers_by_point(query) ==> is_core(query, p, min_points),
    ensures
        clusters_stand(
            query,
            min_points,
            gc.push(seq![p]),
            owner.insert(p, gc.len() as int),
            neighbors_of(query, p),
            gc.len() as int,
        ),
        answers_by_point(query) ==> forall|x: u64|
            #[trigger] neighbors_of(query, p).contains(x) ==> found_from(query, min_points, seq![p], x),
{
    let all = gc.push(seq![p]);
    let o = owner.insert(p, gc.len() as int);
    let cur = gc.len() as int;
    assert forall|k: int, j: int| 0 <= k < all.len() && 0 <= j < all[k].len() implies o.contains_key(
        #[trigger] all[k][j],
    ) && o[all[k][j]] == k by {
        if k < cur {
            assert(all[k] == gc[k]);
            assert(owner.contains_key(gc[k][j]));
        }
    }
    assert forall|x: u64| #[trigger] o.contains_key(x) implies 0 <= o[x] < all.len() && all[o[x]].contains(x) by {
        if x == p {
            assert(all[cur][0] == p);
        } else {
            assert(all[owner[x]] == gc[owner[x]]);
        }
    }
    assert forall|k: int| 0 <= k < all.len() implies #[trigger] all[k].len() > 0 by {
        if k < cur {
            assert(all[k] == gc[k]);
        }
    }
    if answers_by_point(query) {
    assert forall|k: int| 0 <= k < all.len() implies is_core(query, #[trigger] all[k][0], min_points) by {
        if k < cur {
            assert(all[k] == gc[k]);
        }
    }
    assert forall|k: int, j: int, x: u64|
        0 <= k < all.len() && 0 <= j < all[k].len() && is_core(query, all[k][j], min_points) && #[trigger] neighbors_of(
            query,
            all[k][j],
        ).contains(x) implies (k == cur && neighbors_of(query, p).contains(x)) || (o.contains_key(x) && o[x] <= k && (symmetric(
        query,
    ) && is_core(query, x, min_points) ==> o[x] == k)) by {
        if k < cur {
            assert(all[k] == gc[k]);
            assert(owner.contains_key(x));
            assert(x != p);
        }
    }
    assert forall|k: int, j: int|
        0 <= k < all.len() && 0 <= j < all[k].len() && !is_core(query, #[trigger] all[k][j], min_points) implies exists|
        j2: int,
    |
        0 <= j2 < all[k].len() && is_core(query, all[k][j2], min_points) && #[trigger] neighbors_of(query, all[k][j2]).contains(
            all[k][j],
        ) by {
        assert(k < cur);
        assert(all[k] == gc[k]);
    }
    assert forall|x: u64| #[trigger] neighbors_of(query, p).contains(x) implies found_from(query, min_points, seq![p], x) by {
        assert(seq![p][0] == p);
    }
    }
}


/// The pending point `q`, not yet clustered, joins the growing cluster;
/// when it is a core point, its neighbors become pending too.
proof fn lemma_take_point<F: Fn(&u64) -> FxIndexSet<u64>>(
    query: F,
    min_points: usize,
    gc: Seq<Seq<u64>>,
    c: Seq<u64>,
    owner: Map<u64, int>,
    pending: Seq<u64>,
    q: u64,
)
    requires
        clusters_stand(query, min_points, gc.push(c), owner, pending, gc.len() as int),
        pending.len() > 0,
        q == pending.last(),
        !owner.contains_key(q),
        answers_by_point(query) ==> found_from(query, min_points, c, q),
    ensures
        clusters_stand(
            query,
            min_points,
            gc.push(c.push(q)),
            owner.insert(q, gc.len() as int),
            if is_core(query, q, min_points) {
                extend_unique(pending.drop_last(), neighbors_of(query, q))
            } else {
                pending.drop_last()
            },
            gc.len() as int,
        ),
{
    let cur = gc.len() as int;
    let all = gc.push(c);
    let all2 = gc.push(c.push(q));
    let o = owner.insert(q, cur);
    let pending2 = if is_core(query, q, min_points) {
        extend_unique(pending.drop_last(), neighbors_of(query, q))
    } else {
        pending.drop_last()
    };
    lemma_extend_unique(pending.drop_last(), neighbors_of(query, q));
    assert forall|x: u64| pending.contains(x) && x != q implies #[trigger] pending2.contains(x) by {
        let k = choose|k: int| 0 <= k < pending.len() && pending[k] == x;
        assert(k < pending.len() - 1);
        assert(pending.drop_last()[k] == x);
        assert(pending.drop_last().contains(x));
    }
    assert(all2[cur] == c.push(q));
    assert forall|k: int| 0 <= k < cur implies #[trigger] all2[k] == all[k] by {}
    assert forall|k: int, j: int| 0 <= k < all2.len() && 0 <= j < all2[k].len() implies o.contains_key(
        #[trigger] all2[k][j],
    ) && o[all2[k][j]] == k by {
        if k < cur || j < c.len() {
            assert(all2[k][j] == all[k][j]);
            assert(owner.contains_key(all[k][j]));
        }
    }
    assert forall|x: u64| #[trigger] o.contains_key(x) implies 0 <= o[x] < all2.len() && all2[o[x]].contains(x) by {
        if x == q {
            assert(all2[cur][c.len() as int] == q);
        } else {
            let k = owner[x];
            let j = choose|j: int| 0 <= j < all[k].len() && all[k][j] == x;
            assert(all2[k][j] == x);
        }
    }
    assert forall|k: int, j1: int, j2: int|
        0 <= k < all2.len() && 0 <= j1 < all2[k].len() && 0 <= j2 < all2[k].len() && j1 != j2 implies #[trigger] all2[k][j1]
        != #[trigger] all2[k][j2] by {
        if k == cur && j1 == c.len() {
            assert(owner.contains_key(all[k][j2]));
        } else if k == cur && j2 == c.len() {
            assert(owner.contains_key(all[k][j1]));
        } else {
            assert(all2[k][j1] == all[k][j1] && all2[k][j2] == all[k][j2]);
        }
    }
    assert forall|k: int| 0 <= k < all2.len() implies #[trigger] all2[k].len() > 0 by {
        assert(all[k].len() > 0);
    }
    if answers_by_point(query) {
    assert forall|k: int| 0 <= k < all2.len() implies is_core(query, #[trigger] all2[k][0], min_points) by {
        assert(all[k].len() > 0);
        assert(all2[k][0] == all[k][0]);
    }
    assert forall|k: int, j: int, x: u64|
        0 <= k < all2.len() && 0 <= j < all2[k].len() && is_core(query, all2[k][j], min_points) && #[trigger] neighbors_of(
            query,
            all2[k][j],
        ).contains(x) implies (k == cur && pending2.contains(x)) || (o.contains_key(x) && o[x] <= k && (symmetric(query) && is_core(
        query,
        x,
        min_points,
    ) ==> o[x] == k)) by {
        if k == cur && j == c.len() {
            assert(all2[k][j] == q);
        } else {
            assert(all2[k][j] == all[k][j]);
            if k == cur && pending.contains(x) {
                if x == q {
                    assert(o[q] == cur);
                }
            } else {
                assert(owner.contains_key(x));
            }
        }
    }
    assert forall|k: int, j: int|
        0 <= k < all2.len() && 0 <= j < all2[k].len() && !is_core(query, #[trigger] all2[k][j], min_points) implies exists|
        j2: int,
    |
        0 <= j2 < all2[k].len() && is_core(query, all2[k][j2], min_points) && #[trigger] neighbors_of(query, all2[k][j2]).contains(
            all2[k][j],
        ) by {
        if k == cur && j == c.len() {
            let j2 = choose|j2: int|
                0 <= j2 < c.len() && is_core(query, c[j2], min_points) && #[trigger] neighbors_of(query, c[j2]).contains(q);
            assert(all2[k][j2] == c[j2]);
        } else {
            assert(all2[k][j] == all[k][j]);
            let j2 = choose|j2: int|
                0 <= j2 < all[k].len() && is_core(query, all[k][j2], min_points) && #[trigger] neighbors_of(
                    query,
                    all[k][j2],
                ).contains(all[k][j]);
            assert(all2[k][j2] == all[k][j2]);
        }
    }
    }
}

/// The pending point `q`, already clustered, is dropped from the pending
/// points: when the neighbors are symmetric and `q` is a core point, it is
/// in the growing cluster already.
proof fn lemma_skip_point<F: Fn(&u64) -> FxIndexSet<u64>>(
    query: F,
    min_points: usize,
    all: Seq<Seq<u64>>,
    owner: Map<u64, int>,
    pending: Seq<u64>,
    cur: int,
    q: u64,
)
    requires
        clusters_stand(query, min_points, all, owner, pending, cur),
        0 <= cur == all.len() - 1,
        pending.len() > 0,
        q == pending.last(),
        owner.contains_key(q),
        answers_by_point(query) ==> found_from(query, min_points, all[cur], q),
    ensures
        clusters_stand(query, min_points, all, owner, pending.drop_last(), cur),
{
    assert forall|x: u64| pending.contains(x) && x != q implies #[trigger] pending.drop_last().contains(x) by {
        let k = choose|k: int| 0 <= k < pending.len() && pending[k] == x;
        assert(pending.drop_last()[k] == x);
    }
    if answers_by_point(query) {
    assert(owner[q] <= cur);
    if symmetric(query) && is_core(query, q, min_points) && owner[q] != cur {
        let c = all[cur];
        let j2 = choose|j2: int|
            0 <= j2 < c.len() && is_core(query, c[j2], min_points) && #[trigger] neighbors_of(query, c[j2]).contains(q);
        let y = c[j2];
        assert(neighbors_of(query, y).contains(q));
        assert(neighbors_of(query, q).contains(y));
        let k2 = owner[q];
        let jq = choose|jq: int| 0 <= jq < all[k2].len() && all[k2][jq] == q;
        assert(all[k2][jq] == q);
        assert(owner.contains_key(all[cur][j2]) && owner[all[cur][j2]] == cur);
        assert(false);
    }
    }
}

/// Once nothing is pending, the growing cluster is complete.
proof fn lemma_finish_cluster<F: Fn(&u64) -> FxIndexSet<u64>>(
    query: F,
    min_points: usize,
    all: Seq<Seq<u64>>,
    owner: Map<u64, int>,
    pending: Seq<u64>,
    cur: int,
)
    requires
        clusters_stand(query, min_points, all, owner, pending, cur),
        pending.len() == 0,
    ensures
        clusters_stand(query, min_points, all, owner, Seq::empty(), -1),
{
    if answers_by_point(query) {
    assert forall|k: int, j: int, x: u64|
        0 <= k < all.len() && 0 <= j < all[k].len() && is_core(query, all[k][j], min_points) && #[trigger] neighbors_of(
            query,
            all[k][j],
        ).contains(x) implies (k == -1 && Seq::<u64>::empty().contains(x)) || (owner.contains_key(x) && owner[x] <= k && (symmetric(
        query,
    ) && is_core(query, x, min_points) ==> owner[x] == k)) by {
        assert(!pending.contains(x));
    }
    }
}

/// Clustering a point not yet solved leaves fewer unsolved points.
proof fn lemma_progress(d: Set<u64>, solved: Set<u64>, q: u64)
    requires
        d.finite(),
        d.contains(q),
        !solved.contains(q),
    ensures
        d.difference(solved.insert(q)).len() < d.difference(solved).len(),
{
    broadcast use vstd::set::group_set_axioms;
    assert(d.difference(solved.insert(q)) =~= d.difference(solved).remove(q));
    assert(d.difference(solved).contains(q));
}

/// Whether `query` was asked of `p`: some answer of it for `p` exists.
pub open spec fn answered<F: Fn(&u64) -> FxIndexSet<u64>>(query: F, p: u64) -> bool {
    exists|r: FxIndexSet<u64>| #[trigger] call_ensures(query, (&p,), r)
}

/// Whether some answer of `query` for `p` has at least `min_points`
/// neighbors.
pub open spec fn answered_many<F: Fn(&u64) -> FxIndexSet<u64>>(query: F, p: u64, min_points: usize) -> bool {
    exists|r: FxIndexSet<u64>| #[trigger] call_ensures(query, (&p,), r) && index_set_items(r).len() >= min_points
}

/// Whether some answer of `query` for `p` has fewer than `min_points`
/// neighbors.
pub open spec fn answered_few<F: Fn(&u64) -> FxIndexSet<u64>>(query: F, p: u64, min_points: usize) -> bool {
    exists|r: FxIndexSet<u64>| #[trigger] call_ensures(query, (&p,), r) && index_set_items(r).len() < min_points
}

/// Whether each point of the cluster `c` after the first is a neighbor of
/// an earlier core point of it: the cluster grew from its first point.
pub open spec fn grown<F: Fn(&u64) -> FxIndexSet<u64>>(query: F, min_points: usize, c: Seq<u64>) -> bool {
    forall|j: int| 0 < j < c.len() ==> #[trigger] grown_at(query, min_points, c, j)
}

/// Whether the point at place `j` of the cluster `c` is a neighbor of an
/// earlier core point of it.
pub open spec fn grown_at<F: Fn(&u64) -> FxIndexSet<u64>>(query: F, min_points: usize, c: Seq<u64>, j: int) -> bool {
    exists|j2: int|
        #![trigger neighbors_of(query, c[j2]).contains(c[j])]
        0 <= j2 < j && is_core(query, c[j2], min_points) && neighbors_of(query, c[j2]).contains(c[j])
}

/// Over a query that gives the same neighbors each time it is asked of a
/// point: each cluster starts from a core point, no noise point is a core
/// point, every neighbor of a core point of a cluster is in that cluster
/// or an earlier one (in that cluster, when it is a core point and the
/// neighbors are symmetric), a point that is not a core point is never
/// in a later cluster than a core point that has it as a neighbor,
/// every point of a cluster that is not a core point is a neighbor of one
/// that is, and each cluster grew from its first point.
pub open spec fn clustered_by_neighbors<F: Fn(&u64) -> FxIndexSet<u64>>(
    range_query: F,
    min_points: usize,
    c: Seq<Seq<u64>>,
    noise: Set<u64>,
) -> bool {
    let core = |p: u64| is_core(range_query, p, min_points);
    &&& forall|k: int| 0 <= k < c.len() ==> core(#[trigger] c[k][0])
    &&& forall|x: u64| #[trigger] noise.contains(x) ==> !core(x)
    &&& forall|k: int, j: int, x: u64|
        0 <= k < c.len() && 0 <= j < c[k].len() && core(c[k][j]) && #[trigger] neighbors_of(
            range_query,
            c[k][j],
        ).contains(x) ==> in_some(c.take(k + 1), x) && (symmetric(range_query) && core(x) ==> c[k].contains(
            x,
        ))
    &&& forall|k: int, j: int, k2: int, j2: int|
        0 <= k2 < k < c.len() && 0 <= j < c[k].len() && 0 <= j2 < c[k2].len() && !core(#[trigger] c[k][j])
            && core(#[trigger] c[k2][j2]) ==> !neighbors_of(range_query, c[k2][j2]).contains(c[k][j])
    &&& forall|k: int, j: int|
        0 <= k < c.len() && 0 <= j < c[k].len() && !core(#[trigger] c[k][j]) ==> exists|j2: int|
            0 <= j2 < c[k].len() && core(c[k][j2]) && #[trigger] neighbors_of(range_query, c[k][j2]).contains(
                c[k][j],
            )
    &&& forall|k: int| 0 <= k < c.len() ==> grown(range_query, min_points, #[trigger] c[k])
}

/// DBSCAN: groups the points of `data` into clusters of points close
/// together, as `range_query` gives the neighbors of a point, a point
/// with fewer than `min_points` neighbors being noise unless it is a
/// neighbor of a point that has enough. Points are taken in the order of
/// `data`; a cluster grows from its first point by taking the neighbors of
/// each of its points that has enough neighbors, the most recently found
/// first. Returns the clusters and the noise.
///
/// Whatever the query answers, as long as it names only points of `data`,
/// each point of `data` ends in exactly one cluster or in the noise, each
/// cluster starts from a point for which the query gave at least
/// `min_points` neighbors and each noise point got fewer. Where the query
/// gives the same neighbors each time it is asked of a point, the clusters
/// also stand as `clustered_by_neighbors` says.
pub fn dbscan<F: Fn(&u64) -> FxIndexSet<u64>>(data: &[u64], range_query: F, min_points: usize) -> (r: (
    Vec<Vec<u64>>,
    HashSet<u64>,
))
    requires
        forall|p: u64| call_requires(range_query, (&p,)),
        forall|p: u64, found: FxIndexSet<u64>, x: u64|
            #![trigger call_ensures(range_query, (&p,), found), index_set_items(found).contains(x)]
            call_ensures(range_query, (&p,), found) && index_set_items(found).contains(x) ==> data@.contains(x),
    ensures
        ({
            let c = cluster_views(r.0@);
            let noise = r.1@;
            &&& forall|k: int| 0 <= k < c.len() ==> #[trigger] c[k].len() > 0 && answered_many(range_query, c[k][0], min_points)
            &&& forall|k1: int, j1: int, k2: int, j2: int|
                0 <= k1 < c.len() && 0 <= j1 < c[k1].len() && 0 <= k2 < c.len() && 0 <= j2 < c[k2].len() && (k1
                    != k2 || j1 != j2) ==> #[trigger] c[k1][j1] != #[trigger] c[k2][j2]
            &&& forall|k: int, j: int| 0 <= k < c.len() && 0 <= j < c[k].len() ==> !noise.contains(#[trigger] c[k][j])
            &&& forall|k: int, j: int| 0 <= k < c.len() && 0 <= j < c[k].len() ==> data@.contains(#[trigger] c[k][j]) && answered(range_query, c[k][j])
            &&& forall|i: int| 0 <= i < data@.len() ==> noise.contains(#[trigger] data@[i]) || in_some(c, data@[i])
            &&& forall|x: u64| #[trigger] noise.contains(x) ==> data@.contains(x) && answered_few(range_query, x, min_points)
            &&& exists|starts: Seq<int>|
                {
                    &&& starts.len() == c.len()
                    &&& forall|k: int| 0 <= k < c.len() ==> 0 <= #[trigger] starts[k] < data@.len() && data@[starts[k]] == c[k][0]
                    &&& forall|k1: int, k2: int| 0 <= k1 < k2 < c.len() ==> #[trigger] starts[k1] < #[trigger] starts[k2]
                    &&& answers_by_point(range_query) ==> forall|k: int, m: int|
                        0 <= k < c.len() && 0 <= m < #[trigger] starts[k] && is_core(range_query, #[trigger] data@[m], min_points) ==> in_some(
                            c.take(k),
                            data@[m],
                        )
                }
            &&& answers_by_point(range_query) ==> clustered_by_neighbors(range_query, min_points, c, noise)
        }),
{
    let mut clusters: Vec<Vec<u64>> = Vec::new();
    let mut noise: HashSet<u64> = HashSet::new();
    let mut solved: HashSet<u64> = HashSet::new();
    let ghost mut gc: Seq<Seq<u64>> = Seq::empty();
    let ghost mut owner: Map<u64, int> = Map::empty();
    let ghost mut starts: Seq<int> = Seq::empty();
    proof {
        assert(cluster_views(clusters@) =~= gc);
    }
    let mut i: usize = 0;
    while i < data.len()
        invariant
            0 <= i <= data@.len(),
            forall|p: u64| call_requires(range_query, (&p,)),
            forall|p: u64, found: FxIndexSet<u64>, x: u64|
                #![trigger call_ensures(range_query, (&p,), found), index_set_items(found).contains(x)]
                call_ensures(range_query, (&p,), found) && index_set_items(found).contains(x) ==> data@.contains(x),
            cluster_views(clusters@) == gc,
            clusters_stand(range_query, min_points, gc, owner, Seq::empty(), -1),
            forall|x: u64| #[trigger] solved@.contains(x) <==> noise@.contains(x) || owner.contains_key(x),
            forall|x: u64| #[trigger] noise@.contains(x) ==> !owner.contains_key(x),
            forall|x: u64|
                #[trigger] noise@.contains(x) ==> data@.contains(x) && answered_few(range_query, x, min_points),
            answers_by_point(range_query) ==> forall|x: u64|
                #[trigger] noise@.contains(x) ==> !is_core(range_query, x, min_points),
            forall|k: int| 0 <= k < gc.len() ==> answered_many(range_query, #[trigger] gc[k][0], min_points),
            answers_by_point(range_query) ==> forall|k: int| 0 <= k < gc.len() ==> grown(range_query, min_points, #[trigger] gc[k]),
            forall|x: u64| #[trigger] owner.contains_key(x) ==> data@.contains(x) && answered(range_query, x),
            forall|j: int| 0 <= j < i ==> #[trigger] solved@.contains(data@[j]),
            starts.len() == gc.len(),
            forall|k: int| 0 <= k < gc.len() ==> 0 <= #[trigger] starts[k] < i && data@[starts[k]] == gc[k][0],
            forall|k1: int, k2: int| 0 <= k1 < k2 < gc.len() ==> #[trigger] starts[k1] < #[trigger] starts[k2],
            answers_by_point(range_query) ==> forall|m: int|
                0 <= m < i && is_core(range_query, #[trigger] data@[m], min_points) ==> owner.contains_key(data@[m]),
            answers_by_point(range_query) ==> forall|k: int, m: int|
                0 <= k < gc.len() && 0 <= m < #[trigger] starts[k] && is_core(range_query, #[trigger] data@[m], min_points)
                    ==> owner.contains_key(data@[m]) && owner[data@[m]] < k,
        decreases data@.len() - i,
    {
        let p = data[i];
        proof {
            assert(data@.contains(p)) by {
                assert(data@[i as int] == p);
            }
        }
        if solved.contains(&p) {
            proof {
                if answers_by_point(range_query) && is_core(range_query, p, min_points) {
                    assert(!noise@.contains(p));
                    assert(owner.contains_key(p));
                }
            }
        } else {
            solved.insert(p);
            let neighbors = range_query(&p);
            proof {
                if answers_by_point(range_query) {
                    lemma_neighbors_of(range_query, p, neighbors);
                }
                assert(call_ensures(range_query, (&p,), neighbors));
            }
            if index_set_len(&neighbors) < min_points {
                noise.insert(p);
            } else {
                let ghost cidx = gc.len() as int;
                let mut cur: Vec<u64> = Vec::new();
                cur.push(p);
                proof {
                    lemma_start_cluster(range_query, min_points, gc, owner, p);
                    owner = owner.insert(p, cidx);
                    assert(cur@ =~= seq![p]);
                    assert forall|x: u64| #[trigger] index_set_items(neighbors).contains(x) implies data@.contains(x) by {
                        assert(call_ensures(range_query, (&p,), neighbors));
                    }
                }
                proof {
                    if answers_by_point(range_query) {
                    assert forall|k: int, m: int|
                        0 <= k <= gc.len() && 0 <= m < #[trigger] starts.push(i as int)[k] && is_core(
                            range_query,
                            #[trigger] data@[m],
                            min_points,
                        ) implies owner.contains_key(data@[m]) && owner[data@[m]] < k by {
                        if k == gc.len() {
                            assert(owner.contains_key(data@[m]));
                            assert(data@[m] != p);
                        } else {
                            assert(starts.push(i as int)[k] == starts[k]);
                        }
                    }
                    }
                }
                let mut seed = neighbors;
                while index_set_len(&seed) > 0
                    invariant
                        0 <= i < data@.len(),
                        p == data@[i as int],
                        cidx == gc.len(),
                        forall|p: u64| call_requires(range_query, (&p,)),
                        forall|p: u64, found: FxIndexSet<u64>, x: u64|
                            #![trigger call_ensures(range_query, (&p,), found), index_set_items(found).contains(x)]
                            call_ensures(range_query, (&p,), found) && index_set_items(found).contains(x)
                                ==> data@.contains(x),
                        cluster_views(clusters@) == gc,
                        clusters_stand(range_query, min_points, gc.push(cur@), owner, index_set_items(seed), cidx),
                        forall|x: u64| #[trigger] solved@.contains(x) <==> noise@.contains(x) || owner.contains_key(x),
                        forall|x: u64| #[trigger] noise@.contains(x) ==> !owner.contains_key(x),
                        forall|x: u64|
                            #[trigger] noise@.contains(x) ==> data@.contains(x) && answered_few(range_query, x, min_points),
                        answers_by_point(range_query) ==> forall|x: u64|
                            #[trigger] noise@.contains(x) ==> !is_core(range_query, x, min_points),
                        forall|k: int| 0 <= k < gc.len() ==> answered_many(range_query, #[trigger] gc[k][0], min_points),
                        answers_by_point(range_query) ==> forall|k: int| 0 <= k < gc.len() ==> grown(range_query, min_points, #[trigger] gc[k]),
                        answers_by_point(range_query) ==> grown(range_query, min_points, cur@),
                        answered_many(range_query, p, min_points),
                        forall|x: u64| #[trigger] owner.contains_key(x) ==> data@.contains(x) && answered(range_query, x),
                        forall|j: int| 0 <= j <= i ==> #[trigger] solved@.contains(data@[j]),
                        cur@.len() > 0 && cur@[0] == p,
                        starts.len() == gc.len(),
                        forall|k: int| 0 <= k < gc.len() ==> 0 <= #[trigger] starts[k] < i && data@[starts[k]] == gc[k][0],
                        forall|k1: int, k2: int| 0 <= k1 < k2 < gc.len() ==> #[trigger] starts[k1] < #[trigger] starts[k2],
                        answers_by_point(range_query) ==> forall|m: int|
                            0 <= m < i && is_core(range_query, #[trigger] data@[m], min_points) ==> owner.contains_key(data@[m]),
                        answers_by_point(range_query) ==> forall|k: int, m: int|
                            0 <= k <= gc.len() && 0 <= m < #[trigger] starts.push(i as int)[k] && is_core(
                                range_query,
                                #[trigger] data@[m],
                                min_points,
                            ) ==> owner.contains_key(data@[m]) && owner[data@[m]] < k,
                        forall|x: u64| #[trigger] index_set_items(seed).contains(x) ==> data@.contains(x),
                        answers_by_point(range_query) ==> forall|x: u64|
                            #[trigger] index_set_items(seed).contains(x) ==> found_from(range_query, min_points, cur@, x),
                    decreases data@.to_set().difference(solved@).len(), index_set_items(seed).len(),
                {
                    let ghost pending = index_set_items(seed);
                    let ghost old_solved = solved@;
                    let ghost old_cur = cur@;
                    let q = index_set_pop(&mut seed).unwrap();
                    proof {
                        assert(pending.contains(q)) by {
                            assert(pending[pending.len() - 1] == q);
                        }
                        assert(gc.push(old_cur)[cidx] == old_cur);
                        assert forall|x: u64| #[trigger] pending.drop_last().contains(x) implies pending.contains(x) by {
                            let k = choose|k: int| 0 <= k < pending.drop_last().len() && pending.drop_last()[k] == x;
                            assert(pending[k] == x);
                        }
                    }
                    if noise.remove(&q) {
                        cur.push(q);
                        proof {
                            lemma_take_point(range_query, min_points, gc, old_cur, owner, pending, q);
                            owner = owner.insert(q, cidx);
                        }
                    } else if !solved.contains(&q) {
                        solved.insert(q);
                        cur.push(q);
                        let found = range_query(&q);
                        proof {
                            if answers_by_point(range_query) {
                                lemma_neighbors_of(range_query, q, found);
                            }
                            lemma_take_point(range_query, min_points, gc, old_cur, owner, pending, q);
                            owner = owner.insert(q, cidx);
                            seq_to_set_is_finite(data@);
                            lemma_progress(data@.to_set(), old_solved, q);
                        }
                        if index_set_len(&found) >= min_points {
                            index_set_extend(&mut seed, found);
                            proof {
                                lemma_extend_unique(pending.drop_last(), index_set_items(found));
                            }
                        }
                    } else {
                        proof {
                            lemma_skip_point(range_query, min_points, gc.push(old_cur), owner, pending, cidx, q);
                        }
                    }
                    proof {
                        if answers_by_point(range_query) {
                        assert forall|x: u64| #[trigger] found_from(range_query, min_points, old_cur, x) implies found_from(
                            range_query,
                            min_points,
                            cur@,
                            x,
                        ) by {
                            let j = choose|j: int|
                                0 <= j < old_cur.len() && is_core(range_query, old_cur[j], min_points) && #[trigger] neighbors_of(
                                    range_query,
                                    old_cur[j],
                                ).contains(x);
                            assert(cur@[j] == old_cur[j]);
                        }
                        assert forall|x: u64| #[trigger] index_set_items(seed).contains(x) implies found_from(
                            range_query,
                            min_points,
                            cur@,
                            x,
                        ) by {
                            if pending.drop_last().contains(x) {
                                assert(found_from(range_query, min_points, old_cur, x));
                            } else {
                                let j = (cur@.len() - 1) as int;
                                assert(cur@[j] == q);
                                assert(is_core(range_query, q, min_points));
                                assert(neighbors_of(range_query, q).contains(x));
                            }
                        }
                        assert forall|j: int| 0 < j < cur@.len() implies #[trigger] grown_at(range_query, min_points, cur@, j) by {
                            if j < old_cur.len() {
                                assert(cur@[j] == old_cur[j]);
                                assert(grown_at(range_query, min_points, old_cur, j));
                                let j2 = choose|j2: int|
                                    #![trigger neighbors_of(range_query, old_cur[j2]).contains(old_cur[j])]
                                    0 <= j2 < j && is_core(range_query, old_cur[j2], min_points) && neighbors_of(range_query, old_cur[j2]).contains(
                                        old_cur[j],
                                    );
                                assert(cur@[j2] == old_cur[j2]);
                            } else if cur@.len() > old_cur.len() {
                                assert(cur@[j] == q);
                                assert(found_from(range_query, min_points, old_cur, q));
                                let j2 = choose|j2: int|
                                    0 <= j2 < old_cur.len() && is_core(range_query, old_cur[j2], min_points) && #[trigger] neighbors_of(range_query, old_cur[j2]).contains(q);
                                assert(cur@[j2] == old_cur[j2]);
                            }
                        }
                        assert(grown(range_query, min_points, cur@));
                        }
                    }
                }
                clusters.push(cur);
                proof {
                    lemma_finish_cluster(range_query, min_points, gc.push(cur@), owner, index_set_items(seed), cidx);
                    assert(cur@[0] == p);
                    assert(gc.push(cur@)[cidx][0] == p);
                    assert(owner.contains_key(p));
                    if answers_by_point(range_query) {
                        assert forall|k: int| 0 <= k < gc.push(cur@).len() implies grown(range_query, min_points, #[trigger] gc.push(cur@)[k]) by {
                            if k < gc.len() {
                                assert(gc.push(cur@)[k] == gc[k]);
                            }
                        }
                    }
                    gc = gc.push(cur@);
                    starts = starts.push(i as int);
                    assert(cluster_views(clusters@) =~= gc);
                }
            }
        }
        i = i + 1;
    }
    proof {
        let c = gc;
        assert forall|k1: int, j1: int, k2: int, j2: int|
            0 <= k1 < c.len() && 0 <= j1 < c[k1].len() && 0 <= k2 < c.len() && 0 <= j2 < c[k2].len() && (k1 != k2
                || j1 != j2) implies #[trigger] c[k1][j1] != #[trigger] c[k2][j2] by {
            if c[k1][j1] == c[k2][j2] {
                assert(owner[c[k1][j1]] == k1 && owner[c[k2][j2]] == k2);
            }
        }
        assert forall|m: int| 0 <= m < data@.len() implies noise@.contains(#[trigger] data@[m]) || in_some(c, data@[m]) by {
            assert(solved@.contains(data@[m]));
            if !noise@.contains(data@[m]) {
                assert(owner.contains_key(data@[m]));
                assert(c[owner[data@[m]]].contains(data@[m]));
            }
        }
        if answers_by_point(range_query) {
        assert forall|k: int, j: int, x: u64|
            0 <= k < c.len() && 0 <= j < c[k].len() && is_core(range_query, c[k][j], min_points) && #[trigger] neighbors_of(
                range_query,
                c[k][j],
            ).contains(x) implies in_some(c.take(k + 1), x) && (symmetric(range_query) && is_core(
                range_query,
                x,
                min_points,
            ) ==> c[k].contains(x)) by {
            assert(owner.contains_key(x));
            assert(c[owner[x]].contains(x));
            assert(c.take(k + 1)[owner[x]] == c[owner[x]]);
        }
        assert forall|k: int, j: int, k2: int, j2: int|
            0 <= k2 < k < c.len() && 0 <= j < c[k].len() && 0 <= j2 < c[k2].len() && !is_core(
                range_query,
                #[trigger] c[k][j],
                min_points,
            ) && is_core(range_query, #[trigger] c[k2][j2], min_points) implies !neighbors_of(
            range_query,
            c[k2][j2],
        ).contains(c[k][j]) by {
            if neighbors_of(range_query, c[k2][j2]).contains(c[k][j]) {
                assert(owner[c[k][j]] <= k2);
                assert(owner[c[k][j]] == k);
            }
        }
        assert(clustered_by_neighbors(range_query, min_points, c, noise@));
        }
        assert forall|k: int, j: int| 0 <= k < c.len() && 0 <= j < c[k].len() implies data@.contains(#[trigger] c[k][j]) by {
            assert(owner.contains_key(c[k][j]));
        }
        assert forall|k: int, j: int| 0 <= k < c.len() && 0 <= j < c[k].len() implies !noise@.contains(#[trigger] c[k][j]) by {
            assert(owner.contains_key(c[k][j]));
        }
        if answers_by_point(range_query) {
        assert forall|k: int, m: int|
            0 <= k < c.len() && 0 <= m < #[trigger] starts[k] && is_core(range_query, #[trigger] data@[m], min_points)
                implies in_some(c.take(k), data@[m]) by {
            let o = owner[data@[m]];
            assert(c[o].contains(data@[m]));
            assert(c.take(k)[o] == c[o]);
        }
        }
    }
    (clusters, noise)
}

} // verus!
