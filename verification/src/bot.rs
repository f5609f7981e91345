//! The bot's bookkeeping: resources, costs, unit counts and the grouped
//! units it keeps from step to step.

use vstd::prelude::*;
use crate::constants::{race_values, spec_race_values, RaceValues};
use crate::counts::Counts;
use crate::game_info::{player_with, GameInfo};
use crate::pixel_map::{PixelMap, VisibilityMap};
use crate::Event;
use std::collections::HashSet;
use crate::game_data::{type_is_structure, UnitTypeData, find_unit_data, find_upgrade_data, Cost, GameData};
use crate::game_state::Common;
use crate::grouping::{group_of, group_tags, group_units, Grouped, UnitGroup};
use crate::ids::{AbilityId, UnitTypeId, UpgradeId};
use crate::player::Race;
use crate::unit::{copy_vec, Unit, UnitView};
use crate::units::{tag_index, extend_view, marked_hallucinations, marked_snapshots, remove_view, AllUnits, Units};

verus! {

/// Options for searching a place to build on.
#[derive(Debug, Clone, Copy)]
pub struct PlacementOptions {
    /// Maximum distance of checked points from the given position.
    pub max_distance: isize,
    /// Step between checked positions.
    pub step: isize,
    /// Whether to return a random place found rather than the closest.
    pub random: bool,
    /// Whether to keep only places where an addon fits.
    pub addon: bool,
}

impl Default for PlacementOptions {
    fn default() -> (r: PlacementOptions)
        ensures
            r.max_distance == 15,
            r.step == 2,
            !r.random,
            !r.addon,
    {
        PlacementOptions { max_distance: 15, step: 2, random: false, addon: false }
    }
}

/// Which other forms of a unit type are counted with it.
#[derive(Debug, Clone, Copy, PartialEq, Eq, Structural)]
pub enum UnitAlias {
    /// No other form.
    NoAlias,
    /// The unit's other form, for units with two forms.
    Unit,
    /// All the technology alternatives, for types with more forms.
    Tech,
}

impl Default for UnitAlias {
    fn default() -> (r: UnitAlias)
        ensures
            r == UnitAlias::NoAlias,
    {
        UnitAlias::NoAlias
    }
}

/// Which units are counted by their state of completion.
#[derive(Debug, Clone, Copy, PartialEq, Eq, Structural)]
pub enum Completion {
    /// Complete units only.
    Complete,
    /// Units in progress only.
    Ordered,
    /// Both.
    All,
}

impl Default for Completion {
    fn default() -> (r: Completion)
        ensures
            r == Completion::Complete,
    {
        Completion::Complete
    }
}

/// Whether the bot's unit is counted as complete: ready, and neither a
/// placeholder nor a hallucination.
pub open spec fn counted_complete(u: UnitView) -> bool {
    u.build_complete && !(u.display_type is Placeholder || u.is_hallucination)
}

/// The ability that is still making the bot's unit, if it is not counted
/// complete and the game data names one for its type.
pub open spec fn pending_ability(u: UnitView, data: Seq<crate::game_data::UnitTypeData>) -> Option<
    AbilityId,
> {
    if counted_complete(u) {
        None
    } else {
        match find_unit_data(data, u.type_id) {
            Some(d) => d.ability,
            None => None,
        }
    }
}

/// The orders of a unit that use `a` and do not construct a structure.
pub open spec fn order_uses(u: UnitView, a: AbilityId) -> nat {
    uses_prefix(u.orders, u.orders.len() as int, a)
}

/// The orders among the first `j` of `os` that use `a` and do not
/// construct a structure.
pub open spec fn uses_prefix(os: Seq<crate::unit::UnitOrder>, j: int, a: AbilityId) -> nat {
    os.take(j).filter(|o: crate::unit::UnitOrder| !o.ability.spec_is_constructing() && o.ability == a).len()
}

/// How often ability `a` is in progress among the units `s`: in their
/// orders (those that construct structures aside), and as what is still
/// making a unit that is not complete.
pub open spec fn ordered_count(s: Seq<UnitView>, data: Seq<crate::game_data::UnitTypeData>, a: AbilityId) -> nat
    decreases s.len(),
{
    if s.len() == 0 {
        0
    } else {
        ordered_count(s.drop_last(), data, a) + order_uses(s.last(), a) + if pending_ability(
            s.last(),
            data,
        ) == Some(a) {
            1nat
        } else {
            0nat
        }
    }
}

/// How the units of a step are tallied by type.
#[derive(Debug, Clone, Copy, PartialEq, Eq, Structural)]
pub enum Tally {
    /// The bot's units counted complete.
    OwnComplete,
    /// Opponent's complete structures, and units that are not hallucinations.
    EnemyCurrent,
    /// Opponent's structures in progress.
    EnemyOrdered,
}

/// Whether a unit is counted by the tally.
pub open spec fn tallied(k: Tally, u: UnitView, gd: Seq<UnitTypeData>) -> bool {
    match k {
        Tally::OwnComplete => counted_complete(u),
        Tally::EnemyCurrent => if type_is_structure(gd, u.type_id) {
            u.build_complete
        } else {
            !u.is_hallucination
        },
        Tally::EnemyOrdered => type_is_structure(gd, u.type_id) && !u.build_complete,
    }
}

/// The number of units of `s` of type `t` that the tally counts.
pub open spec fn tally_of(s: Seq<UnitView>, k: Tally, t: UnitTypeId, gd: Seq<UnitTypeData>) -> nat {
    s.filter(|u: UnitView| tallied(k, u, gd) && u.type_id == t).len()
}

proof fn lemma_tally_step(s: Seq<UnitView>, i: int, k: Tally, t: UnitTypeId, gd: Seq<UnitTypeData>)
    requires
        0 <= i < s.len(),
    ensures
        tally_of(s.take(i + 1), k, t, gd) == tally_of(s.take(i), k, t, gd) + if tallied(k, s[i], gd)
            && s[i].type_id == t {
            1nat
        } else {
            0nat
        },
        tally_of(s.take(i), k, t, gd) <= i,
{
    reveal_with_fuel(Seq::filter, 1);
    assert(s.take(i + 1).drop_last() =~= s.take(i));
    assert(s.take(i + 1).last() == s[i]);
    broadcast use vstd::seq_lib::group_filter_ensures;
}

fn is_tallied(k: Tally, u: &Unit, data: &GameData) -> (r: bool)
    ensures
        r == tallied(k, u@, data.units@),
{
    match k {
        Tally::OwnComplete => u.build_complete && !(u.display_type.is_placeholder()
            || u.is_hallucination),
        Tally::EnemyCurrent => if data.is_structure_type(u.type_id) {
            u.build_complete
        } else {
            !u.is_hallucination
        },
        Tally::EnemyOrdered => data.is_structure_type(u.type_id) && !u.build_complete,
    }
}

/// Counts, for each unit type, the units of `units` that the tally counts.
pub fn tally_units(units: &Units, k: Tally, data: &GameData) -> (r: Counts<UnitTypeId>)
    requires
        units.wf(),
    ensures
        forall|t: UnitTypeId| r.get_spec(t) == tally_of(units@, k, t, data.units@),
{
    let n = units.len();
    let mut r: Counts<UnitTypeId> = Counts::new();
    let mut i: usize = 0;
    proof {
        assert forall|t: UnitTypeId| r.get_spec(t) == tally_of(units@.take(0), k, t, data.units@) by {
            reveal_with_fuel(Seq::filter, 1);
            assert(units@.take(0) =~= Seq::<UnitView>::empty());
        }
    }
    while i < n
        invariant
            units.wf(),
            n == units@.len(),
            0 <= i <= n,
            forall|t: UnitTypeId| r.get_spec(t) == tally_of(units@.take(i as int), k, t, data.units@),
        decreases n - i,
    {
        let u = units.at(i);
        let ghost before = r;
        proof {
            assert forall|t: UnitTypeId| tally_of(units@.take(i + 1), k, t, data.units@) == tally_of(
                units@.take(i as int),
                k,
                t,
                data.units@,
            ) + if tallied(k, units@[i as int], data.units@) && units@[i as int].type_id == t {
                1nat
            } else {
                0nat
            } by {
                lemma_tally_step(units@, i as int, k, t, data.units@);
            }
            lemma_tally_step(units@, i as int, k, u.type_id, data.units@);
        }
        if is_tallied(k, u, data) {
            r.increment(u.type_id);
        }
        i = i + 1;
    }
    proof {
        assert(units@.take(n as int) =~= units@);
    }
    r
}

proof fn lemma_ordered_step(s: Seq<UnitView>, i: int, data: Seq<crate::game_data::UnitTypeData>, a: AbilityId)
    requires
        0 <= i < s.len(),
    ensures
        ordered_count(s.take(i + 1), data, a) == ordered_count(s.take(i), data, a) + order_uses(
            s[i],
            a,
        ) + if pending_ability(s[i], data) == Some(a) {
            1nat
        } else {
            0nat
        },
{
    assert(s.take(i + 1).drop_last() =~= s.take(i));
    assert(s.take(i + 1).last() == s[i]);
}

proof fn lemma_order_uses_step(os: Seq<crate::unit::UnitOrder>, j: int, a: AbilityId)
    requires
        0 <= j < os.len(),
    ensures
        uses_prefix(os, j + 1, a) == uses_prefix(os, j, a) + if !os[j].ability.spec_is_constructing()
            && os[j].ability == a {
            1nat
        } else {
            0nat
        },
{
    reveal_with_fuel(Seq::filter, 1);
    assert(os.take(j + 1).drop_last() =~= os.take(j));
    assert(os.take(j + 1).last() == os[j]);
}

/// Counts, for each ability, how often it is in progress among `units`,
/// as `ordered_count` says.
pub fn tally_orders(units: &Units, data: &GameData) -> (r: Counts<AbilityId>)
    requires
        units.wf(),
        forall|a: AbilityId| ordered_count(units@, data.units@, a) < usize::MAX,
    ensures
        forall|a: AbilityId| r.get_spec(a) == ordered_count(units@, data.units@, a),
{
    let n = units.len();
    let mut r: Counts<AbilityId> = Counts::new();
    let ghost s = units@;
    let ghost d = data.units@;
    proof {
        assert(s.take(0) =~= Seq::<UnitView>::empty());
    }
    let mut i: usize = 0;
    while i < n
        invariant
            units.wf(),
            s == units@,
            d == data.units@,
            n == s.len(),
            0 <= i <= n,
            forall|a: AbilityId| ordered_count(s, d, a) < usize::MAX,
            forall|a: AbilityId| r.get_spec(a) == ordered_count(s.take(i as int), d, a),
        decreases n - i,
    {
        let u = units.at(i);
        proof {
            assert forall|a: AbilityId| ordered_count(s.take(i + 1), d, a) == ordered_count(
                s.take(i as int),
                d,
                a,
            ) + order_uses(s[i as int], a) + if pending_ability(s[i as int], d) == Some(a) {
                1nat
            } else {
                0nat
            } by {
                lemma_ordered_step(s, i as int, d, a);
            }
            assert forall|a: AbilityId| #[trigger] ordered_count(s.take(i + 1), d, a) < usize::MAX
                by {
                lemma_ordered_prefix(s, i + 1, d, a);
            }
            assert forall|a: AbilityId| #[trigger] uses_prefix(u.orders@, 0, a) == 0 by {
                reveal_with_fuel(Seq::filter, 1);
                assert(u.orders@.take(0) =~= Seq::<crate::unit::UnitOrder>::empty());
            }
        }
        let m = u.orders.len();
        let mut j: usize = 0;
        while j < m
            invariant
                units.wf(),
                s == units@,
                d == data.units@,
                n == s.len(),
                0 <= i < n,
                u@ == s[i as int],
                m == u.orders@.len(),
                0 <= j <= m,
                forall|a: AbilityId| #[trigger] ordered_count(s.take(i + 1), d, a) < usize::MAX,
                forall|a: AbilityId| #[trigger] ordered_count(s.take(i + 1), d, a) == ordered_count(
                    s.take(i as int),
                    d,
                    a,
                ) + order_uses(s[i as int], a) + if pending_ability(s[i as int], d) == Some(a) {
                    1nat
                } else {
                    0nat
                },
                forall|a: AbilityId|
                    r.get_spec(a) == ordered_count(s.take(i as int), d, a) + #[trigger] uses_prefix(
                        u.orders@,
                        j as int,
                        a,
                    ),
            decreases m - j,
        {
            let ab = u.orders[j].ability;
            proof {
                assert forall|a: AbilityId| #[trigger] uses_prefix(u.orders@, j + 1, a) == uses_prefix(
                    u.orders@,
                    j as int,
                    a,
                ) + if !u.orders@[j as int].ability.spec_is_constructing()
                    && u.orders@[j as int].ability == a {
                    1nat
                } else {
                    0nat
                } by {
                    lemma_order_uses_step(u.orders@, j as int, a);
                }
                lemma_take_filter_le(u.orders@, j + 1, ab);
                assert(u.orders@ =~= s[i as int].orders);
            }
            if !ab.is_constructing() {
                proof {
                    assert(r.get_spec(ab) == ordered_count(s.take(i as int), d, ab) + uses_prefix(
                        u.orders@,
                        j as int,
                        ab,
                    ));
                    assert(uses_prefix(u.orders@, j + 1, ab) == uses_prefix(u.orders@, j as int, ab)
                        + 1);
                    assert(ordered_count(s.take(i + 1), d, ab) < usize::MAX);
                    assert(order_uses(s[i as int], ab) == uses_prefix(u.orders@, m as int, ab));
                }
                r.increment(ab);
            }
            j = j + 1;
        }
        proof {
            assert(u.orders@ =~= s[i as int].orders);
        }
        proof {
            assert forall|a: AbilityId| #[trigger] r.get_spec(a) == ordered_count(
                s.take(i as int),
                d,
                a,
            ) + order_uses(s[i as int], a) by {
                assert(uses_prefix(u.orders@, m as int, a) == order_uses(s[i as int], a));
            }
        }
        if !(u.build_complete && !(u.display_type.is_placeholder() || u.is_hallucination)) {
            match data.unit_data(u.type_id) {
                Some(dd) => match dd.ability {
                    Some(a) => {
                        proof {
                            assert(pending_ability(s[i as int], d) == Some(a));
                            assert(ordered_count(s.take(i + 1), d, a) < usize::MAX);
                        }
                        r.increment(a);
                    },
                    None => {
                        proof {
                            assert(pending_ability(s[i as int], d) is None);
                        }
                    },
                },
                None => {
                    proof {
                        assert(pending_ability(s[i as int], d) is None);
                    }
                },
            }
        } else {
            proof {
                assert(pending_ability(s[i as int], d) is None);
            }
        }
        i = i + 1;
    }
    proof {
        assert(s.take(n as int) =~= s);
    }
    r
}

proof fn lemma_take_filter_le(os: Seq<crate::unit::UnitOrder>, j: int, a: AbilityId)
    requires
        0 <= j <= os.len(),
    ensures
        uses_prefix(os, j, a) <= uses_prefix(os, os.len() as int, a),
    decreases os.len() - j,
{
    if j < os.len() {
        lemma_take_filter_le(os, j + 1, a);
        lemma_order_uses_step(os, j, a);
    }
}

proof fn lemma_ordered_prefix(s: Seq<UnitView>, k: int, d: Seq<crate::game_data::UnitTypeData>, a: AbilityId)
    requires
        0 <= k <= s.len(),
    ensures
        ordered_count(s.take(k), d, a) <= ordered_count(s, d, a),
    decreases s.len() - k,
{
    if k < s.len() {
        lemma_ordered_prefix(s, k + 1, d, a);
        lemma_ordered_step(s, k, d, a);
    } else {
        assert(s.take(k) =~= s);
    }
}

/// The value `first entry for k` of an association list.
pub open spec fn lookup<K, V>(s: Seq<(K, V)>, k: K) -> Option<V>
    decreases s.len(),
{
    if s.len() == 0 {
        None
    } else if s[0].0 == k {
        Some(s[0].1)
    } else {
        lookup(s.drop_first(), k)
    }
}

/// What a bot knows and keeps between steps, besides positions.
pub struct Bot {
    /// The race the bot plays.
    pub race: Race,
    /// The race the opponent requested, or the race detected.
    pub enemy_race: Race,
    pub player_id: u32,
    pub enemy_player_id: u32,
    /// The opponent's id on the ladder.
    pub opponent_id: String,
    /// Constant data about the game.
    pub game_data: GameData,
    /// Unit types that depend on the bot's race.
    pub race_values: RaceValues,
    /// The units, grouped.
    pub units: AllUnits,
    pub minerals: u32,
    pub vespene: u32,
    pub supply_army: u32,
    pub supply_workers: u32,
    pub supply_cap: u32,
    pub supply_used: u32,
    pub supply_left: u32,
    /// Upgrades the bot has completed.
    pub upgrades: Vec<UpgradeId>,
    /// Upgrades the opponent is believed to have.
    pub enemy_upgrades: Vec<UpgradeId>,
    /// Tags of the bot's techlabs.
    pub techlab_tags: Vec<u64>,
    /// Tags of the bot's reactors.
    pub reactor_tags: Vec<u64>,
    /// Tags of the opponent's units known to be hallucinations.
    pub saved_hallucinations: Vec<u64>,
    /// For unit types with two forms, the other form.
    pub unit_alias: Vec<(UnitTypeId, UnitTypeId)>,
    /// For unit types with several forms, the other forms.
    pub tech_alias: Vec<(UnitTypeId, Vec<UnitTypeId>)>,
    /// Types of inhibitor zones.
    pub inhibitor_ids: Vec<UnitTypeId>,
    /// The step between calls of the bot's step function.
    pub game_step: u32,
    /// How often each ability is in progress among the bot's units.
    pub orders: Counts<AbilityId>,
    /// The bot's complete units, by type.
    pub current_units: Counts<UnitTypeId>,
    /// The opponent's structures in progress, by type.
    pub enemies_ordered: Counts<UnitTypeId>,
    /// The opponent's complete units, by type.
    pub enemies_current: Counts<UnitTypeId>,
    /// What is known about the map.
    pub game_info: GameInfo,
    /// What the bot sees of the map now.
    pub visibility: VisibilityMap,
    /// Where the map has creep.
    pub creep: PixelMap,
    /// Tags of the units of the bot seen so far.
    pub owned_tags: HashSet<u64>,
    /// Tags of the bot's structures seen in progress and not yet finished.
    pub under_construction: HashSet<u64>,
}

/// The race of units of type `t` as the game data `data` gives it;
/// `Random` where it gives none.
pub open spec fn race_of(data: Seq<UnitTypeData>, t: UnitTypeId) -> Race {
    match find_unit_data(data, t) {
        Some(d) => d.race,
        None => Race::Random,
    }
}

/// What a unit `u` seen in a step tells a bot whose units seen so far are
/// `owned` and whose structures in progress are `building`, while the
/// opponent's race is unknown or not (`enemy_is_random`); `race` is the
/// race of `u`'s type. The result is the event the bot is told of, if
/// any, whether the opponent's race is still unknown, and the two sets of
/// tags afterwards. A new unit of the bot is created, or its construction
/// started or complete (placeholders and KD8 charges tell nothing); a
/// known structure in progress that is ready is complete; the first unit
/// of the opponent seen while its race is unknown shows its race.
pub open spec fn unit_news(owned: Set<u64>, building: Set<u64>, u: Unit, enemy_is_random: bool, race: Race, gd: Seq<UnitTypeData>) -> (
    Option<Event>,
    bool,
    Set<u64>,
    Set<u64>,
) {
    let tag = u.tag;
    if u.alliance is Own {
        if !owned.contains(tag) {
            if !type_is_structure(gd, u.type_id) {
                (Some(Event::UnitCreated(tag)), enemy_is_random, owned.insert(tag), building)
            } else if u.display_type is Placeholder || u.type_id == UnitTypeId::KD8Charge {
                (None, enemy_is_random, owned.insert(tag), building)
            } else if u.build_complete {
                (Some(Event::ConstructionComplete(tag)), enemy_is_random, owned.insert(tag), building)
            } else {
                (Some(Event::ConstructionStarted(tag)), enemy_is_random, owned.insert(tag), building.insert(tag))
            }
        } else if building.contains(tag) && u.build_complete {
            (Some(Event::ConstructionComplete(tag)), enemy_is_random, owned, building.remove(tag))
        } else {
            (None, enemy_is_random, owned, building)
        }
    } else if enemy_is_random && u.alliance is Enemy {
        (Some(Event::RandomRaceDetected(race)), false, owned, building)
    } else {
        (None, enemy_is_random, owned, building)
    }
}

/// What becomes of a cached unit of the opponent in a step.
#[derive(Debug, Clone, Copy, PartialEq, Eq, Structural)]
pub enum CacheFate {
    /// It stays as it is.
    Keep,
    /// It is forgotten.
    Remove,
    /// It stays, as a burrowed snapshot.
    Burrowed,
    /// It stays, as a snapshot.
    Snapshot,
}

/// Unit types that cannot burrow: changelings, broodlings, larvae and eggs.
pub open spec fn never_burrows(t: UnitTypeId) -> bool {
    t is Changeling || t is ChangelingZealot || t is ChangelingMarineShield || t is ChangelingMarine
        || t is ChangelingZerglingWings || t is ChangelingZergling || t is Broodling || t is Larva || t is Egg
}

/// What becomes of a cached unit `u` of the opponent, as `Bot::cache_fate`
/// says.
pub open spec fn spec_cache_fate(
    u: UnitView,
    still_seen: bool,
    enemy_is_zerg: bool,
    position_visible: bool,
    was_visible: bool,
    by_new_structure: bool,
    undetected: bool,
    gd: Seq<UnitTypeData>,
) -> CacheFate {
    if still_seen || !(u.is_flying || !type_is_structure(gd, u.type_id)) {
        CacheFate::Keep
    } else if position_visible {
        if was_visible {
            if enemy_is_zerg && !u.is_flying && !(never_burrows(u.type_id) || (u.type_id == UnitTypeId::Drone
                && by_new_structure)) {
                CacheFate::Burrowed
            } else {
                CacheFate::Remove
            }
        } else if !(u.is_burrowed && undetected) {
            CacheFate::Remove
        } else {
            CacheFate::Keep
        }
    } else {
        CacheFate::Snapshot
    }
}

/// What the map tells of a cached unit of the opponent in a step: whether
/// its position is visible now, whether (a drone) it stood by a structure
/// of the opponent just started or by a ready extractor, and whether
/// nothing of the bot detects it there.
#[derive(Debug, Clone, Copy, PartialEq, Eq)]
pub struct CacheFacts {
    pub position_visible: bool,
    pub by_new_structure: bool,
    pub undetected: bool,
}

/// What becomes of the cached unit `u` of the opponent with the facts `f`,
/// given the opponent's units seen this step.
pub open spec fn fate_with(u: UnitView, f: CacheFacts, seen: Seq<UnitView>, zerg: bool, gd: Seq<UnitTypeData>) -> CacheFate {
    spec_cache_fate(
        u,
        tag_index(seen, u.tag) is Some,
        zerg,
        f.position_visible,
        u.display_type is Visible,
        f.by_new_structure,
        f.undetected,
        gd,
    )
}

/// The tags, in order, of the first `n` cached units whose fate is `fate`,
/// each unit taken with the facts at its place.
pub open spec fn fated(
    cached: Seq<UnitView>,
    facts: Seq<CacheFacts>,
    seen: Seq<UnitView>,
    zerg: bool,
    fate: CacheFate,
    n: int,
    gd: Seq<UnitTypeData>,
) -> Seq<u64>
    decreases n,
{
    if n <= 0 {
        Seq::empty()
    } else {
        let before = fated(cached, facts, seen, zerg, fate, n - 1, gd);
        if fate_with(cached[n - 1], facts[n - 1], seen, zerg, gd) == fate {
            before.push(cached[n - 1].tag)
        } else {
            before
        }
    }
}

/// The types of inhibitor zones, landed and flying, of each size.
pub open spec fn spec_inhibitor_zone_types() -> Seq<UnitTypeId> {
    seq![
        UnitTypeId::InhibitorZoneSmall,
        UnitTypeId::InhibitorZoneMedium,
        UnitTypeId::InhibitorZoneLarge,
        UnitTypeId::InhibitorZoneFlyingSmall,
        UnitTypeId::InhibitorZoneFlyingMedium,
        UnitTypeId::InhibitorZoneFlyingLarge,
    ]
}

/// The types of inhibitor zones.
pub fn inhibitor_zone_types() -> (r: Vec<UnitTypeId>)
    ensures
        r@ == spec_inhibitor_zone_types(),
{
    let r = vec![
        UnitTypeId::InhibitorZoneSmall,
        UnitTypeId::InhibitorZoneMedium,
        UnitTypeId::InhibitorZoneLarge,
        UnitTypeId::InhibitorZoneFlyingSmall,
        UnitTypeId::InhibitorZoneFlyingMedium,
        UnitTypeId::InhibitorZoneFlyingLarge,
    ];
    proof {
        assert(r@ =~= spec_inhibitor_zone_types());
    }
    r
}

/// The other form of each unit type that has one, as the game data `data`
/// gives it, in the order of the data.
pub open spec fn unit_aliases(data: Seq<UnitTypeData>) -> Seq<(UnitTypeId, UnitTypeId)>
    decreases data.len(),
{
    if data.len() == 0 {
        Seq::empty()
    } else {
        let rest = unit_aliases(data.drop_last());
        match data.last().unit_alias {
            Some(a) => rest.push((data.last().id, a)),
            None => rest,
        }
    }
}

/// The technology alternatives of each unit type that has some, as the game
/// data `data` gives them, in the order of the data.
pub open spec fn tech_aliases(data: Seq<UnitTypeData>) -> Seq<(UnitTypeId, Seq<UnitTypeId>)>
    decreases data.len(),
{
    if data.len() == 0 {
        Seq::empty()
    } else {
        let rest = tech_aliases(data.drop_last());
        if data.last().tech_alias@.len() > 0 {
            rest.push((data.last().id, data.last().tech_alias@))
        } else {
            rest
        }
    }
}

/// The alias table with the lists taken as sequences.
pub open spec fn tech_alias_view(t: Seq<(UnitTypeId, Vec<UnitTypeId>)>) -> Seq<(UnitTypeId, Seq<UnitTypeId>)> {
    t.map_values(|e: (UnitTypeId, Vec<UnitTypeId>)| (e.0, e.1@))
}

/// `v` without `x`.
fn remove_all(v: &mut Vec<u64>, x: u64)
    ensures
        final(v)@ == old(v)@.filter(|t: u64| t != x),
{
    let ghost p = |t: u64| t != x;
    let ghost s = v@;
    let mut kept: Vec<u64> = Vec::new();
    let mut i: usize = 0;
    proof {
        reveal_with_fuel(Seq::filter, 1);
        assert(s.take(0) =~= Seq::<u64>::empty());
    }
    while i < v.len()
        invariant
            0 <= i <= s.len(),
            v@ == s,
            p == (|t: u64| t != x),
            kept@ == s.take(i as int).filter(p),
        decreases s.len() - i,
    {
        let ghost next = s.take(i + 1);
        proof {
            assert(next.drop_last() =~= s.take(i as int));
            assert(next.last() == s[i as int]);
            reveal_with_fuel(Seq::filter, 1);
            assert(next.filter(p) == (if p(next.last()) {
                next.drop_last().filter(p).push(next.last())
            } else {
                next.drop_last().filter(p)
            }));
        }
        if v[i] != x {
            kept.push(v[i]);
        }
        i = i + 1;
    }
    proof {
        assert(s.take(s.len() as int) =~= s);
    }
    *v = kept;
}

impl Bot {
    /// Complete units of the bot of type `t`.
    pub closed spec fn spec_current(&self, t: UnitTypeId) -> nat {
        self.current_units.get_spec(t)
    }

    /// How often ability `a` is in progress among the bot's units.
    pub closed spec fn spec_orders(&self, a: AbilityId) -> nat {
        self.orders.get_spec(a)
    }

    /// Complete units of the opponent of type `t`, as far as seen.
    pub closed spec fn spec_enemies_current(&self, t: UnitTypeId) -> nat {
        self.enemies_current.get_spec(t)
    }

    /// Structures of the opponent of type `t` in progress, as far as seen.
    pub closed spec fn spec_enemies_ordered(&self, t: UnitTypeId) -> nat {
        self.enemies_ordered.get_spec(t)
    }

    /// The step between calls of the bot's step function.
    pub closed spec fn spec_game_step(&self) -> u32 {
        self.game_step
    }

    /// A bot that knows nothing yet.
    pub fn new() -> (r: Bot)
        ensures
            r.units.wf(),
            r.race == Race::Random,
            r.enemy_race == Race::Random,
            r.spec_game_step() == 1,
            r.minerals == 0,
            r.vespene == 0,
            forall|t: UnitTypeId| r.spec_current(t) == 0 && r.spec_enemies_current(t) == 0
                && r.spec_enemies_ordered(t) == 0,
            forall|a: AbilityId| r.spec_orders(a) == 0,
            r.inhibitor_ids@ == spec_inhibitor_zone_types(),
            r.unit_alias@.len() == 0,
            r.tech_alias@.len() == 0,
    {
        Bot {
            race: Race::Random,
            enemy_race: Race::Random,
            player_id: 0,
            enemy_player_id: 0,
            opponent_id: String::new(),
            game_data: GameData::new(),
            race_values: RaceValues::default(),
            units: AllUnits::new(),
            minerals: 0,
            vespene: 0,
            supply_army: 0,
            supply_workers: 0,
            supply_cap: 0,
            supply_used: 0,
            supply_left: 0,
            upgrades: Vec::new(),
            enemy_upgrades: Vec::new(),
            techlab_tags: Vec::new(),
            reactor_tags: Vec::new(),
            saved_hallucinations: Vec::new(),
            unit_alias: Vec::new(),
            tech_alias: Vec::new(),
            inhibitor_ids: inhibitor_zone_types(),
            game_step: 1,
            orders: Counts::new(),
            current_units: Counts::new(),
            enemies_ordered: Counts::new(),
            enemies_current: Counts::new(),
            game_info: GameInfo::new(),
            visibility: VisibilityMap::empty(),
            creep: PixelMap::empty(),
            owned_tags: HashSet::new(),
            under_construction: HashSet::new(),
        }
    }

    /// Sets the step between calls of the bot's step function.
    pub fn set_game_step(&mut self, val: u32)
        ensures
            final(self).spec_game_step() == val,
            *final(self) == (Bot { game_step: val, ..*old(self) }),
    {
        self.game_step = val;
    }

    /// The step between calls of the bot's step function.
    pub fn game_step(&self) -> (r: u32)
        ensures
            r == self.spec_game_step(),
    {
        self.game_step
    }

    /// Learns the races at the start of a game: the bot's race is the race
    /// its player plays, and in a game of two the opponent is the other of
    /// players 1 and 2, with the race it asked for. The unit types that
    /// depend on the bot's race follow. (Start locations and expansions,
    /// which are computed over positions on the map, are not part of this.)
    pub fn prepare_start(&mut self)
        requires
            player_with(old(self).game_info.players@, old(self).player_id) matches Some(p)
                && p.race_actual matches Some(race) && race != Race::Random,
            old(self).game_info.players@.len() == 2 ==> old(self).player_id <= 3 && player_with(
                old(self).game_info.players@,
                (3 - old(self).player_id) as u32,
            ) is Some,
        ensures
            *final(self) == (Bot {
                race: final(self).race,
                enemy_race: final(self).enemy_race,
                enemy_player_id: final(self).enemy_player_id,
                race_values: final(self).race_values,
                ..*old(self)
            }),
            Some(final(self).race) == player_with(old(self).game_info.players@, old(self).player_id)->0.race_actual,
            (final(self).race_values.start_townhall, final(self).race_values.townhalls@,
                final(self).race_values.gas_building, final(self).race_values.supply,
                final(self).race_values.worker) == spec_race_values(final(self).race),
            old(self).game_info.players@.len() == 2 ==> {
                &&& final(self).enemy_player_id == 3 - old(self).player_id
                &&& final(self).enemy_race == player_with(
                    old(self).game_info.players@,
                    (3 - old(self).player_id) as u32,
                )->0.race_requested
            },
            old(self).game_info.players@.len() != 2 ==> final(self).enemy_player_id == old(
                self,
            ).enemy_player_id && final(self).enemy_race == old(self).enemy_race,
            final(self).player_id == old(self).player_id,
            final(self).game_info.players@ == old(self).game_info.players@,
            final(self).units == old(self).units,
    {
        let i = self.game_info.player_index(self.player_id).unwrap();
        let race = self.game_info.players[i].race_actual.unwrap();
        self.race = race;
        if self.game_info.players.len() == 2 {
            let enemy_player_id = 3 - self.player_id;
            let j = self.game_info.player_index(enemy_player_id).unwrap();
            self.enemy_race = self.game_info.players[j].race_requested;
            self.enemy_player_id = enemy_player_id;
        }
        self.race_values = race_values(race);
    }

    /// The race of `u` by its type, as the game data gives it.
    pub fn unit_race(&self, u: &Unit) -> (r: Race)
        ensures
            r == race_of(self.game_data.units@, u.type_id),
    {
        match self.game_data.unit_data(u.type_id) {
            Some(d) => d.race,
            None => Race::Random,
        }
    }

    /// Takes note of a unit that died: a unit of the bot is forgotten,
    /// along with its construction; any other unit is no longer a saved
    /// hallucination and leaves the cache of the opponent's units (its
    /// structures and townhalls only when the opponent is Terran, whose
    /// cached buildings are kept across steps). The bot is told the unit was
    /// destroyed.
    pub fn note_dead_unit(&mut self, tag: u64) -> (e: Event)
        requires
            old(self).units.wf(),
        ensures
            *final(self) == (Bot {
                owned_tags: final(self).owned_tags,
                under_construction: final(self).under_construction,
                saved_hallucinations: final(self).saved_hallucinations,
                units: final(self).units,
                ..*old(self)
            }),
            final(self).units.wf(),
            e == Event::UnitDestroyed(tag),
            old(self).owned_tags@.contains(tag) ==> {
                &&& final(self).owned_tags@ == old(self).owned_tags@.remove(tag)
                &&& final(self).under_construction@ == old(self).under_construction@.remove(tag)
                &&& final(self).saved_hallucinations@ == old(self).saved_hallucinations@
                &&& final(self).units == old(self).units
            },
            !old(self).owned_tags@.contains(tag) ==> {
                let oc = old(self).units.cached;
                let ca = final(self).units.cached;
                let terran = old(self).enemy_race == Race::Terran;
                &&& final(self).owned_tags@ == old(self).owned_tags@
                &&& final(self).under_construction@ == old(self).under_construction@
                &&& final(self).saved_hallucinations@ == old(self).saved_hallucinations@.filter(
                    |t: u64| t != tag,
                )
                &&& final(self).units == (AllUnits { cached: ca, ..old(self).units })
                &&& ca.all@ == remove_view(oc.all@, seq![tag])
                &&& ca.units@ == remove_view(oc.units@, seq![tag])
                &&& ca.workers@ == remove_view(oc.workers@, seq![tag])
                &&& ca.structures@ == (if terran { remove_view(oc.structures@, seq![tag]) } else { oc.structures@ })
                &&& ca.townhalls@ == (if terran { remove_view(oc.townhalls@, seq![tag]) } else { oc.townhalls@ })
                &&& ca.gas_buildings == oc.gas_buildings
                &&& ca.larvas == oc.larvas
                &&& ca.placeholders == oc.placeholders
            },
    {
        broadcast use vstd::std_specs::hash::group_hash_axioms;
        if self.owned_tags.remove(&tag) {
            self.under_construction.remove(&tag);
        } else {
            let tags: Vec<u64> = vec![tag];
            proof {
                assert(tags@ =~= seq![tag]);
            }
            self.units.cached.all.remove_tags(tags.as_slice());
            self.units.cached.units.remove_tags(tags.as_slice());
            self.units.cached.workers.remove_tags(tags.as_slice());
            if self.enemy_race.is_terran() {
                self.units.cached.structures.remove_tags(tags.as_slice());
                self.units.cached.townhalls.remove_tags(tags.as_slice());
            }
            remove_all(&mut self.saved_hallucinations, tag);
        }
        Event::UnitDestroyed(tag)
    }

    /// Takes note of a unit seen in a step, as `unit_news` says: returns
    /// the event the bot is told of, if any, and whether the opponent's
    /// race is still unknown; a race found is the opponent's race.
    pub fn note_unit(&mut self, u: &Unit, enemy_is_random: bool) -> (r: (Option<Event>, bool))
        ensures
            *final(self) == (Bot {
                owned_tags: final(self).owned_tags,
                under_construction: final(self).under_construction,
                enemy_race: final(self).enemy_race,
                ..*old(self)
            }),
            ({
                let news = unit_news(
                    old(self).owned_tags@,
                    old(self).under_construction@,
                    *u,
                    enemy_is_random,
                    race_of(old(self).game_data.units@, u.type_id),
                    old(self).game_data.units@,
                );
                &&& r.0 == news.0
                &&& r.1 == news.1
                &&& final(self).owned_tags@ == news.2
                &&& final(self).under_construction@ == news.3
                &&& final(self).enemy_race == (match r.0 {
                    Some(Event::RandomRaceDetected(race)) => race,
                    _ => old(self).enemy_race,
                })
            }),
            final(self).game_data == old(self).game_data,
            final(self).units == old(self).units,
    {
        broadcast use vstd::std_specs::hash::group_hash_axioms;
        let tag = u.tag;
        if u.is_mine() {
            if !self.owned_tags.contains(&tag) {
                self.owned_tags.insert(tag);
                if !self.game_data.is_structure_type(u.type_id) {
                    (Some(Event::UnitCreated(tag)), enemy_is_random)
                } else if u.is_placeholder() || u.type_id == UnitTypeId::KD8Charge {
                    (None, enemy_is_random)
                } else if u.is_ready() {
                    (Some(Event::ConstructionComplete(tag)), enemy_is_random)
                } else {
                    self.under_construction.insert(tag);
                    (Some(Event::ConstructionStarted(tag)), enemy_is_random)
                }
            } else if self.under_construction.contains(&tag) && u.is_ready() {
                self.under_construction.remove(&tag);
                (Some(Event::ConstructionComplete(tag)), enemy_is_random)
            } else {
                (None, enemy_is_random)
            }
        } else if enemy_is_random && u.is_enemy() {
            let race = self.unit_race(u);
            self.enemy_race = race;
            (Some(Event::RandomRaceDetected(race)), false)
        } else {
            (None, enemy_is_random)
        }
    }

    /// Takes the alias tables that counting with aliases reads from the
    /// game data, which gives for each unit type its other form and its
    /// technology alternatives.
    pub fn load_aliases(&mut self)
        ensures
            final(self).unit_alias@ == unit_aliases(old(self).game_data.units@),
            tech_alias_view(final(self).tech_alias@) == tech_aliases(old(self).game_data.units@),
            *final(self) == (Bot {
                unit_alias: final(self).unit_alias,
                tech_alias: final(self).tech_alias,
                ..*old(self)
            }),
    {
        let mut unit_alias: Vec<(UnitTypeId, UnitTypeId)> = Vec::new();
        let mut tech_alias: Vec<(UnitTypeId, Vec<UnitTypeId>)> = Vec::new();
        let n: usize = self.game_data.units.len();
        let mut i: usize = 0;
        while i < n
            invariant
                0 <= i <= n,
                n == self.game_data.units@.len(),
                unit_alias@ == unit_aliases(self.game_data.units@.take(i as int)),
                tech_alias_view(tech_alias@) == tech_aliases(self.game_data.units@.take(i as int)),
            decreases n - i,
        {
            let ghost prefix = self.game_data.units@.take(i as int);
            let ghost next = self.game_data.units@.take(i + 1);
            proof {
                assert(next.drop_last() =~= prefix);
                assert(next.last() == self.game_data.units@[i as int]);
            }
            let d = &self.game_data.units[i];
            match d.unit_alias {
                Some(a) => {
                    unit_alias.push((d.id, a));
                },
                None => {},
            }
            if d.tech_alias.len() > 0 {
                let ghost before = tech_alias@;
                tech_alias.push((d.id, copy_vec(&d.tech_alias)));
                proof {
                    assert(tech_alias_view(tech_alias@) =~= tech_alias_view(before).push((d.id, d.tech_alias@)));
                }
            }
            i = i + 1;
        }
        proof {
            assert(self.game_data.units@.take(n as int) =~= self.game_data.units@);
        }
        self.unit_alias = unit_alias;
        self.tech_alias = tech_alias;
    }

    /// The terrain height at `pos`.
    pub fn get_height(&self, pos: (usize, usize)) -> (r: u8)
        requires
            pos.0 < self.game_info.terrain_height.width(),
            pos.1 < self.game_info.terrain_height.height(),
        ensures
            r == self.game_info.terrain_height.cell(pos.0 as int, pos.1 as int),
    {
        self.game_info.terrain_height.get(pos.0, pos.1)
    }

    /// Whether a structure can be placed at `pos`.
    pub fn is_placeable(&self, pos: (usize, usize)) -> (r: bool)
        requires
            pos.0 < self.game_info.placement_grid.width(),
            pos.1 < self.game_info.placement_grid.height(),
        ensures
            r == (self.game_info.placement_grid.cell(pos.0 as int, pos.1 as int) is Empty),
    {
        self.game_info.placement_grid.get(pos.0, pos.1).is_empty()
    }

    /// Whether ground units can walk through `pos`.
    pub fn is_pathable(&self, pos: (usize, usize)) -> (r: bool)
        requires
            pos.0 < self.game_info.pathing_grid.width(),
            pos.1 < self.game_info.pathing_grid.height(),
        ensures
            r == (self.game_info.pathing_grid.cell(pos.0 as int, pos.1 as int) is Empty),
    {
        self.game_info.pathing_grid.get(pos.0, pos.1).is_empty()
    }

    /// Whether `pos` was never explored.
    pub fn is_hidden(&self, pos: (usize, usize)) -> (r: bool)
        requires
            pos.0 < self.visibility.width(),
            pos.1 < self.visibility.height(),
        ensures
            r == (self.visibility.cell(pos.0 as int, pos.1 as int) is Hidden),
    {
        self.visibility.get(pos.0, pos.1).is_hidden()
    }

    /// Whether `pos` is in the fog of war: explored, not seen now.
    pub fn is_fogged(&self, pos: (usize, usize)) -> (r: bool)
        requires
            pos.0 < self.visibility.width(),
            pos.1 < self.visibility.height(),
        ensures
            r == (self.visibility.cell(pos.0 as int, pos.1 as int) is Fogged),
    {
        self.visibility.get(pos.0, pos.1).is_fogged()
    }

    /// Whether `pos` is seen now.
    pub fn is_visible(&self, pos: (usize, usize)) -> (r: bool)
        requires
            pos.0 < self.visibility.width(),
            pos.1 < self.visibility.height(),
        ensures
            r == (self.visibility.cell(pos.0 as int, pos.1 as int) is Visible),
    {
        self.visibility.get(pos.0, pos.1).is_visible()
    }

    /// Whether `pos` is fully hidden: not even its terrain shows.
    pub fn is_full_hidden(&self, pos: (usize, usize)) -> (r: bool)
        requires
            pos.0 < self.visibility.width(),
            pos.1 < self.visibility.height(),
        ensures
            r == (self.visibility.cell(pos.0 as int, pos.1 as int) is FullHidden),
    {
        self.visibility.get(pos.0, pos.1).is_full_hidden()
    }

    /// Whether `pos` was explored.
    pub fn is_explored(&self, pos: (usize, usize)) -> (r: bool)
        requires
            pos.0 < self.visibility.width(),
            pos.1 < self.visibility.height(),
        ensures
            r == !(self.visibility.cell(pos.0 as int, pos.1 as int) is Hidden),
    {
        self.visibility.get(pos.0, pos.1).is_explored()
    }

    /// Whether `pos` has creep: its cell of the creep grid is `Empty`.
    pub fn has_creep(&self, pos: (usize, usize)) -> (r: bool)
        requires
            pos.0 < self.creep.width(),
            pos.1 < self.creep.height(),
        ensures
            r == (self.creep.cell(pos.0 as int, pos.1 as int) is Empty),
    {
        self.creep.get(pos.0, pos.1).is_empty()
    }

    /// The cost of a unit type as the game data gives it, or nothing when
    /// the type is unknown.
    pub open spec fn spec_unit_api_cost(&self, unit: UnitTypeId) -> Cost {
        match find_unit_data(self.game_data.units@, unit) {
            Some(d) => d.spec_cost(),
            None => Cost { minerals: 0, vespene: 0, supply_halves: 0 },
        }
    }

    /// The cost of a unit type as the game data gives it, or nothing when
    /// the type is unknown.
    pub fn get_unit_api_cost(&self, unit: UnitTypeId) -> (r: Cost)
        ensures
            r == self.spec_unit_api_cost(unit),
    {
        match self.game_data.unit_data(unit) {
            Some(d) => d.cost(),
            None => Cost::zero(),
        }
    }

    /// The real cost of making a unit type: an orbital command or a
    /// planetary fortress costs 150 minerals on top of its command center,
    /// a reactor 50 minerals and 50 gas, a techlab 50 minerals and 25 gas,
    /// and zerglings come in pairs.
    pub open spec fn spec_unit_cost(&self, unit: UnitTypeId) -> Cost {
        let c = self.spec_unit_api_cost(unit);
        match unit {
            UnitTypeId::OrbitalCommand | UnitTypeId::PlanetaryFortress => Cost { minerals: 150, ..c },
            UnitTypeId::Reactor => Cost { minerals: 50, vespene: 50, ..c },
            UnitTypeId::TechLab => Cost { minerals: 50, vespene: 25, ..c },
            UnitTypeId::Zergling => Cost { minerals: (c.minerals * 2) as u32, ..c },
            _ => c,
        }
    }

    /// The real cost of making a unit type.
    pub fn get_unit_cost(&self, unit: UnitTypeId) -> (r: Cost)
        requires
            unit == UnitTypeId::Zergling ==> self.spec_unit_api_cost(unit).minerals * 2 <= u32::MAX,
        ensures
            r == self.spec_unit_cost(unit),
    {
        let mut cost = self.get_unit_api_cost(unit);
        match unit {
            UnitTypeId::OrbitalCommand | UnitTypeId::PlanetaryFortress => {
                cost.minerals = 150;
            },
            UnitTypeId::Reactor => {
                cost.minerals = 50;
                cost.vespene = 50;
            },
            UnitTypeId::TechLab => {
                cost.minerals = 50;
                cost.vespene = 25;
            },
            UnitTypeId::Zergling => {
                cost.minerals = cost.minerals * 2;
            },
            _ => {},
        }
        cost
    }

    /// Whether the bot has the minerals and gas, and when `check_supply`
    /// holds the supply, to make a unit of the type.
    pub fn can_afford(&self, unit: UnitTypeId, check_supply: bool) -> (r: bool)
        requires
            unit == UnitTypeId::Zergling ==> self.spec_unit_api_cost(unit).minerals * 2 <= u32::MAX,
        ensures
            r == (self.minerals >= self.spec_unit_cost(unit).minerals && self.vespene
                >= self.spec_unit_cost(unit).vespene && (check_supply ==> 2 * self.supply_left
                >= self.spec_unit_cost(unit).supply_halves)),
    {
        let cost = self.get_unit_cost(unit);
        if self.minerals < cost.minerals || self.vespene < cost.vespene {
            return false;
        }
        if check_supply && (self.supply_left as u64) * 2 < cost.supply_halves as u64 {
            return false;
        }
        true
    }

    /// The cost of an upgrade as the game data gives it, or nothing.
    pub open spec fn spec_upgrade_cost(&self, upgrade: UpgradeId) -> Cost {
        match find_upgrade_data(self.game_data.upgrades@, upgrade) {
            Some(d) => d.spec_cost(),
            None => Cost { minerals: 0, vespene: 0, supply_halves: 0 },
        }
    }

    /// The cost of an upgrade.
    pub fn get_upgrade_cost(&self, upgrade: UpgradeId) -> (r: Cost)
        ensures
            r == self.spec_upgrade_cost(upgrade),
    {
        match self.game_data.upgrade_data(upgrade) {
            Some(d) => d.cost(),
            None => Cost::zero(),
        }
    }

    /// Whether the bot has the minerals and gas for an upgrade.
    pub fn can_afford_upgrade(&self, upgrade: UpgradeId) -> (r: bool)
        ensures
            r == (self.minerals >= self.spec_upgrade_cost(upgrade).minerals && self.vespene
                >= self.spec_upgrade_cost(upgrade).vespene),
    {
        let cost = self.get_upgrade_cost(upgrade);
        self.minerals >= cost.minerals && self.vespene >= cost.vespene
    }

    /// Takes the cost of a unit type off the bot's minerals and gas (not
    /// below zero), and when `subtract_supply` holds moves its supply, in
    /// whole points rounded down, from free to used.
    pub fn subtract_resources(&mut self, unit: UnitTypeId, subtract_supply: bool)
        requires
            unit == UnitTypeId::Zergling ==> old(self).spec_unit_api_cost(unit).minerals * 2
                <= u32::MAX,
            subtract_supply ==> old(self).supply_used + old(self).spec_unit_cost(unit).supply_halves
                / 2 <= u32::MAX,
        ensures
            *final(self) == (Bot {
                minerals: final(self).minerals,
                vespene: final(self).vespene,
                supply_used: final(self).supply_used,
                supply_left: final(self).supply_left,
                ..*old(self)
            }),
            final(self).minerals == sat_sub(old(self).minerals, old(self).spec_unit_cost(unit).minerals),
            final(self).vespene == sat_sub(old(self).vespene, old(self).spec_unit_cost(unit).vespene),
            final(self).supply_used == if subtract_supply {
                (old(self).supply_used + old(self).spec_unit_cost(unit).supply_halves / 2) as u32
            } else {
                old(self).supply_used
            },
            final(self).supply_left == if subtract_supply {
                sat_sub(old(self).supply_left, old(self).spec_unit_cost(unit).supply_halves / 2)
            } else {
                old(self).supply_left
            },
            final(self).units == old(self).units,
            final(self).game_data == old(self).game_data,
    {
        let cost = self.get_unit_cost(unit);
        self.minerals = self.minerals.saturating_sub(cost.minerals);
        self.vespene = self.vespene.saturating_sub(cost.vespene);
        if subtract_supply {
            let supply_cost = cost.supply_halves / 2;
            self.supply_used = self.supply_used + supply_cost;
            self.supply_left = self.supply_left.saturating_sub(supply_cost);
        }
    }

    /// Takes the cost of an upgrade off the bot's minerals and gas, not
    /// below zero.
    pub fn subtract_upgrade_cost(&mut self, upgrade: UpgradeId)
        ensures
            *final(self) == (Bot {
                minerals: final(self).minerals,
                vespene: final(self).vespene,
                ..*old(self)
            }),
            final(self).minerals == sat_sub(old(self).minerals, old(self).spec_upgrade_cost(upgrade).minerals),
            final(self).vespene == sat_sub(old(self).vespene, old(self).spec_upgrade_cost(upgrade).vespene),
            final(self).supply_used == old(self).supply_used,
            final(self).supply_left == old(self).supply_left,
            final(self).game_data == old(self).game_data,
    {
        let cost = self.get_upgrade_cost(upgrade);
        self.minerals = self.minerals.saturating_sub(cost.minerals);
        self.vespene = self.vespene.saturating_sub(cost.vespene);
    }

    /// Whether the bot has completed the upgrade.
    pub fn has_upgrade(&self, upgrade: UpgradeId) -> (r: bool)
        ensures
            r == self.upgrades@.contains(upgrade),
    {
        contains_upgrade(&self.upgrades, upgrade)
    }

    /// Whether the opponent is believed to have the upgrade.
    pub fn enemy_has_upgrade(&self, upgrade: UpgradeId) -> (r: bool)
        ensures
            r == self.enemy_upgrades@.contains(upgrade),
    {
        contains_upgrade(&self.enemy_upgrades, upgrade)
    }

    /// Whether the upgrade is being researched: its ability is in progress.
    pub fn is_ordered_upgrade(&self, upgrade: UpgradeId) -> (r: bool)
        requires
            find_upgrade_data(self.game_data.upgrades@, upgrade) is Some,
        ensures
            r == (self.spec_orders(find_upgrade_data(self.game_data.upgrades@, upgrade).unwrap().ability) > 0),
    {
        let ability = self.game_data.upgrade_data(upgrade).unwrap().ability;
        self.orders.get(ability) > 0
    }
}

/// `a - b`, or `0` when `b` is larger.
pub open spec fn sat_sub(a: u32, b: u32) -> u32 {
    if a >= b {
        (a - b) as u32
    } else {
        0
    }
}

fn contains_upgrade(v: &Vec<UpgradeId>, x: UpgradeId) -> (r: bool)
    ensures
        r == v@.contains(x),
{
    let mut i: usize = 0;
    while i < v.len()
        invariant
            0 <= i <= v@.len(),
            forall|j: int| 0 <= j < i ==> v@[j] != x,
        decreases v@.len() - i,
    {
        if v[i] == x {
            return true;
        }
        i = i + 1;
    }
    false
}

impl Bot {
    /// Sorts the units observed on this step into the bot's groups. The
    /// opponent's units whose tags were saved as hallucinations on the
    /// previous step are marked so; the tags of this step's known
    /// hallucinations are saved for the next. The opponent's units are
    /// added to the cache of opponent's units: all of its groups keep what
    /// they held, except that structures and townhalls are replaced by
    /// this step's unless the opponent is Terran (whose buildings can fly
    /// away), and gas buildings and larvae are always replaced.
    pub fn update_units(&mut self, observed: &Units)
        requires
            observed.wf(),
            old(self).units.wf(),
        ensures
            *final(self) == (Bot {
                units: final(self).units,
                saved_hallucinations: final(self).saved_hallucinations,
                techlab_tags: final(self).techlab_tags,
                reactor_tags: final(self).reactor_tags,
                ..*old(self)
            }),
            final(self).units.wf(),
            final(self).units.all@ == observed@,
            ({
                let s = observed@;
                let inh = old(self).inhibitor_ids@;
                let gd = old(self).game_data.units@;
                let saved = old(self).saved_hallucinations@;
                let me = final(self).units.my;
                let en = final(self).units.enemy;
                let ca = final(self).units.cached;
                let oc = old(self).units.cached;
                &&& me.all@ == group_of(s, UnitGroup::MyAll, inh, gd)
                &&& me.units@ == group_of(s, UnitGroup::MyUnits, inh, gd)
                &&& me.structures@ == group_of(s, UnitGroup::MyStructures, inh, gd)
                &&& me.townhalls@ == group_of(s, UnitGroup::MyTownhalls, inh, gd)
                &&& me.workers@ == group_of(s, UnitGroup::MyWorkers, inh, gd)
                &&& me.gas_buildings@ == group_of(s, UnitGroup::MyGasBuildings, inh, gd)
                &&& me.larvas@ == group_of(s, UnitGroup::MyLarvas, inh, gd)
                &&& me.placeholders@ == group_of(s, UnitGroup::MyPlaceholders, inh, gd)
                &&& en.all@ == marked_hallucinations(group_of(s, UnitGroup::EnemyAll, inh, gd), saved)
                &&& en.units@ == marked_hallucinations(group_of(s, UnitGroup::EnemyUnits, inh, gd), saved)
                &&& en.workers@ == marked_hallucinations(
                    group_of(s, UnitGroup::EnemyWorkers, inh, gd),
                    saved,
                )
                &&& en.structures@ == group_of(s, UnitGroup::EnemyStructures, inh, gd)
                &&& en.townhalls@ == group_of(s, UnitGroup::EnemyTownhalls, inh, gd)
                &&& en.gas_buildings@ == group_of(s, UnitGroup::EnemyGasBuildings, inh, gd)
                &&& en.larvas@ == group_of(s, UnitGroup::EnemyLarvas, inh, gd)
                &&& final(self).units.mineral_fields@ == group_of(s, UnitGroup::MineralFields, inh, gd)
                &&& final(self).units.vespene_geysers@ == group_of(s, UnitGroup::VespeneGeysers, inh, gd)
                &&& final(self).units.resources@ == group_of(s, UnitGroup::Resources, inh, gd)
                &&& final(self).units.destructables@ == group_of(s, UnitGroup::Destructables, inh, gd)
                &&& final(self).units.watchtowers@ == group_of(s, UnitGroup::Watchtowers, inh, gd)
                &&& final(self).units.inhibitor_zones@ == group_of(s, UnitGroup::InhibitorZones, inh, gd)
                &&& final(self).techlab_tags@ == group_tags(s, UnitGroup::MyTechlabs, inh, gd)
                &&& final(self).reactor_tags@ == group_tags(s, UnitGroup::MyReactors, inh, gd)
                &&& final(self).saved_hallucinations@ == group_tags(
                    s,
                    UnitGroup::EnemyHallucinations,
                    inh,
                    gd,
                )
                &&& ca.all@ == extend_view(oc.all@, en.all@)
                &&& ca.units@ == extend_view(oc.units@, en.units@)
                &&& ca.workers@ == extend_view(oc.workers@, en.workers@)
                &&& ca.structures@ == if old(self).enemy_race == Race::Terran {
                    extend_view(oc.structures@, en.structures@)
                } else {
                    en.structures@
                }
                &&& ca.townhalls@ == if old(self).enemy_race == Race::Terran {
                    extend_view(oc.townhalls@, en.townhalls@)
                } else {
                    en.townhalls@
                }
                &&& ca.gas_buildings@ == en.gas_buildings@
                &&& ca.larvas@ == en.larvas@
                &&& ca.placeholders == oc.placeholders
            }),
            final(self).enemy_race == old(self).enemy_race,
            final(self).inhibitor_ids == old(self).inhibitor_ids,
    {
        let g = group_units(observed, &self.inhibitor_ids, &self.game_data);
        let Grouped {
            my,
            mut enemy,
            mineral_fields,
            vespene_geysers,
            resources,
            destructables,
            watchtowers,
            inhibitor_zones,
            techlab_tags,
            reactor_tags,
            hallucination_tags,
        } = g;
        enemy.all.mark_hallucinations(self.saved_hallucinations.as_slice());
        enemy.units.mark_hallucinations(self.saved_hallucinations.as_slice());
        enemy.workers.mark_hallucinations(self.saved_hallucinations.as_slice());
        self.saved_hallucinations = hallucination_tags;
        self.techlab_tags = techlab_tags;
        self.reactor_tags = reactor_tags;
        self.units.all = observed.copy();
        self.units.mineral_fields = mineral_fields;
        self.units.vespene_geysers = vespene_geysers;
        self.units.resources = resources;
        self.units.destructables = destructables;
        self.units.watchtowers = watchtowers;
        self.units.inhibitor_zones = inhibitor_zones;
        self.units.cached.all.extend_from(&enemy.all);
        self.units.cached.units.extend_from(&enemy.units);
        self.units.cached.workers.extend_from(&enemy.workers);
        if self.enemy_race.is_terran() {
            self.units.cached.structures.extend_from(&enemy.structures);
            self.units.cached.townhalls.extend_from(&enemy.townhalls);
        } else {
            self.units.cached.structures = enemy.structures.copy();
            self.units.cached.townhalls = enemy.townhalls.copy();
        }
        self.units.cached.gas_buildings = enemy.gas_buildings.copy();
        self.units.cached.larvas = enemy.larvas.copy();
        self.units.my = my;
        self.units.enemy = enemy;
    }

    /// What becomes of a cached unit of the opponent that is not among the
    /// opponent's units seen this step (`still_seen` is false), as far as
    /// positions on the map tell: whether its position is visible now,
    /// whether it was fully visible before, whether (a drone) it stood by a
    /// structure just started or an extractor, and whether nothing of the
    /// bot detects it. A structure that cannot fly is kept; at a visible
    /// position, a unit seen before is burrowed if the opponent is Zerg and
    /// it is a ground unit that can burrow, other than a drone by a new
    /// structure (which it has become), removed otherwise; a unit not seen
    /// before is removed
    /// unless it is burrowed and undetected; at a hidden position it becomes
    /// a snapshot.
    pub fn cache_fate(
        &self,
        u: &Unit,
        still_seen: bool,
        position_visible: bool,
        was_visible: bool,
        by_new_structure: bool,
        undetected: bool,
    ) -> (r: CacheFate)
        ensures
            r == spec_cache_fate(
                u@,
                still_seen,
                self.enemy_race == Race::Zerg,
                position_visible,
                was_visible,
                by_new_structure,
                undetected,
                self.game_data.units@,
            ),
    {
        if still_seen || !(u.is_flying || !self.game_data.is_structure_type(u.type_id)) {
            CacheFate::Keep
        } else if position_visible {
            if was_visible {
                let burrows = !matches!(
                    u.type_id,
                    UnitTypeId::Changeling | UnitTypeId::ChangelingZealot | UnitTypeId::ChangelingMarineShield
                        | UnitTypeId::ChangelingMarine | UnitTypeId::ChangelingZerglingWings
                        | UnitTypeId::ChangelingZergling | UnitTypeId::Broodling | UnitTypeId::Larva
                        | UnitTypeId::Egg
                );
                if self.enemy_race.is_zerg() && !u.is_flying && !(!burrows || (u.type_id == UnitTypeId::Drone
                    && by_new_structure)) {
                    CacheFate::Burrowed
                } else {
                    CacheFate::Remove
                }
            } else if !(u.is_burrowed && undetected) {
                CacheFate::Remove
            } else {
                CacheFate::Keep
            }
        } else {
            CacheFate::Snapshot
        }
    }

    /// Sorts the cached units of the opponent by what becomes of them this
    /// step: `facts` holds what the map tells of each, in the cache's order.
    /// Whether a unit is still seen is read from the opponent's units of
    /// this step, and whether it was fully visible from the cached unit.
    /// Gives the tags to forget, those to keep as burrowed snapshots and
    /// those to keep as snapshots, each in the cache's order.
    pub fn sort_cached(&self, facts: &[CacheFacts]) -> (r: (Vec<u64>, Vec<u64>, Vec<u64>))
        requires
            self.units.wf(),
            facts@.len() == self.units.cached.all@.len(),
        ensures
            ({
                let c = self.units.cached.all@;
                let seen = self.units.enemy.all@;
                let z = self.enemy_race == Race::Zerg;
                let gd = self.game_data.units@;
                &&& r.0@ == fated(c, facts@, seen, z, CacheFate::Remove, c.len() as int, gd)
                &&& r.1@ == fated(c, facts@, seen, z, CacheFate::Burrowed, c.len() as int, gd)
                &&& r.2@ == fated(c, facts@, seen, z, CacheFate::Snapshot, c.len() as int, gd)
            }),
    {
        let mut to_remove: Vec<u64> = Vec::new();
        let mut burrowed: Vec<u64> = Vec::new();
        let mut snapshot: Vec<u64> = Vec::new();
        let n: usize = self.units.cached.all.len();
        let ghost c = self.units.cached.all@;
        let ghost seen = self.units.enemy.all@;
        let ghost z = self.enemy_race == Race::Zerg;
        let ghost gd = self.game_data.units@;
        let mut i: usize = 0;
        while i < n
            invariant
                self.units.wf(),
                n == c.len(),
                c == self.units.cached.all@,
                seen == self.units.enemy.all@,
                z == (self.enemy_race == Race::Zerg),
                gd == self.game_data.units@,
                facts@.len() == n,
                i <= n,
                to_remove@ == fated(c, facts@, seen, z, CacheFate::Remove, i as int, gd),
                burrowed@ == fated(c, facts@, seen, z, CacheFate::Burrowed, i as int, gd),
                snapshot@ == fated(c, facts@, seen, z, CacheFate::Snapshot, i as int, gd),
            decreases n - i,
        {
            let u = self.units.cached.all.at(i);
            let f = facts[i];
            let still_seen = self.units.enemy.all.contains_tag(u.tag);
            let was_visible = u.display_type.is_visible();
            let fate = self.cache_fate(
                u,
                still_seen,
                f.position_visible,
                was_visible,
                f.by_new_structure,
                f.undetected,
            );
            match fate {
                CacheFate::Keep => {},
                CacheFate::Remove => to_remove.push(u.tag),
                CacheFate::Burrowed => burrowed.push(u.tag),
                CacheFate::Snapshot => snapshot.push(u.tag),
            }
            i = i + 1;
        }
        (to_remove, burrowed, snapshot)
    }

    /// Applies what was decided about the cached opponent's units that
    /// left vision: `to_remove` are forgotten, `burrowed` are kept as
    /// burrowed snapshots and `snapshot` as snapshots (structures and
    /// townhalls are touched only for a Terran opponent, whose buildings
    /// can fly). Then the opponent's units are counted by type from the
    /// cache.
    pub fn update_cache(&mut self, to_remove: &[u64], burrowed: &[u64], snapshot: &[u64])
        requires
            old(self).units.wf(),
        ensures
            *final(self) == (Bot {
                units: final(self).units,
                enemies_current: final(self).enemies_current,
                enemies_ordered: final(self).enemies_ordered,
                ..*old(self)
            }),
            final(self).units == (AllUnits { cached: final(self).units.cached, ..old(self).units }),
            final(self).units.wf(),
            ({
                let oc = old(self).units.cached;
                let ca = final(self).units.cached;
                let terran = old(self).enemy_race == Race::Terran;
                &&& ca.all@ == marked_snapshots(
                    marked_snapshots(remove_view(oc.all@, to_remove@), burrowed@, true),
                    snapshot@,
                    false,
                )
                &&& ca.units@ == marked_snapshots(
                    marked_snapshots(remove_view(oc.units@, to_remove@), burrowed@, true),
                    snapshot@,
                    false,
                )
                &&& ca.workers@ == marked_snapshots(
                    marked_snapshots(remove_view(oc.workers@, to_remove@), burrowed@, true),
                    snapshot@,
                    false,
                )
                &&& ca.structures@ == if terran {
                    marked_snapshots(remove_view(oc.structures@, to_remove@), snapshot@, false)
                } else {
                    oc.structures@
                }
                &&& ca.townhalls@ == if terran {
                    marked_snapshots(remove_view(oc.townhalls@, to_remove@), snapshot@, false)
                } else {
                    oc.townhalls@
                }
                &&& ca.gas_buildings == oc.gas_buildings
                &&& ca.larvas == oc.larvas
                &&& ca.placeholders == oc.placeholders
                &&& forall|t: UnitTypeId| final(self).spec_enemies_current(t) == tally_of(
                    ca.all@,
                    Tally::EnemyCurrent,
                    t,
                    old(self).game_data.units@,
                )
                &&& forall|t: UnitTypeId| final(self).spec_enemies_ordered(t) == tally_of(
                    ca.all@,
                    Tally::EnemyOrdered,
                    t,
                    old(self).game_data.units@,
                )
            }),
            final(self).units.all == old(self).units.all,
            final(self).units.my == old(self).units.my,
            final(self).units.enemy == old(self).units.enemy,
            final(self).enemy_race == old(self).enemy_race,
    {
        let terran = self.enemy_race.is_terran();
        self.units.cached.all.remove_tags(to_remove);
        self.units.cached.units.remove_tags(to_remove);
        self.units.cached.workers.remove_tags(to_remove);
        if terran {
            self.units.cached.structures.remove_tags(to_remove);
            self.units.cached.townhalls.remove_tags(to_remove);
        }
        self.units.cached.all.mark_snapshots(burrowed, true);
        self.units.cached.units.mark_snapshots(burrowed, true);
        self.units.cached.workers.mark_snapshots(burrowed, true);
        self.units.cached.all.mark_snapshots(snapshot, false);
        self.units.cached.units.mark_snapshots(snapshot, false);
        self.units.cached.workers.mark_snapshots(snapshot, false);
        if terran {
            self.units.cached.structures.mark_snapshots(snapshot, false);
            self.units.cached.townhalls.mark_snapshots(snapshot, false);
        }
        self.enemies_current = tally_units(&self.units.cached.all, Tally::EnemyCurrent, &self.game_data);
        self.enemies_ordered = tally_units(&self.units.cached.all, Tally::EnemyOrdered, &self.game_data);
    }

    /// Takes in the common information of a step: resources and supply,
    /// free supply being the cap less what is used, or none where more is
    /// used than the cap allows (after supply buildings died); then counts the bot's
    /// complete units by type and its abilities in progress.
    pub fn prepare_step(&mut self, common: &Common)
        requires
            old(self).units.wf(),
            forall|a: AbilityId| ordered_count(old(self).units.my.all@, old(self).game_data.units@, a)
                < usize::MAX,
        ensures
            *final(self) == (Bot {
                minerals: final(self).minerals,
                vespene: final(self).vespene,
                supply_army: final(self).supply_army,
                supply_workers: final(self).supply_workers,
                supply_cap: final(self).supply_cap,
                supply_used: final(self).supply_used,
                supply_left: final(self).supply_left,
                current_units: final(self).current_units,
                orders: final(self).orders,
                ..*old(self)
            }),
            final(self).units == old(self).units,
            final(self).game_data == old(self).game_data,
            final(self).minerals == common.minerals,
            final(self).vespene == common.vespene,
            final(self).supply_army == common.food_army,
            final(self).supply_workers == common.food_workers,
            final(self).supply_cap == common.food_cap,
            final(self).supply_used == common.food_used,
            final(self).supply_left == sat_sub(common.food_cap, common.food_used),
            forall|t: UnitTypeId| final(self).spec_current(t) == tally_of(
                old(self).units.my.all@,
                Tally::OwnComplete,
                t,
                old(self).game_data.units@,
            ),
            forall|a: AbilityId| final(self).spec_orders(a) == ordered_count(
                old(self).units.my.all@,
                old(self).game_data.units@,
                a,
            ),
    {
        self.minerals = common.minerals;
        self.vespene = common.vespene;
        self.supply_army = common.food_army;
        self.supply_workers = common.food_workers;
        self.supply_cap = common.food_cap;
        self.supply_used = common.food_used;
        self.supply_left = common.food_cap.saturating_sub(common.food_used);
        self.current_units = tally_units(&self.units.my.all, Tally::OwnComplete, &self.game_data);
        self.orders = tally_orders(&self.units.my.all, &self.game_data);
    }
}

/// The count of units of type `id` before aliases: complete, in progress
/// or both, of the bot or of the opponent. The bot's units in progress are
/// those of the ability that makes the type.
pub open spec fn base_count(bot: &Bot, enemies: bool, completion: Completion, id: UnitTypeId) -> int {
    let complete = if enemies {
        bot.spec_enemies_current(id)
    } else {
        bot.spec_current(id)
    };
    let ordered = if enemies {
        bot.spec_enemies_ordered(id) as int
    } else {
        match find_unit_data(bot.game_data.units@, id) {
            Some(d) => match d.ability {
                Some(a) => bot.spec_orders(a) as int,
                None => 0,
            },
            None => 0,
        }
    };
    match completion {
        Completion::Complete => complete as int,
        Completion::Ordered => ordered,
        Completion::All => complete + ordered,
    }
}

/// Whether counting type `id` needs no data that is missing: counting the
/// bot's units in progress reads the game data of the type.
pub open spec fn base_defined(bot: &Bot, enemies: bool, completion: Completion, id: UnitTypeId) -> bool {
    completion != Completion::Complete && !enemies ==> find_unit_data(bot.game_data.units@, id) is Some
}

/// The sum of the base counts of the types `ids`.
pub open spec fn base_sum(bot: &Bot, enemies: bool, completion: Completion, ids: Seq<UnitTypeId>) -> int
    decreases ids.len(),
{
    if ids.len() == 0 {
        0
    } else {
        base_sum(bot, enemies, completion, ids.drop_last()) + base_count(
            bot,
            enemies,
            completion,
            ids.last(),
        )
    }
}

/// The count of units of type `id` with the chosen aliases: none; the
/// type's other form; or all its technology alternatives.
pub open spec fn spec_count(
    bot: &Bot,
    enemies: bool,
    completion: Completion,
    alias: UnitAlias,
    id: UnitTypeId,
) -> int {
    base_count(bot, enemies, completion, id) + match alias {
        UnitAlias::NoAlias => 0,
        UnitAlias::Unit => match lookup(bot.unit_alias@, id) {
            Some(a) => base_count(bot, enemies, completion, a),
            None => 0,
        },
        UnitAlias::Tech => match lookup(bot.tech_alias@, id) {
            Some(v) => base_sum(bot, enemies, completion, v@),
            None => 0,
        },
    }
}

/// Whether every type that counting `id` with the chosen aliases reads is
/// defined, as `base_defined` says.
pub open spec fn count_defined(
    bot: &Bot,
    enemies: bool,
    completion: Completion,
    alias: UnitAlias,
    id: UnitTypeId,
) -> bool {
    &&& base_defined(bot, enemies, completion, id)
    &&& alias == UnitAlias::Unit ==> match lookup(bot.unit_alias@, id) {
        Some(a) => base_defined(bot, enemies, completion, a),
        None => true,
    }
    &&& alias == UnitAlias::Tech ==> match lookup(bot.tech_alias@, id) {
        Some(v) => forall|i: int| 0 <= i < v@.len() ==> base_defined(bot, enemies, completion, #[trigger] v@[i]),
        None => true,
    }
}

proof fn lemma_base_sum_prefix(bot: &Bot, enemies: bool, completion: Completion, ids: Seq<UnitTypeId>, k: int)
    requires
        0 <= k <= ids.len(),
    ensures
        0 <= base_sum(bot, enemies, completion, ids.take(k)) <= base_sum(bot, enemies, completion, ids),
    decreases ids.len() - k,
{
    if k < ids.len() {
        lemma_base_sum_prefix(bot, enemies, completion, ids, k + 1);
        assert(ids.take(k + 1).drop_last() =~= ids.take(k));
    } else {
        assert(ids.take(k) =~= ids);
    }
    lemma_base_sum_nonneg(bot, enemies, completion, ids.take(k));
}

proof fn lemma_base_sum_nonneg(bot: &Bot, enemies: bool, completion: Completion, ids: Seq<UnitTypeId>)
    ensures
        base_sum(bot, enemies, completion, ids) >= 0,
    decreases ids.len(),
{
    if ids.len() > 0 {
        lemma_base_sum_nonneg(bot, enemies, completion, ids.drop_last());
    }
}

/// Options of a count of units, made by `Bot::counter` and
/// `Bot::enemy_counter`.
#[derive(Clone, Copy)]
pub struct CountOptions<'a> {
    pub bot: &'a Bot,
    /// Whether the opponent's units are counted rather than the bot's.
    pub enemies: bool,
    /// Which units count by completion.
    pub completion: Completion,
    /// Which other forms count.
    pub alias: UnitAlias,
}

impl<'a> CountOptions<'a> {
    /// Counts complete units without aliases.
    pub fn new(bot: &'a Bot, enemies: bool) -> (r: CountOptions<'a>)
        ensures
            r.bot == bot,
            r.enemies == enemies,
            r.completion == Completion::Complete,
            r.alias == UnitAlias::NoAlias,
    {
        CountOptions { bot, enemies, completion: Completion::Complete, alias: UnitAlias::NoAlias }
    }

    /// Counts units in progress only.
    pub fn ordered(&mut self)
        ensures
            final(self).completion == Completion::Ordered,
            final(self).bot == old(self).bot,
            final(self).enemies == old(self).enemies,
            final(self).alias == old(self).alias,
    {
        self.completion = Completion::Ordered;
    }

    /// Counts both complete units and units in progress.
    pub fn all(&mut self)
        ensures
            final(self).completion == Completion::All,
            final(self).bot == old(self).bot,
            final(self).enemies == old(self).enemies,
            final(self).alias == old(self).alias,
    {
        self.completion = Completion::All;
    }

    /// Counts the other form of a unit with two forms too.
    pub fn alias(&mut self)
        ensures
            final(self).alias == UnitAlias::Unit,
            final(self).bot == old(self).bot,
            final(self).enemies == old(self).enemies,
            final(self).completion == old(self).completion,
    {
        self.alias = UnitAlias::Unit;
    }

    /// Counts all the technology alternatives of a type too.
    pub fn tech(&mut self)
        ensures
            final(self).alias == UnitAlias::Tech,
            final(self).bot == old(self).bot,
            final(self).enemies == old(self).enemies,
            final(self).completion == old(self).completion,
    {
        self.alias = UnitAlias::Tech;
    }

    fn base(&self, id: UnitTypeId) -> (r: usize)
        requires
            base_defined(self.bot, self.enemies, self.completion, id),
            base_count(self.bot, self.enemies, self.completion, id) <= usize::MAX,
        ensures
            r == base_count(self.bot, self.enemies, self.completion, id),
    {
        let bot = self.bot;
        let complete = if self.enemies {
            bot.enemies_current.get(id)
        } else {
            bot.current_units.get(id)
        };
        if self.completion == Completion::Complete {
            return complete;
        }
        let ordered = if self.enemies {
            bot.enemies_ordered.get(id)
        } else {
            match bot.game_data.unit_data(id).unwrap().ability {
                Some(a) => bot.orders.get(a),
                None => 0,
            }
        };
        if self.completion == Completion::Ordered {
            ordered
        } else {
            complete + ordered
        }
    }

    /// Counts the units of the given type, as `spec_count` says.
    pub fn count(&self, unit_id: UnitTypeId) -> (r: usize)
        requires
            count_defined(self.bot, self.enemies, self.completion, self.alias, unit_id),
            spec_count(self.bot, self.enemies, self.completion, self.alias, unit_id) <= usize::MAX,
        ensures
            r == spec_count(self.bot, self.enemies, self.completion, self.alias, unit_id),
    {
        let bot = self.bot;
        let ghost (b, e, c) = (self.bot, self.enemies, self.completion);
        match self.alias {
            UnitAlias::NoAlias => self.base(unit_id),
            UnitAlias::Unit => {
                let own = self.base(unit_id);
                match lookup_alias(&bot.unit_alias, unit_id) {
                    Some(a) => own + self.base(a),
                    None => own,
                }
            },
            UnitAlias::Tech => {
                proof {
                    if let Some(v) = lookup(b.tech_alias@, unit_id) {
                        lemma_base_sum_nonneg(b, e, c, v@);
                    }
                }
                let own = self.base(unit_id);
                match lookup_tech(&bot.tech_alias, unit_id) {
                    Some(v) => {
                        let mut sum: usize = 0;
                        let mut i: usize = 0;
                        proof {
                            lemma_base_sum_prefix(b, e, c, v@, 0);
                            assert(v@.take(0) =~= Seq::<UnitTypeId>::empty());
                        }
                        while i < v.len()
                            invariant
                                0 <= i <= v@.len(),
                                b == self.bot,
                                e == self.enemies,
                                c == self.completion,
                                forall|k: int| 0 <= k < v@.len() ==> base_defined(b, e, c, #[trigger] v@[k]),
                                own + base_sum(b, e, c, v@) <= usize::MAX,
                                own == base_count(b, e, c, unit_id),
                                own >= 0,
                                sum == base_sum(b, e, c, v@.take(i as int)),
                            decreases v@.len() - i,
                        {
                            proof {
                                lemma_base_sum_prefix(b, e, c, v@, i + 1);
                                assert(v@.take(i + 1).drop_last() =~= v@.take(i as int));
                                assert(v@.take(i + 1).last() == v@[i as int]);
                                lemma_base_sum_nonneg(b, e, c, v@.take(i as int));
                            }
                            let x = self.base(v[i]);
                            sum = sum + x;
                            i = i + 1;
                        }
                        proof {
                            assert(v@.take(v@.len() as int) =~= v@);
                        }
                        own + sum
                    },
                    None => own,
                }
            },
        }
    }
}

fn lookup_alias(s: &Vec<(UnitTypeId, UnitTypeId)>, k: UnitTypeId) -> (r: Option<UnitTypeId>)
    ensures
        r == lookup(s@, k),
{
    let mut i: usize = 0;
    proof {
        assert(s@.skip(0) =~= s@);
    }
    while i < s.len()
        invariant
            0 <= i <= s@.len(),
            lookup(s@, k) == lookup(s@.skip(i as int), k),
        decreases s@.len() - i,
    {
        proof {
            assert(s@.skip(i as int)[0] == s@[i as int]);
            assert(s@.skip(i as int).drop_first() =~= s@.skip(i + 1));
        }
        if s[i].0 == k {
            return Some(s[i].1);
        }
        i = i + 1;
    }
    None
}

fn lookup_tech(s: &Vec<(UnitTypeId, Vec<UnitTypeId>)>, k: UnitTypeId) -> (r: Option<&Vec<UnitTypeId>>)
    ensures
        match r {
            Some(v) => lookup(s@, k) == Some(*v),
            None => lookup(s@, k) is None,
        },
{
    let mut i: usize = 0;
    proof {
        assert(s@.skip(0) =~= s@);
    }
    while i < s.len()
        invariant
            0 <= i <= s@.len(),
            lookup(s@, k) == lookup(s@.skip(i as int), k),
        decreases s@.len() - i,
    {
        proof {
            assert(s@.skip(i as int)[0] == s@[i as int]);
            assert(s@.skip(i as int).drop_first() =~= s@.skip(i + 1));
        }
        if s[i].0 == k {
            return Some(&s[i].1);
        }
        i = i + 1;
    }
    None
}

impl Bot {
    /// Options to count the bot's units.
    pub fn counter(&self) -> (r: CountOptions)
        ensures
            r.bot == self,
            !r.enemies,
            r.completion == Completion::Complete,
            r.alias == UnitAlias::NoAlias,
    {
        CountOptions::new(self, false)
    }

    /// Options to count the opponent's units, as far as seen.
    pub fn enemy_counter(&self) -> (r: CountOptions)
        ensures
            r.bot == self,
            r.enemies,
            r.completion == Completion::Complete,
            r.alias == UnitAlias::NoAlias,
    {
        CountOptions::new(self, true)
    }
}

} // verus!
