//! What holds of the library across its functions: how unit groups nest
//! and split, what a collection gives back of what was put in it, how
//! counts add up, what spending an affordable cost leaves, and what the
//! bookkeeping of units seen keeps true from step to step.

use vstd::prelude::*;
use crate::bot::{fate_with, fated, CacheFacts, base_count, base_sum, lookup, sat_sub, spec_cache_fate, spec_count, tally_of, unit_news, Bot, CacheFate, Completion, PlacementOptions, Tally, UnitAlias};
use crate::placement::{closest_of, decided, norm, first_closest, first_distance, spec_ring, PlacementAction, PlacementStage};
use crate::grouping::{group_of, in_group, UnitGroup};
use crate::ids::UnitTypeId;
use crate::player::Race;
use crate::unit::UnitView;
use crate::units::{find_tags_view, push_view, remove_view, swap_removed, tag_index, tags_distinct};
use crate::Event;
use crate::game_data::{type_is_structure, TargetType, UnitTypeData};
use crate::unit::spec_weapon_target;
use crate::paths::spec_version_info;
use crate::constants::spec_race_values;
use crate::parse::{first_name_index, spec_enum_from_str, ParseEnumError};
use crate::pixel_map::{spec_expand, spec_to_binary};

verus! {

broadcast use vstd::seq_lib::group_filter_ensures;

/// Filtering by `q` keeps what filtering by `p` keeps, when `p` implies `q`.
proof fn lemma_filter_within(s: Seq<UnitView>, p: spec_fn(UnitView) -> bool, q: spec_fn(UnitView) -> bool, u: UnitView)
    requires
        forall|v: UnitView| #[trigger] p(v) ==> q(v),
        s.filter(p).contains(u),
    ensures
        s.filter(q).contains(u),
{
    s.lemma_filter_contains_rev(p, u);
    let i = choose|i: int| 0 <= i < s.filter(p).len() && s.filter(p)[i] == u;
    s.lemma_filter_pred(p, i);
    let j = choose|j: int| 0 <= j < s.len() && s[j] == u;
    s.lemma_filter_contains(q, j);
}

/// The lengths of two filters by disjoint tests add up to the length of the
/// filter by their union.
proof fn lemma_filter_split(
    s: Seq<UnitView>,
    p: spec_fn(UnitView) -> bool,
    q: spec_fn(UnitView) -> bool,
    r: spec_fn(UnitView) -> bool,
)
    requires
        forall|v: UnitView| #[trigger] p(v) <==> (q(v) || r(v)),
        forall|v: UnitView| !(#[trigger] q(v) && r(v)),
    ensures
        s.filter(p).len() == s.filter(q).len() + s.filter(r).len(),
    decreases s.len(),
{
    reveal_with_fuel(Seq::filter, 1);
    if s.len() > 0 {
        lemma_filter_split(s.drop_last(), p, q, r);
    }
}

/// A group whose members all belong to another group is a part of it.
proof fn lemma_group_within(s: Seq<UnitView>, inh: Seq<UnitTypeId>, gd: Seq<UnitTypeData>, a: UnitGroup, b: UnitGroup, u: UnitView)
    requires
        forall|v: UnitView| #[trigger] in_group(a, v, inh, gd) ==> in_group(b, v, inh, gd),
    ensures
        group_of(s, a, inh, gd).contains(u) ==> group_of(s, b, inh, gd).contains(u),
{
    if group_of(s, a, inh, gd).contains(u) {
        lemma_filter_within(s, |v: UnitView| in_group(a, v, inh, gd), |v: UnitView| in_group(b, v, inh, gd), u);
    }
}

/// Every group is a part of the group it refines: the bot's workers are
/// among its units, its units, structures and placeholders among all its
/// units, its townhalls, gas buildings, techlabs and reactors among its
/// structures; the same for the opponent; mineral fields and geysers are
/// resources.
pub proof fn groups_nest(s: Seq<UnitView>, inh: Seq<UnitTypeId>, gd: Seq<UnitTypeData>, u: UnitView)
    ensures
        group_of(s, UnitGroup::MyWorkers, inh, gd).contains(u) ==> group_of(s, UnitGroup::MyUnits, inh, gd).contains(u),
        group_of(s, UnitGroup::MyLarvas, inh, gd).contains(u) ==> group_of(s, UnitGroup::MyUnits, inh, gd).contains(u),
        group_of(s, UnitGroup::MyUnits, inh, gd).contains(u) ==> group_of(s, UnitGroup::MyAll, inh, gd).contains(u),
        group_of(s, UnitGroup::MyStructures, inh, gd).contains(u) ==> group_of(s, UnitGroup::MyAll, inh, gd).contains(u),
        group_of(s, UnitGroup::MyPlaceholders, inh, gd).contains(u) ==> group_of(s, UnitGroup::MyAll, inh, gd).contains(u),
        group_of(s, UnitGroup::MyTownhalls, inh, gd).contains(u) ==> group_of(s, UnitGroup::MyStructures, inh, gd).contains(u),
        group_of(s, UnitGroup::MyGasBuildings, inh, gd).contains(u) ==> group_of(s, UnitGroup::MyStructures, inh, gd).contains(u),
        group_of(s, UnitGroup::MyTechlabs, inh, gd).contains(u) ==> group_of(s, UnitGroup::MyStructures, inh, gd).contains(u),
        group_of(s, UnitGroup::MyReactors, inh, gd).contains(u) ==> group_of(s, UnitGroup::MyStructures, inh, gd).contains(u),
        group_of(s, UnitGroup::EnemyWorkers, inh, gd).contains(u) ==> group_of(s, UnitGroup::EnemyUnits, inh, gd).contains(u),
        group_of(s, UnitGroup::EnemyLarvas, inh, gd).contains(u) ==> group_of(s, UnitGroup::EnemyUnits, inh, gd).contains(u),
        group_of(s, UnitGroup::EnemyUnits, inh, gd).contains(u) ==> group_of(s, UnitGroup::EnemyAll, inh, gd).contains(u),
        group_of(s, UnitGroup::EnemyStructures, inh, gd).contains(u) ==> group_of(s, UnitGroup::EnemyAll, inh, gd).contains(u),
        group_of(s, UnitGroup::EnemyTownhalls, inh, gd).contains(u) ==> group_of(s, UnitGroup::EnemyStructures, inh, gd).contains(u),
        group_of(s, UnitGroup::EnemyGasBuildings, inh, gd).contains(u) ==> group_of(s, UnitGroup::EnemyStructures, inh, gd).contains(u),
        group_of(s, UnitGroup::MineralFields, inh, gd).contains(u) ==> group_of(s, UnitGroup::Resources, inh, gd).contains(u),
        group_of(s, UnitGroup::VespeneGeysers, inh, gd).contains(u) ==> group_of(s, UnitGroup::Resources, inh, gd).contains(u),
{
    lemma_group_within(s, inh, gd, UnitGroup::MyWorkers, UnitGroup::MyUnits, u);
    lemma_group_within(s, inh, gd, UnitGroup::MyLarvas, UnitGroup::MyUnits, u);
    lemma_group_within(s, inh, gd, UnitGroup::MyUnits, UnitGroup::MyAll, u);
    lemma_group_within(s, inh, gd, UnitGroup::MyStructures, UnitGroup::MyAll, u);
    lemma_group_within(s, inh, gd, UnitGroup::MyPlaceholders, UnitGroup::MyAll, u);
    lemma_group_within(s, inh, gd, UnitGroup::MyTownhalls, UnitGroup::MyStructures, u);
    lemma_group_within(s, inh, gd, UnitGroup::MyGasBuildings, UnitGroup::MyStructures, u);
    lemma_group_within(s, inh, gd, UnitGroup::MyTechlabs, UnitGroup::MyStructures, u);
    lemma_group_within(s, inh, gd, UnitGroup::MyReactors, UnitGroup::MyStructures, u);
    lemma_group_within(s, inh, gd, UnitGroup::EnemyWorkers, UnitGroup::EnemyUnits, u);
    lemma_group_within(s, inh, gd, UnitGroup::EnemyLarvas, UnitGroup::EnemyUnits, u);
    lemma_group_within(s, inh, gd, UnitGroup::EnemyUnits, UnitGroup::EnemyAll, u);
    lemma_group_within(s, inh, gd, UnitGroup::EnemyStructures, UnitGroup::EnemyAll, u);
    lemma_group_within(s, inh, gd, UnitGroup::EnemyTownhalls, UnitGroup::EnemyStructures, u);
    lemma_group_within(s, inh, gd, UnitGroup::EnemyGasBuildings, UnitGroup::EnemyStructures, u);
    lemma_group_within(s, inh, gd, UnitGroup::MineralFields, UnitGroup::Resources, u);
    lemma_group_within(s, inh, gd, UnitGroup::VespeneGeysers, UnitGroup::Resources, u);
}

/// The groups split what they refine: all the bot's units are its units,
/// its structures and its placeholders, each counted once; all the
/// opponent's units are its units and its structures; the resources are the
/// mineral fields and the geysers.
pub proof fn groups_partition(s: Seq<UnitView>, inh: Seq<UnitTypeId>, gd: Seq<UnitTypeData>)
    ensures
        group_of(s, UnitGroup::MyAll, inh, gd).len() == group_of(s, UnitGroup::MyUnits, inh, gd).len() + group_of(
            s,
            UnitGroup::MyStructures,
            inh,
            gd,
        ).len() + group_of(s, UnitGroup::MyPlaceholders, inh, gd).len(),
        group_of(s, UnitGroup::EnemyAll, inh, gd).len() == group_of(s, UnitGroup::EnemyUnits, inh, gd).len() + group_of(
            s,
            UnitGroup::EnemyStructures,
            inh,
            gd,
        ).len(),
        group_of(s, UnitGroup::Resources, inh, gd).len() == group_of(s, UnitGroup::MineralFields, inh, gd).len() + group_of(
            s,
            UnitGroup::VespeneGeysers,
            inh,
            gd,
        ).len(),
{
    let all = |v: UnitView| in_group(UnitGroup::MyAll, v, inh, gd);
    let units = |v: UnitView| in_group(UnitGroup::MyUnits, v, inh, gd);
    let structures_or_placeholders = |v: UnitView|
        in_group(UnitGroup::MyStructures, v, inh, gd) || in_group(UnitGroup::MyPlaceholders, v, inh, gd);
    let structures = |v: UnitView| in_group(UnitGroup::MyStructures, v, inh, gd);
    let placeholders = |v: UnitView| in_group(UnitGroup::MyPlaceholders, v, inh, gd);
    lemma_filter_split(s, all, units, structures_or_placeholders);
    lemma_filter_split(s, structures_or_placeholders, structures, placeholders);
    lemma_filter_split(
        s,
        |v: UnitView| in_group(UnitGroup::EnemyAll, v, inh, gd),
        |v: UnitView| in_group(UnitGroup::EnemyUnits, v, inh, gd),
        |v: UnitView| in_group(UnitGroup::EnemyStructures, v, inh, gd),
    );
    lemma_filter_split(
        s,
        |v: UnitView| in_group(UnitGroup::Resources, v, inh, gd),
        |v: UnitView| in_group(UnitGroup::MineralFields, v, inh, gd),
        |v: UnitView| in_group(UnitGroup::VespeneGeysers, v, inh, gd),
    );
}

/// Counting units both complete and in progress gives the sum of the two
/// counts, whichever aliases are counted.
pub proof fn count_all_is_complete_plus_ordered(bot: &Bot, enemies: bool, alias: UnitAlias, id: UnitTypeId)
    ensures
        spec_count(bot, enemies, Completion::All, alias, id) == spec_count(
            bot,
            enemies,
            Completion::Complete,
            alias,
            id,
        ) + spec_count(bot, enemies, Completion::Ordered, alias, id),
{
    match alias {
        UnitAlias::Tech => match crate::bot::lookup(bot.tech_alias@, id) {
            Some(v) => lemma_base_sum_adds(bot, enemies, v@),
            None => {},
        },
        _ => {},
    }
}

/// The sums of base counts add up as the base counts do.
proof fn lemma_base_sum_adds(bot: &Bot, enemies: bool, ids: Seq<UnitTypeId>)
    ensures
        base_sum(bot, enemies, Completion::All, ids) == base_sum(bot, enemies, Completion::Complete, ids)
            + base_sum(bot, enemies, Completion::Ordered, ids),
    decreases ids.len(),
{
    if ids.len() > 0 {
        lemma_base_sum_adds(bot, enemies, ids.drop_last());
    }
}

/// Spending what the bot can afford never goes below zero: the minerals,
/// the gas and (when supply is checked) the free supply left afterwards
/// are exactly what was there minus the cost.
pub proof fn affordable_spend_is_exact(bot: &Bot, unit: UnitTypeId, check_supply: bool)
    requires
        bot.minerals >= bot.spec_unit_cost(unit).minerals,
        bot.vespene >= bot.spec_unit_cost(unit).vespene,
        check_supply ==> 2 * bot.supply_left >= bot.spec_unit_cost(unit).supply_halves,
    ensures
        sat_sub(bot.minerals, bot.spec_unit_cost(unit).minerals) == bot.minerals - bot.spec_unit_cost(unit).minerals,
        sat_sub(bot.vespene, bot.spec_unit_cost(unit).vespene) == bot.vespene - bot.spec_unit_cost(unit).vespene,
        check_supply ==> sat_sub(bot.supply_left, bot.spec_unit_cost(unit).supply_halves / 2) == bot.supply_left
            - bot.spec_unit_cost(unit).supply_halves / 2,
{
}

/// Taking note of a unit keeps every structure in progress among the
/// units owned.
pub proof fn news_keeps_construction_owned(
    owned: Set<u64>,
    building: Set<u64>,
    u: crate::unit::Unit,
    enemy_is_random: bool,
    race: Race,
    gd: Seq<UnitTypeData>,
)
    requires
        building.subset_of(owned),
    ensures
        unit_news(owned, building, u, enemy_is_random, race, gd).3.subset_of(
            unit_news(owned, building, u, enemy_is_random, race, gd).2,
        ),
{
}

/// Forgetting a unit that died keeps every structure in progress among the
/// units owned: a unit of the bot leaves both sets, any other leaves them
/// as they were.
pub proof fn dead_unit_keeps_construction_owned(owned: Set<u64>, building: Set<u64>, tag: u64)
    requires
        building.subset_of(owned),
    ensures
        owned.contains(tag) ==> building.remove(tag).subset_of(owned.remove(tag)),
        !owned.contains(tag) ==> !building.contains(tag),
{
}

/// A unit is created, or its construction started, at most once: only for a
/// tag not owned before, which is owned afterwards.
pub proof fn news_of_new_units_come_once(
    owned: Set<u64>,
    building: Set<u64>,
    u: crate::unit::Unit,
    enemy_is_random: bool,
    race: Race,
    tag: u64,
    gd: Seq<UnitTypeData>,
)
    ensures
        ({
            let n = unit_news(owned, building, u, enemy_is_random, race, gd);
            (n.0 == Some(Event::UnitCreated(tag)) || n.0 == Some(Event::ConstructionStarted(tag))) ==> !owned.contains(
                tag,
            ) && n.2.contains(tag)
        }),
        ({
            let n = unit_news(owned, building, u, enemy_is_random, race, gd);
            owned.subset_of(n.2)
        }),
{
}

/// The opponent's race is found at most once: once it is known, no unit
/// tells it again, and the event that tells it leaves it known.
pub proof fn race_is_found_once(owned: Set<u64>, building: Set<u64>, u: crate::unit::Unit, race: Race, gd: Seq<UnitTypeData>)
    ensures
        !(unit_news(owned, building, u, false, race, gd).0 matches Some(Event::RandomRaceDetected(_))),
        !unit_news(owned, building, u, false, race, gd).1,
        unit_news(owned, building, u, true, race, gd).0 matches Some(Event::RandomRaceDetected(_)) ==> !unit_news(
            owned,
            building,
            u,
            true,
            race,
            gd,
        ).1,
{
}

/// A unit pushed into a collection is what the collection holds under its
/// tag afterwards, and the tags stay distinct.
pub proof fn push_then_find(s: Seq<UnitView>, u: UnitView)
    requires
        tags_distinct(s),
    ensures
        tags_distinct(push_view(s, u)),
        tag_index(push_view(s, u), u.tag) matches Some(i) && push_view(s, u)[i] == u,
{
    let t = push_view(s, u);
    match tag_index(s, u.tag) {
        Some(i) => {
            assert(t[i].tag == u.tag);
            assert forall|a: int, b: int| 0 <= a < t.len() && 0 <= b < t.len() && a != b implies t[a].tag
                != t[b].tag by {
                if a != i && b != i {
                    assert(t[a] == s[a] && t[b] == s[b]);
                } else if a == i {
                    assert(s[b].tag != s[i].tag);
                } else {
                    assert(s[a].tag != s[i].tag);
                }
            }
        },
        None => {
            assert(t[s.len() as int].tag == u.tag);
            assert forall|a: int, b: int| 0 <= a < t.len() && 0 <= b < t.len() && a != b implies t[a].tag
                != t[b].tag by {
                if a < s.len() && b < s.len() {
                    assert(t[a] == s[a] && t[b] == s[b]);
                } else if a < s.len() {
                    assert(t[a] == s[a]);
                } else {
                    assert(t[b] == s[b]);
                }
            }
        },
    }
    let j = choose|j: int| 0 <= j < t.len() && t[j].tag == u.tag;
    assert(t[j] == u) by {
        match tag_index(s, u.tag) {
            Some(i) => {
                if j != i {
                    assert(t[j] == s[j]);
                    assert(s[j].tag != s[i].tag);
                }
            },
            None => {
                if j < s.len() {
                    assert(t[j] == s[j]);
                }
            },
        }
    }
}

/// Removing a tag from a collection whose tags are distinct leaves no unit
/// with that tag, and keeps the tags distinct.
pub proof fn remove_then_absent(s: Seq<UnitView>, tag: u64)
    requires
        tags_distinct(s),
    ensures
        tags_distinct(remove_view(s, seq![tag])),
        tag_index(remove_view(s, seq![tag]), tag) is None,
{
    let tags = seq![tag];
    assert(tags.drop_last() =~= Seq::<u64>::empty());
    assert(remove_view(s, tags.drop_last()) == s);
    let t = remove_view(s, tags);
    match tag_index(s, tag) {
        Some(i) => {
            assert(t == swap_removed(s, i));
            let n = s.len() - 1;
            assert forall|a: int| 0 <= a < t.len() implies #[trigger] t[a].tag != tag by {
                if a != i {
                    assert(t[a] == s[a]);
                    assert(s[a].tag != s[i].tag);
                } else {
                    assert(t[a] == s[n]);
                    assert(s[n].tag != s[i].tag);
                }
            }
            assert forall|a: int, b: int| 0 <= a < t.len() && 0 <= b < t.len() && a != b implies t[a].tag
                != t[b].tag by {
                let sa = if a == i { n } else { a };
                let sb = if b == i { n } else { b };
                assert(t[a] == s[sa] && t[b] == s[sb]);
            }
        },
        None => {},
    }
}

/// A string that is the name of a variant, with the names distinct, parses
/// to that variant.
pub proof fn name_parses_to_its_variant(
    names: Seq<Seq<char>>,
    discriminants: Seq<i64>,
    use_primitives: bool,
    i: int,
)
    requires
        0 <= i < names.len(),
        forall|a: int, b: int| 0 <= a < names.len() && 0 <= b < names.len() && a != b ==> names[a] != names[b],
    ensures
        spec_enum_from_str(names[i], names, discriminants, use_primitives) == Ok::<int, ParseEnumError>(i),
{
    let k = choose|k: int| 0 <= k < names.len() && names[k] == names[i] && forall|j: int| 0 <= j < k ==> names[j] != names[i];
    assert(0 <= k < names.len() && names[k] == names[i]) by {
        assert(forall|j: int| 0 <= j < i ==> names[j] != names[i]);
    }
    assert(first_name_index(names[i], names) == Some(k));
}

/// Every byte of a bitmap stands for eight pixels.
pub proof fn expand_has_eight_per_byte(bytes: Seq<u8>)
    ensures
        spec_expand(bytes).len() == 8 * bytes.len(),
    decreases bytes.len(),
{
    if bytes.len() > 0 {
        expand_has_eight_per_byte(bytes.drop_last());
    }
}

/// The unit types of each race agree with the classification of types:
/// the worker is a worker, the gas building a structure, and the
/// townhalls, the starting one first among them, are townhalls.
pub proof fn race_values_agree_with_types(race: Race)
    requires
        race != Race::Random,
    ensures
        ({
            let (start, townhalls, gas, _supply, worker) = spec_race_values(race);
            &&& worker.spec_is_worker()
            &&& gas.spec_is_structure()
            &&& townhalls.len() > 0 && townhalls[0] == start
            &&& forall|i: int| 0 <= i < townhalls.len() ==> (#[trigger] townhalls[i]).spec_is_townhall()
        }),
{
}

/// The units found by tags come from the collection, each carries one of
/// the tags asked for, and no tag is found twice.
pub proof fn found_units_carry_asked_tags(view: Seq<UnitView>, tags: Seq<u64>)
    ensures
        forall|i: int|
            0 <= i < find_tags_view(view, tags).len() ==> view.contains(#[trigger] find_tags_view(view, tags)[i])
                && tags.contains(find_tags_view(view, tags)[i].tag),
        tags_distinct(find_tags_view(view, tags)),
    decreases tags.len(),
{
    if tags.len() > 0 {
        found_units_carry_asked_tags(view, tags.drop_last());
        let acc = find_tags_view(view, tags.drop_last());
        let t = tags.last();
        let r = find_tags_view(view, tags);
        assert forall|x: u64| tags.drop_last().contains(x) implies tags.contains(x) by {
            let k = choose|k: int| 0 <= k < tags.drop_last().len() && tags.drop_last()[k] == x;
            assert(tags[k] == x);
        }
        assert(tags[tags.len() - 1] == t);
        match tag_index(view, t) {
            Some(j) => {
                if tag_index(acc, t) is None {
                    assert(r == acc.push(view[j]));
                    assert forall|i: int| 0 <= i < r.len() implies view.contains(#[trigger] r[i]) && tags.contains(
                        r[i].tag,
                    ) by {
                        if i < acc.len() {
                            assert(r[i] == acc[i]);
                            assert(tags.drop_last().contains(acc[i].tag));
                        } else {
                            assert(r[i] == view[j]);
                        }
                    }
                    assert forall|a: int, b: int| 0 <= a < r.len() && 0 <= b < r.len() && a != b implies r[a].tag
                        != r[b].tag by {
                        if a < acc.len() && b < acc.len() {
                            assert(r[a] == acc[a] && r[b] == acc[b]);
                        } else if a < acc.len() {
                            assert(r[a] == acc[a]);
                        } else {
                            assert(r[b] == acc[b]);
                        }
                    }
                } else {
                    assert forall|i: int| 0 <= i < r.len() implies view.contains(#[trigger] r[i]) && tags.contains(
                        r[i].tag,
                    ) by {
                        assert(tags.drop_last().contains(acc[i].tag));
                    }
                }
            },
            None => {
                assert forall|i: int| 0 <= i < r.len() implies view.contains(#[trigger] r[i]) && tags.contains(
                    r[i].tag,
                ) by {
                    assert(tags.drop_last().contains(acc[i].tag));
                }
            },
        }
    }
}

/// A unit that attacks both air and ground has a weapon that reaches the
/// ground and one that reaches the air; one that attacks only the ground
/// has no weapon reaching the air, and the other way round.
pub proof fn attacking_both_reaches_both(ts: Seq<TargetType>)
    ensures
        spec_weapon_target(ts) == Some(TargetType::Any) ==> (exists|i: int| 0 <= i < ts.len() && !(ts[i] is Air))
            && (exists|i: int| 0 <= i < ts.len() && !(ts[i] is Ground)),
        spec_weapon_target(ts) == Some(TargetType::Ground) ==> forall|i: int| 0 <= i < ts.len() ==> ts[i] is Ground,
        spec_weapon_target(ts) == Some(TargetType::Air) ==> forall|i: int| 0 <= i < ts.len() ==> ts[i] is Air,
        spec_weapon_target(ts) is None <==> ts.len() == 0,
{
    if ts.contains(TargetType::Any) {
        let i = choose|i: int| 0 <= i < ts.len() && ts[i] == TargetType::Any;
        assert(!(ts[i] is Air) && !(ts[i] is Ground));
    } else if ts.contains(TargetType::Ground) && ts.contains(TargetType::Air) {
        let i = choose|i: int| 0 <= i < ts.len() && ts[i] == TargetType::Ground;
        let j = choose|j: int| 0 <= j < ts.len() && ts[j] == TargetType::Air;
        assert(!(ts[i] is Air) && !(ts[j] is Ground));
    }
    assert forall|i: int| 0 <= i < ts.len() implies ts.contains(#[trigger] ts[i]) by {}
    if ts.len() > 0 {
        assert(ts.contains(ts[0]));
    }
}

/// The sum of the plain counts (without aliases) of the types `ids`.
pub open spec fn plain_count_sum(bot: &Bot, enemies: bool, completion: Completion, ids: Seq<UnitTypeId>) -> int
    decreases ids.len(),
{
    if ids.len() == 0 {
        0
    } else {
        plain_count_sum(bot, enemies, completion, ids.drop_last()) + spec_count(
            bot,
            enemies,
            completion,
            UnitAlias::NoAlias,
            ids.last(),
        )
    }
}

proof fn lemma_plain_count_sum(bot: &Bot, enemies: bool, completion: Completion, ids: Seq<UnitTypeId>)
    ensures
        plain_count_sum(bot, enemies, completion, ids) == base_sum(bot, enemies, completion, ids),
    decreases ids.len(),
{
    if ids.len() > 0 {
        lemma_plain_count_sum(bot, enemies, completion, ids.drop_last());
    }
}

/// Counting with aliases adds to the plain count of a type the plain count
/// of its other form, or the plain counts of its technology alternatives,
/// as the bot's alias tables give them.
pub proof fn alias_counts_add_plain_counts(bot: &Bot, enemies: bool, completion: Completion, id: UnitTypeId)
    ensures
        spec_count(bot, enemies, completion, UnitAlias::Unit, id) == spec_count(
            bot,
            enemies,
            completion,
            UnitAlias::NoAlias,
            id,
        ) + match lookup(bot.unit_alias@, id) {
            Some(a) => spec_count(bot, enemies, completion, UnitAlias::NoAlias, a),
            None => 0,
        },
        spec_count(bot, enemies, completion, UnitAlias::Tech, id) == spec_count(
            bot,
            enemies,
            completion,
            UnitAlias::NoAlias,
            id,
        ) + match lookup(bot.tech_alias@, id) {
            Some(v) => plain_count_sum(bot, enemies, completion, v@),
            None => 0,
        },
{
    match lookup(bot.tech_alias@, id) {
        Some(v) => lemma_plain_count_sum(bot, enemies, completion, v@),
        None => {},
    }
}

/// What a bot learns of in a step, in the order it takes note of it: each
/// unit that died, then each unit seen.
pub enum Happening {
    Died(u64),
    Seen(crate::unit::Unit),
}

/// The happenings of a step in which the units `dead` died and the units
/// `seen` were seen.
pub open spec fn step_happenings(dead: Seq<u64>, seen: Seq<crate::unit::Unit>) -> Seq<Happening> {
    dead.map_values(|t: u64| Happening::Died(t)) + seen.map_values(|u: crate::unit::Unit| Happening::Seen(u))
}

/// What a run of happenings tells a bot whose units seen so far are
/// `owned` and whose structures in progress are `building`, the opponent's
/// race being known: the events in order (a death tells `UnitDestroyed`, as
/// `note_dead_unit` does; a unit seen tells what `unit_news` says), and the
/// two sets of tags afterwards.
pub open spec fn happenings_run(
    owned: Set<u64>,
    building: Set<u64>,
    hs: Seq<Happening>,
    gd: Seq<UnitTypeData>,
) -> (Seq<Option<Event>>, Set<u64>, Set<u64>)
    decreases hs.len(),
{
    if hs.len() == 0 {
        (Seq::empty(), owned, building)
    } else {
        let (evs, o, b) = happenings_run(owned, building, hs.drop_last(), gd);
        match hs.last() {
            Happening::Died(t) => (evs.push(Some(Event::UnitDestroyed(t))), o.remove(t), b.remove(t)),
            Happening::Seen(u) => {
                let n = unit_news(o, b, u, false, Race::Random, gd);
                (evs.push(n.0), n.2, n.3)
            },
        }
    }
}

/// How often `e` occurs in `evs`.
pub open spec fn times(evs: Seq<Option<Event>>, e: Event) -> nat
    decreases evs.len(),
{
    if evs.len() == 0 {
        0
    } else {
        times(evs.drop_last(), e) + if evs.last() == Some(e) {
            1nat
        } else {
            0nat
        }
    }
}

/// How many of the happenings are the death of `t`.
pub open spec fn deaths(hs: Seq<Happening>, t: u64) -> nat
    decreases hs.len(),
{
    if hs.len() == 0 {
        0
    } else {
        deaths(hs.drop_last(), t) + if hs.last() == Happening::Died(t) {
            1nat
        } else {
            0nat
        }
    }
}

/// Whether no unit with tag `t` is seen after `t` died.
pub open spec fn stays_dead(hs: Seq<Happening>, t: u64) -> bool {
    forall|i: int, j: int|
        0 <= i < j < hs.len() && #[trigger] hs[i] == Happening::Died(t) ==> !(#[trigger] hs[j] matches Happening::Seen(u)
            && u.tag == t)
}

/// Whether `t` died among the happenings.
pub open spec fn died(hs: Seq<Happening>, t: u64) -> bool {
    exists|i: int| 0 <= i < hs.len() && #[trigger] hs[i] == Happening::Died(t)
}

proof fn lemma_happenings_run(
    owned: Set<u64>,
    building: Set<u64>,
    hs: Seq<Happening>,
    t: u64,
    gd: Seq<UnitTypeData>,
)
    requires
        building.subset_of(owned),
        stays_dead(hs, t),
    ensures
        ({
            let (evs, o, b) = happenings_run(owned, building, hs, gd);
            let created = times(evs, Event::UnitCreated(t));
            let started = times(evs, Event::ConstructionStarted(t));
            let complete = times(evs, Event::ConstructionComplete(t));
            &&& b.subset_of(o)
            &&& evs.len() == hs.len()
            &&& times(evs, Event::UnitDestroyed(t)) == deaths(hs, t)
            &&& !died(hs, t) && !o.contains(t) ==> created == 0 && started == 0 && complete == 0
            &&& !died(hs, t) && owned.contains(t) ==> o.contains(t)
            &&& owned.contains(t) ==> created == 0 && started == 0
            &&& died(hs, t) ==> !o.contains(t) && !b.contains(t)
            &&& created <= 1 && started <= 1 && complete <= 1
            &&& created == 1 ==> started == 0 && complete == 0 && !b.contains(t)
            &&& complete == 1 ==> !b.contains(t)
            &&& b.contains(t) ==> complete == 0
            &&& forall|j: int|
                0 <= j < evs.len() && #[trigger] evs[j] == Some(Event::ConstructionStarted(t)) ==> times(
                    evs.take(j),
                    Event::ConstructionComplete(t),
                ) == 0
        }),
    decreases hs.len(),
{
    if hs.len() > 0 {
        let pre = hs.drop_last();
        assert forall|i: int, j: int|
            0 <= i < j < pre.len() && #[trigger] pre[i] == Happening::Died(t) implies !(#[trigger] pre[j] matches Happening::Seen(u)
                && u.tag == t) by {
            assert(pre[i] == hs[i] && pre[j] == hs[j]);
        }
        lemma_happenings_run(owned, building, pre, t, gd);
        let (evs, o, b) = happenings_run(owned, building, pre, gd);
        let evs2 = happenings_run(owned, building, hs, gd).0;
        assert(evs2.drop_last() =~= evs);
        assert(died(pre, t) ==> died(hs, t)) by {
            if died(pre, t) {
                let i = choose|i: int| 0 <= i < pre.len() && #[trigger] pre[i] == Happening::Died(t);
                assert(hs[i] == pre[i]);
            }
        }
        assert(died(hs, t) && hs.last() != Happening::Died(t) ==> died(pre, t)) by {
            if died(hs, t) && hs.last() != Happening::Died(t) {
                let i = choose|i: int| 0 <= i < hs.len() && #[trigger] hs[i] == Happening::Died(t);
                assert(i < hs.len() - 1);
                assert(pre[i] == hs[i]);
            }
        }
        assert(hs.last() == Happening::Died(t) ==> died(hs, t)) by {
            if hs.last() == Happening::Died(t) {
                assert(hs[hs.len() - 1] == Happening::Died(t));
            }
        }
        if hs.last() matches Happening::Seen(u) && u.tag == t {
            if died(pre, t) {
                let i = choose|i: int| 0 <= i < pre.len() && #[trigger] pre[i] == Happening::Died(t);
                assert(hs[i] == Happening::Died(t));
                assert(hs[hs.len() - 1] matches Happening::Seen(u) && u.tag == t);
            }
        }
        assert forall|j: int|
            0 <= j < evs2.len() && #[trigger] evs2[j] == Some(Event::ConstructionStarted(t)) implies times(
            evs2.take(j),
            Event::ConstructionComplete(t),
        ) == 0 by {
            if j < evs.len() {
                assert(evs2.take(j) =~= evs.take(j));
                assert(evs[j] == evs2[j]);
            } else {
                assert(evs2.take(j) =~= evs);
            }
        }
    }
}

/// Over a run of steps, in each of which a bot takes note of the units that
/// died and then of the units seen (`step_happenings`), with the structures
/// in progress among the units owned and no unit seen after it died: each
/// death of `t` tells `UnitDestroyed(t)` once; `t` is created at most once,
/// its construction is started at most once and completed at most once,
/// never started after it was completed; and a unit owned before is neither
/// created nor started again.
pub proof fn events_over_steps(
    owned: Set<u64>,
    building: Set<u64>,
    hs: Seq<Happening>,
    t: u64,
    gd: Seq<UnitTypeData>,
)
    requires
        building.subset_of(owned),
        stays_dead(hs, t),
    ensures
        ({
            let evs = happenings_run(owned, building, hs, gd).0;
            &&& times(evs, Event::UnitDestroyed(t)) == deaths(hs, t)
            &&& times(evs, Event::UnitCreated(t)) <= 1
            &&& times(evs, Event::ConstructionStarted(t)) <= 1
            &&& times(evs, Event::ConstructionComplete(t)) <= 1
            &&& owned.contains(t) ==> times(evs, Event::UnitCreated(t)) == 0 && times(
                evs,
                Event::ConstructionStarted(t),
            ) == 0
            &&& forall|j: int|
                0 <= j < evs.len() && #[trigger] evs[j] == Some(Event::ConstructionStarted(t)) ==> times(
                    evs.take(j),
                    Event::ConstructionComplete(t),
                ) == 0
        }),
{
    lemma_happenings_run(owned, building, hs, t, gd);
}


/// The numbers of the first `n` characters of a dotted version text, the
/// last one still being read.
pub open spec fn version_parts_upto(v: Seq<char>, n: int) -> Seq<int>
    decreases n,
{
    if n <= 0 {
        seq![0]
    } else {
        let p = version_parts_upto(v, n - 1);
        if v[n - 1] == '.' {
            p.push(0)
        } else {
            p.update(p.len() - 1, p.last() * 10 + (v[n - 1] as int - '0' as int))
        }
    }
}

/// The numbers of a dotted version text: "4.10.2" gives 4, 10 and 2.
pub open spec fn version_parts(v: Seq<char>) -> Seq<int> {
    version_parts_upto(v, v.len() as int)
}

/// The number at place `i` of a version, zero past its end: "4.10" and
/// "4.10.0" are one version.
pub open spec fn part(p: Seq<int>, i: int) -> int {
    if 0 <= i < p.len() {
        p[i]
    } else {
        0
    }
}

/// A version without its first number.
pub open spec fn rest_parts(p: Seq<int>) -> Seq<int> {
    if p.len() == 0 {
        p
    } else {
        p.drop_first()
    }
}

/// Whether version `x` comes before version `y`: the first number at
/// which they differ is smaller in `x`.
pub open spec fn parts_less(x: Seq<int>, y: Seq<int>) -> bool
    decreases x.len() + y.len(),
{
    if x.len() == 0 && y.len() == 0 {
        false
    } else if part(x, 0) != part(y, 0) {
        part(x, 0) < part(y, 0)
    } else {
        parts_less(rest_parts(x), rest_parts(y))
    }
}

/// A version of at most three numbers below a thousand as one number.
spec fn version_key(p: Seq<int>) -> int {
    part(p, 0) * 1000000 + part(p, 1) * 1000 + part(p, 2)
}

/// Whether a version has at most three numbers, each below a thousand.
spec fn short_version(p: Seq<int>) -> bool {
    &&& p.len() <= 3
    &&& forall|i: int| 0 <= i < p.len() ==> 0 <= #[trigger] p[i] < 1000
}

proof fn lemma_parts_less_key(x: Seq<int>, y: Seq<int>)
    requires
        short_version(x),
        short_version(y),
    ensures
        parts_less(x, y) == (version_key(x) < version_key(y)),
{
    reveal_with_fuel(parts_less, 4);
    let x1 = rest_parts(x);
    let y1 = rest_parts(y);
    let x2 = rest_parts(x1);
    let y2 = rest_parts(y1);
    let x3 = rest_parts(x2);
    let y3 = rest_parts(y2);
    assert(part(x1, 0) == part(x, 1) && part(y1, 0) == part(y, 1));
    assert(part(x2, 0) == part(x, 2) && part(y2, 0) == part(y, 2));
    assert(x3.len() == 0 && y3.len() == 0);
    assert(0 <= part(x, 0) < 1000 && 0 <= part(x, 1) < 1000 && 0 <= part(x, 2) < 1000);
    assert(0 <= part(y, 0) < 1000 && 0 <= part(y, 1) < 1000 && 0 <= part(y, 2) < 1000);
}

proof fn lemma_version_entry(v: Seq<char>)
    requires
        spec_version_info(v) is Some,
    ensures
        short_version(version_parts(v)),
        spec_version_info(v).unwrap().1.len() == 32,
        forall|i: int| 0 <= i < 32 ==> is_upper_hex(#[trigger] spec_version_info(v).unwrap().1[i]),
        ({
            ||| (version_key(version_parts(v)) == 4011004 && spec_version_info(v).unwrap().0 == 78285)
            ||| (version_key(version_parts(v)) == 4011003 && spec_version_info(v).unwrap().0 == 77661)
            ||| (version_key(version_parts(v)) == 4011002 && spec_version_info(v).unwrap().0 == 77535)
            ||| (version_key(version_parts(v)) == 4011001 && spec_version_info(v).unwrap().0 == 77474)
            ||| (version_key(version_parts(v)) == 4011000 && spec_version_info(v).unwrap().0 == 77379)
            ||| (version_key(version_parts(v)) == 4011000 && spec_version_info(v).unwrap().0 == 77379)
            ||| (version_key(version_parts(v)) == 4010004 && spec_version_info(v).unwrap().0 == 76811)
            ||| (version_key(version_parts(v)) == 4010003 && spec_version_info(v).unwrap().0 == 76114)
            ||| (version_key(version_parts(v)) == 4010002 && spec_version_info(v).unwrap().0 == 76052)
            ||| (version_key(version_parts(v)) == 4010001 && spec_version_info(v).unwrap().0 == 75800)
            ||| (version_key(version_parts(v)) == 4010000 && spec_version_info(v).unwrap().0 == 75689)
            ||| (version_key(version_parts(v)) == 4010000 && spec_version_info(v).unwrap().0 == 75689)
            ||| (version_key(version_parts(v)) == 4009003 && spec_version_info(v).unwrap().0 == 75025)
            ||| (version_key(version_parts(v)) == 4009002 && spec_version_info(v).unwrap().0 == 74741)
            ||| (version_key(version_parts(v)) == 4009001 && spec_version_info(v).unwrap().0 == 74456)
            ||| (version_key(version_parts(v)) == 4009000 && spec_version_info(v).unwrap().0 == 74071)
            ||| (version_key(version_parts(v)) == 4009000 && spec_version_info(v).unwrap().0 == 74071)
            ||| (version_key(version_parts(v)) == 4008006 && spec_version_info(v).unwrap().0 == 73620)
            ||| (version_key(version_parts(v)) == 4008005 && spec_version_info(v).unwrap().0 == 73559)
            ||| (version_key(version_parts(v)) == 4008004 && spec_version_info(v).unwrap().0 == 73286)
            ||| (version_key(version_parts(v)) == 4008003 && spec_version_info(v).unwrap().0 == 72282)
            ||| (version_key(version_parts(v)) == 4008002 && spec_version_info(v).unwrap().0 == 71663)
            ||| (version_key(version_parts(v)) == 4008001 && spec_version_info(v).unwrap().0 == 71523)
            ||| (version_key(version_parts(v)) == 4008000 && spec_version_info(v).unwrap().0 == 71061)
            ||| (version_key(version_parts(v)) == 4008000 && spec_version_info(v).unwrap().0 == 71061)
        }),
{
    if v == "4.11.4"@ {
        reveal_strlit("4.11.4");
        reveal_strlit("69493AFAB5C7B45DDB2F3442FD60F0CF");
        assert(version_parts(v) == seq![4int, 11, 4]) by {
            reveal_with_fuel(version_parts_upto, 7);
        }
    } else if v == "4.11.3"@ {
        reveal_strlit("4.11.3");
        reveal_strlit("A15B8E4247434B020086354F39856C51");
        assert(version_parts(v) == seq![4int, 11, 3]) by {
            reveal_with_fuel(version_parts_upto, 7);
        }
    } else if v == "4.11.2"@ {
        reveal_strlit("4.11.2");
        reveal_strlit("FC43E0897FCC93E4632AC57CBC5A2137");
        assert(version_parts(v) == seq![4int, 11, 2]) by {
            reveal_with_fuel(version_parts_upto, 7);
        }
    } else if v == "4.11.1"@ {
        reveal_strlit("4.11.1");
        reveal_strlit("F92D1127A291722120AC816F09B2E583");
        assert(version_parts(v) == seq![4int, 11, 1]) by {
            reveal_with_fuel(version_parts_upto, 7);
        }
    } else if v == "4.11"@ {
        reveal_strlit("4.11");
        reveal_strlit("70E774E722A58287EF37D487605CD384");
        assert(version_parts(v) == seq![4int, 11]) by {
            reveal_with_fuel(version_parts_upto, 7);
        }
    } else if v == "4.11.0"@ {
        reveal_strlit("4.11.0");
        reveal_strlit("70E774E722A58287EF37D487605CD384");
        assert(version_parts(v) == seq![4int, 11, 0]) by {
            reveal_with_fuel(version_parts_upto, 7);
        }
    } else if v == "4.10.4"@ {
        reveal_strlit("4.10.4");
        reveal_strlit("A15B8E4247434B020086354F39856C51");
        assert(version_parts(v) == seq![4int, 10, 4]) by {
            reveal_with_fuel(version_parts_upto, 7);
        }
    } else if v == "4.10.3"@ {
        reveal_strlit("4.10.3");
        reveal_strlit("CDB276D311F707C29BA664B7754A7293");
        assert(version_parts(v) == seq![4int, 10, 3]) by {
            reveal_with_fuel(version_parts_upto, 7);
        }
    } else if v == "4.10.2"@ {
        reveal_strlit("4.10.2");
        reveal_strlit("D0F1A68AA88BA90369A84CD1439AA1C3");
        assert(version_parts(v) == seq![4int, 10, 2]) by {
            reveal_with_fuel(version_parts_upto, 7);
        }
    } else if v == "4.10.1"@ {
        reveal_strlit("4.10.1");
        reveal_strlit("DDFFF9EC4A171459A4F371C6CC189554");
        assert(version_parts(v) == seq![4int, 10, 1]) by {
            reveal_with_fuel(version_parts_upto, 7);
        }
    } else if v == "4.10"@ {
        reveal_strlit("4.10");
        reveal_strlit("B89B5D6FA7CBF6452E721311BFBC6CB2");
        assert(version_parts(v) == seq![4int, 10]) by {
            reveal_with_fuel(version_parts_upto, 7);
        }
    } else if v == "4.10.0"@ {
        reveal_strlit("4.10.0");
        reveal_strlit("B89B5D6FA7CBF6452E721311BFBC6CB2");
        assert(version_parts(v) == seq![4int, 10, 0]) by {
            reveal_with_fuel(version_parts_upto, 7);
        }
    } else if v == "4.9.3"@ {
        reveal_strlit("4.9.3");
        reveal_strlit("C305368C63621480462F8F516FB64374");
        assert(version_parts(v) == seq![4int, 9, 3]) by {
            reveal_with_fuel(version_parts_upto, 7);
        }
    } else if v == "4.9.2"@ {
        reveal_strlit("4.9.2");
        reveal_strlit("614480EF79264B5BD084E57F912172FF");
        assert(version_parts(v) == seq![4int, 9, 2]) by {
            reveal_with_fuel(version_parts_upto, 7);
        }
    } else if v == "4.9.1"@ {
        reveal_strlit("4.9.1");
        reveal_strlit("218CB2271D4E2FA083470D30B1A05F02");
        assert(version_parts(v) == seq![4int, 9, 1]) by {
            reveal_with_fuel(version_parts_upto, 7);
        }
    } else if v == "4.9"@ {
        reveal_strlit("4.9");
        reveal_strlit("70C74A2DCA8A0D8E7AE8647CAC68ACCA");
        assert(version_parts(v) == seq![4int, 9]) by {
            reveal_with_fuel(version_parts_upto, 7);
        }
    } else if v == "4.9.0"@ {
        reveal_strlit("4.9.0");
        reveal_strlit("70C74A2DCA8A0D8E7AE8647CAC68ACCA");
        assert(version_parts(v) == seq![4int, 9, 0]) by {
            reveal_with_fuel(version_parts_upto, 7);
        }
    } else if v == "4.8.6"@ {
        reveal_strlit("4.8.6");
        reveal_strlit("AA18FEAD6573C79EF707DF44ABF1BE61");
        assert(version_parts(v) == seq![4int, 8, 6]) by {
            reveal_with_fuel(version_parts_upto, 7);
        }
    } else if v == "4.8.5"@ {
        reveal_strlit("4.8.5");
        reveal_strlit("B2465E73AED597C74D0844112D582595");
        assert(version_parts(v) == seq![4int, 8, 5]) by {
            reveal_with_fuel(version_parts_upto, 7);
        }
    } else if v == "4.8.4"@ {
        reveal_strlit("4.8.4");
        reveal_strlit("CD040C0675FD986ED37A4CA3C88C8EB5");
        assert(version_parts(v) == seq![4int, 8, 4]) by {
            reveal_with_fuel(version_parts_upto, 7);
        }
    } else if v == "4.8.3"@ {
        reveal_strlit("4.8.3");
        reveal_strlit("0F14399BBD0BA528355FF4A8211F845B");
        assert(version_parts(v) == seq![4int, 8, 3]) by {
            reveal_with_fuel(version_parts_upto, 7);
        }
    } else if v == "4.8.2"@ {
        reveal_strlit("4.8.2");
        reveal_strlit("FE90C92716FC6F8F04B74268EC369FA5");
        assert(version_parts(v) == seq![4int, 8, 2]) by {
            reveal_with_fuel(version_parts_upto, 7);
        }
    } else if v == "4.8.1"@ {
        reveal_strlit("4.8.1");
        reveal_strlit("FCAF3F050B7C0CC7ADCF551B61B9B91E");
        assert(version_parts(v) == seq![4int, 8, 1]) by {
            reveal_with_fuel(version_parts_upto, 7);
        }
    } else if v == "4.8"@ {
        reveal_strlit("4.8");
        reveal_strlit("760581629FC458A1937A05ED8388725B");
        assert(version_parts(v) == seq![4int, 8]) by {
            reveal_with_fuel(version_parts_upto, 7);
        }
    } else if v == "4.8.0"@ {
        reveal_strlit("4.8.0");
        reveal_strlit("760581629FC458A1937A05ED8388725B");
        assert(version_parts(v) == seq![4int, 8, 0]) by {
            reveal_with_fuel(version_parts_upto, 7);
        }
    }
}

/// Whether a character is a digit or an upper-case letter from A to F.
pub open spec fn is_upper_hex(c: char) -> bool {
    ('0' <= c && c <= '9') || ('A' <= c && c <= 'F')
}

/// Of two known versions of the game, the later one has the later base
/// version.
pub proof fn later_versions_have_later_bases(v1: Seq<char>, v2: Seq<char>)
    requires
        spec_version_info(v1) is Some,
        spec_version_info(v2) is Some,
        parts_less(version_parts(v1), version_parts(v2)),
    ensures
        spec_version_info(v1).unwrap().0 < spec_version_info(v2).unwrap().0,
{
    lemma_version_entry(v1);
    lemma_version_entry(v2);
    lemma_parts_less_key(version_parts(v1), version_parts(v2));
}

/// The data hash of each known version of the game is 32 hexadecimal
/// digits in upper case.
pub proof fn data_hashes_are_hex(v: Seq<char>)
    requires
        spec_version_info(v) is Some,
    ensures
        spec_version_info(v).unwrap().1.len() == 32,
        forall|i: int| 0 <= i < 32 ==> is_upper_hex(#[trigger] spec_version_info(v).unwrap().1[i]),
{
    lemma_version_entry(v);
}

/// A unit is in a group exactly when it is among the units and belongs to
/// the group.
proof fn lemma_group_contains(s: Seq<UnitView>, g: UnitGroup, inh: Seq<UnitTypeId>, gd: Seq<UnitTypeData>, u: UnitView)
    ensures
        group_of(s, g, inh, gd).contains(u) <==> s.contains(u) && in_group(g, u, inh, gd),
{
    let pred = |v: UnitView| in_group(g, v, inh, gd);
    if group_of(s, g, inh, gd).contains(u) {
        s.lemma_filter_contains_rev(pred, u);
    }
    if s.contains(u) && in_group(g, u, inh, gd) {
        let i = choose|i: int| 0 <= i < s.len() && s[i] == u;
        s.lemma_filter_contains(pred, i);
    }
}

/// The bot's units seen split: all of them are the units seen of the bot;
/// each is exactly one of a unit (its type is no structure in the game
/// data), a structure (a structure built or being built) or a placeholder
/// (a structure not started); its townhalls are its structures of townhall
/// types and its workers its units of worker types.
pub proof fn own_units_split(s: Seq<UnitView>, inh: Seq<UnitTypeId>, gd: Seq<UnitTypeData>, u: UnitView)
    ensures
        group_of(s, UnitGroup::MyAll, inh, gd).contains(u) <==> s.contains(u) && u.alliance is Own,
        group_of(s, UnitGroup::MyUnits, inh, gd).contains(u) <==> group_of(s, UnitGroup::MyAll, inh, gd).contains(u)
            && !type_is_structure(gd, u.type_id),
        group_of(s, UnitGroup::MyStructures, inh, gd).contains(u) <==> group_of(s, UnitGroup::MyAll, inh, gd).contains(u)
            && type_is_structure(gd, u.type_id) && !(u.display_type is Placeholder),
        group_of(s, UnitGroup::MyPlaceholders, inh, gd).contains(u) <==> group_of(s, UnitGroup::MyAll, inh, gd).contains(u)
            && type_is_structure(gd, u.type_id) && u.display_type is Placeholder,
        group_of(s, UnitGroup::MyTownhalls, inh, gd).contains(u) <==> group_of(s, UnitGroup::MyStructures, inh, gd).contains(u)
            && u.type_id.spec_is_townhall(),
        group_of(s, UnitGroup::MyWorkers, inh, gd).contains(u) <==> group_of(s, UnitGroup::MyUnits, inh, gd).contains(u)
            && u.type_id.spec_is_worker(),
{
    lemma_group_contains(s, UnitGroup::MyAll, inh, gd, u);
    lemma_group_contains(s, UnitGroup::MyUnits, inh, gd, u);
    lemma_group_contains(s, UnitGroup::MyStructures, inh, gd, u);
    lemma_group_contains(s, UnitGroup::MyPlaceholders, inh, gd, u);
    lemma_group_contains(s, UnitGroup::MyTownhalls, inh, gd, u);
    lemma_group_contains(s, UnitGroup::MyWorkers, inh, gd, u);
}

/// Upgrading a command center costs only the upgrade: an orbital command
/// or a planetary fortress costs 150 minerals, with the gas and supply the
/// game data gives. A reactor costs 50 minerals and 50 gas, a techlab 50
/// minerals and 25 gas, zerglings (which hatch in pairs) twice the minerals
/// the game data gives; every other type costs what the game data gives.
pub proof fn unit_costs_follow_the_special_cases(bot: &Bot, t: UnitTypeId)
    ensures
        (t == UnitTypeId::OrbitalCommand || t == UnitTypeId::PlanetaryFortress) ==> {
            &&& bot.spec_unit_cost(t).minerals == 150
            &&& bot.spec_unit_cost(t).vespene == bot.spec_unit_api_cost(t).vespene
            &&& bot.spec_unit_cost(t).supply_halves == bot.spec_unit_api_cost(t).supply_halves
        },
        t == UnitTypeId::Reactor ==> bot.spec_unit_cost(t).minerals == 50 && bot.spec_unit_cost(t).vespene == 50
            && bot.spec_unit_cost(t).supply_halves == bot.spec_unit_api_cost(t).supply_halves,
        t == UnitTypeId::TechLab ==> bot.spec_unit_cost(t).minerals == 50 && bot.spec_unit_cost(t).vespene == 25
            && bot.spec_unit_cost(t).supply_halves == bot.spec_unit_api_cost(t).supply_halves,
        t == UnitTypeId::Zergling ==> bot.spec_unit_cost(t).minerals as int == (2 * bot.spec_unit_api_cost(t).minerals) as u32
            && bot.spec_unit_cost(t).vespene == bot.spec_unit_api_cost(t).vespene
            && bot.spec_unit_cost(t).supply_halves == bot.spec_unit_api_cost(t).supply_halves,
        !(t == UnitTypeId::OrbitalCommand || t == UnitTypeId::PlanetaryFortress || t == UnitTypeId::Reactor || t
            == UnitTypeId::TechLab || t == UnitTypeId::Zergling) ==> bot.spec_unit_cost(t) == bot.spec_unit_api_cost(t),
{
}

/// What becomes of a cached unit of the opponent: a unit still seen, or a
/// structure that cannot fly, is kept; one whose position is hidden becomes
/// a snapshot; only a ground unit of a Zerg opponent, last seen fully
/// visible and now gone from a visible position, can be taken as burrowed,
/// and never a changeling, broodling, larva or egg, nor a drone by a
/// structure just started (it has become that structure); a flying unit
/// gone from a visible position is forgotten.
pub proof fn cached_fates(
    u: UnitView,
    still_seen: bool,
    zerg: bool,
    position_visible: bool,
    was_visible: bool,
    by_new_structure: bool,
    undetected: bool,
    gd: Seq<UnitTypeData>,
)
    ensures
        ({
            let f = spec_cache_fate(u, still_seen, zerg, position_visible, was_visible, by_new_structure, undetected, gd);
            &&& still_seen ==> f == CacheFate::Keep
            &&& !u.is_flying && type_is_structure(gd, u.type_id) ==> f == CacheFate::Keep
            &&& !still_seen && (u.is_flying || !type_is_structure(gd, u.type_id)) && !position_visible ==> f
                == CacheFate::Snapshot
            &&& u.is_flying ==> f != CacheFate::Burrowed
            &&& !zerg ==> f != CacheFate::Burrowed
            &&& f == CacheFate::Burrowed ==> position_visible && was_visible && !still_seen
            &&& (u.type_id == UnitTypeId::Changeling || u.type_id == UnitTypeId::ChangelingZealot || u.type_id
                == UnitTypeId::ChangelingMarineShield || u.type_id == UnitTypeId::ChangelingMarine || u.type_id
                == UnitTypeId::ChangelingZerglingWings || u.type_id == UnitTypeId::ChangelingZergling || u.type_id
                == UnitTypeId::Broodling || u.type_id == UnitTypeId::Larva || u.type_id == UnitTypeId::Egg) ==> f
                != CacheFate::Burrowed
            &&& u.type_id == UnitTypeId::Drone && by_new_structure ==> f != CacheFate::Burrowed
            &&& !still_seen && u.is_flying && position_visible && was_visible ==> f == CacheFate::Remove
            &&& zerg && !still_seen && !u.is_flying && !type_is_structure(gd, u.type_id) && position_visible
                && was_visible && !(u.type_id == UnitTypeId::Changeling || u.type_id == UnitTypeId::ChangelingZealot
                || u.type_id == UnitTypeId::ChangelingMarineShield || u.type_id == UnitTypeId::ChangelingMarine
                || u.type_id == UnitTypeId::ChangelingZerglingWings || u.type_id == UnitTypeId::ChangelingZergling
                || u.type_id == UnitTypeId::Broodling || u.type_id == UnitTypeId::Larva || u.type_id == UnitTypeId::Egg)
                && !(u.type_id == UnitTypeId::Drone && by_new_structure) ==> f == CacheFate::Burrowed
            &&& !zerg && !still_seen && (u.is_flying || !type_is_structure(gd, u.type_id)) && position_visible
                && was_visible ==> f == CacheFate::Remove
            &&& !still_seen && (u.is_flying || !type_is_structure(gd, u.type_id)) && position_visible && !was_visible
                ==> (f == CacheFate::Keep <==> u.is_burrowed && undetected) && (f == CacheFate::Keep || f
                == CacheFate::Remove)
        }),
{
}

/// Two sequences filtered by tests that agree on every element are the
/// same.
proof fn lemma_filter_same(s: Seq<UnitView>, p: spec_fn(UnitView) -> bool, q: spec_fn(UnitView) -> bool)
    requires
        forall|v: UnitView| #[trigger] p(v) == q(v),
    ensures
        s.filter(p) == s.filter(q),
    decreases s.len(),
{
    reveal_with_fuel(Seq::filter, 1);
    if s.len() > 0 {
        lemma_filter_same(s.drop_last(), p, q);
    }
}

/// With the opponent's counters as `update_cache` leaves them, counting
/// the opponent's units of a type counts its cached units of that type:
/// in progress, its structures not yet complete; complete, its complete
/// structures and its other units that are not hallucinations; all, both.
pub proof fn enemy_counts_follow_the_cache(bot: &Bot, t: UnitTypeId)
    requires
        forall|x: UnitTypeId| bot.spec_enemies_current(x) == #[trigger] tally_of(
            bot.units.cached.all@,
            Tally::EnemyCurrent,
            x,
            bot.game_data.units@,
        ),
        forall|x: UnitTypeId| bot.spec_enemies_ordered(x) == #[trigger] tally_of(
            bot.units.cached.all@,
            Tally::EnemyOrdered,
            x,
            bot.game_data.units@,
        ),
    ensures
        ({
            let cache = bot.units.cached.all@;
            let gd = bot.game_data.units@;
            let in_progress = cache.filter(|u: UnitView| u.type_id == t && type_is_structure(gd, t) && !u.build_complete).len();
            let complete = cache.filter(
                |u: UnitView|
                    u.type_id == t && (if type_is_structure(gd, t) {
                        u.build_complete
                    } else {
                        !u.is_hallucination
                    }),
            ).len();
            &&& spec_count(bot, true, Completion::Ordered, UnitAlias::NoAlias, t) == in_progress
            &&& spec_count(bot, true, Completion::Complete, UnitAlias::NoAlias, t) == complete
            &&& spec_count(bot, true, Completion::All, UnitAlias::NoAlias, t) == complete + in_progress
        }),
{
    let cache = bot.units.cached.all@;
    let gd = bot.game_data.units@;
    assert(bot.spec_enemies_current(t) == tally_of(cache, Tally::EnemyCurrent, t, gd));
    assert(bot.spec_enemies_ordered(t) == tally_of(cache, Tally::EnemyOrdered, t, gd));
    lemma_filter_same(
        cache,
        |u: UnitView| crate::bot::tallied(Tally::EnemyOrdered, u, gd) && u.type_id == t,
        |u: UnitView| u.type_id == t && type_is_structure(gd, t) && !u.build_complete,
    );
    lemma_filter_same(
        cache,
        |u: UnitView| crate::bot::tallied(Tally::EnemyCurrent, u, gd) && u.type_id == t,
        |u: UnitView|
            u.type_id == t && (if type_is_structure(gd, t) {
                u.build_complete
            } else {
                !u.is_hallucination
            }),
    );
}

/// With the bot's counters as `prepare_step` leaves them, counting the
/// bot's complete units of a type counts its units of that type that are
/// complete, neither placeholders nor hallucinations.
pub proof fn own_complete_counts_follow_the_units(bot: &Bot, t: UnitTypeId)
    requires
        forall|x: UnitTypeId| bot.spec_current(x) == #[trigger] tally_of(
            bot.units.my.all@,
            Tally::OwnComplete,
            x,
            bot.game_data.units@,
        ),
    ensures
        spec_count(bot, false, Completion::Complete, UnitAlias::NoAlias, t) == bot.units.my.all@.filter(
            |u: UnitView| u.type_id == t && u.build_complete && !(u.display_type is Placeholder) && !u.is_hallucination,
        ).len(),
{
    let gd = bot.game_data.units@;
    assert(bot.spec_current(t) == tally_of(bot.units.my.all@, Tally::OwnComplete, t, gd));
    lemma_filter_same(
        bot.units.my.all@,
        |u: UnitView| crate::bot::tallied(Tally::OwnComplete, u, gd) && u.type_id == t,
        |u: UnitView| u.type_id == t && u.build_complete && !(u.display_type is Placeholder) && !u.is_hallucination,
    );
}

/// The bot's and the opponent's groups by type, as the types are listed:
/// gas buildings are the refineries, assimilators and extractors (rich or
/// not) among the structures; townhalls are the command centers (flying or
/// not), orbital commands (flying or not), planetary fortresses,
/// hatcheries, lairs, hives and nexuses among them; workers are the SCVs,
/// drones and probes among the units, larvae the larvae; the bot's
/// techlabs and reactors are its structures of those kinds.
pub proof fn groups_by_listed_types(s: Seq<UnitView>, inh: Seq<UnitTypeId>, gd: Seq<UnitTypeData>, u: UnitView)
    ensures
        ({
            let t = u.type_id;
            let gas = t == UnitTypeId::Refinery || t == UnitTypeId::RefineryRich || t == UnitTypeId::Assimilator || t
                == UnitTypeId::AssimilatorRich || t == UnitTypeId::Extractor || t == UnitTypeId::ExtractorRich;
            let hall = t == UnitTypeId::CommandCenter || t == UnitTypeId::OrbitalCommand || t
                == UnitTypeId::PlanetaryFortress || t == UnitTypeId::CommandCenterFlying || t
                == UnitTypeId::OrbitalCommandFlying || t == UnitTypeId::Hatchery || t == UnitTypeId::Lair || t
                == UnitTypeId::Hive || t == UnitTypeId::Nexus;
            let worker = t == UnitTypeId::SCV || t == UnitTypeId::Drone || t == UnitTypeId::Probe;
            let techlab = t == UnitTypeId::TechLab || t == UnitTypeId::BarracksTechLab || t == UnitTypeId::FactoryTechLab
                || t == UnitTypeId::StarportTechLab;
            let reactor = t == UnitTypeId::Reactor || t == UnitTypeId::BarracksReactor || t == UnitTypeId::FactoryReactor
                || t == UnitTypeId::StarportReactor;
            &&& group_of(s, UnitGroup::MyGasBuildings, inh, gd).contains(u) <==> group_of(s, UnitGroup::MyStructures, inh, gd).contains(u) && gas
            &&& group_of(s, UnitGroup::MyTownhalls, inh, gd).contains(u) <==> group_of(s, UnitGroup::MyStructures, inh, gd).contains(u) && hall
            &&& group_of(s, UnitGroup::MyWorkers, inh, gd).contains(u) <==> group_of(s, UnitGroup::MyUnits, inh, gd).contains(u) && worker
            &&& group_of(s, UnitGroup::MyLarvas, inh, gd).contains(u) <==> group_of(s, UnitGroup::MyUnits, inh, gd).contains(u) && t == UnitTypeId::Larva
            &&& group_of(s, UnitGroup::MyTechlabs, inh, gd).contains(u) <==> group_of(s, UnitGroup::MyStructures, inh, gd).contains(u) && techlab
            &&& group_of(s, UnitGroup::MyReactors, inh, gd).contains(u) <==> group_of(s, UnitGroup::MyStructures, inh, gd).contains(u) && reactor
            &&& group_of(s, UnitGroup::EnemyGasBuildings, inh, gd).contains(u) <==> group_of(s, UnitGroup::EnemyStructures, inh, gd).contains(u) && gas
            &&& group_of(s, UnitGroup::EnemyTownhalls, inh, gd).contains(u) <==> group_of(s, UnitGroup::EnemyStructures, inh, gd).contains(u) && hall
            &&& group_of(s, UnitGroup::EnemyWorkers, inh, gd).contains(u) <==> group_of(s, UnitGroup::EnemyUnits, inh, gd).contains(u) && worker
            &&& group_of(s, UnitGroup::EnemyLarvas, inh, gd).contains(u) <==> group_of(s, UnitGroup::EnemyUnits, inh, gd).contains(u) && t == UnitTypeId::Larva
        }),
{
    lemma_group_contains(s, UnitGroup::MyGasBuildings, inh, gd, u);
    lemma_group_contains(s, UnitGroup::MyTownhalls, inh, gd, u);
    lemma_group_contains(s, UnitGroup::MyStructures, inh, gd, u);
    lemma_group_contains(s, UnitGroup::MyWorkers, inh, gd, u);
    lemma_group_contains(s, UnitGroup::MyLarvas, inh, gd, u);
    lemma_group_contains(s, UnitGroup::MyUnits, inh, gd, u);
    lemma_group_contains(s, UnitGroup::MyTechlabs, inh, gd, u);
    lemma_group_contains(s, UnitGroup::MyReactors, inh, gd, u);
    lemma_group_contains(s, UnitGroup::EnemyGasBuildings, inh, gd, u);
    lemma_group_contains(s, UnitGroup::EnemyTownhalls, inh, gd, u);
    lemma_group_contains(s, UnitGroup::EnemyStructures, inh, gd, u);
    lemma_group_contains(s, UnitGroup::EnemyWorkers, inh, gd, u);
    lemma_group_contains(s, UnitGroup::EnemyLarvas, inh, gd, u);
    lemma_group_contains(s, UnitGroup::EnemyUnits, inh, gd, u);
}

/// The search for a place asks the rings one step apart: the first ring is
/// at the step, and after a ring at `d` where no place was accepted the
/// next is at `d` plus the step, while that stays below the maximum
/// distance; past it the search gives up.
pub proof fn rings_are_one_step_apart(d: isize, o: PlacementOptions, stage: PlacementStage, action: PlacementAction)
    requires
        o.step > 0,
    ensures
        o.step < o.max_distance ==> first_distance(o) == Some(o.step),
        o.step >= o.max_distance ==> (first_distance(o) is None),
        decided(Seq::empty(), d, o, stage, action) && d + o.step < o.max_distance ==> (stage == (PlacementStage::Ring {
            distance: (d + o.step) as isize,
        })) && (action is Ask),
        decided(Seq::empty(), d, o, stage, action) && d + o.step >= o.max_distance ==> (stage is Done) && (action is GiveUp),
{
}

/// The neutral groups, as the types are listed: the watchtowers are the
/// Xel'Naga towers; the mineral fields are the neutral units of the
/// fifteen mineral field types; the vespene geysers those of the six geyser
/// types; the resources are both.
pub proof fn neutral_groups_by_listed_types(s: Seq<UnitView>, inh: Seq<UnitTypeId>, gd: Seq<UnitTypeData>, u: UnitView)
    ensures
        ({
            let t = u.type_id;
            let neutral = s.contains(u) && u.alliance is Neutral;
            let mineral = t == UnitTypeId::RichMineralField || t == UnitTypeId::RichMineralField750 || t
                == UnitTypeId::MineralField || t == UnitTypeId::MineralField450 || t == UnitTypeId::MineralField750 || t
                == UnitTypeId::LabMineralField || t == UnitTypeId::LabMineralField750 || t
                == UnitTypeId::PurifierRichMineralField || t == UnitTypeId::PurifierRichMineralField750 || t
                == UnitTypeId::PurifierMineralField || t == UnitTypeId::PurifierMineralField750 || t
                == UnitTypeId::BattleStationMineralField || t == UnitTypeId::BattleStationMineralField750 || t
                == UnitTypeId::MineralFieldOpaque || t == UnitTypeId::MineralFieldOpaque900;
            let geyser = t == UnitTypeId::VespeneGeyser || t == UnitTypeId::SpacePlatformGeyser || t
                == UnitTypeId::RichVespeneGeyser || t == UnitTypeId::ProtossVespeneGeyser || t
                == UnitTypeId::PurifierVespeneGeyser || t == UnitTypeId::ShakurasVespeneGeyser;
            &&& group_of(s, UnitGroup::Watchtowers, inh, gd).contains(u) <==> neutral && t == UnitTypeId::XelNagaTower
            &&& group_of(s, UnitGroup::MineralFields, inh, gd).contains(u) <==> neutral && mineral
            &&& group_of(s, UnitGroup::VespeneGeysers, inh, gd).contains(u) <==> neutral && geyser
            &&& group_of(s, UnitGroup::Resources, inh, gd).contains(u) <==> neutral && (mineral || geyser)
        }),
{
    lemma_group_contains(s, UnitGroup::Watchtowers, inh, gd, u);
    lemma_group_contains(s, UnitGroup::MineralFields, inh, gd, u);
    lemma_group_contains(s, UnitGroup::VespeneGeysers, inh, gd, u);
    lemma_group_contains(s, UnitGroup::Resources, inh, gd, u);
}

/// The squared distance of an offset from the wanted position.
pub open spec fn squared(o: (isize, isize)) -> int {
    o.0 * o.0 + o.1 * o.1
}

/// Whether the offset at `i` is, among the first `n`, as close as any and
/// closer than each before it.
pub open spec fn closest_among(v: Seq<(isize, isize)>, n: int, i: int) -> bool {
    &&& 0 <= i < n
    &&& forall|j: int| 0 <= j < n ==> squared(v[i]) <= #[trigger] squared(v[j])
    &&& forall|j: int| 0 <= j < i ==> squared(v[i]) < #[trigger] squared(v[j])
}

proof fn lemma_closest_exists(v: Seq<(isize, isize)>, n: int)
    requires
        0 < n <= v.len(),
    ensures
        exists|i: int| #[trigger] closest_among(v, n, i),
    decreases n,
{
    if n > 1 {
        lemma_closest_exists(v, n - 1);
        let i = choose|i: int| #[trigger] closest_among(v, n - 1, i);
        if squared(v[n - 1]) < squared(v[i]) {
            assert(closest_among(v, n, n - 1));
        } else {
            assert(closest_among(v, n, i));
        }
    } else {
        assert(closest_among(v, 1, 0));
    }
}

/// The place taken among those accepted is one of them, none is closer to
/// the wanted position (by `dx * dx + dy * dy`), and every earlier one is
/// farther.
pub proof fn closest_place_is_first_of_the_closest(v: Seq<(isize, isize)>)
    requires
        v.len() > 0,
    ensures
        exists|i: int| #[trigger] closest_among(v, v.len() as int, i) && v[i] == closest_of(v),
{
    lemma_closest_exists(v, v.len() as int);
    let i = choose|i: int| #[trigger] closest_among(v, v.len() as int, i);
    assert forall|j: int| 0 <= j < v.len() implies #[trigger] norm(v[j]) == squared(v[j]) by {}
    assert(first_closest(v, i));
    let k = choose|k: int| first_closest(v, k);
    assert(first_closest(v, k));
    if k < i {
        assert(norm(v[k]) <= norm(v[i]));
        assert(squared(v[i]) < squared(v[k]));
    } else if k > i {
        assert(norm(v[k]) < norm(v[i]));
        assert(squared(v[i]) <= squared(v[k]));
    }
    assert(k == i);
    assert(closest_of(v) == v[i]);
}

/// Whether the ring `r` at distance `d` holds the four places at `x` along
/// its sides.
pub open spec fn sides_hold(r: Seq<(isize, isize)>, d: int, x: int) -> bool {
    &&& r.contains((x as isize, d as isize))
    &&& r.contains((x as isize, (-d) as isize))
    &&& r.contains((d as isize, x as isize))
    &&& r.contains(((-d) as isize, x as isize))
}

/// Every offset of the ring at distance `d` lies on the square of side
/// `2 * d` around the wanted position: one coordinate is `d` or `-d`, the
/// other within `-d..=d`. The ring holds the four corners, and with a
/// stride of one every place on the square.
pub proof fn ring_lies_on_the_square(d: int, stride: int)
    requires
        0 <= d <= isize::MAX,
        stride > 0,
    ensures
        forall|i: int|
            0 <= i < spec_ring(d, stride).len() ==> {
                let o = #[trigger] spec_ring(d, stride)[i];
                &&& (o.0 == d || o.0 == -d) && -d <= o.1 <= d || (o.1 == d || o.1 == -d) && -d <= o.0 <= d
            },
        spec_ring(d, stride).contains(((-d) as isize, (-d) as isize)),
        spec_ring(d, stride).contains(((-d) as isize, d as isize)),
        stride == 1 ==> forall|x: int| -d <= x <= d ==> #[trigger] sides_hold(spec_ring(d, stride), d, x),
{
    let r = spec_ring(d, stride);
    assert forall|i: int| 0 <= i < r.len() implies {
        let o = #[trigger] r[i];
        &&& (o.0 == d || o.0 == -d) && -d <= o.1 <= d || (o.1 == d || o.1 == -d) && -d <= o.0 <= d
    } by {
        let k = i / 4;
        assert(k <= (2 * d) / stride);
        assert(k * stride <= 2 * d) by (nonlinear_arith)
            requires k <= (2 * d) / stride, stride > 0, k >= 0, d >= 0;
        assert(k * stride >= 0) by (nonlinear_arith)
            requires k >= 0, stride > 0;
    }
    assert((2 * d) / stride >= 0) by (nonlinear_arith)
        requires d >= 0, stride > 0;
    assert(r.len() >= 4);
    assert(0int / 4 == 0 && 1int / 4 == 0 && 0int % 4 == 0 && 1int % 4 == 1);
    assert((0int / 4) * stride == 0 && (1int / 4) * stride == 0) by (nonlinear_arith)
        requires 0int / 4 == 0 && 1int / 4 == 0;
    assert(r[0] == ((-d) as isize, (-d) as isize));
    assert(r[1] == ((-d) as isize, d as isize));
    if stride == 1 {
        assert forall|x: int| -d <= x <= d implies #[trigger] sides_hold(r, d, x) by {
            let k = x + d;
            assert((2 * d) / 1 == 2 * d);
            assert(r[4 * k] == (x as isize, (-d) as isize));
            assert(r[4 * k + 1] == (x as isize, d as isize));
            assert(r[4 * k + 2] == ((-d) as isize, x as isize));
            assert(r[4 * k + 3] == (d as isize, x as isize));
        }
    }
}

proof fn lemma_fated(
    cached: Seq<UnitView>,
    facts: Seq<CacheFacts>,
    seen: Seq<UnitView>,
    zerg: bool,
    fate: CacheFate,
    gd: Seq<UnitTypeData>,
    n: int,
)
    requires
        0 <= n <= cached.len(),
        facts.len() == cached.len(),
    ensures
        forall|x: u64|
            #[trigger] fated(cached, facts, seen, zerg, fate, n, gd).contains(x) <==> exists|i: int|
                0 <= i < n && cached[i].tag == x && #[trigger] fate_with(cached[i], facts[i], seen, zerg, gd) == fate,
    decreases n,
{
    if n > 0 {
        lemma_fated(cached, facts, seen, zerg, fate, gd, n - 1);
        let before = fated(cached, facts, seen, zerg, fate, n - 1, gd);
        let now = fated(cached, facts, seen, zerg, fate, n, gd);
        assert forall|x: u64| #[trigger] now.contains(x) <==> exists|i: int|
            0 <= i < n && cached[i].tag == x && #[trigger] fate_with(cached[i], facts[i], seen, zerg, gd) == fate by {
            if now.contains(x) && !before.contains(x) {
                let k = choose|k: int| 0 <= k < now.len() && now[k] == x;
                assert(k == before.len());
                assert(fate_with(cached[n - 1], facts[n - 1], seen, zerg, gd) == fate);
            }
            if exists|i: int| 0 <= i < n && cached[i].tag == x && #[trigger] fate_with(cached[i], facts[i], seen, zerg, gd) == fate {
                let i = choose|i: int| 0 <= i < n && cached[i].tag == x && #[trigger] fate_with(cached[i], facts[i], seen, zerg, gd) == fate;
                if i < n - 1 {
                    assert(before.contains(x));
                    let k = choose|k: int| 0 <= k < before.len() && before[k] == x;
                    assert(now[k] == before[k]);
                    assert(now[k] == x);
                } else {
                    assert(now[before.len() as int] == x);
                }
            }
        }
    }
}

/// Sorting the cached units of the opponent by fate puts the tag of each
/// cached unit in the list of its own fate and in no other: its tag is
/// among those of fate `fate` exactly when that is what becomes of it.
pub proof fn sorted_tags_follow_fates(
    cached: Seq<UnitView>,
    facts: Seq<CacheFacts>,
    seen: Seq<UnitView>,
    zerg: bool,
    fate: CacheFate,
    gd: Seq<UnitTypeData>,
    i: int,
)
    requires
        tags_distinct(cached),
        facts.len() == cached.len(),
        0 <= i < cached.len(),
    ensures
        fated(cached, facts, seen, zerg, fate, cached.len() as int, gd).contains(cached[i].tag) <==> spec_cache_fate(
            cached[i],
            tag_index(seen, cached[i].tag) is Some,
            zerg,
            facts[i].position_visible,
            cached[i].display_type is Visible,
            facts[i].by_new_structure,
            facts[i].undetected,
            gd,
        ) == fate,
{
    lemma_fated(cached, facts, seen, zerg, fate, gd, cached.len() as int);
    if fated(cached, facts, seen, zerg, fate, cached.len() as int, gd).contains(cached[i].tag) {
        let j = choose|j: int|
            0 <= j < cached.len() && cached[j].tag == cached[i].tag && #[trigger] fate_with(cached[j], facts[j], seen, zerg, gd)
                == fate;
        assert(j == i);
    } else {
        assert(!(fate_with(cached[i], facts[i], seen, zerg, gd) == fate));
    }
}

} // verus!
