use rust_sc2::game_data::{Attribute, GameData, TargetType, UnitTypeData};
use rust_sc2::player::Race;
use rust_sc2::game_state::Alliance;
use rust_sc2::ids::{AbilityId, UnitTypeId};
use rust_sc2::unit::{CloakState, DisplayType, Unit, UnitOrder};
use rust_sc2::units::iter::{ExcludeType, ExcludeTypes, FindTags, OfType, OfTypes};
use rust_sc2::units::Units;

fn unit(tag: u64, type_id: UnitTypeId, alliance: Alliance) -> Unit {
    Unit {
        display_type: DisplayType::Visible,
        alliance,
        tag,
        type_id,
        owner: 1,
        build_complete: true,
        cloak: CloakState::NotCloaked,
        buffs: Vec::new(),
        is_powered: false,
        is_flying: false,
        is_burrowed: false,
        is_hallucination: false,
        attack_upgrade_level: 0,
        armor_upgrade_level: 0,
        shield_upgrade_level: 0,
        health: Some(45),
        health_max: Some(45),
        shield: None,
        shield_max: None,
        energy: None,
        energy_max: None,
        mineral_contents: None,
        vespene_contents: None,
        orders: Vec::new(),
        addon_tag: None,
        cargo_space_taken: None,
        cargo_space_max: None,
        assigned_harvesters: None,
        ideal_harvesters: None,
        engaged_target_tag: None,
    }
}

fn sample() -> Units {
    let mut us = Units::new();
    us.push(unit(1, UnitTypeId::SCV, Alliance::Own));
    us.push(unit(2, UnitTypeId::Marine, Alliance::Own));
    us.push(unit(3, UnitTypeId::SCV, Alliance::Own));
    us.push(unit(4, UnitTypeId::CommandCenter, Alliance::Own));
    us
}

fn tags_of(us: &Units) -> Vec<u64> {
    us.tags()
}

#[test]
fn push_appends_new_tags_in_order() {
    let us = sample();
    assert_eq!(us.len(), 4);
    assert_eq!(tags_of(&us), vec![1, 2, 3, 4]);
    assert!(!us.is_empty());
}

#[test]
fn push_replaces_a_unit_with_the_same_tag_in_place() {
    let mut us = sample();
    let old = us.push(unit(2, UnitTypeId::Marauder, Alliance::Own));
    assert_eq!(old.map(|u| u.type_id), Some(UnitTypeId::Marine));
    assert_eq!(tags_of(&us), vec![1, 2, 3, 4]);
    assert_eq!(us.get(2).map(|u| u.type_id), Some(UnitTypeId::Marauder));
}

#[test]
fn get_finds_by_tag() {
    let us = sample();
    assert_eq!(us.get(3).map(|u| u.type_id), Some(UnitTypeId::SCV));
    assert!(us.get(99).is_none());
    assert!(us.contains_tag(4));
    assert!(!us.contains_tag(5));
    assert_eq!(us.first().map(|u| u.tag), Some(1));
}

#[test]
fn remove_swaps_in_the_last_unit() {
    let mut us = sample();
    let r = us.remove(1);
    assert_eq!(r.map(|u| u.tag), Some(1));
    assert_eq!(tags_of(&us), vec![4, 2, 3]);
    assert!(!us.contains_tag(1));
    assert!(us.remove(1).is_none());
}

#[test]
fn pop_takes_the_last_unit() {
    let mut us = sample();
    assert_eq!(us.pop().map(|u| u.tag), Some(4));
    assert_eq!(us.len(), 3);
    let mut empty = Units::new();
    assert!(empty.pop().is_none());
}

#[test]
fn of_type_and_exclude_type_split_the_units() {
    let us = sample();
    let scvs = us.of_type(UnitTypeId::SCV);
    let others = us.exclude_type(UnitTypeId::SCV);
    assert_eq!(tags_of(&scvs), vec![1, 3]);
    assert_eq!(tags_of(&others), vec![2, 4]);
    assert_eq!(scvs.len() + others.len(), us.len());
}

#[test]
fn of_types_and_exclude_types() {
    let us = sample();
    let types = vec![UnitTypeId::Marine, UnitTypeId::CommandCenter];
    assert_eq!(tags_of(&us.of_types(&types)), vec![2, 4]);
    assert_eq!(tags_of(&us.exclude_types(&types)), vec![1, 3]);
}

#[test]
fn find_tags_keeps_order_of_first_mention() {
    let us = sample();
    let found = us.find_tags(&[3, 9, 1, 3]);
    assert_eq!(tags_of(&found), vec![3, 1]);
}

#[test]
fn remove_tags_removes_each() {
    let mut us = sample();
    us.remove_tags(&[2, 4]);
    assert_eq!(tags_of(&us), vec![1, 3]);
}

#[test]
fn filter_keeps_what_the_test_accepts() {
    let us = sample();
    let r = us.filter(|u: &Unit| u.tag % 2 == 0);
    assert_eq!(tags_of(&r), vec![2, 4]);
}

#[test]
fn ready_idle_flying_and_ground() {
    let mut us = sample();
    let mut building = unit(5, UnitTypeId::Barracks, Alliance::Own);
    building.build_complete = false;
    us.push(building);
    let mut busy = unit(6, UnitTypeId::SCV, Alliance::Own);
    busy.orders.push(UnitOrder { ability: AbilityId::HarvestGather, target_tag: Some(1) });
    us.push(busy);
    let mut flyer = unit(7, UnitTypeId::Medivac, Alliance::Own);
    flyer.is_flying = true;
    us.push(flyer);
    assert_eq!(tags_of(&us.not_ready()), vec![5]);
    assert_eq!(tags_of(&us.ready()), vec![1, 2, 3, 4, 6, 7]);
    assert_eq!(tags_of(&us.flying()), vec![7]);
    assert_eq!(tags_of(&us.ground()), vec![1, 2, 3, 4, 5, 6]);
    assert!(!tags_of(&us.idle()).contains(&6));
}

#[test]
fn extend_and_clear() {
    let mut us = sample();
    let mut more = Units::new();
    more.push(unit(10, UnitTypeId::Marine, Alliance::Own));
    more.push(unit(2, UnitTypeId::Reaper, Alliance::Own));
    us.extend_from(&more);
    assert_eq!(tags_of(&us), vec![1, 2, 3, 4, 10]);
    assert_eq!(us.get(2).map(|u| u.type_id), Some(UnitTypeId::Reaper));
    us.clear();
    assert!(us.is_empty());
}

#[test]
fn mark_hallucinations_and_snapshots() {
    let mut us = sample();
    us.mark_hallucinations(&[2]);
    assert!(us.get(2).map(|u| u.is_hallucination).unwrap());
    assert!(!us.get(1).map(|u| u.is_hallucination).unwrap());
    us.mark_snapshots(&[3], true);
    let u = us.get(3).unwrap();
    assert_eq!(u.display_type, DisplayType::Snapshot);
    assert!(u.is_burrowed);
}

#[test]
fn of_type_iterator_walks_both_ends() {
    let us = sample();
    let mut it = OfType::new(&us, UnitTypeId::SCV);
    assert_eq!(it.next().map(|u| u.tag), Some(1));
    assert_eq!(it.next_back().map(|u| u.tag), Some(3));
    assert!(it.next().is_none());
    assert!(it.next_back().is_none());
}

#[test]
fn exclude_type_iterator_yields_the_rest() {
    let us = sample();
    let mut it = ExcludeType::new(&us, UnitTypeId::SCV);
    assert_eq!(it.next().map(|u| u.tag), Some(2));
    assert_eq!(it.next().map(|u| u.tag), Some(4));
    assert!(it.next().is_none());
}

#[test]
fn find_tags_iterator_follows_collection_order() {
    let us = sample();
    let tags = vec![4u64, 1];
    let mut it = FindTags::new(&us, &tags);
    assert_eq!(it.next().map(|u| u.tag), Some(1));
    assert_eq!(it.next().map(|u| u.tag), Some(4));
    assert!(it.next().is_none());
}

#[test]
fn of_types_and_exclude_types_iterators() {
    let us = sample();
    let types = vec![UnitTypeId::Marine, UnitTypeId::CommandCenter];
    let mut of = OfTypes::new(&us, &types);
    assert_eq!(of.next_back().map(|u| u.tag), Some(4));
    assert_eq!(of.next_back().map(|u| u.tag), Some(2));
    assert!(of.next_back().is_none());
    let mut ex = ExcludeTypes::new(&us, &types);
    assert_eq!(ex.next().map(|u| u.tag), Some(1));
    assert_eq!(ex.next().map(|u| u.tag), Some(3));
    assert!(ex.next().is_none());
}

#[test]
fn unit_predicates() {
    let u = unit(1, UnitTypeId::SCV, Alliance::Own);
    assert!(u.is_worker());
    assert!(u.is_mine());
    assert!(!u.is_enemy());
    assert!(u.is_ready());
    assert!(u.is_idle());
    let mut data = GameData::new();
    data.units.push(UnitTypeData {
        id: UnitTypeId::CommandCenter,
        name: String::new(),
        available: true,
        cargo_size: 0,
        mineral_cost: 400,
        vespene_cost: 0,
        food_required_halves: 0,
        ability: None,
        race: Race::Terran,
        has_vespene: false,
        has_minerals: false,
        tech_alias: Vec::new(),
        unit_alias: None,
        tech_requirement: None,
        require_attached: false,
        attributes: vec![Attribute::Armored, Attribute::Structure],
        armor: 1,
    });
    assert!(!u.is_structure(&data));
    let cc = unit(2, UnitTypeId::CommandCenter, Alliance::Enemy);
    assert!(cc.is_structure(&data));
    assert!(cc.is_townhall());
    assert!(cc.is_enemy());
}


#[test]
fn weapon_targets_decide_what_a_unit_attacks() {
    let u = unit(1, UnitTypeId::Marine, Alliance::Own);
    assert_eq!(u.weapon_target(&[TargetType::Ground]), Some(TargetType::Ground));
    assert_eq!(u.weapon_target(&[TargetType::Air]), Some(TargetType::Air));
    assert_eq!(u.weapon_target(&[TargetType::Ground, TargetType::Air]), Some(TargetType::Any));
    assert_eq!(u.weapon_target(&[TargetType::Any]), Some(TargetType::Any));
    assert_eq!(u.weapon_target(&[]), None);
    assert!(u.can_attack_both(&[TargetType::Air, TargetType::Ground]));
    assert!(!u.can_attack_both(&[TargetType::Ground]));
    assert!(!u.can_attack_ground(&[TargetType::Air]));
    assert!(u.can_attack_ground(&[TargetType::Any]));
    assert!(u.can_attack_air(&[TargetType::Any]));
    assert!(!u.can_attack_air(&[TargetType::Ground]));
    assert!(u.can_attack(&[TargetType::Ground]));
    assert!(!u.can_attack(&[]));
    let changeling = unit(2, UnitTypeId::Changeling, Alliance::Enemy);
    assert_eq!(changeling.weapon_target(&[TargetType::Any]), None);
    assert!(!changeling.can_attack(&[TargetType::Any]));
}

#[test]
fn attacking_a_unit_depends_on_where_it_is() {
    let u = unit(1, UnitTypeId::Marine, Alliance::Own);
    let mut flyer = unit(2, UnitTypeId::Medivac, Alliance::Enemy);
    flyer.is_flying = true;
    let walker = unit(3, UnitTypeId::Zealot, Alliance::Enemy);
    let colossus = unit(4, UnitTypeId::Colossus, Alliance::Enemy);
    assert!(!u.can_attack_unit(&[TargetType::Ground], &flyer));
    assert!(u.can_attack_unit(&[TargetType::Air], &flyer));
    assert!(u.can_attack_unit(&[TargetType::Ground], &walker));
    assert!(!u.can_attack_unit(&[TargetType::Air], &walker));
    assert!(u.can_attack_unit(&[TargetType::Air], &colossus));
    assert!(!u.can_attack_unit(&[], &colossus));
}

#[test]
fn attacked_only_when_hits_dropped() {
    let mut u = unit(1, UnitTypeId::Marine, Alliance::Own);
    assert!(!u.is_attacked(Some(5)));
    assert!(!u.is_attacked(None));
    u.health = Some(30);
    assert!(u.is_attacked(Some(45)));
    assert!(!u.is_attacked(Some(30)));
    assert!(!u.is_attacked(None));
    u.shield = Some(20);
    assert!(!u.is_attacked(Some(45)));
}
