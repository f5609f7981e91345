use rust_sc2::action::ActionResult;
use rust_sc2::bot::PlacementOptions;
use rust_sc2::placement::{closest_offset, passed_offsets, ring_offsets, PlacementAction, PlacementStage};
use rust_sc2::bot::{Bot, CacheFacts, CacheFate, CountOptions};
use rust_sc2::game_data::{Attribute, UnitTypeData, UpgradeData};
use rust_sc2::game_info::PlayerInfo;
use rust_sc2::game_state::{Alliance, Common};
use rust_sc2::ids::{AbilityId, UnitTypeId, UpgradeId};
use rust_sc2::pixel_map::{ByteMap, PixelMap, VisibilityMap};
use rust_sc2::player::{PlayerType, Race};
use rust_sc2::unit::{CloakState, DisplayType, Unit};
use rust_sc2::units::Units;
use rust_sc2::Event;

fn unit(tag: u64, type_id: UnitTypeId, alliance: Alliance) -> Unit {
    Unit {
        display_type: DisplayType::Visible,
        alliance,
        tag,
        type_id,
        owner: 1,
        build_complete: true,
        cloak: CloakState::NotCloaked,
        buffs: Vec::new(),
        is_powered: false,
        is_flying: false,
        is_burrowed: false,
        is_hallucination: false,
        attack_upgrade_level: 0,
        armor_upgrade_level: 0,
        shield_upgrade_level: 0,
        health: None,
        health_max: None,
        shield: None,
        shield_max: None,
        energy: None,
        energy_max: None,
        mineral_contents: None,
        vespene_contents: None,
        orders: Vec::new(),
        addon_tag: None,
        cargo_space_taken: None,
        cargo_space_max: None,
        assigned_harvesters: None,
        ideal_harvesters: None,
        engaged_target_tag: None,
    }
}

fn data(id: UnitTypeId, minerals: u32, vespene: u32, food_halves: u32, ability: Option<AbilityId>, race: Race) -> UnitTypeData {
    UnitTypeData {
        id,
        name: String::new(),
        available: true,
        cargo_size: 0,
        mineral_cost: minerals,
        vespene_cost: vespene,
        food_required_halves: food_halves,
        ability,
        race,
        has_vespene: false,
        has_minerals: false,
        tech_alias: Vec::new(),
        unit_alias: None,
        tech_requirement: None,
        require_attached: false,
        // As the game's data has it: structures carry the `Structure` attribute.
        attributes: if id.is_structure() { vec![Attribute::Structure] } else { Vec::new() },
        armor: 0,
    }
}

fn bot_with_data() -> Bot {
    let mut bot = Bot::new();
    bot.game_data.units.push(data(UnitTypeId::SCV, 50, 0, 2, None, Race::Terran));
    bot.game_data.units.push(data(UnitTypeId::Barracks, 150, 0, 0, Some(AbilityId::TerranBuildBarracks), Race::Terran));
    bot.game_data.units.push(data(UnitTypeId::Zergling, 25, 0, 1, None, Race::Zerg));
    bot.game_data.units.push(data(UnitTypeId::OrbitalCommand, 550, 0, 0, None, Race::Terran));
    bot.game_data.units.push(data(UnitTypeId::Reactor, 50, 50, 0, None, Race::Terran));
    bot.game_data.units.push(data(UnitTypeId::CommandCenter, 400, 0, 0, None, Race::Terran));
    bot.game_data.units.push(data(UnitTypeId::Hatchery, 300, 0, 0, None, Race::Zerg));
    bot.game_data.units.push(data(UnitTypeId::SupplyDepot, 100, 0, 0, None, Race::Terran));
    bot.game_data.upgrades.push(UpgradeData {
        id: UpgradeId::Charge,
        ability: AbilityId::ResearchTerranVehicleAndShipPlating,
        name: String::new(),
        mineral_cost: 100,
        vespene_cost: 100,
    });
    bot
}

fn common(minerals: u32, vespene: u32, cap: u32, used: u32) -> Common {
    Common {
        player_id: 1,
        minerals,
        vespene,
        food_cap: cap,
        food_used: used,
        food_army: 0,
        food_workers: used,
        idle_worker_count: 0,
        army_count: 0,
        warp_gate_count: 0,
        larva_count: 0,
    }
}

fn observed() -> Units {
    let mut us = Units::new();
    us.push(unit(1, UnitTypeId::SCV, Alliance::Own));
    us.push(unit(2, UnitTypeId::SCV, Alliance::Own));
    let mut rax = unit(3, UnitTypeId::Barracks, Alliance::Own);
    rax.build_complete = false;
    us.push(rax);
    us.push(unit(4, UnitTypeId::CommandCenter, Alliance::Own));
    us.push(unit(5, UnitTypeId::MineralField, Alliance::Neutral));
    us.push(unit(6, UnitTypeId::VespeneGeyser, Alliance::Neutral));
    us.push(unit(7, UnitTypeId::Zergling, Alliance::Enemy));
    us.push(unit(8, UnitTypeId::XelNagaTower, Alliance::Neutral));
    us
}

#[test]
fn update_units_sorts_units_into_groups() {
    let mut bot = bot_with_data();
    bot.update_units(&observed());
    assert_eq!(bot.units.all.len(), 8);
    assert_eq!(bot.units.my.all.tags(), vec![1, 2, 3, 4]);
    assert_eq!(bot.units.my.units.tags(), vec![1, 2]);
    assert_eq!(bot.units.my.workers.tags(), vec![1, 2]);
    assert_eq!(bot.units.my.structures.tags(), vec![3, 4]);
    assert_eq!(bot.units.my.townhalls.tags(), vec![4]);
    assert_eq!(bot.units.mineral_fields.tags(), vec![5]);
    assert_eq!(bot.units.vespene_geysers.tags(), vec![6]);
    assert_eq!(bot.units.resources.tags(), vec![5, 6]);
    assert_eq!(bot.units.watchtowers.tags(), vec![8]);
    assert_eq!(bot.units.enemy.units.tags(), vec![7]);
    assert_eq!(bot.units.cached.units.tags(), vec![7]);
}

#[test]
fn prepare_step_counts_units_and_orders() {
    let mut bot = bot_with_data();
    bot.update_units(&observed());
    bot.prepare_step(&common(400, 100, 15, 12));
    assert_eq!(bot.minerals, 400);
    assert_eq!(bot.vespene, 100);
    assert_eq!(bot.supply_left, 3);
    let mut c = CountOptions::new(&bot, false);
    assert_eq!(c.count(UnitTypeId::SCV), 2);
    assert_eq!(c.count(UnitTypeId::Barracks), 0);
    c.ordered();
    assert_eq!(c.count(UnitTypeId::Barracks), 1);
    c.all();
    assert_eq!(c.count(UnitTypeId::Barracks), 1);
    assert_eq!(c.count(UnitTypeId::SCV), 2);
    assert_eq!(bot.counter().count(UnitTypeId::CommandCenter), 1);
}

#[test]
fn unit_costs_follow_the_special_cases() {
    let bot = bot_with_data();
    let scv = bot.get_unit_cost(UnitTypeId::SCV);
    assert_eq!((scv.minerals, scv.vespene, scv.supply_halves), (50, 0, 2));
    assert_eq!(bot.get_unit_cost(UnitTypeId::Zergling).minerals, 50);
    assert_eq!(bot.get_unit_cost(UnitTypeId::OrbitalCommand).minerals, 150);
    let reactor = bot.get_unit_cost(UnitTypeId::Reactor);
    assert_eq!((reactor.minerals, reactor.vespene), (50, 50));
    let techlab = bot.get_unit_cost(UnitTypeId::TechLab);
    assert_eq!((techlab.minerals, techlab.vespene), (50, 25));
    let unknown = bot.get_unit_cost(UnitTypeId::Battlecruiser);
    assert_eq!((unknown.minerals, unknown.vespene, unknown.supply_halves), (0, 0, 0));
}

#[test]
fn affordability_and_spending() {
    let mut bot = bot_with_data();
    bot.minerals = 120;
    bot.vespene = 0;
    bot.supply_left = 1;
    assert!(bot.can_afford(UnitTypeId::SCV, true));
    assert!(!bot.can_afford(UnitTypeId::Barracks, false));
    bot.subtract_resources(UnitTypeId::SCV, true);
    assert_eq!(bot.minerals, 70);
    assert_eq!(bot.supply_left, 0);
    assert_eq!(bot.supply_used, 1);
    assert!(!bot.can_afford(UnitTypeId::SCV, true));
    assert!(bot.can_afford(UnitTypeId::SCV, false));
    bot.subtract_resources(UnitTypeId::Barracks, false);
    assert_eq!(bot.minerals, 0);
}

#[test]
fn upgrades_cost_and_state() {
    let mut bot = bot_with_data();
    bot.minerals = 100;
    bot.vespene = 99;
    assert!(!bot.can_afford_upgrade(UpgradeId::Charge));
    bot.vespene = 100;
    assert!(bot.can_afford_upgrade(UpgradeId::Charge));
    bot.subtract_upgrade_cost(UpgradeId::Charge);
    assert_eq!((bot.minerals, bot.vespene), (0, 0));
    assert!(!bot.has_upgrade(UpgradeId::Charge));
    bot.upgrades.push(UpgradeId::Charge);
    assert!(bot.has_upgrade(UpgradeId::Charge));
    assert!(!bot.enemy_has_upgrade(UpgradeId::Charge));
}

#[test]
fn game_step_round_trips() {
    let mut bot = Bot::new();
    assert_eq!(bot.game_step(), 1);
    bot.set_game_step(4);
    assert_eq!(bot.game_step(), 4);
}

#[test]
fn prepare_start_learns_races() {
    let mut bot = Bot::new();
    bot.player_id = 2;
    let me = PlayerInfo {
        id: 2,
        player_type: PlayerType::Participant,
        race_requested: Race::Random,
        race_actual: Some(Race::Zerg),
        difficulty: None,
        ai_build: None,
        player_name: None,
    };
    let them = PlayerInfo {
        id: 1,
        player_type: PlayerType::Computer,
        race_requested: Race::Protoss,
        race_actual: None,
        difficulty: None,
        ai_build: None,
        player_name: None,
    };
    bot.game_info.players.push(them);
    bot.game_info.players.push(me);
    bot.prepare_start();
    assert_eq!(bot.race, Race::Zerg);
    assert_eq!(bot.enemy_race, Race::Protoss);
    assert_eq!(bot.enemy_player_id, 1);
    assert_eq!(bot.race_values.worker, UnitTypeId::Drone);
}

#[test]
fn new_units_give_events_once() {
    let mut bot = bot_with_data();
    let scv = unit(1, UnitTypeId::SCV, Alliance::Own);
    assert_eq!(bot.note_unit(&scv, false), (Some(Event::UnitCreated(1)), false));
    assert_eq!(bot.note_unit(&scv, false), (None, false));
    let mut rax = unit(3, UnitTypeId::Barracks, Alliance::Own);
    rax.build_complete = false;
    assert_eq!(bot.note_unit(&rax, false), (Some(Event::ConstructionStarted(3)), false));
    assert_eq!(bot.note_unit(&rax, false), (None, false));
    rax.build_complete = true;
    assert_eq!(bot.note_unit(&rax, false), (Some(Event::ConstructionComplete(3)), false));
    assert_eq!(bot.note_unit(&rax, false), (None, false));
    let mut ghost_building = unit(9, UnitTypeId::SupplyDepot, Alliance::Own);
    ghost_building.display_type = DisplayType::Placeholder;
    assert_eq!(bot.note_unit(&ghost_building, false), (None, false));
}

#[test]
fn random_race_is_detected_once() {
    let mut bot = bot_with_data();
    let ling = unit(7, UnitTypeId::Zergling, Alliance::Enemy);
    assert_eq!(bot.note_unit(&ling, true), (Some(Event::RandomRaceDetected(Race::Zerg)), false));
    assert_eq!(bot.enemy_race, Race::Zerg);
    assert_eq!(bot.note_unit(&ling, false), (None, false));
}

#[test]
fn dead_units_are_forgotten() {
    let mut bot = bot_with_data();
    let mut rax = unit(3, UnitTypeId::Barracks, Alliance::Own);
    rax.build_complete = false;
    bot.note_unit(&rax, false);
    assert!(bot.under_construction.contains(&3));
    assert_eq!(bot.note_dead_unit(3), Event::UnitDestroyed(3));
    assert!(!bot.owned_tags.contains(&3));
    assert!(!bot.under_construction.contains(&3));
    bot.saved_hallucinations = vec![5, 6, 5];
    assert_eq!(bot.note_dead_unit(5), Event::UnitDestroyed(5));
    assert_eq!(bot.saved_hallucinations, vec![6]);
}

#[test]
fn map_queries_read_the_grids() {
    let mut bot = Bot::new();
    // 8 by 2 pixels: first row all filled but the last, second row empty.
    bot.game_info.placement_grid = PixelMap::from_image(8, 2, &[0b0000_0001, 0b1111_1111]);
    bot.game_info.pathing_grid = PixelMap::from_image(8, 2, &[0b1000_0000, 0]);
    bot.game_info.terrain_height = ByteMap::from_image(2, 2, &[10, 20, 30, 40]);
    bot.visibility = VisibilityMap::from_image(2, 1, &[0, 2]);
    bot.creep = PixelMap::from_image(8, 1, &[0b0100_0000]);
    assert!(!bot.is_placeable((0, 0)));
    assert!(bot.is_placeable((7, 0)));
    assert!(bot.is_placeable((3, 1)));
    assert!(bot.is_pathable((0, 0)));
    assert!(!bot.is_pathable((1, 0)));
    assert_eq!(bot.get_height((1, 0)), 20);
    assert_eq!(bot.get_height((0, 1)), 30);
    assert!(bot.is_hidden((0, 0)));
    assert!(!bot.is_explored((0, 0)));
    assert!(bot.is_visible((1, 0)));
    assert!(bot.is_explored((1, 0)));
    assert!(!bot.is_fogged((1, 0)));
    assert!(!bot.is_full_hidden((1, 0)));
    assert!(bot.has_creep((1, 0)));
    assert!(!bot.has_creep((0, 0)));
}

#[test]
fn cached_enemies_fate() {
    let mut bot = bot_with_data();
    bot.enemy_race = Race::Zerg;
    let ling = unit(1, UnitTypeId::Zergling, Alliance::Enemy);
    let drone = unit(2, UnitTypeId::Drone, Alliance::Enemy);
    let hatch = unit(3, UnitTypeId::Hatchery, Alliance::Enemy);
    let larva = unit(4, UnitTypeId::Larva, Alliance::Enemy);
    assert_eq!(bot.cache_fate(&ling, true, true, true, false, false), CacheFate::Keep);
    assert_eq!(bot.cache_fate(&hatch, false, true, true, false, false), CacheFate::Keep);
    assert_eq!(bot.cache_fate(&ling, false, true, true, false, false), CacheFate::Burrowed);
    assert_eq!(bot.cache_fate(&drone, false, true, true, false, false), CacheFate::Burrowed);
    assert_eq!(bot.cache_fate(&drone, false, true, true, true, false), CacheFate::Remove);
    assert_eq!(bot.cache_fate(&larva, false, true, true, false, false), CacheFate::Remove);
    assert_eq!(bot.cache_fate(&ling, false, false, true, false, false), CacheFate::Snapshot);
    assert_eq!(bot.cache_fate(&ling, false, true, false, false, true), CacheFate::Remove);
    let mut burrowed = ling.clone();
    burrowed.is_burrowed = true;
    assert_eq!(bot.cache_fate(&burrowed, false, true, false, false, true), CacheFate::Keep);
    assert_eq!(bot.cache_fate(&burrowed, false, true, false, false, false), CacheFate::Remove);
    bot.enemy_race = Race::Terran;
    let marine = unit(5, UnitTypeId::Marine, Alliance::Enemy);
    assert_eq!(bot.cache_fate(&marine, false, true, true, false, false), CacheFate::Remove);
}

#[test]
fn dead_enemies_leave_the_cache() {
    let mut bot = bot_with_data();
    bot.update_units(&observed());
    assert_eq!(bot.units.cached.all.tags(), vec![7]);
    assert_eq!(bot.note_dead_unit(7), Event::UnitDestroyed(7));
    assert!(bot.units.cached.all.is_empty());
    assert!(bot.units.cached.units.is_empty());
}

#[test]
fn cached_enemies_are_sorted_by_fate() {
    let mut bot = bot_with_data();
    bot.enemy_race = Race::Zerg;
    let seen = unit(1, UnitTypeId::Zergling, Alliance::Enemy);
    bot.units.enemy.all.push(seen.clone());
    bot.units.cached.all.push(seen);
    bot.units.cached.all.push(unit(2, UnitTypeId::Zergling, Alliance::Enemy));
    bot.units.cached.all.push(unit(3, UnitTypeId::Drone, Alliance::Enemy));
    bot.units.cached.all.push(unit(4, UnitTypeId::Zergling, Alliance::Enemy));
    bot.units.cached.all.push(unit(5, UnitTypeId::Hatchery, Alliance::Enemy));
    let mut gone = unit(6, UnitTypeId::Zergling, Alliance::Enemy);
    gone.display_type = DisplayType::Snapshot;
    bot.units.cached.all.push(gone);
    let at = |position_visible: bool, by_new_structure: bool| CacheFacts {
        position_visible,
        by_new_structure,
        undetected: false,
    };
    let facts = vec![at(true, false), at(true, false), at(true, true), at(false, false), at(true, false), at(true, false)];
    let (remove, burrowed, snapshot) = bot.sort_cached(&facts);
    assert_eq!(remove, vec![3, 6]);
    assert_eq!(burrowed, vec![2]);
    assert_eq!(snapshot, vec![4]);
}

#[test]
fn aliases_come_from_the_game_data() {
    let mut bot = Bot::new();
    assert!(bot.unit_alias.is_empty());
    assert!(bot.tech_alias.is_empty());
    let mut lowered = data(UnitTypeId::SupplyDepotLowered, 100, 0, 0, None, Race::Terran);
    lowered.unit_alias = Some(UnitTypeId::SupplyDepot);
    let mut lair = data(UnitTypeId::Lair, 150, 100, 0, None, Race::Zerg);
    lair.tech_alias = vec![UnitTypeId::Hatchery];
    bot.game_data.units = vec![data(UnitTypeId::SCV, 50, 0, 2, None, Race::Terran), lowered, lair];
    bot.load_aliases();
    assert_eq!(bot.unit_alias, vec![(UnitTypeId::SupplyDepotLowered, UnitTypeId::SupplyDepot)]);
    assert_eq!(bot.tech_alias, vec![(UnitTypeId::Lair, vec![UnitTypeId::Hatchery])]);
}

#[test]
fn new_bot_knows_the_inhibitor_zones() {
    let bot = Bot::new();
    assert_eq!(bot.inhibitor_ids.len(), 6);
    assert!(bot.inhibitor_ids.contains(&UnitTypeId::InhibitorZoneSmall));
    assert!(bot.inhibitor_ids.contains(&UnitTypeId::InhibitorZoneFlyingLarge));
}

#[test]
fn rings_are_walked_by_the_step() {
    assert_eq!(
        ring_offsets(2, 2),
        vec![
            (-2, -2), (-2, 2), (-2, -2), (2, -2),
            (0, -2), (0, 2), (-2, 0), (2, 0),
            (2, -2), (2, 2), (-2, 2), (2, 2),
        ]
    );
    assert_eq!(ring_offsets(1, 5), vec![(-1, -1), (-1, 1), (-1, -1), (1, -1)]);
    assert!(ring_offsets(-1, 2).is_empty());
}

#[test]
fn accepted_and_closest_offsets() {
    let offsets = [(3, 0), (1, 1), (0, 2), (5, 5)];
    let results = [ActionResult::Success, ActionResult::Error, ActionResult::Success];
    assert_eq!(passed_offsets(&offsets, &results), vec![(3, 0), (0, 2)]);
    assert_eq!(closest_offset(&[(3, 0), (1, 1), (0, 2)]), (1, 1));
    assert_eq!(closest_offset(&[(2, 0), (0, -2), (0, 2)]), (2, 0));
}

#[test]
fn placement_search_walks_rings() {
    let bot = bot_with_data();
    assert!(bot.placement_search(UnitTypeId::Zergling, PlacementOptions::default()).is_none());
    let mut search = bot.placement_search(UnitTypeId::Barracks, PlacementOptions::default()).unwrap();
    assert_eq!(search.ability, AbilityId::TerranBuildBarracks);
    assert_eq!(search.asking(), (vec![(0, 0)], vec![]));
    assert!(matches!(search.next(&[ActionResult::Error]), PlacementAction::Ask));
    assert_eq!(search.stage, PlacementStage::Ring { distance: 2 });
    let (ring, addons) = search.asking();
    assert_eq!(ring.len(), 12);
    assert!(addons.is_empty());
    let mut results = vec![ActionResult::Error; 12];
    results[8] = ActionResult::Success;
    results[7] = ActionResult::Success;
    match search.next(&results) {
        PlacementAction::Place(o) => assert_eq!(o, (2, 0)),
        other => panic!("{:?}", other),
    }
    assert_eq!(search.stage, PlacementStage::Done);

    let mut here = bot.placement_search(UnitTypeId::Barracks, PlacementOptions::default()).unwrap();
    match here.next(&[ActionResult::Success]) {
        PlacementAction::Place(o) => assert_eq!(o, (0, 0)),
        other => panic!("{:?}", other),
    }
}

#[test]
fn placement_search_gives_up_past_the_last_ring() {
    let bot = bot_with_data();
    let options = PlacementOptions { max_distance: 3, step: 2, random: false, addon: false };
    let mut search = bot.placement_search(UnitTypeId::Barracks, options).unwrap();
    assert!(matches!(search.next(&[ActionResult::Error]), PlacementAction::Ask));
    assert!(matches!(search.next(&vec![ActionResult::Error; 12]), PlacementAction::GiveUp));
}

#[test]
fn placement_search_asks_addons_and_picks_at_random() {
    let bot = bot_with_data();
    let options = PlacementOptions { max_distance: 15, step: 2, random: true, addon: true };
    let mut search = bot.placement_search(UnitTypeId::Barracks, options).unwrap();
    assert_eq!(search.asking(), (vec![(0, 0)], vec![(0, 0)]));
    assert!(matches!(search.next(&[ActionResult::Success, ActionResult::Error]), PlacementAction::Ask));
    let mut results = vec![ActionResult::Error; 12];
    results[0] = ActionResult::Success;
    results[1] = ActionResult::Success;
    assert!(matches!(search.next(&results), PlacementAction::Ask));
    assert_eq!(
        search.stage,
        PlacementStage::Addons { distance: 2, valid: vec![(-2, -2), (-2, 2)] }
    );
    assert_eq!(search.asking(), (vec![], vec![(-2, -2), (-2, 2)]));
    match search.next(&[ActionResult::Error, ActionResult::Success]) {
        PlacementAction::PlaceRandom(v) => assert_eq!(v, vec![(-2, 2)]),
        other => panic!("{:?}", other),
    }
}

#[test]
fn structures_are_what_the_game_data_says() {
    let mut bot = bot_with_data();
    // The game data of this bot does not list bunkers: to it they are no
    // structures.
    let bunker = unit(10, UnitTypeId::Bunker, Alliance::Own);
    assert_eq!(bot.note_unit(&bunker, false).0, Some(Event::UnitCreated(10)));
    let mut us = Units::new();
    us.push(unit(11, UnitTypeId::Bunker, Alliance::Own));
    bot.update_units(&us);
    assert_eq!(bot.units.my.units.tags(), vec![11]);
    assert!(bot.units.my.structures.is_empty());
}

#[test]
fn supply_left_saturates() {
    let mut bot = bot_with_data();
    bot.prepare_step(&common(100, 0, 10, 14));
    assert_eq!(bot.supply_cap, 10);
    assert_eq!(bot.supply_used, 14);
    assert_eq!(bot.supply_left, 0);
    bot.prepare_step(&common(100, 0, 23, 14));
    assert_eq!(bot.supply_left, 9);
}
