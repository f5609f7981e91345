use rust_sc2::constants::{race_values, target_air, target_ground, tech_requirement, warpgate_ability};
use rust_sc2::counts::Counts;
use rust_sc2::game_data::{Attribute, Cost, GameData, TargetType};
use rust_sc2::game_state::Alliance;
use rust_sc2::geometry::{Rect, Size};
use rust_sc2::ids::{AbilityId, UnitTypeId};
use rust_sc2::pixel_map::{to_binary, ByteMap, Pixel, PixelMap, Visibility, VisibilityMap};
use rust_sc2::player::{AIBuild, Computer, Difficulty, Race};
use rust_sc2::{Event, PlayerSettings};

#[test]
fn unit_type_classes() {
    assert!(UnitTypeId::SCV.is_worker());
    assert!(UnitTypeId::Probe.is_worker());
    assert!(UnitTypeId::Drone.is_worker());
    assert!(!UnitTypeId::Marine.is_worker());
    assert!(UnitTypeId::Marine.is_unit());
    assert!(!UnitTypeId::Marine.is_structure());
    assert!(UnitTypeId::Nexus.is_townhall());
    assert!(UnitTypeId::Nexus.is_structure());
    assert!(UnitTypeId::BarracksReactor.is_addon());
    assert!(!UnitTypeId::BarracksReactor.is_townhall());
    assert!(UnitTypeId::Zealot.is_melee());
    assert!(AbilityId::TerranBuildBarracks.is_constructing());
    assert!(!AbilityId::Attack.is_constructing());
}

#[test]
fn alliance_checks() {
    assert!(Alliance::Own.is_mine());
    assert!(Alliance::Enemy.is_enemy());
    assert!(Alliance::Neutral.is_neutral());
    assert!(Alliance::Ally.is_ally());
    assert!(!Alliance::Own.is_enemy());
}

#[test]
fn counts_increment_and_get() {
    let mut c: Counts<UnitTypeId> = Counts::new();
    assert_eq!(c.get(UnitTypeId::Marine), 0);
    c.increment(UnitTypeId::Marine);
    c.increment(UnitTypeId::Marine);
    c.increment(UnitTypeId::SCV);
    assert_eq!(c.get(UnitTypeId::Marine), 2);
    assert_eq!(c.get(UnitTypeId::SCV), 1);
    assert_eq!(c.get(UnitTypeId::Zealot), 0);
}

#[test]
fn race_values_per_race() {
    let t = race_values(Race::Terran);
    assert_eq!(t.worker, UnitTypeId::SCV);
    assert_eq!(t.start_townhall, UnitTypeId::CommandCenter);
    assert_eq!(t.townhalls.len(), 5);
    let z = race_values(Race::Zerg);
    assert_eq!(z.supply, UnitTypeId::Overlord);
    assert_eq!(z.gas_building, UnitTypeId::Extractor);
    let p = race_values(Race::Protoss);
    assert_eq!(p.townhalls, vec![UnitTypeId::Nexus]);
}

#[test]
fn tech_requirements_and_warpgates() {
    assert_eq!(tech_requirement(UnitTypeId::Barracks), Some(UnitTypeId::SupplyDepot));
    assert_eq!(tech_requirement(UnitTypeId::MissileTurret), Some(UnitTypeId::EngineeringBay));
    assert_eq!(tech_requirement(UnitTypeId::SCV), None);
    assert_eq!(warpgate_ability(UnitTypeId::Zealot), Some(AbilityId::WarpGateTrainZealot));
    assert_eq!(warpgate_ability(UnitTypeId::SCV), None);
    assert_eq!(target_ground(), [TargetType::Ground, TargetType::Any]);
    assert_eq!(target_air(), [TargetType::Air, TargetType::Any]);
}

#[test]
fn attributes_and_costs() {
    assert!(Attribute::Armored.is_armored());
    assert!(!Attribute::Light.is_armored());
    let z = Cost::zero();
    assert_eq!((z.minerals, z.vespene, z.supply_halves), (0, 0, 0));
    let data = GameData::new();
    assert!(data.unit_data(UnitTypeId::SCV).is_none());
}

#[test]
fn player_settings_keep_what_they_are_given() {
    let s = PlayerSettings::new(Race::Terran, Some("bot"));
    assert_eq!(s.race(), Race::Terran);
    assert_eq!(s.name(), Some("bot"));
    assert!(!s.raw_affects_selection());
    assert!(!s.raw_crop_to_playable_area());
    let c = PlayerSettings::configured(Race::Zerg, None, true, true);
    assert_eq!(c.name(), None);
    assert!(c.raw_affects_selection());
    assert!(c.raw_crop_to_playable_area());
}

#[test]
fn computers_and_geometry() {
    let c = Computer::new(Race::Protoss, Difficulty::Hard, Some(AIBuild::Rush));
    assert_eq!(c.race, Race::Protoss);
    assert_eq!(c.difficulty, Difficulty::Hard);
    assert_eq!(c.ai_build, Some(AIBuild::Rush));
    let s = Size::new(3, 4);
    assert_eq!((s.x, s.y), (3, 4));
    let r = Rect::new(1, 2, 3, 4);
    assert_eq!((r.x0, r.y0, r.x1, r.y1), (1, 2, 3, 4));
    assert_eq!(Event::UnitCreated(5), Event::UnitCreated(5));
}

#[test]
fn bytes_expand_to_pixels_most_significant_first() {
    assert_eq!(to_binary(0), vec![Pixel::Filled; 8]);
    assert_eq!(to_binary(255), vec![Pixel::Empty; 8]);
    assert_eq!(
        to_binary(0b1010_0001),
        vec![
            Pixel::Empty,
            Pixel::Filled,
            Pixel::Empty,
            Pixel::Filled,
            Pixel::Filled,
            Pixel::Filled,
            Pixel::Filled,
            Pixel::Empty
        ]
    );
    assert_eq!(Pixel::from_u8(0), Some(Pixel::Filled));
    assert_eq!(Pixel::from_u8(2), None);
    assert_eq!(Pixel::default(), Pixel::Empty);
}

#[test]
fn grids_are_indexed_by_column_then_row() {
    let m = PixelMap::from_image(8, 2, &[0b0111_1111, 0b1111_1110]);
    assert!(m.get(0, 0).is_set());
    assert!(m.get(1, 0).is_empty());
    assert!(m.get(7, 1).is_set());
    assert!(m.get(0, 1).is_empty());
    let b = ByteMap::from_image(3, 2, &[1, 2, 3, 4, 5, 6]);
    assert_eq!(b.get(2, 0), 3);
    assert_eq!(b.get(0, 1), 4);
    let v = VisibilityMap::from_image(4, 1, &[0, 1, 2, 3]);
    assert_eq!(v.get(0, 0), Visibility::Hidden);
    assert_eq!(v.get(1, 0), Visibility::Fogged);
    assert_eq!(v.get(2, 0), Visibility::Visible);
    assert_eq!(v.get(3, 0), Visibility::FullHidden);
    assert!(v.get(1, 0).is_explored());
    assert!(!v.get(0, 0).is_explored());
    assert_eq!(Visibility::from_u8(4), None);
}

fn near(data: &[u64], p: u64) -> rust_sc2::utils::FxIndexSet<u64> {
    let mut s = rust_sc2::utils::FxIndexSet::default();
    for &x in data {
        if x.abs_diff(p) <= 1 {
            s.insert(x);
        }
    }
    s
}

#[test]
fn dbscan_groups_dense_points_and_leaves_noise() {
    let data = vec![1u64, 2, 3, 10, 11, 20];
    let d = data.clone();
    let (clusters, noise) = rust_sc2::utils::dbscan(&data, move |p: &u64| near(&d, *p), 2);
    assert_eq!(clusters, vec![vec![1, 2, 3], vec![10, 11]]);
    assert_eq!(noise.len(), 1);
    assert!(noise.contains(&20));
}

#[test]
fn dbscan_claims_noise_for_a_later_cluster() {
    // 5 alone has too few neighbors at first, but it is a neighbor of 6.
    let data = vec![5u64, 6, 7];
    let d = data.clone();
    let (clusters, noise) = rust_sc2::utils::dbscan(&data, move |p: &u64| near(&d, *p), 3);
    assert_eq!(clusters, vec![vec![6, 7, 5]]);
    assert!(noise.is_empty());
}

#[test]
fn index_set_of_keeps_first_occurrences() {
    let s = rust_sc2::utils::index_set_of(&[3, 1, 3, 2, 1]);
    assert_eq!(s.iter().copied().collect::<Vec<u64>>(), vec![3, 1, 2]);
}

#[test]
fn dbscan_with_index_set_of() {
    let data = vec![1u64, 2, 3, 10, 11, 20];
    let d = data.clone();
    let query = move |p: &u64| {
        let near: Vec<u64> = d.iter().copied().filter(|x| x.abs_diff(*p) <= 1).collect();
        rust_sc2::utils::index_set_of(&near)
    };
    let (clusters, noise) = rust_sc2::utils::dbscan(&data, query, 2);
    assert_eq!(clusters, vec![vec![1, 2, 3], vec![10, 11]]);
    assert_eq!(noise.len(), 1);
}
