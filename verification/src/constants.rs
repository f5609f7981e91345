//! Constant tables of the game: race values and technology requirements.

use vstd::prelude::*;
use crate::game_data::TargetType;
use crate::ids::{AbilityId, UnitTypeId};
use crate::player::Race;

verus! {

/// Target types a weapon that hits ground units can have.
pub fn target_ground() -> (r: [TargetType; 2])
    ensures
        r@ == seq![TargetType::Ground, TargetType::Any],
{
    let r = [TargetType::Ground, TargetType::Any];
    proof {
        assert(r@ =~= seq![TargetType::Ground, TargetType::Any]);
    }
    r
}

/// Target types a weapon that hits air units can have.
pub fn target_air() -> (r: [TargetType; 2])
    ensures
        r@ == seq![TargetType::Air, TargetType::Any],
{
    let r = [TargetType::Air, TargetType::Any];
    proof {
        assert(r@ =~= seq![TargetType::Air, TargetType::Any]);
    }
    r
}

/// Unit types that depend on the race a bot plays.
#[derive(Debug, Clone)]
pub struct RaceValues {
    /// The townhall a worker can build.
    pub start_townhall: UnitTypeId,
    /// Every form of townhall of the race.
    pub townhalls: Vec<UnitTypeId>,
    /// The building that extracts gas.
    pub gas_building: UnitTypeId,
    /// The supply provider.
    pub supply: UnitTypeId,
    /// The worker.
    pub worker: UnitTypeId,
}

impl Default for RaceValues {
    fn default() -> (r: RaceValues)
        ensures
            r.start_townhall == UnitTypeId::NotAUnit,
            r.townhalls@.len() == 0,
            r.gas_building == UnitTypeId::NotAUnit,
            r.supply == UnitTypeId::NotAUnit,
            r.worker == UnitTypeId::NotAUnit,
    {
        RaceValues {
            start_townhall: UnitTypeId::NotAUnit,
            townhalls: Vec::new(),
            gas_building: UnitTypeId::NotAUnit,
            supply: UnitTypeId::NotAUnit,
            worker: UnitTypeId::NotAUnit,
        }
    }
}

/// The unit types of a race: its start townhall, townhalls, gas building,
/// supply provider and worker.
pub open spec fn spec_race_values(race: Race) -> (UnitTypeId, Seq<UnitTypeId>, UnitTypeId, UnitTypeId, UnitTypeId) {
    match race {
        Race::Terran => (
            UnitTypeId::CommandCenter,
            seq![UnitTypeId::CommandCenter, UnitTypeId::OrbitalCommand, UnitTypeId::PlanetaryFortress, UnitTypeId::CommandCenterFlying, UnitTypeId::OrbitalCommandFlying],
            UnitTypeId::Refinery,
            UnitTypeId::SupplyDepot,
            UnitTypeId::SCV,
        ),
        Race::Zerg => (
            UnitTypeId::Hatchery,
            seq![UnitTypeId::Hatchery, UnitTypeId::Lair, UnitTypeId::Hive],
            UnitTypeId::Extractor,
            UnitTypeId::Overlord,
            UnitTypeId::Drone,
        ),
        _ => (
            UnitTypeId::Nexus,
            seq![UnitTypeId::Nexus],
            UnitTypeId::Assimilator,
            UnitTypeId::Pylon,
            UnitTypeId::Probe,
        ),
    }
}

/// The unit types of a race, which must not be `Random`.
pub fn race_values(race: Race) -> (r: RaceValues)
    requires
        race != Race::Random,
    ensures
        (r.start_townhall, r.townhalls@, r.gas_building, r.supply, r.worker) == spec_race_values(race),
{
    match race {
        Race::Terran => {
            let mut townhalls: Vec<UnitTypeId> = Vec::new();
            townhalls.push(UnitTypeId::CommandCenter);
            townhalls.push(UnitTypeId::OrbitalCommand);
            townhalls.push(UnitTypeId::PlanetaryFortress);
            townhalls.push(UnitTypeId::CommandCenterFlying);
            townhalls.push(UnitTypeId::OrbitalCommandFlying);
            let r = RaceValues {
                start_townhall: UnitTypeId::CommandCenter,
                townhalls,
                gas_building: UnitTypeId::Refinery,
                supply: UnitTypeId::SupplyDepot,
                worker: UnitTypeId::SCV,
            };
            proof {
                assert(r.townhalls@ =~= spec_race_values(race).1);
            }
            r
        },
        Race::Zerg => {
            let mut townhalls: Vec<UnitTypeId> = Vec::new();
            townhalls.push(UnitTypeId::Hatchery);
            townhalls.push(UnitTypeId::Lair);
            townhalls.push(UnitTypeId::Hive);
            let r = RaceValues {
                start_townhall: UnitTypeId::Hatchery,
                townhalls,
                gas_building: UnitTypeId::Extractor,
                supply: UnitTypeId::Overlord,
                worker: UnitTypeId::Drone,
            };
            proof {
                assert(r.townhalls@ =~= spec_race_values(race).1);
            }
            r
        },
        _ => {
            let mut townhalls: Vec<UnitTypeId> = Vec::new();
            townhalls.push(UnitTypeId::Nexus);
            let r = RaceValues {
                start_townhall: UnitTypeId::Nexus,
                townhalls,
                gas_building: UnitTypeId::Assimilator,
                supply: UnitTypeId::Pylon,
                worker: UnitTypeId::Probe,
            };
            proof {
                assert(r.townhalls@ =~= spec_race_values(race).1);
            }
            r
        },
    }
}

/// The structure a unit type requires before it can be made, if any.
pub open spec fn spec_tech_requirement(t: UnitTypeId) -> Option<UnitTypeId> {
    match t {
        UnitTypeId::MissileTurret => Some(UnitTypeId::EngineeringBay),
        UnitTypeId::SensorTower => Some(UnitTypeId::EngineeringBay),
        UnitTypeId::PlanetaryFortress => Some(UnitTypeId::EngineeringBay),
        UnitTypeId::Barracks => Some(UnitTypeId::SupplyDepot),
        UnitTypeId::OrbitalCommand => Some(UnitTypeId::Barracks),
        UnitTypeId::Bunker => Some(UnitTypeId::Barracks),
        UnitTypeId::GhostUnit => Some(UnitTypeId::GhostAcademy),
        UnitTypeId::GhostAcademy => Some(UnitTypeId::Barracks),
        UnitTypeId::Factory => Some(UnitTypeId::Barracks),
        UnitTypeId::Armory => Some(UnitTypeId::Factory),
        UnitTypeId::HellionTank => Some(UnitTypeId::Armory),
        UnitTypeId::Thor => Some(UnitTypeId::Armory),
        UnitTypeId::Starport => Some(UnitTypeId::Factory),
        UnitTypeId::FusionCore => Some(UnitTypeId::Starport),
        UnitTypeId::Battlecruiser => Some(UnitTypeId::FusionCore),
        UnitTypeId::PhotonCannon => Some(UnitTypeId::Forge),
        UnitTypeId::CyberneticsCore => Some(UnitTypeId::Gateway),
        UnitTypeId::Sentry => Some(UnitTypeId::CyberneticsCore),
        UnitTypeId::Stalker => Some(UnitTypeId::CyberneticsCore),
        UnitTypeId::Adept => Some(UnitTypeId::CyberneticsCore),
        UnitTypeId::TwilightCouncil => Some(UnitTypeId::CyberneticsCore),
        UnitTypeId::ShieldBattery => Some(UnitTypeId::CyberneticsCore),
        UnitTypeId::TemplarArchive => Some(UnitTypeId::TwilightCouncil),
        UnitTypeId::DarkShrine => Some(UnitTypeId::TwilightCouncil),
        UnitTypeId::HighTemplar => Some(UnitTypeId::TemplarArchive),
        UnitTypeId::DarkTemplar => Some(UnitTypeId::DarkShrine),
        UnitTypeId::Stargate => Some(UnitTypeId::CyberneticsCore),
        UnitTypeId::Tempest => Some(UnitTypeId::FleetBeacon),
        UnitTypeId::Carrier => Some(UnitTypeId::FleetBeacon),
        UnitTypeId::Mothership => Some(UnitTypeId::FleetBeacon),
        UnitTypeId::RoboticsFacility => Some(UnitTypeId::CyberneticsCore),
        UnitTypeId::RoboticsBay => Some(UnitTypeId::RoboticsFacility),
        UnitTypeId::Colossus => Some(UnitTypeId::RoboticsBay),
        UnitTypeId::Disruptor => Some(UnitTypeId::RoboticsBay),
        UnitTypeId::Zergling => Some(UnitTypeId::SpawningPool),
        UnitTypeId::Queen => Some(UnitTypeId::SpawningPool),
        UnitTypeId::RoachWarren => Some(UnitTypeId::SpawningPool),
        UnitTypeId::BanelingNest => Some(UnitTypeId::SpawningPool),
        UnitTypeId::SpineCrawler => Some(UnitTypeId::SpawningPool),
        UnitTypeId::SporeCrawler => Some(UnitTypeId::SpawningPool),
        UnitTypeId::Roach => Some(UnitTypeId::RoachWarren),
        UnitTypeId::Baneling => Some(UnitTypeId::BanelingNest),
        UnitTypeId::Lair => Some(UnitTypeId::SpawningPool),
        UnitTypeId::Overseer => Some(UnitTypeId::Lair),
        UnitTypeId::OverlordTransport => Some(UnitTypeId::Lair),
        UnitTypeId::InfestationPit => Some(UnitTypeId::Lair),
        UnitTypeId::Infestor => Some(UnitTypeId::InfestationPit),
        UnitTypeId::SwarmHostMP => Some(UnitTypeId::InfestationPit),
        UnitTypeId::HydraliskDen => Some(UnitTypeId::Lair),
        UnitTypeId::Hydralisk => Some(UnitTypeId::HydraliskDen),
        UnitTypeId::LurkerDenMP => Some(UnitTypeId::HydraliskDen),
        UnitTypeId::LurkerMP => Some(UnitTypeId::LurkerDenMP),
        UnitTypeId::Spire => Some(UnitTypeId::Lair),
        UnitTypeId::Mutalisk => Some(UnitTypeId::Spire),
        UnitTypeId::Corruptor => Some(UnitTypeId::Spire),
        UnitTypeId::NydusNetwork => Some(UnitTypeId::Lair),
        UnitTypeId::Hive => Some(UnitTypeId::InfestationPit),
        UnitTypeId::Viper => Some(UnitTypeId::Hive),
        UnitTypeId::UltraliskCavern => Some(UnitTypeId::Hive),
        UnitTypeId::GreaterSpire => Some(UnitTypeId::Hive),
        UnitTypeId::BroodLord => Some(UnitTypeId::GreaterSpire),
        _ => None,
    }
}

/// The structure a unit type requires before it can be made, if any.
pub fn tech_requirement(t: UnitTypeId) -> (r: Option<UnitTypeId>)
    ensures
        r == spec_tech_requirement(t),
{
    match t {
        UnitTypeId::MissileTurret => Some(UnitTypeId::EngineeringBay),
        UnitTypeId::SensorTower => Some(UnitTypeId::EngineeringBay),
        UnitTypeId::PlanetaryFortress => Some(UnitTypeId::EngineeringBay),
        UnitTypeId::Barracks => Some(UnitTypeId::SupplyDepot),
        UnitTypeId::OrbitalCommand => Some(UnitTypeId::Barracks),
        UnitTypeId::Bunker => Some(UnitTypeId::Barracks),
        UnitTypeId::GhostUnit => Some(UnitTypeId::GhostAcademy),
        UnitTypeId::GhostAcademy => Some(UnitTypeId::Barracks),
        UnitTypeId::Factory => Some(UnitTypeId::Barracks),
        UnitTypeId::Armory => Some(UnitTypeId::Factory),
        UnitTypeId::HellionTank => Some(UnitTypeId::Armory),
        UnitTypeId::Thor => Some(UnitTypeId::Armory),
        UnitTypeId::Starport => Some(UnitTypeId::Factory),
        UnitTypeId::FusionCore => Some(UnitTypeId::Starport),
        UnitTypeId::Battlecruiser => Some(UnitTypeId::FusionCore),
        UnitTypeId::PhotonCannon => Some(UnitTypeId::Forge),
        UnitTypeId::CyberneticsCore => Some(UnitTypeId::Gateway),
        UnitTypeId::Sentry => Some(UnitTypeId::CyberneticsCore),
        UnitTypeId::Stalker => Some(UnitTypeId::CyberneticsCore),
        UnitTypeId::Adept => Some(UnitTypeId::CyberneticsCore),
        UnitTypeId::TwilightCouncil => Some(UnitTypeId::CyberneticsCore),
        UnitTypeId::ShieldBattery => Some(UnitTypeId::CyberneticsCore),
        UnitTypeId::TemplarArchive => Some(UnitTypeId::TwilightCouncil),
        UnitTypeId::DarkShrine => Some(UnitTypeId::TwilightCouncil),
        UnitTypeId::HighTemplar => Some(UnitTypeId::TemplarArchive),
        UnitTypeId::DarkTemplar => Some(UnitTypeId::DarkShrine),
        UnitTypeId::Stargate => Some(UnitTypeId::CyberneticsCore),
        UnitTypeId::Tempest => Some(UnitTypeId::FleetBeacon),
        UnitTypeId::Carrier => Some(UnitTypeId::FleetBeacon),
        UnitTypeId::Mothership => Some(UnitTypeId::FleetBeacon),
        UnitTypeId::RoboticsFacility => Some(UnitTypeId::CyberneticsCore),
        UnitTypeId::RoboticsBay => Some(UnitTypeId::RoboticsFacility),
        UnitTypeId::Colossus => Some(UnitTypeId::RoboticsBay),
        UnitTypeId::Disruptor => Some(UnitTypeId::RoboticsBay),
        UnitTypeId::Zergling => Some(UnitTypeId::SpawningPool),
        UnitTypeId::Queen => Some(UnitTypeId::SpawningPool),
        UnitTypeId::RoachWarren => Some(UnitTypeId::SpawningPool),
        UnitTypeId::BanelingNest => Some(UnitTypeId::SpawningPool),
        UnitTypeId::SpineCrawler => Some(UnitTypeId::SpawningPool),
        UnitTypeId::SporeCrawler => Some(UnitTypeId::SpawningPool),
        UnitTypeId::Roach => Some(UnitTypeId::RoachWarren),
        UnitTypeId::Baneling => Some(UnitTypeId::BanelingNest),
        UnitTypeId::Lair => Some(UnitTypeId::SpawningPool),
        UnitTypeId::Overseer => Some(UnitTypeId::Lair),
        UnitTypeId::OverlordTransport => Some(UnitTypeId::Lair),
        UnitTypeId::InfestationPit => Some(UnitTypeId::Lair),
        UnitTypeId::Infestor => Some(UnitTypeId::InfestationPit),
        UnitTypeId::SwarmHostMP => Some(UnitTypeId::InfestationPit),
        UnitTypeId::HydraliskDen => Some(UnitTypeId::Lair),
        UnitTypeId::Hydralisk => Some(UnitTypeId::HydraliskDen),
        UnitTypeId::LurkerDenMP => Some(UnitTypeId::HydraliskDen),
        UnitTypeId::LurkerMP => Some(UnitTypeId::LurkerDenMP),
        UnitTypeId::Spire => Some(UnitTypeId::Lair),
        UnitTypeId::Mutalisk => Some(UnitTypeId::Spire),
        UnitTypeId::Corruptor => Some(UnitTypeId::Spire),
        UnitTypeId::NydusNetwork => Some(UnitTypeId::Lair),
        UnitTypeId::Hive => Some(UnitTypeId::InfestationPit),
        UnitTypeId::Viper => Some(UnitTypeId::Hive),
        UnitTypeId::UltraliskCavern => Some(UnitTypeId::Hive),
        UnitTypeId::GreaterSpire => Some(UnitTypeId::Hive),
        UnitTypeId::BroodLord => Some(UnitTypeId::GreaterSpire),
        _ => None,
    }
}

/// The ability a warp gate uses to warp in a unit type, if any.
pub open spec fn spec_warpgate_ability(t: UnitTypeId) -> Option<AbilityId> {
    match t {
        UnitTypeId::Zealot => Some(AbilityId::WarpGateTrainZealot),
        UnitTypeId::Stalker => Some(AbilityId::WarpGateTrainStalker),
        UnitTypeId::HighTemplar => Some(AbilityId::WarpGateTrainHighTemplar),
        UnitTypeId::DarkTemplar => Some(AbilityId::WarpGateTrainDarkTemplar),
        UnitTypeId::Sentry => Some(AbilityId::WarpGateTrainSentry),
        UnitTypeId::Adept => Some(AbilityId::TrainWarpAdept),
        _ => None,
    }
}

/// The ability a warp gate uses to warp in a unit type, if any.
pub fn warpgate_ability(t: UnitTypeId) -> (r: Option<AbilityId>)
    ensures
        r == spec_warpgate_ability(t),
{
    match t {
        UnitTypeId::Zealot => Some(AbilityId::WarpGateTrainZealot),
        UnitTypeId::Stalker => Some(AbilityId::WarpGateTrainStalker),
        UnitTypeId::HighTemplar => Some(AbilityId::WarpGateTrainHighTemplar),
        UnitTypeId::DarkTemplar => Some(AbilityId::WarpGateTrainDarkTemplar),
        UnitTypeId::Sentry => Some(AbilityId::WarpGateTrainSentry),
        UnitTypeId::Adept => Some(AbilityId::TrainWarpAdept),
        _ => None,
    }
}

} // verus!
