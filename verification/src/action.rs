//! Results of the actions a bot sends, and the errors reported for them.

use vstd::prelude::*;
use crate::ids::AbilityId;

verus! {

/// The result the game reports for an action or a placement query.
#[derive(Debug, Clone, Copy, PartialEq, Eq, Structural, Hash)]
pub enum ActionResult {
    Success,
    NotSupported,
    Error,
    CantQueueThatOrder,
    Retry,
    Cooldown,
    QueueIsFull,
    RallyQueueIsFull,
    NotEnoughMinerals,
    NotEnoughVespene,
    NotEnoughTerrazine,
    NotEnoughCustom,
    NotEnoughFood,
    FoodUsageImpossible,
    NotEnoughLife,
    NotEnoughShields,
    NotEnoughEnergy,
    LifeSuppressed,
    ShieldsSuppressed,
    EnergySuppressed,
    NotEnoughCharges,
    CantAddMoreCharges,
    TooMuchMinerals,
    TooMuchVespene,
    TooMuchTerrazine,
    TooMuchCustom,
    TooMuchFood,
    TooMuchLife,
    TooMuchShields,
    TooMuchEnergy,
    MustTargetUnitWithLife,
    MustTargetUnitWithShields,
    MustTargetUnitWithEnergy,
    CantTrade,
    CantSpend,
    CantTargetThatUnit,
    CouldntAllocateUnit,
    UnitCantMove,
    TransportIsHoldingPosition,
    BuildTechRequirementsNotMet,
    CantFindPlacementLocation,
    CantBuildOnThat,
    CantBuildTooCloseToDropOff,
    CantBuildLocationInvalid,
    CantSeeBuildLocation,
    CantBuildTooCloseToCreepSource,
    CantBuildTooCloseToResources,
    CantBuildTooFarFromWater,
    CantBuildTooFarFromCreepSource,
    CantBuildTooFarFromBuildPowerSource,
    CantBuildOnDenseTerrain,
    CantTrainTooFarFromTrainPowerSource,
    CantLandLocationInvalid,
    CantSeeLandLocation,
    CantLandTooCloseToCreepSource,
    CantLandTooCloseToResources,
    CantLandTooFarFromWater,
    CantLandTooFarFromCreepSource,
    CantLandTooFarFromBuildPowerSource,
    CantLandTooFarFromTrainPowerSource,
    CantLandOnDenseTerrain,
    AddOnTooFarFromBuilding,
    MustBuildRefineryFirst,
    BuildingIsUnderConstruction,
    CantFindDropOff,
    CantLoadOtherPlayersUnits,
    NotEnoughRoomToLoadUnit,
    CantUnloadUnitsThere,
    CantWarpInUnitsThere,
    CantLoadImmobileUnits,
    CantRechargeImmobileUnits,
    CantRechargeUnderConstructionUnits,
    CantLoadThatUnit,
    NoCargoToUnload,
    LoadAllNoTargetsFound,
    NotWhileOccupied,
    CantAttackWithoutAmmo,
    CantHoldAnyMoreAmmo,
    TechRequirementsNotMet,
    MustLockdownUnitFirst,
    MustTargetUnit,
    MustTargetInventory,
    MustTargetVisibleUnit,
    MustTargetVisibleLocation,
    MustTargetWalkableLocation,
    MustTargetPawnableUnit,
    YouCantControlThatUnit,
    YouCantIssueCommandsToThatUnit,
    MustTargetResources,
    RequiresHealTarget,
    RequiresRepairTarget,
    NoItemsToDrop,
    CantHoldAnyMoreItems,
    CantHoldThat,
    TargetHasNoInventory,
    CantDropThisItem,
    CantMoveThisItem,
    CantPawnThisUnit,
    MustTargetCaster,
    CantTargetCaster,
    MustTargetOuter,
    CantTargetOuter,
    MustTargetYourOwnUnits,
    CantTargetYourOwnUnits,
    MustTargetFriendlyUnits,
    CantTargetFriendlyUnits,
    MustTargetNeutralUnits,
    CantTargetNeutralUnits,
    MustTargetEnemyUnits,
    CantTargetEnemyUnits,
    MustTargetAirUnits,
    CantTargetAirUnits,
    MustTargetGroundUnits,
    CantTargetGroundUnits,
    MustTargetStructures,
    CantTargetStructures,
    MustTargetLightUnits,
    CantTargetLightUnits,
    MustTargetArmoredUnits,
    CantTargetArmoredUnits,
    MustTargetBiologicalUnits,
    CantTargetBiologicalUnits,
    MustTargetHeroicUnits,
    CantTargetHeroicUnits,
    MustTargetRoboticUnits,
    CantTargetRoboticUnits,
    MustTargetMechanicalUnits,
    CantTargetMechanicalUnits,
    MustTargetPsionicUnits,
    CantTargetPsionicUnits,
    MustTargetMassiveUnits,
    CantTargetMassiveUnits,
    MustTargetMissile,
    CantTargetMissile,
    MustTargetWorkerUnits,
    CantTargetWorkerUnits,
    MustTargetEnergyCapableUnits,
    CantTargetEnergyCapableUnits,
    MustTargetShieldCapableUnits,
    CantTargetShieldCapableUnits,
    MustTargetFlyers,
    CantTargetFlyers,
    MustTargetBuriedUnits,
    CantTargetBuriedUnits,
    MustTargetCloakedUnits,
    CantTargetCloakedUnits,
    MustTargetUnitsInAStasisField,
    CantTargetUnitsInAStasisField,
    MustTargetUnderConstructionUnits,
    CantTargetUnderConstructionUnits,
    MustTargetDeadUnits,
    CantTargetDeadUnits,
    MustTargetRevivableUnits,
    CantTargetRevivableUnits,
    MustTargetHiddenUnits,
    CantTargetHiddenUnits,
    CantRechargeOtherPlayersUnits,
    MustTargetHallucinations,
    CantTargetHallucinations,
    MustTargetInvulnerableUnits,
    CantTargetInvulnerableUnits,
    MustTargetDetectedUnits,
    CantTargetDetectedUnits,
    CantTargetUnitWithEnergy,
    CantTargetUnitWithShields,
    MustTargetUncommandableUnits,
    CantTargetUncommandableUnits,
    MustTargetPreventDefeatUnits,
    CantTargetPreventDefeatUnits,
    MustTargetPreventRevealUnits,
    CantTargetPreventRevealUnits,
    MustTargetPassiveUnits,
    CantTargetPassiveUnits,
    MustTargetStunnedUnits,
    CantTargetStunnedUnits,
    MustTargetSummonedUnits,
    CantTargetSummonedUnits,
    MustTargetUser1,
    CantTargetUser1,
    MustTargetUnstoppableUnits,
    CantTargetUnstoppableUnits,
    MustTargetResistantUnits,
    CantTargetResistantUnits,
    MustTargetDazedUnits,
    CantTargetDazedUnits,
    CantLockdown,
    CantMindControl,
    MustTargetDestructibles,
    CantTargetDestructibles,
    MustTargetItems,
    CantTargetItems,
    NoCalldownAvailable,
    WaypointListFull,
    MustTargetRace,
    CantTargetRace,
    MustTargetSimilarUnits,
    CantTargetSimilarUnits,
    CantFindEnoughTargets,
    AlreadySpawningLarva,
    CantTargetExhaustedResources,
    CantUseMinimap,
    CantUseInfoPanel,
    OrderQueueIsFull,
    CantHarvestThatResource,
    HarvestersNotRequired,
    AlreadyTargeted,
    CantAttackWeaponsDisabled,
    CouldntReachTarget,
    TargetIsOutOfRange,
    TargetIsTooClose,
    TargetIsOutOfArc,
    CantFindTeleportLocation,
    InvalidItemClass,
    CantFindCancelOrder,
}

impl ActionResult {
    /// Whether the action succeeded.
    pub fn is_success(self) -> (r: bool)
        ensures
            r == (self is Success),
    {
        matches!(self, ActionResult::Success)
    }

    /// The number of this result in the game's protocol: the results are
    /// numbered from 1 in the order of declaration.
    pub open spec fn number(self) -> int {
        match self {
            ActionResult::Success => 1,
            ActionResult::NotSupported => 2,
            ActionResult::Error => 3,
            ActionResult::CantQueueThatOrder => 4,
            ActionResult::Retry => 5,
            ActionResult::Cooldown => 6,
            ActionResult::QueueIsFull => 7,
            ActionResult::RallyQueueIsFull => 8,
            ActionResult::NotEnoughMinerals => 9,
            ActionResult::NotEnoughVespene => 10,
            ActionResult::NotEnoughTerrazine => 11,
            ActionResult::NotEnoughCustom => 12,
            ActionResult::NotEnoughFood => 13,
            ActionResult::FoodUsageImpossible => 14,
            ActionResult::NotEnoughLife => 15,
            ActionResult::NotEnoughShields => 16,
            ActionResult::NotEnoughEnergy => 17,
            ActionResult::LifeSuppressed => 18,
            ActionResult::ShieldsSuppressed => 19,
            ActionResult::EnergySuppressed => 20,
            ActionResult::NotEnoughCharges => 21,
            ActionResult::CantAddMoreCharges => 22,
            ActionResult::TooMuchMinerals => 23,
            ActionResult::TooMuchVespene => 24,
            ActionResult::TooMuchTerrazine => 25,
            ActionResult::TooMuchCustom => 26,
            ActionResult::TooMuchFood => 27,
            ActionResult::TooMuchLife => 28,
            ActionResult::TooMuchShields => 29,
            ActionResult::TooMuchEnergy => 30,
            ActionResult::MustTargetUnitWithLife => 31,
            ActionResult::MustTargetUnitWithShields => 32,
            ActionResult::MustTargetUnitWithEnergy => 33,
            ActionResult::CantTrade => 34,
            ActionResult::CantSpend => 35,
            ActionResult::CantTargetThatUnit => 36,
            ActionResult::CouldntAllocateUnit => 37,
            ActionResult::UnitCantMove => 38,
            ActionResult::TransportIsHoldingPosition => 39,
            ActionResult::BuildTechRequirementsNotMet => 40,
            ActionResult::CantFindPlacementLocation => 41,
            ActionResult::CantBuildOnThat => 42,
            ActionResult::CantBuildTooCloseToDropOff => 43,
            ActionResult::CantBuildLocationInvalid => 44,
            ActionResult::CantSeeBuildLocation => 45,
            ActionResult::CantBuildTooCloseToCreepSource => 46,
            ActionResult::CantBuildTooCloseToResources => 47,
            ActionResult::CantBuildTooFarFromWater => 48,
            ActionResult::CantBuildTooFarFromCreepSource => 49,
            ActionResult::CantBuildTooFarFromBuildPowerSource => 50,
            ActionResult::CantBuildOnDenseTerrain => 51,
            ActionResult::CantTrainTooFarFromTrainPowerSource => 52,
            ActionResult::CantLandLocationInvalid => 53,
            ActionResult::CantSeeLandLocation => 54,
            ActionResult::CantLandTooCloseToCreepSource => 55,
            ActionResult::CantLandTooCloseToResources => 56,
            ActionResult::CantLandTooFarFromWater => 57,
            ActionResult::CantLandTooFarFromCreepSource => 58,
            ActionResult::CantLandTooFarFromBuildPowerSource => 59,
            ActionResult::CantLandTooFarFromTrainPowerSource => 60,
            ActionResult::CantLandOnDenseTerrain => 61,
            ActionResult::AddOnTooFarFromBuilding => 62,
            ActionResult::MustBuildRefineryFirst => 63,
            ActionResult::BuildingIsUnderConstruction => 64,
            ActionResult::CantFindDropOff => 65,
            ActionResult::CantLoadOtherPlayersUnits => 66,
            ActionResult::NotEnoughRoomToLoadUnit => 67,
            ActionResult::CantUnloadUnitsThere => 68,
            ActionResult::CantWarpInUnitsThere => 69,
            ActionResult::CantLoadImmobileUnits => 70,
            ActionResult::CantRechargeImmobileUnits => 71,
            ActionResult::CantRechargeUnderConstructionUnits => 72,
            ActionResult::CantLoadThatUnit => 73,
            ActionResult::NoCargoToUnload => 74,
            ActionResult::LoadAllNoTargetsFound => 75,
            ActionResult::NotWhileOccupied => 76,
            ActionResult::CantAttackWithoutAmmo => 77,
            ActionResult::CantHoldAnyMoreAmmo => 78,
            ActionResult::TechRequirementsNotMet => 79,
            ActionResult::MustLockdownUnitFirst => 80,
            ActionResult::MustTargetUnit => 81,
            ActionResult::MustTargetInventory => 82,
            ActionResult::MustTargetVisibleUnit => 83,
            ActionResult::MustTargetVisibleLocation => 84,
            ActionResult::MustTargetWalkableLocation => 85,
            ActionResult::MustTargetPawnableUnit => 86,
            ActionResult::YouCantControlThatUnit => 87,
            ActionResult::YouCantIssueCommandsToThatUnit => 88,
            ActionResult::MustTargetResources => 89,
            ActionResult::RequiresHealTarget => 90,
            ActionResult::RequiresRepairTarget => 91,
            ActionResult::NoItemsToDrop => 92,
            ActionResult::CantHoldAnyMoreItems => 93,
            ActionResult::CantHoldThat => 94,
            ActionResult::TargetHasNoInventory => 95,
            ActionResult::CantDropThisItem => 96,
            ActionResult::CantMoveThisItem => 97,
            ActionResult::CantPawnThisUnit => 98,
            ActionResult::MustTargetCaster => 99,
            ActionResult::CantTargetCaster => 100,
            ActionResult::MustTargetOuter => 101,
            ActionResult::CantTargetOuter => 102,
            ActionResult::MustTargetYourOwnUnits => 103,
            ActionResult::CantTargetYourOwnUnits => 104,
            ActionResult::MustTargetFriendlyUnits => 105,
            ActionResult::CantTargetFriendlyUnits => 106,
            ActionResult::MustTargetNeutralUnits => 107,
            ActionResult::CantTargetNeutralUnits => 108,
            ActionResult::MustTargetEnemyUnits => 109,
            ActionResult::CantTargetEnemyUnits => 110,
            ActionResult::MustTargetAirUnits => 111,
            ActionResult::CantTargetAirUnits => 112,
            ActionResult::MustTargetGroundUnits => 113,
            ActionResult::CantTargetGroundUnits => 114,
            ActionResult::MustTargetStructures => 115,
            ActionResult::CantTargetStructures => 116,
            ActionResult::MustTargetLightUnits => 117,
            ActionResult::CantTargetLightUnits => 118,
            ActionResult::MustTargetArmoredUnits => 119,
            ActionResult::CantTargetArmoredUnits => 120,
            ActionResult::MustTargetBiologicalUnits => 121,
            ActionResult::CantTargetBiologicalUnits => 122,
            ActionResult::MustTargetHeroicUnits => 123,
            ActionResult::CantTargetHeroicUnits => 124,
            ActionResult::MustTargetRoboticUnits => 125,
            ActionResult::CantTargetRoboticUnits => 126,
            ActionResult::MustTargetMechanicalUnits => 127,
            ActionResult::CantTargetMechanicalUnits => 128,
            ActionResult::MustTargetPsionicUnits => 129,
            ActionResult::CantTargetPsionicUnits => 130,
            ActionResult::MustTargetMassiveUnits => 131,
            ActionResult::CantTargetMassiveUnits => 132,
            ActionResult::MustTargetMissile => 133,
            ActionResult::CantTargetMissile => 134,
            ActionResult::MustTargetWorkerUnits => 135,
            ActionResult::CantTargetWorkerUnits => 136,
            ActionResult::MustTargetEnergyCapableUnits => 137,
            ActionResult::CantTargetEnergyCapableUnits => 138,
            ActionResult::MustTargetShieldCapableUnits => 139,
            ActionResult::CantTargetShieldCapableUnits => 140,
            ActionResult::MustTargetFlyers => 141,
            ActionResult::CantTargetFlyers => 142,
            ActionResult::MustTargetBuriedUnits => 143,
            ActionResult::CantTargetBuriedUnits => 144,
            ActionResult::MustTargetCloakedUnits => 145,
            ActionResult::CantTargetCloakedUnits => 146,
            ActionResult::MustTargetUnitsInAStasisField => 147,
            ActionResult::CantTargetUnitsInAStasisField => 148,
            ActionResult::MustTargetUnderConstructionUnits => 149,
            ActionResult::CantTargetUnderConstructionUnits => 150,
            ActionResult::MustTargetDeadUnits => 151,
            ActionResult::CantTargetDeadUnits => 152,
            ActionResult::MustTargetRevivableUnits => 153,
            ActionResult::CantTargetRevivableUnits => 154,
            ActionResult::MustTargetHiddenUnits => 155,
            ActionResult::CantTargetHiddenUnits => 156,
            ActionResult::CantRechargeOtherPlayersUnits => 157,
            ActionResult::MustTargetHallucinations => 158,
            ActionResult::CantTargetHallucinations => 159,
            ActionResult::MustTargetInvulnerableUnits => 160,
            ActionResult::CantTargetInvulnerableUnits => 161,
            ActionResult::MustTargetDetectedUnits => 162,
            ActionResult::CantTargetDetectedUnits => 163,
            ActionResult::CantTargetUnitWithEnergy => 164,
            ActionResult::CantTargetUnitWithShields => 165,
            ActionResult::MustTargetUncommandableUnits => 166,
            ActionResult::CantTargetUncommandableUnits => 167,
            ActionResult::MustTargetPreventDefeatUnits => 168,
            ActionResult::CantTargetPreventDefeatUnits => 169,
            ActionResult::MustTargetPreventRevealUnits => 170,
            ActionResult::CantTargetPreventRevealUnits => 171,
            ActionResult::MustTargetPassiveUnits => 172,
            ActionResult::CantTargetPassiveUnits => 173,
            ActionResult::MustTargetStunnedUnits => 174,
            ActionResult::CantTargetStunnedUnits => 175,
            ActionResult::MustTargetSummonedUnits => 176,
            ActionResult::CantTargetSummonedUnits => 177,
            ActionResult::MustTargetUser1 => 178,
            ActionResult::CantTargetUser1 => 179,
            ActionResult::MustTargetUnstoppableUnits => 180,
            ActionResult::CantTargetUnstoppableUnits => 181,
            ActionResult::MustTargetResistantUnits => 182,
            ActionResult::CantTargetResistantUnits => 183,
            ActionResult::MustTargetDazedUnits => 184,
            ActionResult::CantTargetDazedUnits => 185,
            ActionResult::CantLockdown => 186,
            ActionResult::CantMindControl => 187,
            ActionResult::MustTargetDestructibles => 188,
            ActionResult::CantTargetDestructibles => 189,
            ActionResult::MustTargetItems => 190,
            ActionResult::CantTargetItems => 191,
            ActionResult::NoCalldownAvailable => 192,
            ActionResult::WaypointListFull => 193,
            ActionResult::MustTargetRace => 194,
            ActionResult::CantTargetRace => 195,
            ActionResult::MustTargetSimilarUnits => 196,
            ActionResult::CantTargetSimilarUnits => 197,
            ActionResult::CantFindEnoughTargets => 198,
            ActionResult::AlreadySpawningLarva => 199,
            ActionResult::CantTargetExhaustedResources => 200,
            ActionResult::CantUseMinimap => 201,
            ActionResult::CantUseInfoPanel => 202,
            ActionResult::OrderQueueIsFull => 203,
            ActionResult::CantHarvestThatResource => 204,
            ActionResult::HarvestersNotRequired => 205,
            ActionResult::AlreadyTargeted => 206,
            ActionResult::CantAttackWeaponsDisabled => 207,
            ActionResult::CouldntReachTarget => 208,
            ActionResult::TargetIsOutOfRange => 209,
            ActionResult::TargetIsTooClose => 210,
            ActionResult::TargetIsOutOfArc => 211,
            ActionResult::CantFindTeleportLocation => 212,
            ActionResult::InvalidItemClass => 213,
            ActionResult::CantFindCancelOrder => 214,
        }
    }

    /// The result numbered `n` in the game's protocol, if any.
    pub open spec fn with_number(n: int) -> Option<ActionResult> {
        if n == 1 {
            Some(ActionResult::Success)
        } else if n == 2 {
            Some(ActionResult::NotSupported)
        } else if n == 3 {
            Some(ActionResult::Error)
        } else if n == 4 {
            Some(ActionResult::CantQueueThatOrder)
        } else if n == 5 {
            Some(ActionResult::Retry)
        } else if n == 6 {
            Some(ActionResult::Cooldown)
        } else if n == 7 {
            Some(ActionResult::QueueIsFull)
        } else if n == 8 {
            Some(ActionResult::RallyQueueIsFull)
        } else if n == 9 {
            Some(ActionResult::NotEnoughMinerals)
        } else if n == 10 {
            Some(ActionResult::NotEnoughVespene)
        } else if n == 11 {
            Some(ActionResult::NotEnoughTerrazine)
        } else if n == 12 {
            Some(ActionResult::NotEnoughCustom)
        } else if n == 13 {
            Some(ActionResult::NotEnoughFood)
        } else if n == 14 {
            Some(ActionResult::FoodUsageImpossible)
        } else if n == 15 {
            Some(ActionResult::NotEnoughLife)
        } else if n == 16 {
            Some(ActionResult::NotEnoughShields)
        } else if n == 17 {
            Some(ActionResult::NotEnoughEnergy)
        } else if n == 18 {
            Some(ActionResult::LifeSuppressed)
        } else if n == 19 {
            Some(ActionResult::ShieldsSuppressed)
        } else if n == 20 {
            Some(ActionResult::EnergySuppressed)
        } else if n == 21 {
            Some(ActionResult::NotEnoughCharges)
        } else if n == 22 {
            Some(ActionResult::CantAddMoreCharges)
        } else if n == 23 {
            Some(ActionResult::TooMuchMinerals)
        } else if n == 24 {
            Some(ActionResult::TooMuchVespene)
        } else if n == 25 {
            Some(ActionResult::TooMuchTerrazine)
        } else if n == 26 {
            Some(ActionResult::TooMuchCustom)
        } else if n == 27 {
            Some(ActionResult::TooMuchFood)
        } else if n == 28 {
            Some(ActionResult::TooMuchLife)
        } else if n == 29 {
            Some(ActionResult::TooMuchShields)
        } else if n == 30 {
            Some(ActionResult::TooMuchEnergy)
        } else if n == 31 {
            Some(ActionResult::MustTargetUnitWithLife)
        } else if n == 32 {
            Some(ActionResult::MustTargetUnitWithShields)
        } else if n == 33 {
            Some(ActionResult::MustTargetUnitWithEnergy)
        } else if n == 34 {
            Some(ActionResult::CantTrade)
        } else if n == 35 {
            Some(ActionResult::CantSpend)
        } else if n == 36 {
            Some(ActionResult::CantTargetThatUnit)
        } else if n == 37 {
            Some(ActionResult::CouldntAllocateUnit)
        } else if n == 38 {
            Some(ActionResult::UnitCantMove)
        } else if n == 39 {
            Some(ActionResult::TransportIsHoldingPosition)
        } else if n == 40 {
            Some(ActionResult::BuildTechRequirementsNotMet)
        } else if n == 41 {
            Some(ActionResult::CantFindPlacementLocation)
        } else if n == 42 {
            Some(ActionResult::CantBuildOnThat)
        } else if n == 43 {
            Some(ActionResult::CantBuildTooCloseToDropOff)
        } else if n == 44 {
            Some(ActionResult::CantBuildLocationInvalid)
        } else if n == 45 {
            Some(ActionResult::CantSeeBuildLocation)
        } else if n == 46 {
            Some(ActionResult::CantBuildTooCloseToCreepSource)
        } else if n == 47 {
            Some(ActionResult::CantBuildTooCloseToResources)
        } else if n == 48 {
            Some(ActionResult::CantBuildTooFarFromWater)
        } else if n == 49 {
            Some(ActionResult::CantBuildTooFarFromCreepSource)
        } else if n == 50 {
            Some(ActionResult::CantBuildTooFarFromBuildPowerSource)
        } else if n == 51 {
            Some(ActionResult::CantBuildOnDenseTerrain)
        } else if n == 52 {
            Some(ActionResult::CantTrainTooFarFromTrainPowerSource)
        } else if n == 53 {
            Some(ActionResult::CantLandLocationInvalid)
        } else if n == 54 {
            Some(ActionResult::CantSeeLandLocation)
        } else if n == 55 {
            Some(ActionResult::CantLandTooCloseToCreepSource)
        } else if n == 56 {
            Some(ActionResult::CantLandTooCloseToResources)
        } else if n == 57 {
            Some(ActionResult::CantLandTooFarFromWater)
        } else if n == 58 {
            Some(ActionResult::CantLandTooFarFromCreepSource)
        } else if n == 59 {
            Some(ActionResult::CantLandTooFarFromBuildPowerSource)
        } else if n == 60 {
            Some(ActionResult::CantLandTooFarFromTrainPowerSource)
        } else if n == 61 {
            Some(ActionResult::CantLandOnDenseTerrain)
        } else if n == 62 {
            Some(ActionResult::AddOnTooFarFromBuilding)
        } else if n == 63 {
            Some(ActionResult::MustBuildRefineryFirst)
        } else if n == 64 {
            Some(ActionResult::BuildingIsUnderConstruction)
        } else if n == 65 {
            Some(ActionResult::CantFindDropOff)
        } else if n == 66 {
            Some(ActionResult::CantLoadOtherPlayersUnits)
        } else if n == 67 {
            Some(ActionResult::NotEnoughRoomToLoadUnit)
        } else if n == 68 {
            Some(ActionResult::CantUnloadUnitsThere)
        } else if n == 69 {
            Some(ActionResult::CantWarpInUnitsThere)
        } else if n == 70 {
            Some(ActionResult::CantLoadImmobileUnits)
        } else if n == 71 {
            Some(ActionResult::CantRechargeImmobileUnits)
        } else if n == 72 {
            Some(ActionResult::CantRechargeUnderConstructionUnits)
        } else if n == 73 {
            Some(ActionResult::CantLoadThatUnit)
        } else if n == 74 {
            Some(ActionResult::NoCargoToUnload)
        } else if n == 75 {
            Some(ActionResult::LoadAllNoTargetsFound)
        } else if n == 76 {
            Some(ActionResult::NotWhileOccupied)
        } else if n == 77 {
            Some(ActionResult::CantAttackWithoutAmmo)
        } else if n == 78 {
            Some(ActionResult::CantHoldAnyMoreAmmo)
        } else if n == 79 {
            Some(ActionResult::TechRequirementsNotMet)
        } else if n == 80 {
            Some(ActionResult::MustLockdownUnitFirst)
        } else if n == 81 {
            Some(ActionResult::MustTargetUnit)
        } else if n == 82 {
            Some(ActionResult::MustTargetInventory)
        } else if n == 83 {
            Some(ActionResult::MustTargetVisibleUnit)
        } else if n == 84 {
            Some(ActionResult::MustTargetVisibleLocation)
        } else if n == 85 {
            Some(ActionResult::MustTargetWalkableLocation)
        } else if n == 86 {
            Some(ActionResult::MustTargetPawnableUnit)
        } else if n == 87 {
            Some(ActionResult::YouCantControlThatUnit)
        } else if n == 88 {
            Some(ActionResult::YouCantIssueCommandsToThatUnit)
        } else if n == 89 {
            Some(ActionResult::MustTargetResources)
        } else if n == 90 {
            Some(ActionResult::RequiresHealTarget)
        } else if n == 91 {
            Some(ActionResult::RequiresRepairTarget)
        } else if n == 92 {
            Some(ActionResult::NoItemsToDrop)
        } else if n == 93 {
            Some(ActionResult::CantHoldAnyMoreItems)
        } else if n == 94 {
            Some(ActionResult::CantHoldThat)
        } else if n == 95 {
            Some(ActionResult::TargetHasNoInventory)
        } else if n == 96 {
            Some(ActionResult::CantDropThisItem)
        } else if n == 97 {
            Some(ActionResult::CantMoveThisItem)
        } else if n == 98 {
            Some(ActionResult::CantPawnThisUnit)
        } else if n == 99 {
            Some(ActionResult::MustTargetCaster)
        } else if n == 100 {
            Some(ActionResult::CantTargetCaster)
        } else if n == 101 {
            Some(ActionResult::MustTargetOuter)
        } else if n == 102 {
            Some(ActionResult::CantTargetOuter)
        } else if n == 103 {
            Some(ActionResult::MustTargetYourOwnUnits)
        } else if n == 104 {
            Some(ActionResult::CantTargetYourOwnUnits)
        } else if n == 105 {
            Some(ActionResult::MustTargetFriendlyUnits)
        } else if n == 106 {
            Some(ActionResult::CantTargetFriendlyUnits)
        } else if n == 107 {
            Some(ActionResult::MustTargetNeutralUnits)
        } else if n == 108 {
            Some(ActionResult::CantTargetNeutralUnits)
        } else if n == 109 {
            Some(ActionResult::MustTargetEnemyUnits)
        } else if n == 110 {
            Some(ActionResult::CantTargetEnemyUnits)
        } else if n == 111 {
            Some(ActionResult::MustTargetAirUnits)
        } else if n == 112 {
            Some(ActionResult::CantTargetAirUnits)
        } else if n == 113 {
            Some(ActionResult::MustTargetGroundUnits)
        } else if n == 114 {
            Some(ActionResult::CantTargetGroundUnits)
        } else if n == 115 {
            Some(ActionResult::MustTargetStructures)
        } else if n == 116 {
            Some(ActionResult::CantTargetStructures)
        } else if n == 117 {
            Some(ActionResult::MustTargetLightUnits)
        } else if n == 118 {
            Some(ActionResult::CantTargetLightUnits)
        } else if n == 119 {
            Some(ActionResult::MustTargetArmoredUnits)
        } else if n == 120 {
            Some(ActionResult::CantTargetArmoredUnits)
        } else if n == 121 {
            Some(ActionResult::MustTargetBiologicalUnits)
        } else if n == 122 {
            Some(ActionResult::CantTargetBiologicalUnits)
        } else if n == 123 {
            Some(ActionResult::MustTargetHeroicUnits)
        } else if n == 124 {
            Some(ActionResult::CantTargetHeroicUnits)
        } else if n == 125 {
            Some(ActionResult::MustTargetRoboticUnits)
        } else if n == 126 {
            Some(ActionResult::CantTargetRoboticUnits)
        } else if n == 127 {
            Some(ActionResult::MustTargetMechanicalUnits)
        } else if n == 128 {
            Some(ActionResult::CantTargetMechanicalUnits)
        } else if n == 129 {
            Some(ActionResult::MustTargetPsionicUnits)
        } else if n == 130 {
            Some(ActionResult::CantTargetPsionicUnits)
        } else if n == 131 {
            Some(ActionResult::MustTargetMassiveUnits)
        } else if n == 132 {
            Some(ActionResult::CantTargetMassiveUnits)
        } else if n == 133 {
            Some(ActionResult::MustTargetMissile)
        } else if n == 134 {
            Some(ActionResult::CantTargetMissile)
        } else if n == 135 {
            Some(ActionResult::MustTargetWorkerUnits)
        } else if n == 136 {
            Some(ActionResult::CantTargetWorkerUnits)
        } else if n == 137 {
            Some(ActionResult::MustTargetEnergyCapableUnits)
        } else if n == 138 {
            Some(ActionResult::CantTargetEnergyCapableUnits)
        } else if n == 139 {
            Some(ActionResult::MustTargetShieldCapableUnits)
        } else if n == 140 {
            Some(ActionResult::CantTargetShieldCapableUnits)
        } else if n == 141 {
            Some(ActionResult::MustTargetFlyers)
        } else if n == 142 {
            Some(ActionResult::CantTargetFlyers)
        } else if n == 143 {
            Some(ActionResult::MustTargetBuriedUnits)
        } else if n == 144 {
            Some(ActionResult::CantTargetBuriedUnits)
        } else if n == 145 {
            Some(ActionResult::MustTargetCloakedUnits)
        } else if n == 146 {
            Some(ActionResult::CantTargetCloakedUnits)
        } else if n == 147 {
            Some(ActionResult::MustTargetUnitsInAStasisField)
        } else if n == 148 {
            Some(ActionResult::CantTargetUnitsInAStasisField)
        } else if n == 149 {
            Some(ActionResult::MustTargetUnderConstructionUnits)
        } else if n == 150 {
            Some(ActionResult::CantTargetUnderConstructionUnits)
        } else if n == 151 {
            Some(ActionResult::MustTargetDeadUnits)
        } else if n == 152 {
            Some(ActionResult::CantTargetDeadUnits)
        } else if n == 153 {
            Some(ActionResult::MustTargetRevivableUnits)
        } else if n == 154 {
            Some(ActionResult::CantTargetRevivableUnits)
        } else if n == 155 {
            Some(ActionResult::MustTargetHiddenUnits)
        } else if n == 156 {
            Some(ActionResult::CantTargetHiddenUnits)
        } else if n == 157 {
            Some(ActionResult::CantRechargeOtherPlayersUnits)
        } else if n == 158 {
            Some(ActionResult::MustTargetHallucinations)
        } else if n == 159 {
            Some(ActionResult::CantTargetHallucinations)
        } else if n == 160 {
            Some(ActionResult::MustTargetInvulnerableUnits)
        } else if n == 161 {
            Some(ActionResult::CantTargetInvulnerableUnits)
        } else if n == 162 {
            Some(ActionResult::MustTargetDetectedUnits)
        } else if n == 163 {
            Some(ActionResult::CantTargetDetectedUnits)
        } else if n == 164 {
            Some(ActionResult::CantTargetUnitWithEnergy)
        } else if n == 165 {
            Some(ActionResult::CantTargetUnitWithShields)
        } else if n == 166 {
            Some(ActionResult::MustTargetUncommandableUnits)
        } else if n == 167 {
            Some(ActionResult::CantTargetUncommandableUnits)
        } else if n == 168 {
            Some(ActionResult::MustTargetPreventDefeatUnits)
        } else if n == 169 {
            Some(ActionResult::CantTargetPreventDefeatUnits)
        } else if n == 170 {
            Some(ActionResult::MustTargetPreventRevealUnits)
        } else if n == 171 {
            Some(ActionResult::CantTargetPreventRevealUnits)
        } else if n == 172 {
            Some(ActionResult::MustTargetPassiveUnits)
        } else if n == 173 {
            Some(ActionResult::CantTargetPassiveUnits)
        } else if n == 174 {
            Some(ActionResult::MustTargetStunnedUnits)
        } else if n == 175 {
            Some(ActionResult::CantTargetStunnedUnits)
        } else if n == 176 {
            Some(ActionResult::MustTargetSummonedUnits)
        } else if n == 177 {
            Some(ActionResult::CantTargetSummonedUnits)
        } else if n == 178 {
            Some(ActionResult::MustTargetUser1)
        } else if n == 179 {
            Some(ActionResult::CantTargetUser1)
        } else if n == 180 {
            Some(ActionResult::MustTargetUnstoppableUnits)
        } else if n == 181 {
            Some(ActionResult::CantTargetUnstoppableUnits)
        } else if n == 182 {
            Some(ActionResult::MustTargetResistantUnits)
        } else if n == 183 {
            Some(ActionResult::CantTargetResistantUnits)
        } else if n == 184 {
            Some(ActionResult::MustTargetDazedUnits)
        } else if n == 185 {
            Some(ActionResult::CantTargetDazedUnits)
        } else if n == 186 {
            Some(ActionResult::CantLockdown)
        } else if n == 187 {
            Some(ActionResult::CantMindControl)
        } else if n == 188 {
            Some(ActionResult::MustTargetDestructibles)
        } else if n == 189 {
            Some(ActionResult::CantTargetDestructibles)
        } else if n == 190 {
            Some(ActionResult::MustTargetItems)
        } else if n == 191 {
            Some(ActionResult::CantTargetItems)
        } else if n == 192 {
            Some(ActionResult::NoCalldownAvailable)
        } else if n == 193 {
            Some(ActionResult::WaypointListFull)
        } else if n == 194 {
            Some(ActionResult::MustTargetRace)
        } else if n == 195 {
            Some(ActionResult::CantTargetRace)
        } else if n == 196 {
            Some(ActionResult::MustTargetSimilarUnits)
        } else if n == 197 {
            Some(ActionResult::CantTargetSimilarUnits)
        } else if n == 198 {
            Some(ActionResult::CantFindEnoughTargets)
        } else if n == 199 {
            Some(ActionResult::AlreadySpawningLarva)
        } else if n == 200 {
            Some(ActionResult::CantTargetExhaustedResources)
        } else if n == 201 {
            Some(ActionResult::CantUseMinimap)
        } else if n == 202 {
            Some(ActionResult::CantUseInfoPanel)
        } else if n == 203 {
            Some(ActionResult::OrderQueueIsFull)
        } else if n == 204 {
            Some(ActionResult::CantHarvestThatResource)
        } else if n == 205 {
            Some(ActionResult::HarvestersNotRequired)
        } else if n == 206 {
            Some(ActionResult::AlreadyTargeted)
        } else if n == 207 {
            Some(ActionResult::CantAttackWeaponsDisabled)
        } else if n == 208 {
            Some(ActionResult::CouldntReachTarget)
        } else if n == 209 {
            Some(ActionResult::TargetIsOutOfRange)
        } else if n == 210 {
            Some(ActionResult::TargetIsTooClose)
        } else if n == 211 {
            Some(ActionResult::TargetIsOutOfArc)
        } else if n == 212 {
            Some(ActionResult::CantFindTeleportLocation)
        } else if n == 213 {
            Some(ActionResult::InvalidItemClass)
        } else if n == 214 {
            Some(ActionResult::CantFindCancelOrder)
        } else {
            None
        }
    }

    /// Results are told apart by their numbers: the number of a result
    /// leads back to it.
    pub proof fn lemma_number_identifies(self)
        ensures
            1 <= self.number() <= 214,
            ActionResult::with_number(self.number()) == Some(self),
    {
    }

    /// The result with the given number in the game's protocol, if any.
    pub fn from_number(n: i32) -> (r: Option<ActionResult>)
        ensures
            r == ActionResult::with_number(n as int),
            r is Some <==> 1 <= n <= 214,
            r matches Some(a) ==> a.number() == n,
    {
        match n {
            1 => Some(ActionResult::Success),
            2 => Some(ActionResult::NotSupported),
            3 => Some(ActionResult::Error),
            4 => Some(ActionResult::CantQueueThatOrder),
            5 => Some(ActionResult::Retry),
            6 => Some(ActionResult::Cooldown),
            7 => Some(ActionResult::QueueIsFull),
            8 => Some(ActionResult::RallyQueueIsFull),
            9 => Some(ActionResult::NotEnoughMinerals),
            10 => Some(ActionResult::NotEnoughVespene),
            11 => Some(ActionResult::NotEnoughTerrazine),
            12 => Some(ActionResult::NotEnoughCustom),
            13 => Some(ActionResult::NotEnoughFood),
            14 => Some(ActionResult::FoodUsageImpossible),
            15 => Some(ActionResult::NotEnoughLife),
            16 => Some(ActionResult::NotEnoughShields),
            17 => Some(ActionResult::NotEnoughEnergy),
            18 => Some(ActionResult::LifeSuppressed),
            19 => Some(ActionResult::ShieldsSuppressed),
            20 => Some(ActionResult::EnergySuppressed),
            21 => Some(ActionResult::NotEnoughCharges),
            22 => Some(ActionResult::CantAddMoreCharges),
            23 => Some(ActionResult::TooMuchMinerals),
            24 => Some(ActionResult::TooMuchVespene),
            25 => Some(ActionResult::TooMuchTerrazine),
            26 => Some(ActionResult::TooMuchCustom),
            27 => Some(ActionResult::TooMuchFood),
            28 => Some(ActionResult::TooMuchLife),
            29 => Some(ActionResult::TooMuchShields),
            30 => Some(ActionResult::TooMuchEnergy),
            31 => Some(ActionResult::MustTargetUnitWithLife),
            32 => Some(ActionResult::MustTargetUnitWithShields),
            33 => Some(ActionResult::MustTargetUnitWithEnergy),
            34 => Some(ActionResult::CantTrade),
            35 => Some(ActionResult::CantSpend),
            36 => Some(ActionResult::CantTargetThatUnit),
            37 => Some(ActionResult::CouldntAllocateUnit),
            38 => Some(ActionResult::UnitCantMove),
            39 => Some(ActionResult::TransportIsHoldingPosition),
            40 => Some(ActionResult::BuildTechRequirementsNotMet),
            41 => Some(ActionResult::CantFindPlacementLocation),
            42 => Some(ActionResult::CantBuildOnThat),
            43 => Some(ActionResult::CantBuildTooCloseToDropOff),
            44 => Some(ActionResult::CantBuildLocationInvalid),
            45 => Some(ActionResult::CantSeeBuildLocation),
            46 => Some(ActionResult::CantBuildTooCloseToCreepSource),
            47 => Some(ActionResult::CantBuildTooCloseToResources),
            48 => Some(ActionResult::CantBuildTooFarFromWater),
            49 => Some(ActionResult::CantBuildTooFarFromCreepSource),
            50 => Some(ActionResult::CantBuildTooFarFromBuildPowerSource),
            51 => Some(ActionResult::CantBuildOnDenseTerrain),
            52 => Some(ActionResult::CantTrainTooFarFromTrainPowerSource),
            53 => Some(ActionResult::CantLandLocationInvalid),
            54 => Some(ActionResult::CantSeeLandLocation),
            55 => Some(ActionResult::CantLandTooCloseToCreepSource),
            56 => Some(ActionResult::CantLandTooCloseToResources),
            57 => Some(ActionResult::CantLandTooFarFromWater),
            58 => Some(ActionResult::CantLandTooFarFromCreepSource),
            59 => Some(ActionResult::CantLandTooFarFromBuildPowerSource),
            60 => Some(ActionResult::CantLandTooFarFromTrainPowerSource),
            61 => Some(ActionResult::CantLandOnDenseTerrain),
            62 => Some(ActionResult::AddOnTooFarFromBuilding),
            63 => Some(ActionResult::MustBuildRefineryFirst),
            64 => Some(ActionResult::BuildingIsUnderConstruction),
            65 => Some(ActionResult::CantFindDropOff),
            66 => Some(ActionResult::CantLoadOtherPlayersUnits),
            67 => Some(ActionResult::NotEnoughRoomToLoadUnit),
            68 => Some(ActionResult::CantUnloadUnitsThere),
            69 => Some(ActionResult::CantWarpInUnitsThere),
            70 => Some(ActionResult::CantLoadImmobileUnits),
            71 => Some(ActionResult::CantRechargeImmobileUnits),
            72 => Some(ActionResult::CantRechargeUnderConstructionUnits),
            73 => Some(ActionResult::CantLoadThatUnit),
            74 => Some(ActionResult::NoCargoToUnload),
            75 => Some(ActionResult::LoadAllNoTargetsFound),
            76 => Some(ActionResult::NotWhileOccupied),
            77 => Some(ActionResult::CantAttackWithoutAmmo),
            78 => Some(ActionResult::CantHoldAnyMoreAmmo),
            79 => Some(ActionResult::TechRequirementsNotMet),
            80 => Some(ActionResult::MustLockdownUnitFirst),
            81 => Some(ActionResult::MustTargetUnit),
            82 => Some(ActionResult::MustTargetInventory),
            83 => Some(ActionResult::MustTargetVisibleUnit),
            84 => Some(ActionResult::MustTargetVisibleLocation),
            85 => Some(ActionResult::MustTargetWalkableLocation),
            86 => Some(ActionResult::MustTargetPawnableUnit),
            87 => Some(ActionResult::YouCantControlThatUnit),
            88 => Some(ActionResult::YouCantIssueCommandsToThatUnit),
            89 => Some(ActionResult::MustTargetResources),
            90 => Some(ActionResult::RequiresHealTarget),
            91 => Some(ActionResult::RequiresRepairTarget),
            92 => Some(ActionResult::NoItemsToDrop),
            93 => Some(ActionResult::CantHoldAnyMoreItems),
            94 => Some(ActionResult::CantHoldThat),
            95 => Some(ActionResult::TargetHasNoInventory),
            96 => Some(ActionResult::CantDropThisItem),
            97 => Some(ActionResult::CantMoveThisItem),
            98 => Some(ActionResult::CantPawnThisUnit),
            99 => Some(ActionResult::MustTargetCaster),
            100 => Some(ActionResult::CantTargetCaster),
            101 => Some(ActionResult::MustTargetOuter),
            102 => Some(ActionResult::CantTargetOuter),
            103 => Some(ActionResult::MustTargetYourOwnUnits),
            104 => Some(ActionResult::CantTargetYourOwnUnits),
            105 => Some(ActionResult::MustTargetFriendlyUnits),
            106 => Some(ActionResult::CantTargetFriendlyUnits),
            107 => Some(ActionResult::MustTargetNeutralUnits),
            108 => Some(ActionResult::CantTargetNeutralUnits),
            109 => Some(ActionResult::MustTargetEnemyUnits),
            110 => Some(ActionResult::CantTargetEnemyUnits),
            111 => Some(ActionResult::MustTargetAirUnits),
            112 => Some(ActionResult::CantTargetAirUnits),
            113 => Some(ActionResult::MustTargetGroundUnits),
            114 => Some(ActionResult::CantTargetGroundUnits),
            115 => Some(ActionResult::MustTargetStructures),
            116 => Some(ActionResult::CantTargetStructures),
            117 => Some(ActionResult::MustTargetLightUnits),
            118 => Some(ActionResult::CantTargetLightUnits),
            119 => Some(ActionResult::MustTargetArmoredUnits),
            120 => Some(ActionResult::CantTargetArmoredUnits),
            121 => Some(ActionResult::MustTargetBiologicalUnits),
            122 => Some(ActionResult::CantTargetBiologicalUnits),
            123 => Some(ActionResult::MustTargetHeroicUnits),
            124 => Some(ActionResult::CantTargetHeroicUnits),
            125 => Some(ActionResult::MustTargetRoboticUnits),
            126 => Some(ActionResult::CantTargetRoboticUnits),
            127 => Some(ActionResult::MustTargetMechanicalUnits),
            128 => Some(ActionResult::CantTargetMechanicalUnits),
            129 => Some(ActionResult::MustTargetPsionicUnits),
            130 => Some(ActionResult::CantTargetPsionicUnits),
            131 => Some(ActionResult::MustTargetMassiveUnits),
            132 => Some(ActionResult::CantTargetMassiveUnits),
            133 => Some(ActionResult::MustTargetMissile),
            134 => Some(ActionResult::CantTargetMissile),
            135 => Some(ActionResult::MustTargetWorkerUnits),
            136 => Some(ActionResult::CantTargetWorkerUnits),
            137 => Some(ActionResult::MustTargetEnergyCapableUnits),
            138 => Some(ActionResult::CantTargetEnergyCapableUnits),
            139 => Some(ActionResult::MustTargetShieldCapableUnits),
            140 => Some(ActionResult::CantTargetShieldCapableUnits),
            141 => Some(ActionResult::MustTargetFlyers),
            142 => Some(ActionResult::CantTargetFlyers),
            143 => Some(ActionResult::MustTargetBuriedUnits),
            144 => Some(ActionResult::CantTargetBuriedUnits),
            145 => Some(ActionResult::MustTargetCloakedUnits),
            146 => Some(ActionResult::CantTargetCloakedUnits),
            147 => Some(ActionResult::MustTargetUnitsInAStasisField),
            148 => Some(ActionResult::CantTargetUnitsInAStasisField),
            149 => Some(ActionResult::MustTargetUnderConstructionUnits),
            150 => Some(ActionResult::CantTargetUnderConstructionUnits),
            151 => Some(ActionResult::MustTargetDeadUnits),
            152 => Some(ActionResult::CantTargetDeadUnits),
            153 => Some(ActionResult::MustTargetRevivableUnits),
            154 => Some(ActionResult::CantTargetRevivableUnits),
            155 => Some(ActionResult::MustTargetHiddenUnits),
            156 => Some(ActionResult::CantTargetHiddenUnits),
            157 => Some(ActionResult::CantRechargeOtherPlayersUnits),
            158 => Some(ActionResult::MustTargetHallucinations),
            159 => Some(ActionResult::CantTargetHallucinations),
            160 => Some(ActionResult::MustTargetInvulnerableUnits),
            161 => Some(ActionResult::CantTargetInvulnerableUnits),
            162 => Some(ActionResult::MustTargetDetectedUnits),
            163 => Some(ActionResult::CantTargetDetectedUnits),
            164 => Some(ActionResult::CantTargetUnitWithEnergy),
            165 => Some(ActionResult::CantTargetUnitWithShields),
            166 => Some(ActionResult::MustTargetUncommandableUnits),
            167 => Some(ActionResult::CantTargetUncommandableUnits),
            168 => Some(ActionResult::MustTargetPreventDefeatUnits),
            169 => Some(ActionResult::CantTargetPreventDefeatUnits),
            170 => Some(ActionResult::MustTargetPreventRevealUnits),
            171 => Some(ActionResult::CantTargetPreventRevealUnits),
            172 => Some(ActionResult::MustTargetPassiveUnits),
            173 => Some(ActionResult::CantTargetPassiveUnits),
            174 => Some(ActionResult::MustTargetStunnedUnits),
            175 => Some(ActionResult::CantTargetStunnedUnits),
            176 => Some(ActionResult::MustTargetSummonedUnits),
            177 => Some(ActionResult::CantTargetSummonedUnits),
            178 => Some(ActionResult::MustTargetUser1),
            179 => Some(ActionResult::CantTargetUser1),
            180 => Some(ActionResult::MustTargetUnstoppableUnits),
            181 => Some(ActionResult::CantTargetUnstoppableUnits),
            182 => Some(ActionResult::MustTargetResistantUnits),
            183 => Some(ActionResult::CantTargetResistantUnits),
            184 => Some(ActionResult::MustTargetDazedUnits),
            185 => Some(ActionResult::CantTargetDazedUnits),
            186 => Some(ActionResult::CantLockdown),
            187 => Some(ActionResult::CantMindControl),
            188 => Some(ActionResult::MustTargetDestructibles),
            189 => Some(ActionResult::CantTargetDestructibles),
            190 => Some(ActionResult::MustTargetItems),
            191 => Some(ActionResult::CantTargetItems),
            192 => Some(ActionResult::NoCalldownAvailable),
            193 => Some(ActionResult::WaypointListFull),
            194 => Some(ActionResult::MustTargetRace),
            195 => Some(ActionResult::CantTargetRace),
            196 => Some(ActionResult::MustTargetSimilarUnits),
            197 => Some(ActionResult::CantTargetSimilarUnits),
            198 => Some(ActionResult::CantFindEnoughTargets),
            199 => Some(ActionResult::AlreadySpawningLarva),
            200 => Some(ActionResult::CantTargetExhaustedResources),
            201 => Some(ActionResult::CantUseMinimap),
            202 => Some(ActionResult::CantUseInfoPanel),
            203 => Some(ActionResult::OrderQueueIsFull),
            204 => Some(ActionResult::CantHarvestThatResource),
            205 => Some(ActionResult::HarvestersNotRequired),
            206 => Some(ActionResult::AlreadyTargeted),
            207 => Some(ActionResult::CantAttackWeaponsDisabled),
            208 => Some(ActionResult::CouldntReachTarget),
            209 => Some(ActionResult::TargetIsOutOfRange),
            210 => Some(ActionResult::TargetIsTooClose),
            211 => Some(ActionResult::TargetIsOutOfArc),
            212 => Some(ActionResult::CantFindTeleportLocation),
            213 => Some(ActionResult::InvalidItemClass),
            214 => Some(ActionResult::CantFindCancelOrder),
            _ => None,
        }
    }
}

/// An action that failed on the previous step.
#[derive(Debug, Clone, Copy, PartialEq, Eq, Structural, Hash)]
pub struct ActionError {
    /// Tag of the unit that was executing the action.
    pub unit: u64,
    /// The ability that unit used.
    pub ability: AbilityId,
    /// What the game answered.
    pub result: ActionResult,
}

} // verus!
