use vstd::prelude::*;

verus! {

/// Type of a unit, structure or neutral object.
#[derive(Debug, Clone, Copy, PartialEq, Eq, Structural, Hash)]
pub enum UnitTypeId {
    Adept,
    AdeptPhaseShift,
    Archon,
    Armory,
    Assimilator,
    AssimilatorRich,
    AutoTurret,
    Baneling,
    BanelingBurrowed,
    BanelingCocoon,
    BanelingNest,
    Banshee,
    Barracks,
    BarracksFlying,
    BarracksReactor,
    BarracksTechLab,
    BattleStationMineralField,
    BattleStationMineralField750,
    Battlecruiser,
    BroodLord,
    BroodLordCocoon,
    Broodling,
    Bunker,
    Carrier,
    Changeling,
    ChangelingMarine,
    ChangelingMarineShield,
    ChangelingZealot,
    ChangelingZergling,
    ChangelingZerglingWings,
    Colossus,
    CommandCenter,
    CommandCenterFlying,
    Corruptor,
    CreepTumor,
    CreepTumorBurrowed,
    CreepTumorMissile,
    CreepTumorQueen,
    CyberneticsCore,
    Cyclone,
    DarkShrine,
    DarkTemplar,
    Disruptor,
    Drone,
    DroneBurrowed,
    Egg,
    EngineeringBay,
    EvolutionChamber,
    Extractor,
    ExtractorRich,
    Factory,
    FactoryFlying,
    FactoryReactor,
    FactoryTechLab,
    FleetBeacon,
    Forge,
    FusionCore,
    Gateway,
    GhostUnit,
    GhostAcademy,
    GreaterSpire,
    Hatchery,
    Hellion,
    HellionTank,
    HighTemplar,
    Hive,
    Hydralisk,
    HydraliskBurrowed,
    HydraliskDen,
    Immortal,
    InfestationPit,
    Infestor,
    InfestorBurrowed,
    InfestorTerran,
    InfestorTerranBurrowed,
    InhibitorZoneFlyingLarge,
    InhibitorZoneFlyingMedium,
    InhibitorZoneFlyingSmall,
    InhibitorZoneLarge,
    InhibitorZoneMedium,
    InhibitorZoneSmall,
    Interceptor,
    KD8Charge,
    LabMineralField,
    LabMineralField750,
    Lair,
    Larva,
    Liberator,
    LiberatorAG,
    LocustMP,
    LocustMPFlying,
    LurkerDenMP,
    LurkerMP,
    LurkerMPBurrowed,
    LurkerMPEgg,
    Marauder,
    Marine,
    Medivac,
    MineralField,
    MineralField450,
    MineralField750,
    MineralFieldOpaque,
    MineralFieldOpaque900,
    MissileTurret,
    Mothership,
    Mutalisk,
    Nexus,
    NotAUnit,
    NydusCanal,
    NydusNetwork,
    Observer,
    ObserverSiegeMode,
    Oracle,
    OrbitalCommand,
    OrbitalCommandFlying,
    Overlord,
    OverlordCocoon,
    OverlordTransport,
    Overseer,
    OverseerSiegeMode,
    Phoenix,
    PhotonCannon,
    PlanetaryFortress,
    Probe,
    ProtossVespeneGeyser,
    PurifierMineralField,
    PurifierMineralField750,
    PurifierRichMineralField,
    PurifierRichMineralField750,
    PurifierVespeneGeyser,
    Pylon,
    Queen,
    QueenBurrowed,
    Ravager,
    RavagerBurrowed,
    RavagerCocoon,
    Raven,
    Reactor,
    Reaper,
    Refinery,
    RefineryRich,
    RichMineralField,
    RichMineralField750,
    RichVespeneGeyser,
    Roach,
    RoachBurrowed,
    RoachWarren,
    RoboticsBay,
    RoboticsFacility,
    SCV,
    SensorTower,
    Sentry,
    ShakurasVespeneGeyser,
    ShieldBattery,
    SiegeTank,
    SiegeTankSieged,
    SpacePlatformGeyser,
    SpawningPool,
    SpineCrawler,
    Spire,
    SporeCrawler,
    Stalker,
    Stargate,
    Starport,
    StarportFlying,
    StarportReactor,
    StarportTechLab,
    SupplyDepot,
    SupplyDepotDrop,
    SupplyDepotLowered,
    SwarmHostBurrowedMP,
    SwarmHostMP,
    TechLab,
    Tempest,
    TemplarArchive,
    Thor,
    ThorAP,
    TransportOverlordCocoon,
    TwilightCouncil,
    Ultralisk,
    UltraliskBurrowed,
    UltraliskCavern,
    VespeneGeyser,
    VikingAssault,
    VikingFighter,
    Viper,
    VoidRay,
    WarpGate,
    WarpPrism,
    WarpPrismPhasing,
    WidowMine,
    WidowMineBurrowed,
    XelNagaTower,
    Zealot,
    Zergling,
    ZerglingBurrowed,
}

/// Ability that a unit can be ordered to use.
#[derive(Debug, Clone, Copy, PartialEq, Eq, Structural, Hash)]
pub enum AbilityId {
    Attack,
    AttackAttack,
    AttackAttackBarrage,
    AttackAttackTowards,
    BuildLurkerDen,
    BuildReactorBarracks,
    BuildReactorFactory,
    BuildReactorStarport,
    BuildShieldBattery,
    BuildTechLabBarracks,
    BuildTechLabFactory,
    BuildTechLabStarport,
    CancelBuildInProgress,
    CancelQueue5,
    CancelQueueCancelToSelection,
    EffectRepair,
    EffectRepairMule,
    EffectRepairSCV,
    HarvestGather,
    HarvestReturn,
    HoldPosition,
    MoveMove,
    Patrol,
    ProtossBuildAssimilator,
    ProtossBuildCyberneticsCore,
    ProtossBuildDarkShrine,
    ProtossBuildFleetBeacon,
    ProtossBuildForge,
    ProtossBuildGateway,
    ProtossBuildNexus,
    ProtossBuildPhotonCannon,
    ProtossBuildPylon,
    ProtossBuildRoboticsBay,
    ProtossBuildRoboticsFacility,
    ProtossBuildStargate,
    ProtossBuildTemplarArchive,
    ProtossBuildTwilightCouncil,
    ResearchTerranVehicleAndShipPlating,
    ScanMove,
    Smart,
    Stop,
    TerranBuildArmory,
    TerranBuildBarracks,
    TerranBuildBunker,
    TerranBuildCommandCenter,
    TerranBuildEngineeringBay,
    TerranBuildFactory,
    TerranBuildFusionCore,
    TerranBuildGhostAcademy,
    TerranBuildMissileTurret,
    TerranBuildRefinery,
    TerranBuildSensorTower,
    TerranBuildStarport,
    TerranBuildSupplyDepot,
    TrainWarpAdept,
    WarpGateTrainDarkTemplar,
    WarpGateTrainHighTemplar,
    WarpGateTrainSentry,
    WarpGateTrainStalker,
    WarpGateTrainZealot,
    ZergBuildBanelingNest,
    ZergBuildCreepTumor,
    ZergBuildEvolutionChamber,
    ZergBuildExtractor,
    ZergBuildHatchery,
    ZergBuildHydraliskDen,
    ZergBuildInfestationPit,
    ZergBuildNydusNetwork,
    ZergBuildRoachWarren,
    ZergBuildSpawningPool,
    ZergBuildSpineCrawler,
    ZergBuildSpire,
    ZergBuildSporeCrawler,
    ZergBuildUltraliskCavern,
}

/// Upgrade that a player can research.
#[derive(Debug, Clone, Copy, PartialEq, Eq, Structural, Hash)]
pub enum UpgradeId {
    AdeptPiercingAttack,
    AnabolicSynthesis,
    BansheeSpeed,
    CentrificalHooks,
    Charge,
    ChitinousPlating,
    DiggingClaws,
    EvolveGroovedSpines,
    EvolveMuscularAugments,
    GlialReconstitution,
    GraviticDrive,
    HiSecAutoTracking,
    HighCapacityBarrels,
    MedivacRapidDeployment,
    ObserverGraviticBooster,
    Overlordspeed,
    PhoenixRangeUpgrade,
    TerranBuildingArmor,
    TerranVehicleAndShipArmorsLevel1,
    TerranVehicleAndShipArmorsLevel2,
    TerranVehicleAndShipArmorsLevel3,
    VoidRaySpeedUpgrade,
    Zerglingattackspeed,
    Zerglingmovementspeed,
}

/// Buff (temporary effect) that a unit can carry.
#[derive(Debug, Clone, Copy, PartialEq, Eq, Structural, Hash)]
pub enum BuffId {
    AccelerationZoneFlyingTemporalField,
    AccelerationZoneTemporalField,
    CarryHarvestableVespeneGeyserGas,
    CarryHarvestableVespeneGeyserGasProtoss,
    CarryHarvestableVespeneGeyserGasZerg,
    CarryHighYieldMineralFieldMinerals,
    CarryMineralFieldMinerals,
    ChargeUp,
    DutchMarauderSlow,
    FungalGrowth,
    GuardianShield,
    InhibitorZoneFlyingTemporalField,
    InhibitorZoneTemporalField,
    MedivacSpeedBoost,
    RavenShredderMissileArmorReduction,
    RavenShredderMissileArmorReductionUISubtruct,
    Stimpack,
    StimpackMarauder,
    TimeWarpProduction,
    VoidRaySwarmDamageBoost,
}

/// Effect (area of a spell) visible on the map.
#[derive(Debug, Clone, Copy, PartialEq, Eq, Structural, Hash)]
pub enum EffectId {
    NukePersistent,
    Null,
    PsiStormPersistent,
    RavagerCorrosiveBileCP,
    ScannerSweep,
}

impl UnitTypeId {
    /// The workers of the three races.
    pub open spec fn spec_is_worker(self) -> bool {
        self is SCV
        || self is Drone
        || self is Probe
    }

    /// Checks whether this is one of the workers of the three races.
    pub fn is_worker(self) -> (r: bool)
        ensures
            r == self.spec_is_worker(),
    {
        match self {
            UnitTypeId::SCV
            | UnitTypeId::Drone
            | UnitTypeId::Probe => true,
            _ => false,
        }
    }

    /// The townhalls, landed or flying.
    pub open spec fn spec_is_townhall(self) -> bool {
        self is CommandCenter
        || self is OrbitalCommand
        || self is PlanetaryFortress
        || self is CommandCenterFlying
        || self is OrbitalCommandFlying
        || self is Hatchery
        || self is Lair
        || self is Hive
        || self is Nexus
    }

    /// Checks whether this is one of the townhalls, landed or flying.
    pub fn is_townhall(self) -> (r: bool)
        ensures
            r == self.spec_is_townhall(),
    {
        match self {
            UnitTypeId::CommandCenter
            | UnitTypeId::OrbitalCommand
            | UnitTypeId::PlanetaryFortress
            | UnitTypeId::CommandCenterFlying
            | UnitTypeId::OrbitalCommandFlying
            | UnitTypeId::Hatchery
            | UnitTypeId::Lair
            | UnitTypeId::Hive
            | UnitTypeId::Nexus => true,
            _ => false,
        }
    }

    /// The Terran addons (techlabs and reactors).
    pub open spec fn spec_is_addon(self) -> bool {
        self is TechLab
        || self is Reactor
        || self is BarracksTechLab
        || self is BarracksReactor
        || self is FactoryTechLab
        || self is FactoryReactor
        || self is StarportTechLab
        || self is StarportReactor
    }

    /// Checks whether this is one of the Terran addons (techlabs and reactors).
    pub fn is_addon(self) -> (r: bool)
        ensures
            r == self.spec_is_addon(),
    {
        match self {
            UnitTypeId::TechLab
            | UnitTypeId::Reactor
            | UnitTypeId::BarracksTechLab
            | UnitTypeId::BarracksReactor
            | UnitTypeId::FactoryTechLab
            | UnitTypeId::FactoryReactor
            | UnitTypeId::StarportTechLab
            | UnitTypeId::StarportReactor => true,
            _ => false,
        }
    }

    /// The units that attack in melee.
    pub open spec fn spec_is_melee(self) -> bool {
        self is SCV
        || self is Drone
        || self is DroneBurrowed
        || self is Probe
        || self is Zergling
        || self is ZerglingBurrowed
        || self is BanelingCocoon
        || self is Baneling
        || self is BanelingBurrowed
        || self is Broodling
        || self is Zealot
        || self is DarkTemplar
        || self is Ultralisk
        || self is UltraliskBurrowed
        || self is HellionTank
    }

    /// Checks whether this is one of the units that attack in melee.
    pub fn is_melee(self) -> (r: bool)
        ensures
            r == self.spec_is_melee(),
    {
        match self {
            UnitTypeId::SCV
            | UnitTypeId::Drone
            | UnitTypeId::DroneBurrowed
            | UnitTypeId::Probe
            | UnitTypeId::Zergling
            | UnitTypeId::ZerglingBurrowed
            | UnitTypeId::BanelingCocoon
            | UnitTypeId::Baneling
            | UnitTypeId::BanelingBurrowed
            | UnitTypeId::Broodling
            | UnitTypeId::Zealot
            | UnitTypeId::DarkTemplar
            | UnitTypeId::Ultralisk
            | UnitTypeId::UltraliskBurrowed
            | UnitTypeId::HellionTank => true,
            _ => false,
        }
    }

    /// The structures of the three races.
    pub open spec fn spec_is_structure(self) -> bool {
        self is CommandCenter
        || self is CommandCenterFlying
        || self is PlanetaryFortress
        || self is OrbitalCommand
        || self is OrbitalCommandFlying
        || self is SupplyDepot
        || self is SupplyDepotLowered
        || self is SupplyDepotDrop
        || self is Refinery
        || self is Barracks
        || self is BarracksFlying
        || self is EngineeringBay
        || self is Bunker
        || self is SensorTower
        || self is MissileTurret
        || self is Factory
        || self is FactoryFlying
        || self is GhostAcademy
        || self is Starport
        || self is StarportFlying
        || self is Armory
        || self is FusionCore
        || self is TechLab
        || self is BarracksTechLab
        || self is FactoryTechLab
        || self is StarportTechLab
        || self is Reactor
        || self is BarracksReactor
        || self is FactoryReactor
        || self is StarportReactor
        || self is Hatchery
        || self is SpineCrawler
        || self is SporeCrawler
        || self is Extractor
        || self is SpawningPool
        || self is EvolutionChamber
        || self is RoachWarren
        || self is BanelingNest
        || self is CreepTumor
        || self is CreepTumorBurrowed
        || self is CreepTumorQueen
        || self is CreepTumorMissile
        || self is Lair
        || self is HydraliskDen
        || self is LurkerDenMP
        || self is InfestationPit
        || self is Spire
        || self is NydusNetwork
        || self is Hive
        || self is GreaterSpire
        || self is UltraliskCavern
        || self is Nexus
        || self is Pylon
        || self is Assimilator
        || self is Gateway
        || self is Forge
        || self is CyberneticsCore
        || self is PhotonCannon
        || self is ShieldBattery
        || self is RoboticsFacility
        || self is WarpGate
        || self is Stargate
        || self is TwilightCouncil
        || self is RoboticsBay
        || self is FleetBeacon
        || self is TemplarArchive
        || self is DarkShrine
    }

    /// Checks whether this is one of the structures of the three races.
    pub fn is_structure(self) -> (r: bool)
        ensures
            r == self.spec_is_structure(),
    {
        match self {
            UnitTypeId::CommandCenter
            | UnitTypeId::CommandCenterFlying
            | UnitTypeId::PlanetaryFortress
            | UnitTypeId::OrbitalCommand
            | UnitTypeId::OrbitalCommandFlying
            | UnitTypeId::SupplyDepot
            | UnitTypeId::SupplyDepotLowered
            | UnitTypeId::SupplyDepotDrop
            | UnitTypeId::Refinery
            | UnitTypeId::Barracks
            | UnitTypeId::BarracksFlying
            | UnitTypeId::EngineeringBay
            | UnitTypeId::Bunker
            | UnitTypeId::SensorTower
            | UnitTypeId::MissileTurret
            | UnitTypeId::Factory
            | UnitTypeId::FactoryFlying
            | UnitTypeId::GhostAcademy
            | UnitTypeId::Starport
            | UnitTypeId::StarportFlying
            | UnitTypeId::Armory
            | UnitTypeId::FusionCore
            | UnitTypeId::TechLab
            | UnitTypeId::BarracksTechLab
            | UnitTypeId::FactoryTechLab
            | UnitTypeId::StarportTechLab
            | UnitTypeId::Reactor
            | UnitTypeId::BarracksReactor
            | UnitTypeId::FactoryReactor
            | UnitTypeId::StarportReactor
            | UnitTypeId::Hatchery
            | UnitTypeId::SpineCrawler
            | UnitTypeId::SporeCrawler
            | UnitTypeId::Extractor
            | UnitTypeId::SpawningPool
            | UnitTypeId::EvolutionChamber
            | UnitTypeId::RoachWarren
            | UnitTypeId::BanelingNest
            | UnitTypeId::CreepTumor
            | UnitTypeId::CreepTumorBurrowed
            | UnitTypeId::CreepTumorQueen
            | UnitTypeId::CreepTumorMissile
            | UnitTypeId::Lair
            | UnitTypeId::HydraliskDen
            | UnitTypeId::LurkerDenMP
            | UnitTypeId::InfestationPit
            | UnitTypeId::Spire
            | UnitTypeId::NydusNetwork
            | UnitTypeId::Hive
            | UnitTypeId::GreaterSpire
            | UnitTypeId::UltraliskCavern
            | UnitTypeId::Nexus
            | UnitTypeId::Pylon
            | UnitTypeId::Assimilator
            | UnitTypeId::Gateway
            | UnitTypeId::Forge
            | UnitTypeId::CyberneticsCore
            | UnitTypeId::PhotonCannon
            | UnitTypeId::ShieldBattery
            | UnitTypeId::RoboticsFacility
            | UnitTypeId::WarpGate
            | UnitTypeId::Stargate
            | UnitTypeId::TwilightCouncil
            | UnitTypeId::RoboticsBay
            | UnitTypeId::FleetBeacon
            | UnitTypeId::TemplarArchive
            | UnitTypeId::DarkShrine => true,
            _ => false,
        }
    }

    /// The units (not structures) of the three races.
    pub open spec fn spec_is_unit(self) -> bool {
        self is SCV
        || self is Marine
        || self is Marauder
        || self is Reaper
        || self is GhostUnit
        || self is Hellion
        || self is HellionTank
        || self is SiegeTank
        || self is SiegeTankSieged
        || self is Cyclone
        || self is WidowMine
        || self is WidowMineBurrowed
        || self is Thor
        || self is ThorAP
        || self is VikingFighter
        || self is VikingAssault
        || self is Medivac
        || self is Liberator
        || self is LiberatorAG
        || self is Raven
        || self is Banshee
        || self is Battlecruiser
        || self is Larva
        || self is Egg
        || self is Drone
        || self is DroneBurrowed
        || self is Queen
        || self is QueenBurrowed
        || self is Zergling
        || self is ZerglingBurrowed
        || self is BanelingCocoon
        || self is Baneling
        || self is BanelingBurrowed
        || self is Roach
        || self is RoachBurrowed
        || self is RavagerCocoon
        || self is Ravager
        || self is RavagerBurrowed
        || self is Hydralisk
        || self is HydraliskBurrowed
        || self is LurkerMPEgg
        || self is LurkerMP
        || self is LurkerMPBurrowed
        || self is Infestor
        || self is InfestorBurrowed
        || self is SwarmHostMP
        || self is SwarmHostBurrowedMP
        || self is Ultralisk
        || self is UltraliskBurrowed
        || self is LocustMP
        || self is LocustMPFlying
        || self is Broodling
        || self is Changeling
        || self is ChangelingZealot
        || self is ChangelingMarine
        || self is ChangelingMarineShield
        || self is ChangelingZergling
        || self is ChangelingZerglingWings
        || self is InfestorTerran
        || self is InfestorTerranBurrowed
        || self is NydusCanal
        || self is Overlord
        || self is OverlordCocoon
        || self is OverlordTransport
        || self is TransportOverlordCocoon
        || self is Overseer
        || self is OverseerSiegeMode
        || self is Mutalisk
        || self is Corruptor
        || self is BroodLordCocoon
        || self is BroodLord
        || self is Viper
        || self is Probe
        || self is Zealot
        || self is Stalker
        || self is Sentry
        || self is Adept
        || self is AdeptPhaseShift
        || self is HighTemplar
        || self is DarkTemplar
        || self is Immortal
        || self is Colossus
        || self is Disruptor
        || self is Archon
        || self is Observer
        || self is ObserverSiegeMode
        || self is WarpPrism
        || self is WarpPrismPhasing
        || self is Phoenix
        || self is VoidRay
        || self is Oracle
        || self is Carrier
        || self is Interceptor
        || self is Tempest
        || self is Mothership
    }

    /// Checks whether this is one of the units (not structures) of the three races.
    pub fn is_unit(self) -> (r: bool)
        ensures
            r == self.spec_is_unit(),
    {
        match self {
            UnitTypeId::SCV
            | UnitTypeId::Marine
            | UnitTypeId::Marauder
            | UnitTypeId::Reaper
            | UnitTypeId::GhostUnit
            | UnitTypeId::Hellion
            | UnitTypeId::HellionTank
            | UnitTypeId::SiegeTank
            | UnitTypeId::SiegeTankSieged
            | UnitTypeId::Cyclone
            | UnitTypeId::WidowMine
            | UnitTypeId::WidowMineBurrowed
            | UnitTypeId::Thor
            | UnitTypeId::ThorAP
            | UnitTypeId::VikingFighter
            | UnitTypeId::VikingAssault
            | UnitTypeId::Medivac
            | UnitTypeId::Liberator
            | UnitTypeId::LiberatorAG
            | UnitTypeId::Raven
            | UnitTypeId::Banshee
            | UnitTypeId::Battlecruiser
            | UnitTypeId::Larva
            | UnitTypeId::Egg
            | UnitTypeId::Drone
            | UnitTypeId::DroneBurrowed
            | UnitTypeId::Queen
            | UnitTypeId::QueenBurrowed
            | UnitTypeId::Zergling
            | UnitTypeId::ZerglingBurrowed
            | UnitTypeId::BanelingCocoon
            | UnitTypeId::Baneling
            | UnitTypeId::BanelingBurrowed
            | UnitTypeId::Roach
            | UnitTypeId::RoachBurrowed
            | UnitTypeId::RavagerCocoon
            | UnitTypeId::Ravager
            | UnitTypeId::RavagerBurrowed
            | UnitTypeId::Hydralisk
            | UnitTypeId::HydraliskBurrowed
            | UnitTypeId::LurkerMPEgg
            | UnitTypeId::LurkerMP
            | UnitTypeId::LurkerMPBurrowed
            | UnitTypeId::Infestor
            | UnitTypeId::InfestorBurrowed
            | UnitTypeId::SwarmHostMP
            | UnitTypeId::SwarmHostBurrowedMP
            | UnitTypeId::Ultralisk
            | UnitTypeId::UltraliskBurrowed
            | UnitTypeId::LocustMP
            | UnitTypeId::LocustMPFlying
            | UnitTypeId::Broodling
            | UnitTypeId::Changeling
            | UnitTypeId::ChangelingZealot
            | UnitTypeId::ChangelingMarine
            | UnitTypeId::ChangelingMarineShield
            | UnitTypeId::ChangelingZergling
            | UnitTypeId::ChangelingZerglingWings
            | UnitTypeId::InfestorTerran
            | UnitTypeId::InfestorTerranBurrowed
            | UnitTypeId::NydusCanal
            | UnitTypeId::Overlord
            | UnitTypeId::OverlordCocoon
            | UnitTypeId::OverlordTransport
            | UnitTypeId::TransportOverlordCocoon
            | UnitTypeId::Overseer
            | UnitTypeId::OverseerSiegeMode
            | UnitTypeId::Mutalisk
            | UnitTypeId::Corruptor
            | UnitTypeId::BroodLordCocoon
            | UnitTypeId::BroodLord
            | UnitTypeId::Viper
            | UnitTypeId::Probe
            | UnitTypeId::Zealot
            | UnitTypeId::Stalker
            | UnitTypeId::Sentry
            | UnitTypeId::Adept
            | UnitTypeId::AdeptPhaseShift
            | UnitTypeId::HighTemplar
            | UnitTypeId::DarkTemplar
            | UnitTypeId::Immortal
            | UnitTypeId::Colossus
            | UnitTypeId::Disruptor
            | UnitTypeId::Archon
            | UnitTypeId::Observer
            | UnitTypeId::ObserverSiegeMode
            | UnitTypeId::WarpPrism
            | UnitTypeId::WarpPrismPhasing
            | UnitTypeId::Phoenix
            | UnitTypeId::VoidRay
            | UnitTypeId::Oracle
            | UnitTypeId::Carrier
            | UnitTypeId::Interceptor
            | UnitTypeId::Tempest
            | UnitTypeId::Mothership => true,
            _ => false,
        }
    }
}

impl AbilityId {
    /// The abilities with which a worker constructs a structure.
    pub open spec fn spec_is_constructing(self) -> bool {
        self is TerranBuildCommandCenter
        || self is TerranBuildSupplyDepot
        || self is TerranBuildRefinery
        || self is TerranBuildBarracks
        || self is TerranBuildEngineeringBay
        || self is TerranBuildMissileTurret
        || self is TerranBuildBunker
        || self is TerranBuildSensorTower
        || self is TerranBuildGhostAcademy
        || self is TerranBuildFactory
        || self is TerranBuildStarport
        || self is TerranBuildArmory
        || self is TerranBuildFusionCore
        || self is ProtossBuildNexus
        || self is ProtossBuildPylon
        || self is ProtossBuildAssimilator
        || self is ProtossBuildGateway
        || self is ProtossBuildForge
        || self is ProtossBuildFleetBeacon
        || self is ProtossBuildTwilightCouncil
        || self is ProtossBuildPhotonCannon
        || self is ProtossBuildStargate
        || self is ProtossBuildTemplarArchive
        || self is ProtossBuildDarkShrine
        || self is ProtossBuildRoboticsBay
        || self is ProtossBuildRoboticsFacility
        || self is ProtossBuildCyberneticsCore
        || self is BuildShieldBattery
        || self is ZergBuildHatchery
        || self is ZergBuildCreepTumor
        || self is ZergBuildExtractor
        || self is ZergBuildSpawningPool
        || self is ZergBuildEvolutionChamber
        || self is ZergBuildHydraliskDen
        || self is ZergBuildSpire
        || self is ZergBuildUltraliskCavern
        || self is ZergBuildInfestationPit
        || self is ZergBuildNydusNetwork
        || self is ZergBuildBanelingNest
        || self is BuildLurkerDen
        || self is ZergBuildRoachWarren
        || self is ZergBuildSpineCrawler
        || self is ZergBuildSporeCrawler
    }

    /// Checks whether this is one of the abilities with which a worker constructs a structure.
    pub fn is_constructing(self) -> (r: bool)
        ensures
            r == self.spec_is_constructing(),
    {
        match self {
            AbilityId::TerranBuildCommandCenter
            | AbilityId::TerranBuildSupplyDepot
            | AbilityId::TerranBuildRefinery
            | AbilityId::TerranBuildBarracks
            | AbilityId::TerranBuildEngineeringBay
            | AbilityId::TerranBuildMissileTurret
            | AbilityId::TerranBuildBunker
            | AbilityId::TerranBuildSensorTower
            | AbilityId::TerranBuildGhostAcademy
            | AbilityId::TerranBuildFactory
            | AbilityId::TerranBuildStarport
            | AbilityId::TerranBuildArmory
            | AbilityId::TerranBuildFusionCore
            | AbilityId::ProtossBuildNexus
            | AbilityId::ProtossBuildPylon
            | AbilityId::ProtossBuildAssimilator
            | AbilityId::ProtossBuildGateway
            | AbilityId::ProtossBuildForge
            | AbilityId::ProtossBuildFleetBeacon
            | AbilityId::ProtossBuildTwilightCouncil
            | AbilityId::ProtossBuildPhotonCannon
            | AbilityId::ProtossBuildStargate
            | AbilityId::ProtossBuildTemplarArchive
            | AbilityId::ProtossBuildDarkShrine
            | AbilityId::ProtossBuildRoboticsBay
            | AbilityId::ProtossBuildRoboticsFacility
            | AbilityId::ProtossBuildCyberneticsCore
            | AbilityId::BuildShieldBattery
            | AbilityId::ZergBuildHatchery
            | AbilityId::ZergBuildCreepTumor
            | AbilityId::ZergBuildExtractor
            | AbilityId::ZergBuildSpawningPool
            | AbilityId::ZergBuildEvolutionChamber
            | AbilityId::ZergBuildHydraliskDen
            | AbilityId::ZergBuildSpire
            | AbilityId::ZergBuildUltraliskCavern
            | AbilityId::ZergBuildInfestationPit
            | AbilityId::ZergBuildNydusNetwork
            | AbilityId::ZergBuildBanelingNest
            | AbilityId::BuildLurkerDen
            | AbilityId::ZergBuildRoachWarren
            | AbilityId::ZergBuildSpineCrawler
            | AbilityId::ZergBuildSporeCrawler => true,
            _ => false,
        }
    }
}

} // verus!
