//! A unit as the bot sees it on one step, and what can be read off it.

use vstd::prelude::*;
use crate::game_state::Alliance;
use crate::ids::{AbilityId, BuffId, UnitTypeId};
use crate::game_data::{type_is_structure, GameData, TargetType};

verus! {

/// How a unit is displayed.
#[derive(Debug, Clone, Copy, PartialEq, Eq, Structural)]
pub enum DisplayType {
    /// Fully visible.
    Visible,
    /// Dimmed copy left behind when the unit went into the fog of war.
    Snapshot,
    /// Fully hidden.
    Hidden,
    /// A building whose construction has not started.
    Placeholder,
}

impl DisplayType {
    /// Whether this is `Visible`.
    pub fn is_visible(self) -> (r: bool)
        ensures
            r == (self is Visible),
    {
        matches!(self, DisplayType::Visible)
    }

    /// Whether this is `Snapshot`.
    pub fn is_snapshot(self) -> (r: bool)
        ensures
            r == (self is Snapshot),
    {
        matches!(self, DisplayType::Snapshot)
    }

    /// Whether this is `Hidden`.
    pub fn is_hidden(self) -> (r: bool)
        ensures
            r == (self is Hidden),
    {
        matches!(self, DisplayType::Hidden)
    }

    /// Whether this is `Placeholder`.
    pub fn is_placeholder(self) -> (r: bool)
        ensures
            r == (self is Placeholder),
    {
        matches!(self, DisplayType::Placeholder)
    }
}

/// Whether a unit is cloaked, and whether it can be seen anyway.
#[derive(Debug, Clone, Copy, PartialEq, Eq, Structural)]
pub enum CloakState {
    /// Under the fog, so it is unknown whether it is cloaked.
    CloakedUnknown,
    /// Cloaked, hence invisible.
    Cloaked,
    /// Cloaked, but visible because it is detected.
    CloakedDetected,
    /// Not cloaked.
    NotCloaked,
    /// Cloaked, but visible because it is owned or allied.
    CloakedAllied,
}

/// An order a unit is executing.
#[derive(Debug, Clone, Copy, PartialEq, Eq, Structural)]
pub struct UnitOrder {
    /// The ability the unit is using.
    pub ability: AbilityId,
    /// The unit the order targets, if it targets one.
    pub target_tag: Option<u64>,
}

/// Copies a vector of copyable values.
pub fn copy_vec<T: Copy>(v: &Vec<T>) -> (r: Vec<T>)
    ensures
        r@ == v@,
{
    let mut r: Vec<T> = Vec::new();
    let mut i: usize = 0;
    while i < v.len()
        invariant
            0 <= i <= v@.len(),
            r@ == v@.take(i as int),
        decreases v@.len() - i,
    {
        r.push(v[i]);
        proof {
            assert(v@.take(i + 1) =~= v@.take(i as int).push(v@[i as int]));
        }
        i = i + 1;
    }
    proof {
        assert(v@.take(v@.len() as int) =~= v@);
    }
    r
}

/// A unit, structure or neutral object on the map, as seen on one step.
#[derive(Debug)]
pub struct Unit {
    pub display_type: DisplayType,
    pub alliance: Alliance,
    pub tag: u64,
    pub type_id: UnitTypeId,
    pub owner: u32,
    /// Whether its construction or morph is complete.
    pub build_complete: bool,
    pub cloak: CloakState,
    pub buffs: Vec<BuffId>,
    pub is_powered: bool,
    pub is_flying: bool,
    pub is_burrowed: bool,
    pub is_hallucination: bool,
    pub attack_upgrade_level: u32,
    pub armor_upgrade_level: i32,
    pub shield_upgrade_level: i32,
    pub health: Option<u32>,
    pub health_max: Option<u32>,
    pub shield: Option<u32>,
    pub shield_max: Option<u32>,
    pub energy: Option<u32>,
    pub energy_max: Option<u32>,
    pub mineral_contents: Option<u32>,
    pub vespene_contents: Option<u32>,
    pub orders: Vec<UnitOrder>,
    pub addon_tag: Option<u64>,
    pub cargo_space_taken: Option<u32>,
    pub cargo_space_max: Option<u32>,
    pub assigned_harvesters: Option<u32>,
    pub ideal_harvesters: Option<u32>,
    pub engaged_target_tag: Option<u64>,
}

/// What a unit is, as a mathematical value.
pub struct UnitView {
    pub display_type: DisplayType,
    pub alliance: Alliance,
    pub tag: u64,
    pub type_id: UnitTypeId,
    pub owner: u32,
    /// Whether its construction or morph is complete.
    pub build_complete: bool,
    pub cloak: CloakState,
    pub buffs: Seq<BuffId>,
    pub is_powered: bool,
    pub is_flying: bool,
    pub is_burrowed: bool,
    pub is_hallucination: bool,
    pub attack_upgrade_level: u32,
    pub armor_upgrade_level: i32,
    pub shield_upgrade_level: i32,
    pub health: Option<u32>,
    pub health_max: Option<u32>,
    pub shield: Option<u32>,
    pub shield_max: Option<u32>,
    pub energy: Option<u32>,
    pub energy_max: Option<u32>,
    pub mineral_contents: Option<u32>,
    pub vespene_contents: Option<u32>,
    pub orders: Seq<UnitOrder>,
    pub addon_tag: Option<u64>,
    pub cargo_space_taken: Option<u32>,
    pub cargo_space_max: Option<u32>,
    pub assigned_harvesters: Option<u32>,
    pub ideal_harvesters: Option<u32>,
    pub engaged_target_tag: Option<u64>,
}

impl View for Unit {
    type V = UnitView;

    open spec fn view(&self) -> UnitView {
        UnitView {
            display_type: self.display_type,
            alliance: self.alliance,
            tag: self.tag,
            type_id: self.type_id,
            owner: self.owner,
            build_complete: self.build_complete,
            cloak: self.cloak,
            buffs: self.buffs@,
            is_powered: self.is_powered,
            is_flying: self.is_flying,
            is_burrowed: self.is_burrowed,
            is_hallucination: self.is_hallucination,
            attack_upgrade_level: self.attack_upgrade_level,
            armor_upgrade_level: self.armor_upgrade_level,
            shield_upgrade_level: self.shield_upgrade_level,
            health: self.health,
            health_max: self.health_max,
            shield: self.shield,
            shield_max: self.shield_max,
            energy: self.energy,
            energy_max: self.energy_max,
            mineral_contents: self.mineral_contents,
            vespene_contents: self.vespene_contents,
            orders: self.orders@,
            addon_tag: self.addon_tag,
            cargo_space_taken: self.cargo_space_taken,
            cargo_space_max: self.cargo_space_max,
            assigned_harvesters: self.assigned_harvesters,
            ideal_harvesters: self.ideal_harvesters,
            engaged_target_tag: self.engaged_target_tag,
        }
    }
}

impl Clone for Unit {
    fn clone(&self) -> (r: Unit)
        ensures
            r@ == self@,
    {
        let r = Unit {
            display_type: self.display_type,
            alliance: self.alliance,
            tag: self.tag,
            type_id: self.type_id,
            owner: self.owner,
            build_complete: self.build_complete,
            cloak: self.cloak,
            buffs: copy_vec(&self.buffs),
            is_powered: self.is_powered,
            is_flying: self.is_flying,
            is_burrowed: self.is_burrowed,
            is_hallucination: self.is_hallucination,
            attack_upgrade_level: self.attack_upgrade_level,
            armor_upgrade_level: self.armor_upgrade_level,
            shield_upgrade_level: self.shield_upgrade_level,
            health: self.health,
            health_max: self.health_max,
            shield: self.shield,
            shield_max: self.shield_max,
            energy: self.energy,
            energy_max: self.energy_max,
            mineral_contents: self.mineral_contents,
            vespene_contents: self.vespene_contents,
            orders: copy_vec(&self.orders),
            addon_tag: self.addon_tag,
            cargo_space_taken: self.cargo_space_taken,
            cargo_space_max: self.cargo_space_max,
            assigned_harvesters: self.assigned_harvesters,
            ideal_harvesters: self.ideal_harvesters,
            engaged_target_tag: self.engaged_target_tag,
        };
        proof {
            assert(r.buffs@ =~= self.buffs@);
            assert(r.orders@ =~= self.orders@);
        }
        r
    }
}

/// The sum of two optional amounts, present when either is.
pub open spec fn sum_present(a: Option<u32>, b: Option<u32>) -> Option<int> {
    match (a, b) {
        (Some(x), Some(y)) => Some(x + y),
        (Some(x), None) => Some(x as int),
        (None, Some(y)) => Some(y as int),
        (None, None) => None,
    }
}

/// Whether both amounts are known and the first is below the second.
pub open spec fn option_below(a: Option<u32>, b: Option<u32>) -> bool {
    match (a, b) {
        (Some(x), Some(y)) => x < y,
        _ => false,
    }
}

impl UnitView {
    /// The ability of the first order, if any.
    pub open spec fn spec_first_ability(self) -> Option<AbilityId> {
        if self.orders.len() == 0 {
            None
        } else {
            Some(self.orders[0].ability)
        }
    }

    /// Whether the unit carries the buff.
    pub open spec fn spec_has_buff(self, buff: BuffId) -> bool {
        self.buffs.contains(buff)
    }

    /// The types that detect cloaked units: observers, ravens and overseers
    /// always; turrets and spore crawlers once complete; photon cannons once
    /// complete and powered.
    pub open spec fn spec_is_detector(self) -> bool {
        let t = self.type_id;
        (t is Observer || t is ObserverSiegeMode || t is Raven || t is Overseer
            || t is OverseerSiegeMode) || (self.build_complete && ((t is MissileTurret
            || t is SporeCrawler) || (t is PhotonCannon && self.is_powered)))
    }
}

impl Unit {
    /// Whether its type is a worker.
    pub fn is_worker(&self) -> (r: bool)
        ensures
            r == self.type_id.spec_is_worker(),
    {
        self.type_id.is_worker()
    }

    /// Whether its type is a townhall.
    pub fn is_townhall(&self) -> (r: bool)
        ensures
            r == self.type_id.spec_is_townhall(),
    {
        self.type_id.is_townhall()
    }

    /// Whether its type is an addon.
    pub fn is_addon(&self) -> (r: bool)
        ensures
            r == self.type_id.spec_is_addon(),
    {
        self.type_id.is_addon()
    }

    /// Whether its type attacks in melee.
    pub fn is_melee(&self) -> (r: bool)
        ensures
            r == self.type_id.spec_is_melee(),
    {
        self.type_id.is_melee()
    }

    /// Whether it is a structure: whether the game data `data` gives its
    /// type the `Structure` attribute.
    pub fn is_structure(&self, data: &GameData) -> (r: bool)
        ensures
            r == type_is_structure(data.units@, self.type_id),
    {
        data.is_structure_type(self.type_id)
    }

    /// Whether its construction or morph is complete.
    pub fn is_ready(&self) -> (r: bool)
        ensures
            r == self.build_complete,
    {
        self.build_complete
    }

    /// Whether the unit detects cloaked units.
    pub fn is_detector(&self) -> (r: bool)
        ensures
            r == self@.spec_is_detector(),
    {
        matches!(
            self.type_id,
            UnitTypeId::Observer | UnitTypeId::ObserverSiegeMode | UnitTypeId::Raven
                | UnitTypeId::Overseer | UnitTypeId::OverseerSiegeMode
        ) || (self.build_complete && (matches!(
            self.type_id,
            UnitTypeId::MissileTurret | UnitTypeId::SporeCrawler
        ) || (matches!(self.type_id, UnitTypeId::PhotonCannon) && self.is_powered)))
    }

    /// Whether an addon is attached.
    pub fn has_addon(&self) -> (r: bool)
        ensures
            r == (self.addon_tag is Some),
    {
        self.addon_tag.is_some()
    }

    /// Whether the attached addon is one of the given techlabs.
    pub fn has_techlab(&self, techlab_tags: &[u64]) -> (r: bool)
        ensures
            r == (match self.addon_tag {
                Some(t) => techlab_tags@.contains(t),
                None => false,
            }),
    {
        match self.addon_tag {
            Some(t) => slice_contains_u64(techlab_tags, t),
            None => false,
        }
    }

    /// Whether the attached addon is one of the given reactors.
    pub fn has_reactor(&self, reactor_tags: &[u64]) -> (r: bool)
        ensures
            r == (match self.addon_tag {
                Some(t) => reactor_tags@.contains(t),
                None => false,
            }),
    {
        match self.addon_tag {
            Some(t) => slice_contains_u64(reactor_tags, t),
            None => false,
        }
    }

    /// Health and shield together, present when either is.
    pub fn hits(&self) -> (r: Option<u32>)
        requires
            sum_present(self.health, self.shield) matches Some(v) ==> v <= u32::MAX,
        ensures
            match r {
                Some(v) => sum_present(self.health, self.shield) == Some(v as int),
                None => sum_present(self.health, self.shield) is None,
            },
    {
        match (self.health, self.shield) {
            (Some(h), Some(s)) => Some(h + s),
            (Some(h), None) => Some(h),
            (None, Some(s)) => Some(s),
            (None, None) => None,
        }
    }

    /// Maximum health and maximum shield together, present when either is.
    pub fn hits_max(&self) -> (r: Option<u32>)
        requires
            sum_present(self.health_max, self.shield_max) matches Some(v) ==> v <= u32::MAX,
        ensures
            match r {
                Some(v) => sum_present(self.health_max, self.shield_max) == Some(v as int),
                None => sum_present(self.health_max, self.shield_max) is None,
            },
    {
        match (self.health_max, self.shield_max) {
            (Some(h), Some(s)) => Some(h + s),
            (Some(h), None) => Some(h),
            (None, Some(s)) => Some(s),
            (None, None) => None,
        }
    }

    /// Whether the unit was attacked since the previous step: its hits are
    /// known now and then (`last_hits`), and they dropped. With either
    /// unknown, nothing is known to be lost, and the answer is `false`.
    pub fn is_attacked(&self, last_hits: Option<u32>) -> (r: bool)
        requires
            sum_present(self.health, self.shield) matches Some(v) ==> v <= u32::MAX,
        ensures
            r == option_below(
                match sum_present(self.health, self.shield) {
                    Some(v) => Some(v as u32),
                    None => None,
                },
                last_hits,
            ),
    {
        let hits = self.hits();
        match (hits, last_hits) {
            (Some(x), Some(y)) => x < y,
            _ => false,
        }
    }

    /// How many hits the unit lost since the previous step, when it had
    /// `last_hits` then; `0` when either amount is unknown.
    pub fn damage_taken(&self, last_hits: Option<u32>) -> (r: u32)
        requires
            sum_present(self.health, self.shield) matches Some(v) ==> v <= u32::MAX,
        ensures
            r == (match (sum_present(self.health, self.shield), last_hits) {
                (Some(h), Some(l)) => if l >= h {
                    (l - h) as u32
                } else {
                    0
                },
                _ => 0,
            }),
    {
        let hits = match self.hits() {
            Some(h) => h,
            None => return 0,
        };
        let last = match last_hits {
            Some(l) => l,
            None => return 0,
        };
        last.saturating_sub(hits)
    }

    /// Whether the unit carries something.
    pub fn has_cargo(&self) -> (r: bool)
        ensures
            r == (match self.cargo_space_taken {
                Some(t) => t > 0,
                None => false,
            }),
    {
        match self.cargo_space_taken {
            Some(t) => t > 0,
            None => false,
        }
    }

    /// The free cargo space, when both amounts are known.
    pub fn cargo_left(&self) -> (r: Option<u32>)
        requires
            (self.cargo_space_max, self.cargo_space_taken) matches (Some(m), Some(t)) ==> t <= m,
        ensures
            r == (match (self.cargo_space_max, self.cargo_space_taken) {
                (Some(m), Some(t)) => Some((m - t) as u32),
                _ => None,
            }),
    {
        match (self.cargo_space_max, self.cargo_space_taken) {
            (Some(m), Some(t)) => Some(m - t),
            _ => None,
        }
    }

    /// Whether it is owned by the bot.
    pub fn is_mine(&self) -> (r: bool)
        ensures
            r == (self.alliance is Own),
    {
        self.alliance.is_mine()
    }

    /// Whether it is owned by an opponent.
    pub fn is_enemy(&self) -> (r: bool)
        ensures
            r == (self.alliance is Enemy),
    {
        self.alliance.is_enemy()
    }

    /// Whether it is neutral.
    pub fn is_neutral(&self) -> (r: bool)
        ensures
            r == (self.alliance is Neutral),
    {
        self.alliance.is_neutral()
    }

    /// Whether it is owned by an ally.
    pub fn is_ally(&self) -> (r: bool)
        ensures
            r == (self.alliance is Ally),
    {
        self.alliance.is_ally()
    }

    /// Whether it is displayed as hidden.
    pub fn is_hidden(&self) -> (r: bool)
        ensures
            r == (self.display_type is Hidden),
    {
        self.display_type.is_hidden()
    }

    /// Whether it is a building whose construction has not started.
    pub fn is_placeholder(&self) -> (r: bool)
        ensures
            r == (self.display_type is Placeholder),
    {
        self.display_type.is_placeholder()
    }

    /// Whether it is cloaked (detected, allied or not).
    pub fn is_cloaked(&self) -> (r: bool)
        ensures
            r == (self.cloak is Cloaked || self.cloak is CloakedDetected
                || self.cloak is CloakedAllied),
    {
        matches!(self.cloak, CloakState::Cloaked | CloakState::CloakedDetected | CloakState::CloakedAllied)
    }

    /// Whether it is cloaked but detected.
    pub fn is_revealed(&self) -> (r: bool)
        ensures
            r == (self.cloak is CloakedDetected),
    {
        matches!(self.cloak, CloakState::CloakedDetected)
    }

    /// Whether it can be attacked: not cloaked, or detected.
    pub fn can_be_attacked(&self) -> (r: bool)
        ensures
            r == (self.cloak is NotCloaked || self.cloak is CloakedDetected),
    {
        matches!(self.cloak, CloakState::NotCloaked | CloakState::CloakedDetected)
    }

    /// Whether the unit carries the buff.
    pub fn has_buff(&self, buff: BuffId) -> (r: bool)
        ensures
            r == self@.spec_has_buff(buff),
    {
        let mut i: usize = 0;
        while i < self.buffs.len()
            invariant
                0 <= i <= self.buffs@.len(),
                forall|j: int| 0 <= j < i ==> self.buffs@[j] != buff,
            decreases self.buffs@.len() - i,
        {
            if self.buffs[i] == buff {
                return true;
            }
            i = i + 1;
        }
        false
    }

    /// Whether the unit carries any of the buffs.
    pub fn has_any_buff(&self, buffs: &[BuffId]) -> (r: bool)
        ensures
            r == (exists|i: int| 0 <= i < buffs@.len() && self@.spec_has_buff(buffs@[i])),
    {
        let mut i: usize = 0;
        while i < buffs.len()
            invariant
                0 <= i <= buffs@.len(),
                forall|j: int| 0 <= j < i ==> !self@.spec_has_buff(#[trigger] buffs@[j]),
            decreases buffs@.len() - i,
        {
            if self.has_buff(buffs[i]) {
                return true;
            }
            i = i + 1;
        }
        false
    }

    /// Whether the worker carries minerals.
    pub fn is_carrying_minerals(&self) -> (r: bool)
        ensures
            r == (self@.spec_has_buff(BuffId::CarryMineralFieldMinerals) || self@.spec_has_buff(
                BuffId::CarryHighYieldMineralFieldMinerals,
            )),
    {
        self.has_buff(BuffId::CarryMineralFieldMinerals) || self.has_buff(
            BuffId::CarryHighYieldMineralFieldMinerals,
        )
    }

    /// Whether the worker carries vespene gas.
    pub fn is_carrying_vespene(&self) -> (r: bool)
        ensures
            r == (self@.spec_has_buff(BuffId::CarryHarvestableVespeneGeyserGas)
                || self@.spec_has_buff(BuffId::CarryHarvestableVespeneGeyserGasProtoss)
                || self@.spec_has_buff(BuffId::CarryHarvestableVespeneGeyserGasZerg)),
    {
        self.has_buff(BuffId::CarryHarvestableVespeneGeyserGas) || self.has_buff(
            BuffId::CarryHarvestableVespeneGeyserGasProtoss,
        ) || self.has_buff(BuffId::CarryHarvestableVespeneGeyserGasZerg)
    }

    /// Whether the worker carries any resource.
    pub fn is_carrying_resource(&self) -> (r: bool)
        ensures
            r == (self@.spec_has_buff(BuffId::CarryMineralFieldMinerals) || self@.spec_has_buff(
                BuffId::CarryHighYieldMineralFieldMinerals,
            ) || self@.spec_has_buff(BuffId::CarryHarvestableVespeneGeyserGas)
                || self@.spec_has_buff(BuffId::CarryHarvestableVespeneGeyserGasProtoss)
                || self@.spec_has_buff(BuffId::CarryHarvestableVespeneGeyserGasZerg)),
    {
        self.is_carrying_minerals() || self.is_carrying_vespene()
    }

    /// The ability of the first order, if any.
    pub fn ordered_ability(&self) -> (r: Option<AbilityId>)
        ensures
            r == self@.spec_first_ability(),
    {
        if self.orders.len() == 0 {
            None
        } else {
            Some(self.orders[0].ability)
        }
    }

    /// The unit targeted by the first order, if it targets one.
    pub fn target_tag(&self) -> (r: Option<u64>)
        ensures
            r == (if self.orders@.len() == 0 {
                None
            } else {
                self.orders@[0].target_tag
            }),
    {
        if self.orders.len() == 0 {
            None
        } else {
            self.orders[0].target_tag
        }
    }

    /// Whether the unit has no orders.
    pub fn is_idle(&self) -> (r: bool)
        ensures
            r == (self.orders@.len() == 0),
    {
        self.orders.len() == 0
    }

    /// Whether the unit has no orders, or one fewer than its reactor allows.
    pub fn is_unused(&self, reactor_tags: &[u64]) -> (r: bool)
        ensures
            r == (if (match self.addon_tag {
                Some(t) => reactor_tags@.contains(t),
                None => false,
            }) {
                self.orders@.len() < 2
            } else {
                self.orders@.len() == 0
            }),
    {
        if self.has_reactor(reactor_tags) {
            self.orders.len() < 2
        } else {
            self.is_idle()
        }
    }

    /// Whether the first order uses the ability.
    pub fn is_using(&self, ability: AbilityId) -> (r: bool)
        ensures
            r == (self@.spec_first_ability() == Some(ability)),
    {
        self.orders.len() > 0 && self.orders[0].ability == ability
    }

    /// Whether the first order uses any of the abilities.
    pub fn is_using_any(&self, abilities: &[AbilityId]) -> (r: bool)
        ensures
            r == (exists|i: int|
                0 <= i < abilities@.len() && self@.spec_first_ability() == Some(abilities@[i])),
    {
        if self.orders.len() == 0 {
            return false;
        }
        let a = self.orders[0].ability;
        let mut i: usize = 0;
        while i < abilities.len()
            invariant
                0 <= i <= abilities@.len(),
                self.orders@.len() > 0,
                a == self.orders@[0].ability,
                forall|j: int| 0 <= j < i ==> abilities@[j] != a,
            decreases abilities@.len() - i,
        {
            if abilities[i] == a {
                return true;
            }
            i = i + 1;
        }
        false
    }

    /// Whether the first order is an attack.
    pub fn is_attacking(&self) -> (r: bool)
        ensures
            r == (match self@.spec_first_ability() {
                Some(a) => a is Attack || a is AttackAttack || a is AttackAttackTowards
                    || a is AttackAttackBarrage || a is ScanMove,
                None => false,
            }),
    {
        self.orders.len() > 0 && matches!(
            self.orders[0].ability,
            AbilityId::Attack | AbilityId::AttackAttack | AbilityId::AttackAttackTowards
                | AbilityId::AttackAttackBarrage | AbilityId::ScanMove
        )
    }

    /// Whether the first order is a move.
    pub fn is_moving(&self) -> (r: bool)
        ensures
            r == (self@.spec_first_ability() == Some(AbilityId::MoveMove)),
    {
        self.is_using(AbilityId::MoveMove)
    }

    /// Whether the first order is a patrol.
    pub fn is_patrolling(&self) -> (r: bool)
        ensures
            r == (self@.spec_first_ability() == Some(AbilityId::Patrol)),
    {
        self.is_using(AbilityId::Patrol)
    }

    /// Whether the first order is a repair.
    pub fn is_repairing(&self) -> (r: bool)
        ensures
            r == (match self@.spec_first_ability() {
                Some(a) => a is EffectRepair || a is EffectRepairSCV || a is EffectRepairMule,
                None => false,
            }),
    {
        self.orders.len() > 0 && matches!(
            self.orders[0].ability,
            AbilityId::EffectRepair | AbilityId::EffectRepairSCV | AbilityId::EffectRepairMule
        )
    }

    /// Whether the worker is on its way to gather.
    pub fn is_gathering(&self) -> (r: bool)
        ensures
            r == (self@.spec_first_ability() == Some(AbilityId::HarvestGather)),
    {
        self.is_using(AbilityId::HarvestGather)
    }

    /// Whether the worker is returning resources.
    pub fn is_returning(&self) -> (r: bool)
        ensures
            r == (self@.spec_first_ability() == Some(AbilityId::HarvestReturn)),
    {
        self.is_using(AbilityId::HarvestReturn)
    }

    /// Whether the worker is gathering or returning resources.
    pub fn is_collecting(&self) -> (r: bool)
        ensures
            r == (self@.spec_first_ability() == Some(AbilityId::HarvestGather)
                || self@.spec_first_ability() == Some(AbilityId::HarvestReturn)),
    {
        self.orders.len() > 0 && matches!(
            self.orders[0].ability,
            AbilityId::HarvestGather | AbilityId::HarvestReturn
        )
    }

    /// Whether the first order constructs a structure.
    pub fn is_constructing(&self) -> (r: bool)
        ensures
            r == (match self@.spec_first_ability() {
                Some(a) => a.spec_is_constructing(),
                None => false,
            }),
    {
        self.orders.len() > 0 && self.orders[0].ability.is_constructing()
    }

    /// Whether the first order builds a techlab.
    pub fn is_making_techlab(&self) -> (r: bool)
        ensures
            r == (match self@.spec_first_ability() {
                Some(a) => a is BuildTechLabBarracks || a is BuildTechLabFactory
                    || a is BuildTechLabStarport,
                None => false,
            }),
    {
        self.orders.len() > 0 && matches!(
            self.orders[0].ability,
            AbilityId::BuildTechLabBarracks | AbilityId::BuildTechLabFactory
                | AbilityId::BuildTechLabStarport
        )
    }

    /// Whether the first order builds a reactor.
    pub fn is_making_reactor(&self) -> (r: bool)
        ensures
            r == (match self@.spec_first_ability() {
                Some(a) => a is BuildReactorBarracks || a is BuildReactorFactory
                    || a is BuildReactorStarport,
                None => false,
            }),
    {
        self.orders.len() > 0 && matches!(
            self.orders[0].ability,
            AbilityId::BuildReactorBarracks | AbilityId::BuildReactorFactory
                | AbilityId::BuildReactorStarport
        )
    }

    /// Whether the first order builds an addon.
    pub fn is_making_addon(&self) -> (r: bool)
        ensures
            r == (match self@.spec_first_ability() {
                Some(a) => a is BuildTechLabBarracks || a is BuildTechLabFactory
                    || a is BuildTechLabStarport || a is BuildReactorBarracks
                    || a is BuildReactorFactory || a is BuildReactorStarport,
                None => false,
            }),
    {
        self.is_making_techlab() || self.is_making_reactor()
    }
}

/// Whether the slice holds the tag.
pub fn slice_contains_u64(s: &[u64], x: u64) -> (r: bool)
    ensures
        r == s@.contains(x),
{
    let mut i: usize = 0;
    while i < s.len()
        invariant
            0 <= i <= s@.len(),
            forall|j: int| 0 <= j < i ==> s@[j] != x,
        decreases s@.len() - i,
    {
        if s[i] == x {
            return true;
        }
        i = i + 1;
    }
    false
}

/// Whether a changeling, which never attacks, has this type.
pub open spec fn is_changeling(t: UnitTypeId) -> bool {
    t is Changeling || t is ChangelingZealot || t is ChangelingMarineShield || t is ChangelingMarine
        || t is ChangelingZerglingWings || t is ChangelingZergling
}

/// The targets of the weapons a unit of type `t` uses, given the targets
/// of its type's weapons: none for a changeling.
pub open spec fn used_targets(t: UnitTypeId, targets: Seq<TargetType>) -> Seq<TargetType> {
    if is_changeling(t) {
        Seq::empty()
    } else {
        targets
    }
}

/// What a unit with weapons of the targets `ts` attacks: anything when a
/// weapon attacks anything or when weapons attack both ground and air;
/// else ground or air as its weapons do; nothing without weapons.
pub open spec fn spec_weapon_target(ts: Seq<TargetType>) -> Option<TargetType> {
    if ts.contains(TargetType::Any) || (ts.contains(TargetType::Ground) && ts.contains(TargetType::Air)) {
        Some(TargetType::Any)
    } else if ts.contains(TargetType::Ground) {
        Some(TargetType::Ground)
    } else if ts.contains(TargetType::Air) {
        Some(TargetType::Air)
    } else {
        None
    }
}

/// Whether `ts` holds `t`.
fn targets_contain(ts: &[TargetType], t: TargetType) -> (r: bool)
    ensures
        r == ts@.contains(t),
{
    let mut i: usize = 0;
    while i < ts.len()
        invariant
            0 <= i <= ts@.len(),
            forall|j: int| 0 <= j < i ==> ts@[j] != t,
        decreases ts@.len() - i,
    {
        if ts[i] == t {
            proof {
                assert(ts@[i as int] == t);
            }
            return true;
        }
        i = i + 1;
    }
    false
}

impl Unit {
    /// What the unit attacks, its weapons' targets being `weapon_targets`
    /// (the targets of its type's weapons, as the game data gives them).
    pub fn weapon_target(&self, weapon_targets: &[TargetType]) -> (r: Option<TargetType>)
        ensures
            r == spec_weapon_target(used_targets(self.type_id, weapon_targets@)),
    {
        if is_changeling_type(self.type_id) {
            proof {
                assert(!Seq::<TargetType>::empty().contains(TargetType::Any));
                assert(!Seq::<TargetType>::empty().contains(TargetType::Ground));
                assert(!Seq::<TargetType>::empty().contains(TargetType::Air));
            }
            return None;
        }
        let any = targets_contain(weapon_targets, TargetType::Any);
        let ground = targets_contain(weapon_targets, TargetType::Ground);
        let air = targets_contain(weapon_targets, TargetType::Air);
        if any || (ground && air) {
            Some(TargetType::Any)
        } else if ground {
            Some(TargetType::Ground)
        } else if air {
            Some(TargetType::Air)
        } else {
            None
        }
    }

    /// Whether the unit has weapons at all.
    pub fn can_attack(&self, weapon_targets: &[TargetType]) -> (r: bool)
        ensures
            r == (used_targets(self.type_id, weapon_targets@).len() > 0),
    {
        !is_changeling_type(self.type_id) && weapon_targets.len() > 0
    }

    /// Whether the unit attacks both air and ground.
    pub fn can_attack_both(&self, weapon_targets: &[TargetType]) -> (r: bool)
        ensures
            r == (spec_weapon_target(used_targets(self.type_id, weapon_targets@)) == Some(TargetType::Any)),
    {
        self.weapon_target(weapon_targets) == Some(TargetType::Any)
    }

    /// Whether the unit attacks ground: some weapon does not attack only air.
    pub fn can_attack_ground(&self, weapon_targets: &[TargetType]) -> (r: bool)
        ensures
            r == (exists|i: int|
                0 <= i < used_targets(self.type_id, weapon_targets@).len() && !(used_targets(
                    self.type_id,
                    weapon_targets@,
                )[i] is Air)),
    {
        if is_changeling_type(self.type_id) {
            return false;
        }
        let mut i: usize = 0;
        while i < weapon_targets.len()
            invariant
                0 <= i <= weapon_targets@.len(),
                !is_changeling(self.type_id),
                forall|j: int| 0 <= j < i ==> weapon_targets@[j] is Air,
            decreases weapon_targets@.len() - i,
        {
            if !weapon_targets[i].is_air() {
                return true;
            }
            i = i + 1;
        }
        false
    }

    /// Whether the unit attacks air: some weapon does not attack only ground.
    pub fn can_attack_air(&self, weapon_targets: &[TargetType]) -> (r: bool)
        ensures
            r == (exists|i: int|
                0 <= i < used_targets(self.type_id, weapon_targets@).len() && !(used_targets(
                    self.type_id,
                    weapon_targets@,
                )[i] is Ground)),
    {
        if is_changeling_type(self.type_id) {
            return false;
        }
        let mut i: usize = 0;
        while i < weapon_targets.len()
            invariant
                0 <= i <= weapon_targets@.len(),
                !is_changeling(self.type_id),
                forall|j: int| 0 <= j < i ==> weapon_targets@[j] is Ground,
            decreases weapon_targets@.len() - i,
        {
            if !weapon_targets[i].is_ground() {
                return true;
            }
            i = i + 1;
        }
        false
    }

    /// Whether the unit can attack `target`: it has weapons, and the target
    /// is a colossus (which ground and air weapons both reach) or some
    /// weapon reaches where the target is (the air when it flies, the
    /// ground otherwise).
    pub fn can_attack_unit(&self, weapon_targets: &[TargetType], target: &Unit) -> (r: bool)
        ensures
            r == ({
                let ts = used_targets(self.type_id, weapon_targets@);
                let not_target = if target.is_flying { TargetType::Ground } else { TargetType::Air };
                ts.len() > 0 && (target.type_id == UnitTypeId::Colossus || exists|i: int|
                    0 <= i < ts.len() && ts[i] != not_target)
            }),
    {
        if !self.can_attack(weapon_targets) {
            return false;
        }
        if target.type_id == UnitTypeId::Colossus {
            return true;
        }
        let not_target = if target.is_flying { TargetType::Ground } else { TargetType::Air };
        let mut i: usize = 0;
        while i < weapon_targets.len()
            invariant
                0 <= i <= weapon_targets@.len(),
                !is_changeling(self.type_id),
                weapon_targets@.len() > 0,
                not_target == (if target.is_flying { TargetType::Ground } else { TargetType::Air }),
                forall|j: int| 0 <= j < i ==> weapon_targets@[j] == not_target,
            decreases weapon_targets@.len() - i,
        {
            if weapon_targets[i] != not_target {
                proof {
                    assert(used_targets(self.type_id, weapon_targets@)[i as int] != not_target);
                }
                return true;
            }
            i = i + 1;
        }
        false
    }
}

/// Whether `t` is a changeling type.
fn is_changeling_type(t: UnitTypeId) -> (r: bool)
    ensures
        r == is_changeling(t),
{
    matches!(
        t,
        UnitTypeId::Changeling | UnitTypeId::ChangelingZealot | UnitTypeId::ChangelingMarineShield
            | UnitTypeId::ChangelingMarine | UnitTypeId::ChangelingZerglingWings | UnitTypeId::ChangelingZergling
    )
}

} // verus!
