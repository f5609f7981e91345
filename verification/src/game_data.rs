//! Constant data about unit types, abilities, upgrades and buffs.

use vstd::prelude::*;
use crate::ids::{AbilityId, BuffId, UnitTypeId, UpgradeId};
use crate::player::Race;

verus! {

/// What an ability can be targeted at.
#[derive(Debug, Clone, Copy, PartialEq, Eq, Structural)]
pub enum AbilityTarget {
    NoTarget,
    Point,
    Unit,
    PointOrUnit,
    PointOrNone,
}

/// Attributes of unit types, which weapons deal bonus damage against.
#[derive(Debug, Clone, Copy, PartialEq, Eq, Structural, Hash)]
pub enum Attribute {
    Light,
    Armored,
    Biological,
    Mechanical,
    Robotic,
    Psionic,
    Massive,
    Structure,
    Hover,
    Heroic,
    Summoned,
}

impl Attribute {
    /// Whether this is `Light`.
    pub fn is_light(self) -> (r: bool)
        ensures
            r == (self is Light),
    {
        matches!(self, Attribute::Light)
    }

    /// Whether this is `Armored`.
    pub fn is_armored(self) -> (r: bool)
        ensures
            r == (self is Armored),
    {
        matches!(self, Attribute::Armored)
    }

    /// Whether this is `Biological`.
    pub fn is_biological(self) -> (r: bool)
        ensures
            r == (self is Biological),
    {
        matches!(self, Attribute::Biological)
    }

    /// Whether this is `Mechanical`.
    pub fn is_mechanical(self) -> (r: bool)
        ensures
            r == (self is Mechanical),
    {
        matches!(self, Attribute::Mechanical)
    }

    /// Whether this is `Robotic`.
    pub fn is_robotic(self) -> (r: bool)
        ensures
            r == (self is Robotic),
    {
        matches!(self, Attribute::Robotic)
    }

    /// Whether this is `Psionic`.
    pub fn is_psionic(self) -> (r: bool)
        ensures
            r == (self is Psionic),
    {
        matches!(self, Attribute::Psionic)
    }

    /// Whether this is `Massive`.
    pub fn is_massive(self) -> (r: bool)
        ensures
            r == (self is Massive),
    {
        matches!(self, Attribute::Massive)
    }

    /// Whether this is `Structure`.
    pub fn is_structure(self) -> (r: bool)
        ensures
            r == (self is Structure),
    {
        matches!(self, Attribute::Structure)
    }

    /// Whether this is `Hover`.
    pub fn is_hover(self) -> (r: bool)
        ensures
            r == (self is Hover),
    {
        matches!(self, Attribute::Hover)
    }

    /// Whether this is `Heroic`.
    pub fn is_heroic(self) -> (r: bool)
        ensures
            r == (self is Heroic),
    {
        matches!(self, Attribute::Heroic)
    }

    /// Whether this is `Summoned`.
    pub fn is_summoned(self) -> (r: bool)
        ensures
            r == (self is Summoned),
    {
        matches!(self, Attribute::Summoned)
    }
}

/// What a weapon can hit.
#[derive(Debug, Clone, Copy, PartialEq, Eq, Structural, Hash)]
pub enum TargetType {
    Ground,
    Air,
    Any,
}

impl TargetType {
    /// Whether this is `Ground`.
    pub fn is_ground(self) -> (r: bool)
        ensures
            r == (self is Ground),
    {
        matches!(self, TargetType::Ground)
    }

    /// Whether this is `Air`.
    pub fn is_air(self) -> (r: bool)
        ensures
            r == (self is Air),
    {
        matches!(self, TargetType::Air)
    }

    /// Whether this is `Any`.
    pub fn is_any(self) -> (r: bool)
        ensures
            r == (self is Any),
    {
        matches!(self, TargetType::Any)
    }
}

/// The cost of a unit type or an upgrade. Supply is counted in halves,
/// the finest step the game uses: a zergling costs `1`, a marine `2`.
#[derive(Debug, Clone, Copy, PartialEq, Eq, Structural)]
pub struct Cost {
    pub minerals: u32,
    pub vespene: u32,
    pub supply_halves: u32,
}

impl Cost {
    /// The cost of nothing.
    pub fn zero() -> (r: Cost)
        ensures
            r == (Cost { minerals: 0, vespene: 0, supply_halves: 0 }),
    {
        Cost { minerals: 0, vespene: 0, supply_halves: 0 }
    }
}

impl Default for Cost {
    fn default() -> (r: Cost)
        ensures
            r == (Cost { minerals: 0, vespene: 0, supply_halves: 0 }),
    {
        Cost::zero()
    }
}

/// Constant data about a unit type.
#[derive(Debug, Clone)]
pub struct UnitTypeData {
    pub id: UnitTypeId,
    pub name: String,
    pub available: bool,
    pub cargo_size: u32,
    pub mineral_cost: u32,
    pub vespene_cost: u32,
    /// Supply required, in halves.
    pub food_required_halves: u32,
    /// The ability that makes a unit of this type.
    pub ability: Option<AbilityId>,
    pub race: Race,
    pub has_vespene: bool,
    pub has_minerals: bool,
    pub tech_alias: Vec<UnitTypeId>,
    pub unit_alias: Option<UnitTypeId>,
    pub tech_requirement: Option<UnitTypeId>,
    pub require_attached: bool,
    pub attributes: Vec<Attribute>,
    pub armor: i32,
}

impl UnitTypeData {
    /// The cost of making a unit of this type, as the game reports it.
    pub open spec fn spec_cost(self) -> Cost {
        Cost {
            minerals: self.mineral_cost,
            vespene: self.vespene_cost,
            supply_halves: self.food_required_halves,
        }
    }

    /// The cost of making a unit of this type, as the game reports it.
    pub fn cost(&self) -> (r: Cost)
        ensures
            r == self.spec_cost(),
    {
        Cost {
            minerals: self.mineral_cost,
            vespene: self.vespene_cost,
            supply_halves: self.food_required_halves,
        }
    }
}

/// Constant data about an upgrade.
#[derive(Debug, Clone)]
pub struct UpgradeData {
    pub id: UpgradeId,
    /// The ability that researches this upgrade.
    pub ability: AbilityId,
    pub name: String,
    pub mineral_cost: u32,
    pub vespene_cost: u32,
}

impl UpgradeData {
    /// The cost of researching this upgrade.
    pub open spec fn spec_cost(self) -> Cost {
        Cost { minerals: self.mineral_cost, vespene: self.vespene_cost, supply_halves: 0 }
    }

    /// The cost of researching this upgrade.
    pub fn cost(&self) -> (r: Cost)
        ensures
            r == self.spec_cost(),
    {
        Cost { minerals: self.mineral_cost, vespene: self.vespene_cost, supply_halves: 0 }
    }
}

/// Constant data about a buff.
#[derive(Debug, Clone)]
pub struct BuffData {
    pub id: BuffId,
    pub name: String,
}

/// The data of the first unit type in `s` with the given id.
pub open spec fn find_unit_data(s: Seq<UnitTypeData>, id: UnitTypeId) -> Option<UnitTypeData>
    decreases s.len(),
{
    if s.len() == 0 {
        None
    } else if s[0].id == id {
        Some(s[0])
    } else {
        find_unit_data(s.drop_first(), id)
    }
}

/// The data of the first upgrade in `s` with the given id.
/// Whether the game data gives unit type `t` the `Structure` attribute;
/// a type the data does not know is no structure.
pub open spec fn type_is_structure(s: Seq<UnitTypeData>, t: UnitTypeId) -> bool {
    match find_unit_data(s, t) {
        Some(d) => d.attributes@.contains(Attribute::Structure),
        None => false,
    }
}

pub open spec fn find_upgrade_data(s: Seq<UpgradeData>, id: UpgradeId) -> Option<UpgradeData>
    decreases s.len(),
{
    if s.len() == 0 {
        None
    } else if s[0].id == id {
        Some(s[0])
    } else {
        find_upgrade_data(s.drop_first(), id)
    }
}

/// Constant data about the game, received once at its start.
#[derive(Debug, Clone)]
pub struct GameData {
    pub units: Vec<UnitTypeData>,
    pub upgrades: Vec<UpgradeData>,
    pub buffs: Vec<BuffData>,
}

impl GameData {
    /// Game data that knows nothing.
    pub fn new() -> (r: GameData)
        ensures
            r.units@.len() == 0,
            r.upgrades@.len() == 0,
            r.buffs@.len() == 0,
    {
        GameData { units: Vec::new(), upgrades: Vec::new(), buffs: Vec::new() }
    }

    /// The data of the given unit type, if the game sent it.
    pub fn unit_data(&self, id: UnitTypeId) -> (r: Option<&UnitTypeData>)
        ensures
            match r {
                Some(d) => find_unit_data(self.units@, id) == Some(*d),
                None => find_unit_data(self.units@, id) is None,
            },
    {
        let mut i: usize = 0;
        proof {
            assert(self.units@.skip(0) =~= self.units@);
        }
        while i < self.units.len()
            invariant
                0 <= i <= self.units@.len(),
                find_unit_data(self.units@, id) == find_unit_data(self.units@.skip(i as int), id),
            decreases self.units@.len() - i,
        {
            proof {
                assert(self.units@.skip(i as int)[0] == self.units@[i as int]);
                assert(self.units@.skip(i as int).drop_first() =~= self.units@.skip(i + 1));
            }
            if self.units[i].id == id {
                return Some(&self.units[i]);
            }
            i = i + 1;
        }
        None
    }

    /// Whether the game data gives unit type `t` the `Structure` attribute.
    pub fn is_structure_type(&self, t: UnitTypeId) -> (r: bool)
        ensures
            r == type_is_structure(self.units@, t),
    {
        match self.unit_data(t) {
            Some(d) => {
                let mut i: usize = 0;
                while i < d.attributes.len()
                    invariant
                        i <= d.attributes@.len(),
                        find_unit_data(self.units@, t) == Some(*d),
                        forall|j: int| 0 <= j < i ==> d.attributes@[j] != Attribute::Structure,
                    decreases d.attributes@.len() - i,
                {
                    if d.attributes[i].is_structure() {
                        proof {
                            assert(d.attributes@[i as int] == Attribute::Structure);
                            assert(d.attributes@.contains(Attribute::Structure));
                        }
                        return true;
                    }
                    i = i + 1;
                }
                false
            },
            None => false,
        }
    }

    /// The data of the given upgrade, if the game sent it.
    pub fn upgrade_data(&self, id: UpgradeId) -> (r: Option<&UpgradeData>)
        ensures
            match r {
                Some(d) => find_upgrade_data(self.upgrades@, id) == Some(*d),
                None => find_upgrade_data(self.upgrades@, id) is None,
            },
    {
        let mut i: usize = 0;
        proof {
            assert(self.upgrades@.skip(0) =~= self.upgrades@);
        }
        while i < self.upgrades.len()
            invariant
                0 <= i <= self.upgrades@.len(),
                find_upgrade_data(self.upgrades@, id) == find_upgrade_data(
                    self.upgrades@.skip(i as int),
                    id,
                ),
            decreases self.upgrades@.len() - i,
        {
            proof {
                assert(self.upgrades@.skip(i as int)[0] == self.upgrades@[i as int]);
                assert(self.upgrades@.skip(i as int).drop_first() =~= self.upgrades@.skip(i + 1));
            }
            if self.upgrades[i].id == id {
                return Some(&self.upgrades[i]);
            }
            i = i + 1;
        }
        None
    }
}

} // verus!
