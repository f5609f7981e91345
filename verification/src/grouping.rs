//! Sorting the units seen on a step into the groups a bot works with.

use vstd::prelude::*;
use crate::game_state::Alliance;
use crate::game_data::{type_is_structure, GameData, UnitTypeData};
use crate::ids::UnitTypeId;
use crate::unit::{Unit, UnitView};
use crate::units::{tags_distinct, tag_index, Container, PlayerUnits, Units};

verus! {

/// Mineral fields of every kind.
pub open spec fn is_mineral_field_type(t: UnitTypeId) -> bool {
    t is RichMineralField || t is RichMineralField750 || t is MineralField || t is MineralField450
        || t is MineralField750 || t is LabMineralField || t is LabMineralField750
        || t is PurifierRichMineralField || t is PurifierRichMineralField750
        || t is PurifierMineralField || t is PurifierMineralField750
        || t is BattleStationMineralField || t is BattleStationMineralField750
        || t is MineralFieldOpaque || t is MineralFieldOpaque900
}

/// Vespene geysers of every kind.
pub open spec fn is_geyser_type(t: UnitTypeId) -> bool {
    t is VespeneGeyser || t is SpacePlatformGeyser || t is RichVespeneGeyser
        || t is ProtossVespeneGeyser || t is PurifierVespeneGeyser || t is ShakurasVespeneGeyser
}

/// Buildings that extract vespene gas.
pub open spec fn is_gas_building_type(t: UnitTypeId) -> bool {
    t is Refinery || t is RefineryRich || t is Assimilator || t is AssimilatorRich
        || t is Extractor || t is ExtractorRich
}

/// Techlabs, attached or not.
pub open spec fn is_techlab_type(t: UnitTypeId) -> bool {
    t is TechLab || t is BarracksTechLab || t is FactoryTechLab || t is StarportTechLab
}

/// Reactors, attached or not.
pub open spec fn is_reactor_type(t: UnitTypeId) -> bool {
    t is Reactor || t is BarracksReactor || t is FactoryReactor || t is StarportReactor
}

fn mineral_field_type(t: UnitTypeId) -> (r: bool)
    ensures
        r == is_mineral_field_type(t),
{
    matches!(
        t,
        UnitTypeId::RichMineralField | UnitTypeId::RichMineralField750 | UnitTypeId::MineralField
            | UnitTypeId::MineralField450 | UnitTypeId::MineralField750
            | UnitTypeId::LabMineralField | UnitTypeId::LabMineralField750
            | UnitTypeId::PurifierRichMineralField | UnitTypeId::PurifierRichMineralField750
            | UnitTypeId::PurifierMineralField | UnitTypeId::PurifierMineralField750
            | UnitTypeId::BattleStationMineralField | UnitTypeId::BattleStationMineralField750
            | UnitTypeId::MineralFieldOpaque | UnitTypeId::MineralFieldOpaque900
    )
}

fn geyser_type(t: UnitTypeId) -> (r: bool)
    ensures
        r == is_geyser_type(t),
{
    matches!(
        t,
        UnitTypeId::VespeneGeyser | UnitTypeId::SpacePlatformGeyser | UnitTypeId::RichVespeneGeyser
            | UnitTypeId::ProtossVespeneGeyser | UnitTypeId::PurifierVespeneGeyser
            | UnitTypeId::ShakurasVespeneGeyser
    )
}

fn gas_building_type(t: UnitTypeId) -> (r: bool)
    ensures
        r == is_gas_building_type(t),
{
    matches!(
        t,
        UnitTypeId::Refinery | UnitTypeId::RefineryRich | UnitTypeId::Assimilator
            | UnitTypeId::AssimilatorRich | UnitTypeId::Extractor | UnitTypeId::ExtractorRich
    )
}

fn techlab_type(t: UnitTypeId) -> (r: bool)
    ensures
        r == is_techlab_type(t),
{
    matches!(
        t,
        UnitTypeId::TechLab | UnitTypeId::BarracksTechLab | UnitTypeId::FactoryTechLab
            | UnitTypeId::StarportTechLab
    )
}

fn reactor_type(t: UnitTypeId) -> (r: bool)
    ensures
        r == is_reactor_type(t),
{
    matches!(
        t,
        UnitTypeId::Reactor | UnitTypeId::BarracksReactor | UnitTypeId::FactoryReactor
            | UnitTypeId::StarportReactor
    )
}

/// The groups units are sorted into.
#[derive(Debug, Clone, Copy, PartialEq, Eq, Structural)]
pub enum UnitGroup {
    MyAll,
    MyUnits,
    MyStructures,
    MyTownhalls,
    MyWorkers,
    MyGasBuildings,
    MyLarvas,
    MyPlaceholders,
    EnemyAll,
    EnemyUnits,
    EnemyStructures,
    EnemyTownhalls,
    EnemyWorkers,
    EnemyGasBuildings,
    EnemyLarvas,
    MineralFields,
    VespeneGeysers,
    Resources,
    Destructables,
    Watchtowers,
    InhibitorZones,
    MyTechlabs,
    MyReactors,
    EnemyHallucinations,
}

/// Whether a unit belongs to a group, `inhibitors` being the types of
/// inhibitor zones and `gd` the game data, which says which unit types are
/// structures.
pub open spec fn in_group(g: UnitGroup, u: UnitView, inhibitors: Seq<UnitTypeId>, gd: Seq<UnitTypeData>) -> bool {
    let t = u.type_id;
    let own = u.alliance is Own;
    let enemy = u.alliance is Enemy;
    let neutral = u.alliance is Neutral;
    let structure = type_is_structure(gd, t);
    let placeholder = u.display_type is Placeholder;
    let my_structure = own && structure && !placeholder;
    let tower = t is XelNagaTower;
    let mineral = is_mineral_field_type(t);
    let geyser = is_geyser_type(t);
    let inhibitor = inhibitors.contains(t);
    match g {
        UnitGroup::MyAll => own,
        UnitGroup::MyUnits => own && !structure,
        UnitGroup::MyStructures => my_structure,
        UnitGroup::MyTownhalls => my_structure && t.spec_is_townhall(),
        UnitGroup::MyWorkers => own && !structure && t.spec_is_worker(),
        UnitGroup::MyGasBuildings => my_structure && is_gas_building_type(t),
        UnitGroup::MyLarvas => own && !structure && t is Larva,
        UnitGroup::MyPlaceholders => own && structure && placeholder,
        UnitGroup::EnemyAll => enemy,
        UnitGroup::EnemyUnits => enemy && !structure,
        UnitGroup::EnemyStructures => enemy && structure,
        UnitGroup::EnemyTownhalls => enemy && structure && t.spec_is_townhall(),
        UnitGroup::EnemyWorkers => enemy && !structure && t.spec_is_worker(),
        UnitGroup::EnemyGasBuildings => enemy && structure && is_gas_building_type(t),
        UnitGroup::EnemyLarvas => enemy && !structure && t is Larva,
        UnitGroup::MineralFields => neutral && !tower && mineral,
        UnitGroup::VespeneGeysers => neutral && !tower && !mineral && geyser,
        UnitGroup::Resources => neutral && !tower && (mineral || geyser),
        UnitGroup::Destructables => neutral && !tower && !mineral && !geyser && !inhibitor,
        UnitGroup::Watchtowers => neutral && tower,
        UnitGroup::InhibitorZones => neutral && !tower && !mineral && !geyser && inhibitor,
        UnitGroup::MyTechlabs => my_structure && is_techlab_type(t),
        UnitGroup::MyReactors => my_structure && is_reactor_type(t),
        UnitGroup::EnemyHallucinations => enemy && u.is_hallucination,
    }
}

/// The units of `s` in group `g`, in order.
pub open spec fn group_of(s: Seq<UnitView>, g: UnitGroup, inhibitors: Seq<UnitTypeId>, gd: Seq<UnitTypeData>) -> Seq<
    UnitView,
> {
    s.filter(|u: UnitView| in_group(g, u, inhibitors, gd))
}

/// The tags of the units of `s` in group `g`, in order.
pub open spec fn group_tags(s: Seq<UnitView>, g: UnitGroup, inhibitors: Seq<UnitTypeId>, gd: Seq<UnitTypeData>) -> Seq<
    u64,
> {
    group_of(s, g, inhibitors, gd).map_values(|u: UnitView| u.tag)
}

proof fn lemma_group_step(s: Seq<UnitView>, i: int, g: UnitGroup, inhibitors: Seq<UnitTypeId>, gd: Seq<UnitTypeData>)
    requires
        0 <= i < s.len(),
    ensures
        group_of(s.take(i + 1), g, inhibitors, gd) == if in_group(g, s[i], inhibitors, gd) {
            group_of(s.take(i), g, inhibitors, gd).push(s[i])
        } else {
            group_of(s.take(i), g, inhibitors, gd)
        },
{
    reveal_with_fuel(Seq::filter, 1);
    assert(s.take(i + 1).drop_last() =~= s.take(i));
    assert(s.take(i + 1).last() == s[i]);
}

/// Adds `u`, the unit at position `i` of `src`, to `group` when `member`
/// says it belongs to group `g`.
fn add_if_member(
    group: &mut Units,
    u: &Unit,
    member: bool,
    Ghost(src): Ghost<Seq<UnitView>>,
    Ghost(i): Ghost<int>,
    Ghost(g): Ghost<UnitGroup>,
    Ghost(inh): Ghost<Seq<UnitTypeId>>,
    Ghost(gd): Ghost<Seq<UnitTypeData>>,
)
    requires
        old(group).wf(),
        0 <= i < src.len(),
        tags_distinct(src),
        src[i] == u@,
        member == in_group(g, u@, inh, gd),
        old(group)@ == group_of(src.take(i), g, inh, gd),
    ensures
        final(group).wf(),
        final(group)@ == group_of(src.take(i + 1), g, inh, gd),
{
    proof {
        lemma_group_step(src, i, g, inh, gd);
    }
    if member {
        proof {
            let prev = group_of(src.take(i), g, inh, gd);
            assert forall|k: int| 0 <= k < prev.len() implies prev[k].tag != u@.tag by {
                assert(prev.contains(prev[k]));
                src.take(i).lemma_filter_contains_rev(|v: UnitView| in_group(g, v, inh, gd), prev[k]);
                assert(src.take(i).contains(prev[k]));
                let m = choose|m: int| 0 <= m < src.take(i).len() && src.take(i)[m] == prev[k];
                assert(src[m] == prev[k]);
            }
            assert(tag_index(prev, u@.tag) is None);
        }
        group.push(u.clone());
    }
}

/// Adds the tag of `u`, the unit at position `i` of `src`, to `tags` when
/// `member` says it belongs to group `g`.
fn add_tag_if_member(
    tags: &mut Vec<u64>,
    u: &Unit,
    member: bool,
    Ghost(src): Ghost<Seq<UnitView>>,
    Ghost(i): Ghost<int>,
    Ghost(g): Ghost<UnitGroup>,
    Ghost(inh): Ghost<Seq<UnitTypeId>>,
    Ghost(gd): Ghost<Seq<UnitTypeData>>,
)
    requires
        0 <= i < src.len(),
        src[i] == u@,
        member == in_group(g, u@, inh, gd),
        old(tags)@ == group_tags(src.take(i), g, inh, gd),
    ensures
        final(tags)@ == group_tags(src.take(i + 1), g, inh, gd),
{
    proof {
        lemma_group_step(src, i, g, inh, gd);
    }
    if member {
        tags.push(u.tag);
        proof {
            assert(tags@ =~= group_tags(src.take(i + 1), g, inh, gd));
        }
    } else {
        proof {
            assert(tags@ =~= group_tags(src.take(i + 1), g, inh, gd));
        }
    }
}

/// The units of one step, sorted into groups.
pub struct Grouped {
    pub my: PlayerUnits,
    pub enemy: PlayerUnits,
    pub mineral_fields: Units,
    pub vespene_geysers: Units,
    pub resources: Units,
    pub destructables: Units,
    pub watchtowers: Units,
    pub inhibitor_zones: Units,
    /// Tags of the bot's techlabs.
    pub techlab_tags: Vec<u64>,
    /// Tags of the bot's reactors.
    pub reactor_tags: Vec<u64>,
    /// Tags of the opponent's hallucinations.
    pub hallucination_tags: Vec<u64>,
}

impl Grouped {
    /// Whether every group holds exactly the units of `s` that belong to it.
    pub open spec fn groups_of(&self, s: Seq<UnitView>, inh: Seq<UnitTypeId>, gd: Seq<UnitTypeData>) -> bool {
        &&& self.my.wf()
        &&& self.enemy.wf()
        &&& self.mineral_fields.wf()
        &&& self.vespene_geysers.wf()
        &&& self.resources.wf()
        &&& self.destructables.wf()
        &&& self.watchtowers.wf()
        &&& self.inhibitor_zones.wf()
        &&& self.my.all@ == group_of(s, UnitGroup::MyAll, inh, gd)
        &&& self.my.units@ == group_of(s, UnitGroup::MyUnits, inh, gd)
        &&& self.my.structures@ == group_of(s, UnitGroup::MyStructures, inh, gd)
        &&& self.my.townhalls@ == group_of(s, UnitGroup::MyTownhalls, inh, gd)
        &&& self.my.workers@ == group_of(s, UnitGroup::MyWorkers, inh, gd)
        &&& self.my.gas_buildings@ == group_of(s, UnitGroup::MyGasBuildings, inh, gd)
        &&& self.my.larvas@ == group_of(s, UnitGroup::MyLarvas, inh, gd)
        &&& self.my.placeholders@ == group_of(s, UnitGroup::MyPlaceholders, inh, gd)
        &&& self.enemy.all@ == group_of(s, UnitGroup::EnemyAll, inh, gd)
        &&& self.enemy.units@ == group_of(s, UnitGroup::EnemyUnits, inh, gd)
        &&& self.enemy.structures@ == group_of(s, UnitGroup::EnemyStructures, inh, gd)
        &&& self.enemy.townhalls@ == group_of(s, UnitGroup::EnemyTownhalls, inh, gd)
        &&& self.enemy.workers@ == group_of(s, UnitGroup::EnemyWorkers, inh, gd)
        &&& self.enemy.gas_buildings@ == group_of(s, UnitGroup::EnemyGasBuildings, inh, gd)
        &&& self.enemy.larvas@ == group_of(s, UnitGroup::EnemyLarvas, inh, gd)
        &&& self.enemy.placeholders@.len() == 0
        &&& self.mineral_fields@ == group_of(s, UnitGroup::MineralFields, inh, gd)
        &&& self.vespene_geysers@ == group_of(s, UnitGroup::VespeneGeysers, inh, gd)
        &&& self.resources@ == group_of(s, UnitGroup::Resources, inh, gd)
        &&& self.destructables@ == group_of(s, UnitGroup::Destructables, inh, gd)
        &&& self.watchtowers@ == group_of(s, UnitGroup::Watchtowers, inh, gd)
        &&& self.inhibitor_zones@ == group_of(s, UnitGroup::InhibitorZones, inh, gd)
        &&& self.techlab_tags@ == group_tags(s, UnitGroup::MyTechlabs, inh, gd)
        &&& self.reactor_tags@ == group_tags(s, UnitGroup::MyReactors, inh, gd)
        &&& self.hallucination_tags@ == group_tags(s, UnitGroup::EnemyHallucinations, inh, gd)
    }
}

/// Sorts the units seen on a step into groups: the bot's own by kind,
/// the opponent's by kind, and the neutral ones into resources,
/// watchtowers, inhibitor zones (of the types in `inhibitor_ids`) and
/// destructables; and collects the tags of the bot's techlabs and
/// reactors and of the opponent's hallucinations. Which unit types are
/// structures, the game data `data` says.
pub fn group_units(all: &Units, inhibitor_ids: &Vec<UnitTypeId>, data: &GameData) -> (r: Grouped)
    requires
        all.wf(),
    ensures
        r.groups_of(all@, inhibitor_ids@, data.units@),
{
    let ghost s = all@;
    let ghost inh = inhibitor_ids@;
    let ghost gd = data.units@;
    proof {
        all.lemma_wf();
        reveal_with_fuel(Seq::filter, 1);
        assert(s.take(0) =~= Seq::<UnitView>::empty());
    }
    let mut r = Grouped {
        my: PlayerUnits::new(),
        enemy: PlayerUnits::new(),
        mineral_fields: Units::new(),
        vespene_geysers: Units::new(),
        resources: Units::new(),
        destructables: Units::new(),
        watchtowers: Units::new(),
        inhibitor_zones: Units::new(),
        techlab_tags: Vec::new(),
        reactor_tags: Vec::new(),
        hallucination_tags: Vec::new(),
    };
    proof {
        assert forall|g: UnitGroup| group_of(s.take(0), g, inh, gd) == Seq::<UnitView>::empty() by {
            reveal_with_fuel(Seq::filter, 1);
        }
        assert(r.my.all@ =~= Seq::<UnitView>::empty());
        assert(r.my.units@ =~= Seq::<UnitView>::empty());
        assert(r.my.structures@ =~= Seq::<UnitView>::empty());
        assert(r.my.townhalls@ =~= Seq::<UnitView>::empty());
        assert(r.my.workers@ =~= Seq::<UnitView>::empty());
        assert(r.my.gas_buildings@ =~= Seq::<UnitView>::empty());
        assert(r.my.larvas@ =~= Seq::<UnitView>::empty());
        assert(r.my.placeholders@ =~= Seq::<UnitView>::empty());
        assert(r.enemy.all@ =~= Seq::<UnitView>::empty());
        assert(r.enemy.units@ =~= Seq::<UnitView>::empty());
        assert(r.enemy.structures@ =~= Seq::<UnitView>::empty());
        assert(r.enemy.townhalls@ =~= Seq::<UnitView>::empty());
        assert(r.enemy.workers@ =~= Seq::<UnitView>::empty());
        assert(r.enemy.gas_buildings@ =~= Seq::<UnitView>::empty());
        assert(r.enemy.larvas@ =~= Seq::<UnitView>::empty());
        assert(r.mineral_fields@ =~= Seq::<UnitView>::empty());
        assert(r.vespene_geysers@ =~= Seq::<UnitView>::empty());
        assert(r.resources@ =~= Seq::<UnitView>::empty());
        assert(r.destructables@ =~= Seq::<UnitView>::empty());
        assert(r.watchtowers@ =~= Seq::<UnitView>::empty());
        assert(r.inhibitor_zones@ =~= Seq::<UnitView>::empty());
        assert(r.techlab_tags@ =~= group_tags(s.take(0), UnitGroup::MyTechlabs, inh, gd));
        assert(r.reactor_tags@ =~= group_tags(s.take(0), UnitGroup::MyReactors, inh, gd));
        assert(r.hallucination_tags@ =~= group_tags(
            s.take(0),
            UnitGroup::EnemyHallucinations,
            inh,
            gd,
        ));
    }
    let n = all.len();
    let mut i: usize = 0;
    while i < n
        invariant
            all.wf(),
            s == all@,
            inh == inhibitor_ids@,
            gd == data.units@,
            n == s.len(),
            0 <= i <= n,
            tags_distinct(s),
            r.groups_of(s.take(i as int), inh, gd),
        decreases n - i,
    {
        let u = all.at(i);
        let t = u.type_id;
        let own = u.alliance.is_mine();
        let enemy = u.alliance.is_enemy();
        let neutral = u.alliance.is_neutral();
        let structure = data.is_structure_type(t);
        let placeholder = u.display_type.is_placeholder();
        let my_structure = own && structure && !placeholder;
        let tower = matches!(t, UnitTypeId::XelNagaTower);
        let mineral = mineral_field_type(t);
        let geyser = geyser_type(t);
        let inhibitor = inhibitor_ids.contains(&t);
        let townhall = t.is_townhall();
        let worker = t.is_worker();
        let gas = gas_building_type(t);
        let larva = matches!(t, UnitTypeId::Larva);
        let ghost gi = i as int;
        add_if_member(&mut r.my.all, u, own, Ghost(s), Ghost(gi), Ghost(UnitGroup::MyAll), Ghost(inh), Ghost(gd));
        add_if_member(
            &mut r.my.units,
            u,
            own && !structure,
            Ghost(s),
            Ghost(gi),
            Ghost(UnitGroup::MyUnits),
            Ghost(inh),
            Ghost(gd),
        );
        add_if_member(
            &mut r.my.structures,
            u,
            my_structure,
            Ghost(s),
            Ghost(gi),
            Ghost(UnitGroup::MyStructures),
            Ghost(inh),
            Ghost(gd),
        );
        add_if_member(
            &mut r.my.townhalls,
            u,
            my_structure && townhall,
            Ghost(s),
            Ghost(gi),
            Ghost(UnitGroup::MyTownhalls),
            Ghost(inh),
            Ghost(gd),
        );
        add_if_member(
            &mut r.my.workers,
            u,
            own && !structure && worker,
            Ghost(s),
            Ghost(gi),
            Ghost(UnitGroup::MyWorkers),
            Ghost(inh),
            Ghost(gd),
        );
        add_if_member(
            &mut r.my.gas_buildings,
            u,
            my_structure && gas,
            Ghost(s),
            Ghost(gi),
            Ghost(UnitGroup::MyGasBuildings),
            Ghost(inh),
            Ghost(gd),
        );
        add_if_member(
            &mut r.my.larvas,
            u,
            own && !structure && larva,
            Ghost(s),
            Ghost(gi),
            Ghost(UnitGroup::MyLarvas),
            Ghost(inh),
            Ghost(gd),
        );
        add_if_member(
            &mut r.my.placeholders,
            u,
            own && structure && placeholder,
            Ghost(s),
            Ghost(gi),
            Ghost(UnitGroup::MyPlaceholders),
            Ghost(inh),
            Ghost(gd),
        );
        add_if_member(
            &mut r.enemy.all,
            u,
            enemy,
            Ghost(s),
            Ghost(gi),
            Ghost(UnitGroup::EnemyAll),
            Ghost(inh),
            Ghost(gd),
        );
        add_if_member(
            &mut r.enemy.units,
            u,
            enemy && !structure,
            Ghost(s),
            Ghost(gi),
            Ghost(UnitGroup::EnemyUnits),
            Ghost(inh),
            Ghost(gd),
        );
        add_if_member(
            &mut r.enemy.structures,
            u,
            enemy && structure,
            Ghost(s),
            Ghost(gi),
            Ghost(UnitGroup::EnemyStructures),
            Ghost(inh),
            Ghost(gd),
        );
        add_if_member(
            &mut r.enemy.townhalls,
            u,
            enemy && structure && townhall,
            Ghost(s),
            Ghost(gi),
            Ghost(UnitGroup::EnemyTownhalls),
            Ghost(inh),
            Ghost(gd),
        );
        add_if_member(
            &mut r.enemy.workers,
            u,
            enemy && !structure && worker,
            Ghost(s),
            Ghost(gi),
            Ghost(UnitGroup::EnemyWorkers),
            Ghost(inh),
            Ghost(gd),
        );
        add_if_member(
            &mut r.enemy.gas_buildings,
            u,
            enemy && structure && gas,
            Ghost(s),
            Ghost(gi),
            Ghost(UnitGroup::EnemyGasBuildings),
            Ghost(inh),
            Ghost(gd),
        );
        add_if_member(
            &mut r.enemy.larvas,
            u,
            enemy && !structure && larva,
            Ghost(s),
            Ghost(gi),
            Ghost(UnitGroup::EnemyLarvas),
            Ghost(inh),
            Ghost(gd),
        );
        add_if_member(
            &mut r.mineral_fields,
            u,
            neutral && !tower && mineral,
            Ghost(s),
            Ghost(gi),
            Ghost(UnitGroup::MineralFields),
            Ghost(inh),
            Ghost(gd),
        );
        add_if_member(
            &mut r.vespene_geysers,
            u,
            neutral && !tower && !mineral && geyser,
            Ghost(s),
            Ghost(gi),
            Ghost(UnitGroup::VespeneGeysers),
            Ghost(inh),
            Ghost(gd),
        );
        add_if_member(
            &mut r.resources,
            u,
            neutral && !tower && (mineral || geyser),
            Ghost(s),
            Ghost(gi),
            Ghost(UnitGroup::Resources),
            Ghost(inh),
            Ghost(gd),
        );
        add_if_member(
            &mut r.destructables,
            u,
            neutral && !tower && !mineral && !geyser && !inhibitor,
            Ghost(s),
            Ghost(gi),
            Ghost(UnitGroup::Destructables),
            Ghost(inh),
            Ghost(gd),
        );
        add_if_member(
            &mut r.watchtowers,
            u,
            neutral && tower,
            Ghost(s),
            Ghost(gi),
            Ghost(UnitGroup::Watchtowers),
            Ghost(inh),
            Ghost(gd),
        );
        add_if_member(
            &mut r.inhibitor_zones,
            u,
            neutral && !tower && !mineral && !geyser && inhibitor,
            Ghost(s),
            Ghost(gi),
            Ghost(UnitGroup::InhibitorZones),
            Ghost(inh),
            Ghost(gd),
        );
        add_tag_if_member(
            &mut r.techlab_tags,
            u,
            my_structure && techlab_type(t),
            Ghost(s),
            Ghost(gi),
            Ghost(UnitGroup::MyTechlabs),
            Ghost(inh),
            Ghost(gd),
        );
        add_tag_if_member(
            &mut r.reactor_tags,
            u,
            my_structure && reactor_type(t),
            Ghost(s),
            Ghost(gi),
            Ghost(UnitGroup::MyReactors),
            Ghost(inh),
            Ghost(gd),
        );
        add_tag_if_member(
            &mut r.hallucination_tags,
            u,
            enemy && u.is_hallucination,
            Ghost(s),
            Ghost(gi),
            Ghost(UnitGroup::EnemyHallucinations),
            Ghost(inh),
            Ghost(gd),
        );
        i = i + 1;
    }
    proof {
        assert(s.take(n as int) =~= s);
    }
    r
}

} // verus!
