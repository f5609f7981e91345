//! A verified core for writing StarCraft II bots: unit type and ability
//! identifiers, the unit collections a bot filters every step, unit
//! counting and resource bookkeeping, map grids and the small parsers
//! the framework relies on.

pub mod ids;
pub mod id_laws;
pub mod parse;
pub mod player;
pub mod action;
pub mod game_state;
pub mod geometry;
pub mod score;
pub mod debug;
pub mod query;
pub mod client;
pub mod game_data;
pub mod unit;
pub mod units;
pub mod counts;
pub mod grouping;
pub mod constants;
pub mod bot;
pub mod placement;
pub mod ramp;
pub mod pixel_map;
pub mod game_info;
pub mod paths;
pub mod laws;
pub mod utils;

use vstd::prelude::*;
use crate::player::Race;

verus! {

/// The text of an optional name.
pub open spec fn opt_view(name: Option<&str>) -> Option<Seq<char>> {
    match name {
        Some(n) => Some(n@),
        None => None,
    }
}

/// The text of an optional owned name.
pub open spec fn opt_string_view(name: Option<String>) -> Option<Seq<char>> {
    match name {
        Some(n) => Some(n@),
        None => None,
    }
}

/// Settings that a player gives when it joins a game.
pub struct PlayerSettings {
    race: Race,
    name: Option<String>,
    raw_affects_selection: bool,
    raw_crop_to_playable_area: bool,
}

impl PlayerSettings {
    /// The race asked for.
    pub closed spec fn spec_race(&self) -> Race {
        self.race
    }

    /// The player's name, if it has one.
    pub closed spec fn spec_name(&self) -> Option<Seq<char>> {
        opt_string_view(self.name)
    }

    /// Whether the bot selects the units it gives orders to.
    pub closed spec fn spec_raw_affects_selection(&self) -> bool {
        self.raw_affects_selection
    }

    /// Whether the map and its coordinates are cropped to the playable area.
    pub closed spec fn spec_raw_crop_to_playable_area(&self) -> bool {
        self.raw_crop_to_playable_area
    }

    /// Settings with the given race and name; the bot does not select the
    /// units it orders, and the map is not cropped.
    pub fn new(race: Race, name: Option<&str>) -> (r: PlayerSettings)
        ensures
            r.spec_race() == race,
            r.spec_name() == opt_view(name),
            !r.spec_raw_affects_selection(),
            !r.spec_raw_crop_to_playable_area(),
    {
        PlayerSettings::configured(race, name, false, false)
    }

    /// Settings with every option given.
    pub fn configured(
        race: Race,
        name: Option<&str>,
        raw_affects_selection: bool,
        raw_crop_to_playable_area: bool,
    ) -> (r: PlayerSettings)
        ensures
            r.spec_race() == race,
            r.spec_name() == opt_view(name),
            r.spec_raw_affects_selection() == raw_affects_selection,
            r.spec_raw_crop_to_playable_area() == raw_crop_to_playable_area,
    {
        let owned = match name {
            Some(n) => Some(n.to_owned()),
            None => None,
        };
        PlayerSettings { race, name: owned, raw_affects_selection, raw_crop_to_playable_area }
    }

    /// The race asked for.
    pub fn race(&self) -> (r: Race)
        ensures
            r == self.spec_race(),
    {
        self.race
    }

    /// The player's name, if it has one.
    pub fn name(&self) -> (r: Option<&str>)
        ensures
            opt_view(r) == self.spec_name(),
    {
        match &self.name {
            Some(n) => Some(n.as_str()),
            None => None,
        }
    }

    /// Whether the bot selects the units it gives orders to.
    pub fn raw_affects_selection(&self) -> (r: bool)
        ensures
            r == self.spec_raw_affects_selection(),
    {
        self.raw_affects_selection
    }

    /// Whether the map and its coordinates are cropped to the playable area.
    pub fn raw_crop_to_playable_area(&self) -> (r: bool)
        ensures
            r == self.spec_raw_crop_to_playable_area(),
    {
        self.raw_crop_to_playable_area
    }
}

/// Events of the game that a bot is told of.
#[derive(Debug, Clone, Copy, PartialEq, Eq, Structural)]
pub enum Event {
    /// A unit died or a structure was destroyed (of any owner).
    UnitDestroyed(u64),
    /// A unit of the bot finished training.
    UnitCreated(u64),
    /// A worker of the bot started a structure.
    ConstructionStarted(u64),
    /// A structure of the bot was finished.
    ConstructionComplete(u64),
    /// The race of an opponent that chose a random race was seen.
    RandomRaceDetected(Race),
}

} // verus!
