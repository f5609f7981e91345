//! Constant information about the map, known from the first step on.

use vstd::prelude::*;
use crate::geometry::{Rect, Size};
use crate::pixel_map::{ByteMap, PixelMap};
use crate::player::{AIBuild, Difficulty, PlayerType, Race};

verus! {

/// Information about a player of the game.
#[derive(Debug, Clone)]
pub struct PlayerInfo {
    pub id: u32,
    /// `Participant`, `Computer` or `Observer`.
    pub player_type: PlayerType,
    /// The race asked for, which may be random.
    pub race_requested: Race,
    /// The race played, never random; `None` for opponents.
    pub race_actual: Option<Race>,
    /// Only for computer opponents.
    pub difficulty: Option<Difficulty>,
    /// Only for computer opponents.
    pub ai_build: Option<AIBuild>,
    /// The in-game name.
    pub player_name: Option<String>,
}

/// What is known about the map.
pub struct GameInfo {
    /// The map's name in the game's language.
    pub map_name: String,
    /// The map's name after its file.
    pub map_name_path: String,
    /// The mods the map uses.
    pub mod_names: Vec<String>,
    /// Where the map lies on this computer.
    pub local_map_path: String,
    /// The players, in the order the game lists them.
    pub players: Vec<PlayerInfo>,
    /// The full size of the map.
    pub map_size: Size,
    /// Where ground units can walk: an `Empty` cell is pathable.
    pub pathing_grid: PixelMap,
    /// The height of the terrain.
    pub terrain_height: ByteMap,
    /// Where structures can be placed: an `Empty` cell is placeable.
    pub placement_grid: PixelMap,
    /// The part of the map where units can be.
    pub playable_area: Rect,
}

/// The first player with id `id`, if any.
pub open spec fn player_with(players: Seq<PlayerInfo>, id: u32) -> Option<PlayerInfo>
    decreases players.len(),
{
    if players.len() == 0 {
        None
    } else if players[0].id == id {
        Some(players[0])
    } else {
        player_with(players.drop_first(), id)
    }
}

impl GameInfo {
    /// The index of the first player with id `id`, if any.
    pub fn player_index(&self, id: u32) -> (r: Option<usize>)
        ensures
            match r {
                Some(i) => i < self.players@.len() && Some(self.players@[i as int]) == player_with(self.players@, id),
                None => player_with(self.players@, id) is None,
            },
    {
        let mut i: usize = 0;
        proof {
            assert(self.players@.skip(0) =~= self.players@);
        }
        while i < self.players.len()
            invariant
                0 <= i <= self.players@.len(),
                player_with(self.players@, id) == player_with(self.players@.skip(i as int), id),
            decreases self.players@.len() - i,
        {
            if self.players[i].id == id {
                return Some(i);
            }
            proof {
                assert(self.players@.skip(i as int).drop_first() =~= self.players@.skip(i + 1));
            }
            i = i + 1;
        }
        None
    }

    /// Information about no map: every name empty, no player, empty grids.
    pub fn new() -> (r: GameInfo)
        ensures
            r.map_name@.len() == 0,
            r.players@.len() == 0,
            r.pathing_grid.width() == 0 && r.pathing_grid.height() == 0,
            r.terrain_height.width() == 0 && r.terrain_height.height() == 0,
            r.placement_grid.width() == 0 && r.placement_grid.height() == 0,
    {
        GameInfo {
            map_name: String::new(),
            map_name_path: String::new(),
            mod_names: Vec::new(),
            local_map_path: String::new(),
            players: Vec::new(),
            map_size: Size::new(0, 0),
            pathing_grid: PixelMap::empty(),
            terrain_height: ByteMap::empty(),
            placement_grid: PixelMap::empty(),
            playable_area: Rect::new(0, 0, 0, 0),
        }
    }
}

} // verus!
