//! Information about the current step that does not concern single units.

use vstd::prelude::*;
use crate::ids::AbilityId;

verus! {

/// A message in the game chat.
#[derive(Debug, Clone)]
pub struct ChatMessage {
    /// Id of the player who sent the message.
    pub player_id: u32,
    /// The message itself.
    pub message: String,
}

/// The alliance of a unit or an effect to the bot.
#[derive(Debug, Clone, Copy, PartialEq, Eq, Structural, Hash)]
pub enum Alliance {
    /// The bot's own objects.
    Own,
    /// Objects of the bot's allies.
    Ally,
    /// Neutral objects.
    Neutral,
    /// Objects of the bot's opponents.
    Enemy,
}

impl Alliance {
    /// Whether this is the bot's own.
    pub fn is_mine(self) -> (r: bool)
        ensures
            r == (self is Own),
    {
        matches!(self, Alliance::Own)
    }

    /// Whether this belongs to an opponent.
    pub fn is_enemy(self) -> (r: bool)
        ensures
            r == (self is Enemy),
    {
        matches!(self, Alliance::Enemy)
    }

    /// Whether this is neutral.
    pub fn is_neutral(self) -> (r: bool)
        ensures
            r == (self is Neutral),
    {
        matches!(self, Alliance::Neutral)
    }

    /// Whether this belongs to an ally.
    pub fn is_ally(self) -> (r: bool)
        ensures
            r == (self is Ally),
    {
        matches!(self, Alliance::Ally)
    }
}

/// Common information about the bot's player.
#[derive(Debug, Clone, Copy, Default)]
pub struct Common {
    /// In-game player id.
    pub player_id: u32,
    /// Minerals the bot has.
    pub minerals: u32,
    /// Vespene gas the bot has.
    pub vespene: u32,
    /// Supply capacity.
    pub food_cap: u32,
    /// Supply used in total.
    pub food_used: u32,
    /// Supply used by combat units.
    pub food_army: u32,
    /// Supply used by workers.
    pub food_workers: u32,
    /// Number of idle workers.
    pub idle_worker_count: u32,
    /// Number of combat units.
    pub army_count: u32,
    /// Number of free warp gates.
    pub warp_gate_count: u32,
    /// Number of larvae.
    pub larva_count: u32,
}

/// Alerts the game raises when some things happen.
#[derive(Debug, Clone, Copy, PartialEq, Eq, Structural)]
pub enum Alert {
    AlertError,
    AddOnComplete,
    BuildingComplete,
    BuildingUnderAttack,
    LarvaHatched,
    MergeComplete,
    MineralsExhausted,
    MorphComplete,
    MothershipComplete,
    MULEExpired,
    NuclearLaunchDetected,
    NukeComplete,
    NydusWormDetected,
    ResearchComplete,
    TrainError,
    TrainUnitComplete,
    TrainWorkerComplete,
    TransformationComplete,
    UnitUnderAttack,
    UpgradeComplete,
    VespeneExhausted,
    WarpInComplete,
}

/// An ability available to the bot's units.
#[derive(Debug, Clone, Copy)]
pub struct AvailableAbility {
    pub id: AbilityId,
    pub requires_point: bool,
}

} // verus!
