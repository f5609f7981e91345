//! Values and game states that debug commands can set.

use vstd::prelude::*;

verus! {

/// A value of a unit that a debug command can set.
#[derive(Debug, Clone, Copy, PartialEq, Eq, Structural)]
pub enum DebugUnitValue {
    Energy,
    Health,
    Shield,
}

/// A cheat that a debug command can toggle.
#[derive(Debug, Clone, Copy, PartialEq, Eq, Structural)]
pub enum DebugGameState {
    ShowMap,
    ControlEnemy,
    Food,
    Free,
    AllResources,
    God,
    Minerals,
    Gas,
    Cooldown,
    TechTree,
    Upgrade,
    FastBuild,
}

} // verus!
