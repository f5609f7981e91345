//! The kind of score a game keeps.

use vstd::prelude::*;

verus! {

/// The kind of score of a game.
#[derive(Debug, Clone, Copy, PartialEq, Eq, Structural)]
pub enum ScoreType {
    Curriculum,
    Melee,
}

impl ScoreType {
    /// Whether this is `Curriculum`.
    pub fn is_curriculum(self) -> (r: bool)
        ensures
            r == (self is Curriculum),
    {
        matches!(self, ScoreType::Curriculum)
    }

    /// Whether this is `Melee`.
    pub fn is_melee(self) -> (r: bool)
        ensures
            r == (self is Melee),
    {
        matches!(self, ScoreType::Melee)
    }
}

impl Default for ScoreType {
    fn default() -> (r: ScoreType)
        ensures
            r == ScoreType::Curriculum,
    {
        ScoreType::Curriculum
    }
}

} // verus!
