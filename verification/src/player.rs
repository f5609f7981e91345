//! Races, difficulties and the other settings of the players of a game.

use vstd::prelude::*;
use crate::parse::{enum_from_str, names_view, spec_enum_from_str, str_equal, ParseEnumError};

verus! {

/// The race a player plays.
#[derive(Debug, Clone, Copy, PartialEq, Eq, Structural, Hash)]
pub enum Race {
    Terran,
    Zerg,
    Protoss,
    Random,
}

impl Race {
    /// Whether this is `Terran`.
    pub fn is_terran(self) -> (r: bool)
        ensures
            r == (self is Terran),
    {
        matches!(self, Race::Terran)
    }

    /// Whether this is `Zerg`.
    pub fn is_zerg(self) -> (r: bool)
        ensures
            r == (self is Zerg),
    {
        matches!(self, Race::Zerg)
    }

    /// Whether this is `Protoss`.
    pub fn is_protoss(self) -> (r: bool)
        ensures
            r == (self is Protoss),
    {
        matches!(self, Race::Protoss)
    }

    /// Whether this is `Random`.
    pub fn is_random(self) -> (r: bool)
        ensures
            r == (self is Random),
    {
        matches!(self, Race::Random)
    }

    /// The race that a name denotes.
    pub open spec fn spec_from_name(s: Seq<char>) -> Result<Race, ParseEnumError> {
        if s == "Terran"@ {
            Ok(Race::Terran)
        } else if s == "Zerg"@ {
            Ok(Race::Zerg)
        } else if s == "Protoss"@ {
            Ok(Race::Protoss)
        } else if s == "Random"@ {
            Ok(Race::Random)
        } else {
            Err(ParseEnumError)
        }
    }

    /// Reads a race from its name, as `"Zerg"`.
    pub fn from_name(s: &str) -> (r: Result<Race, ParseEnumError>)
        ensures
            r == Race::spec_from_name(s@),
    {
        if str_equal(s, "Terran") {
            Ok(Race::Terran)
        } else if str_equal(s, "Zerg") {
            Ok(Race::Zerg)
        } else if str_equal(s, "Protoss") {
            Ok(Race::Protoss)
        } else if str_equal(s, "Random") {
            Ok(Race::Random)
        } else {
            Err(ParseEnumError)
        }
    }
}

impl Default for Race {
    fn default() -> (r: Race)
        ensures
            r == Race::Random,
    {
        Race::Random
    }
}

/// The difficulty of a built-in computer opponent.
#[derive(Debug, Clone, Copy, PartialEq, Eq, Structural, Hash)]
pub enum Difficulty {
    VeryEasy,
    Easy,
    Medium,
    MediumHard,
    Hard,
    Harder,
    VeryHard,
    CheatVision,
    CheatMoney,
    CheatInsane,
}

/// The names of the difficulties, in the order of their discriminants.
pub open spec fn difficulty_names() -> Seq<Seq<char>> {
    seq![
        "VeryEasy"@,
        "Easy"@,
        "Medium"@,
        "MediumHard"@,
        "Hard"@,
        "Harder"@,
        "VeryHard"@,
        "CheatVision"@,
        "CheatMoney"@,
        "CheatInsane"@,
    ]
}

/// The discriminants of the difficulties.
pub open spec fn difficulty_discriminants() -> Seq<i64> {
    seq![0i64, 1, 2, 3, 4, 5, 6, 7, 8, 9]
}

impl Difficulty {
    /// The difficulty at position `i` of the declaration.
    pub open spec fn spec_from_index(i: int) -> Option<Difficulty> {
        if i == 0 {
            Some(Difficulty::VeryEasy)
        } else if i == 1 {
            Some(Difficulty::Easy)
        } else if i == 2 {
            Some(Difficulty::Medium)
        } else if i == 3 {
            Some(Difficulty::MediumHard)
        } else if i == 4 {
            Some(Difficulty::Hard)
        } else if i == 5 {
            Some(Difficulty::Harder)
        } else if i == 6 {
            Some(Difficulty::VeryHard)
        } else if i == 7 {
            Some(Difficulty::CheatVision)
        } else if i == 8 {
            Some(Difficulty::CheatMoney)
        } else if i == 9 {
            Some(Difficulty::CheatInsane)
        } else {
            None
        }
    }

    /// The difficulty at position `i` of the declaration, or `None`.
    pub fn from_index(i: usize) -> (r: Option<Difficulty>)
        ensures
            r == Difficulty::spec_from_index(i as int),
    {
        match i {
            0 => Some(Difficulty::VeryEasy),
            1 => Some(Difficulty::Easy),
            2 => Some(Difficulty::Medium),
            3 => Some(Difficulty::MediumHard),
            4 => Some(Difficulty::Hard),
            5 => Some(Difficulty::Harder),
            6 => Some(Difficulty::VeryHard),
            7 => Some(Difficulty::CheatVision),
            8 => Some(Difficulty::CheatMoney),
            9 => Some(Difficulty::CheatInsane),
            _ => None,
        }
    }

    /// The difficulty whose discriminant is `n`, or `None`.
    pub fn from_i64(n: i64) -> (r: Option<Difficulty>)
        ensures
            r == (if 0 <= n <= 9 { Difficulty::spec_from_index(n as int) } else { None }),
    {
        if 0 <= n && n <= 9 {
            Difficulty::from_index(n as usize)
        } else {
            None
        }
    }

    /// The difficulty that a string names: a variant's name, or failing
    /// that its discriminant written as a decimal number.
    pub open spec fn spec_from_name(s: Seq<char>) -> Result<Difficulty, ParseEnumError> {
        match spec_enum_from_str(s, difficulty_names(), difficulty_discriminants(), true) {
            Ok(i) => Ok(Difficulty::spec_from_index(i).unwrap()),
            Err(e) => Err(e),
        }
    }

    /// Reads a difficulty from its name (`"Hard"`) or its number (`"4"`).
    pub fn from_name(s: &str) -> (r: Result<Difficulty, ParseEnumError>)
        ensures
            r == Difficulty::spec_from_name(s@),
    {
        let names: [&str; 10] = [
            "VeryEasy",
            "Easy",
            "Medium",
            "MediumHard",
            "Hard",
            "Harder",
            "VeryHard",
            "CheatVision",
            "CheatMoney",
            "CheatInsane",
        ];
        let discriminants: [i64; 10] = [0, 1, 2, 3, 4, 5, 6, 7, 8, 9];
        proof {
            assert(names_view(names@) =~= difficulty_names());
            assert(discriminants@ =~= difficulty_discriminants());
        }
        match enum_from_str(s, &names, &discriminants, true) {
            Ok(i) => {
                proof {
                    assert(0 <= i < 10);
                }
                Ok(Difficulty::from_index(i).unwrap())
            },
            Err(e) => Err(e),
        }
    }
}

/// The strategy of a built-in computer opponent.
#[derive(Debug, Clone, Copy, PartialEq, Eq, Structural, Hash)]
pub enum AIBuild {
    RandomBuild,
    Rush,
    Timing,
    Power,
    Macro,
    Air,
}

impl AIBuild {
    /// The build that a name denotes.
    pub open spec fn spec_from_name(s: Seq<char>) -> Result<AIBuild, ParseEnumError> {
        if s == "RandomBuild"@ {
            Ok(AIBuild::RandomBuild)
        } else if s == "Rush"@ {
            Ok(AIBuild::Rush)
        } else if s == "Timing"@ {
            Ok(AIBuild::Timing)
        } else if s == "Power"@ {
            Ok(AIBuild::Power)
        } else if s == "Macro"@ {
            Ok(AIBuild::Macro)
        } else if s == "Air"@ {
            Ok(AIBuild::Air)
        } else {
            Err(ParseEnumError)
        }
    }

    /// Reads a build from its name, as `"Rush"`.
    pub fn from_name(s: &str) -> (r: Result<AIBuild, ParseEnumError>)
        ensures
            r == AIBuild::spec_from_name(s@),
    {
        if str_equal(s, "RandomBuild") {
            Ok(AIBuild::RandomBuild)
        } else if str_equal(s, "Rush") {
            Ok(AIBuild::Rush)
        } else if str_equal(s, "Timing") {
            Ok(AIBuild::Timing)
        } else if str_equal(s, "Power") {
            Ok(AIBuild::Power)
        } else if str_equal(s, "Macro") {
            Ok(AIBuild::Macro)
        } else if str_equal(s, "Air") {
            Ok(AIBuild::Air)
        } else {
            Err(ParseEnumError)
        }
    }
}

impl Default for AIBuild {
    fn default() -> (r: AIBuild)
        ensures
            r == AIBuild::RandomBuild,
    {
        AIBuild::RandomBuild
    }
}

/// The kind of a player in a game.
#[derive(Debug, Clone, Copy, PartialEq, Eq, Structural, Hash)]
pub enum PlayerType {
    Participant,
    Computer,
    Observer,
}

/// How a game ended for a player.
#[derive(Debug, Clone, Copy, PartialEq, Eq, Structural, Hash)]
pub enum GameResult {
    Victory,
    Defeat,
    Tie,
    Undecided,
}

/// A built-in computer opponent.
#[derive(Debug, Clone, Copy)]
pub struct Computer {
    pub race: Race,
    pub difficulty: Difficulty,
    pub ai_build: Option<AIBuild>,
}

impl Computer {
    /// A computer opponent with the given race, difficulty and build.
    pub fn new(race: Race, difficulty: Difficulty, ai_build: Option<AIBuild>) -> (r: Computer)
        ensures
            r.race == race,
            r.difficulty == difficulty,
            r.ai_build == ai_build,
    {
        Computer { race, difficulty, ai_build }
    }
}

} // verus!
