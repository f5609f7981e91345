//! Options for launching a game.

use vstd::prelude::*;

verus! {

/// Options for launching the game client.
#[derive(Debug, Default, Clone, Copy)]
pub struct LaunchOptions<'a> {
    /// The game version to launch, or the newest installed.
    pub sc2_version: Option<&'a str>,
    /// Where to save the replay, if anywhere.
    pub save_replay_as: Option<&'a str>,
    /// Whether the game runs in real time.
    pub realtime: bool,
}

} // verus!
