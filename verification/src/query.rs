//! The handle through which pathing and placement queries are sent.

use vstd::prelude::*;

verus! {

/// Sends pathing and placement queries to the game.
#[derive(Debug, Clone, Copy)]
pub struct QueryMaster;

} // verus!
