pub mod client;
pub mod error;
pub mod fields;
pub mod injury;
pub mod json;
pub mod league;
pub mod matchup;
pub mod players;
pub mod roster;
pub mod sport;
pub mod state;
pub mod users;

use vstd::prelude::*;

verus! {

/// Identifier types the upstream API uses; all are plain strings.
pub type LeagueId = String;

pub type PlayerId = String;

pub type OwnerId = String;

} // verus!
