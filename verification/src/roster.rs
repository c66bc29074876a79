use vstd::prelude::*;

use crate::fields::{
    req_num, req_string, req_string_vec, req_u16, req_u32, req_u8, req_value, spec_req_num,
    spec_req_string, spec_req_string_seq, spec_req_u16, spec_req_u32, spec_req_u8,
    spec_req_value,
};
use crate::json::{JsonNumber, JsonNumberV, JsonValue, JsonView};

verus! {

/// One member's team within a league. `starters` and `players` are
/// ordered player-id sequences; the remaining substructures vary by league
/// configuration and pass through as raw JSON.
#[derive(Debug, PartialEq, Eq)]
pub struct Roster {
    pub taxi: JsonValue,
    pub starters: Vec<String>,
    pub settings: JsonValue,
    pub roster_id: u8,
    pub reserve: JsonValue,
    pub players: Vec<String>,
    pub player_map: JsonValue,
    pub owner_id: String,
    pub metadata: JsonValue,
    pub league_id: String,
    pub keepers: JsonValue,
    pub co_owners: JsonValue,
}

/// The mathematical value of a `Roster`.
pub ghost struct RosterV {
    pub taxi: JsonView,
    pub starters: Seq<Seq<char>>,
    pub settings: JsonView,
    pub roster_id: u8,
    pub reserve: JsonView,
    pub players: Seq<Seq<char>>,
    pub player_map: JsonView,
    pub owner_id: Seq<char>,
    pub metadata: JsonView,
    pub league_id: Seq<char>,
    pub keepers: JsonView,
    pub co_owners: JsonView,
}

impl DeepView for Roster {
    type V = RosterV;

    open spec fn deep_view(&self) -> RosterV {
        RosterV {
            taxi: self.taxi.deep_view(),
            starters: self.starters.deep_view(),
            settings: self.settings.deep_view(),
            roster_id: self.roster_id,
            reserve: self.reserve.deep_view(),
            players: self.players.deep_view(),
            player_map: self.player_map.deep_view(),
            owner_id: self.owner_id@,
            metadata: self.metadata.deep_view(),
            league_id: self.league_id@,
            keepers: self.keepers.deep_view(),
            co_owners: self.co_owners.deep_view(),
        }
    }
}

/// The `Roster` a JSON document describes: an object with every
/// field below in the shape its type asks for; unknown entries are
/// ignored.
pub open spec fn spec_roster_of(v: JsonView) -> Option<RosterV> {
    match v {
        JsonView::Obj(o) => {
            if spec_req_value(o, "taxi"@) is Some
                && spec_req_string_seq(o, "starters"@) is Some
                && spec_req_value(o, "settings"@) is Some
                && spec_req_u8(o, "roster_id"@) is Some
                && spec_req_value(o, "reserve"@) is Some
                && spec_req_string_seq(o, "players"@) is Some
                && spec_req_value(o, "player_map"@) is Some
                && spec_req_string(o, "owner_id"@) is Some
                && spec_req_value(o, "metadata"@) is Some
                && spec_req_string(o, "league_id"@) is Some
                && spec_req_value(o, "keepers"@) is Some
                && spec_req_value(o, "co_owners"@) is Some {
                Some(
                    RosterV {
                        taxi: spec_req_value(o, "taxi"@)->Some_0,
                        starters: spec_req_string_seq(o, "starters"@)->Some_0,
                        settings: spec_req_value(o, "settings"@)->Some_0,
                        roster_id: spec_req_u8(o, "roster_id"@)->Some_0,
                        reserve: spec_req_value(o, "reserve"@)->Some_0,
                        players: spec_req_string_seq(o, "players"@)->Some_0,
                        player_map: spec_req_value(o, "player_map"@)->Some_0,
                        owner_id: spec_req_string(o, "owner_id"@)->Some_0,
                        metadata: spec_req_value(o, "metadata"@)->Some_0,
                        league_id: spec_req_string(o, "league_id"@)->Some_0,
                        keepers: spec_req_value(o, "keepers"@)->Some_0,
                        co_owners: spec_req_value(o, "co_owners"@)->Some_0,
                    },
                )
            } else {
                None
            }
        },
        _ => None,
    }
}

impl Roster {
    /// Decodes a `Roster` from a JSON document, exactly when the
    /// document has the shape the specification above asks for.
    pub fn from_json(v: &JsonValue) -> (r: Option<Roster>)
        ensures
            r.deep_view() == spec_roster_of(v.deep_view()),
    {
        match v {
            JsonValue::Obj(entries) => {
                let taxi = match req_value(entries, "taxi") {
                    Some(x) => x,
                    None => { return None; },
                };
                let starters = match req_string_vec(entries, "starters") {
                    Some(x) => x,
                    None => { return None; },
                };
                let settings = match req_value(entries, "settings") {
                    Some(x) => x,
                    None => { return None; },
                };
                let roster_id = match req_u8(entries, "roster_id") {
                    Some(x) => x,
                    None => { return None; },
                };
                let reserve = match req_value(entries, "reserve") {
                    Some(x) => x,
                    None => { return None; },
                };
                let players = match req_string_vec(entries, "players") {
                    Some(x) => x,
                    None => { return None; },
                };
                let player_map = match req_value(entries, "player_map") {
                    Some(x) => x,
                    None => { return None; },
                };
                let owner_id = match req_string(entries, "owner_id") {
                    Some(x) => x,
                    None => { return None; },
                };
                let metadata = match req_value(entries, "metadata") {
                    Some(x) => x,
                    None => { return None; },
                };
                let league_id = match req_string(entries, "league_id") {
                    Some(x) => x,
                    None => { return None; },
                };
                let keepers = match req_value(entries, "keepers") {
                    Some(x) => x,
                    None => { return None; },
                };
                let co_owners = match req_value(entries, "co_owners") {
                    Some(x) => x,
                    None => { return None; },
                };
                Some(
                    Roster {
                        taxi,
                        starters,
                        settings,
                        roster_id,
                        reserve,
                        players,
                        player_map,
                        owner_id,
                        metadata,
                        league_id,
                        keepers,
                        co_owners,
                    },
                )
            },
            _ => None,
        }
    }
}

/// A roster's season tallies, decoded on demand from a roster's raw
/// `settings` substructure.
#[derive(Debug, PartialEq, Eq)]
pub struct RosterSettings {
    pub wins: u8,
    pub waiver_position: u16,
    pub waiver_budget_used: u32,
    pub total_moves: u32,
    pub ties: u16,
    pub losses: u16,
    pub fpts: JsonNumber,
}

/// The mathematical value of a `RosterSettings`.
pub ghost struct RosterSettingsV {
    pub wins: u8,
    pub waiver_position: u16,
    pub waiver_budget_used: u32,
    pub total_moves: u32,
    pub ties: u16,
    pub losses: u16,
    pub fpts: JsonNumberV,
}

impl DeepView for RosterSettings {
    type V = RosterSettingsV;

    open spec fn deep_view(&self) -> RosterSettingsV {
        RosterSettingsV {
            wins: self.wins,
            waiver_position: self.waiver_position,
            waiver_budget_used: self.waiver_budget_used,
            total_moves: self.total_moves,
            ties: self.ties,
            losses: self.losses,
            fpts: self.fpts.deep_view(),
        }
    }
}

/// The `RosterSettings` a JSON document describes: an object with every
/// field below in the shape its type asks for; unknown entries are
/// ignored.
pub open spec fn spec_roster_settings_of(v: JsonView) -> Option<RosterSettingsV> {
    match v {
        JsonView::Obj(o) => {
            if spec_req_u8(o, "wins"@) is Some
                && spec_req_u16(o, "waiver_position"@) is Some
                && spec_req_u32(o, "waiver_budget_used"@) is Some
                && spec_req_u32(o, "total_moves"@) is Some
                && spec_req_u16(o, "ties"@) is Some
                && spec_req_u16(o, "losses"@) is Some
                && spec_req_num(o, "fpts"@) is Some {
                Some(
                    RosterSettingsV {
                        wins: spec_req_u8(o, "wins"@)->Some_0,
                        waiver_position: spec_req_u16(o, "waiver_position"@)->Some_0,
                        waiver_budget_used: spec_req_u32(o, "waiver_budget_used"@)->Some_0,
                        total_moves: spec_req_u32(o, "total_moves"@)->Some_0,
                        ties: spec_req_u16(o, "ties"@)->Some_0,
                        losses: spec_req_u16(o, "losses"@)->Some_0,
                        fpts: spec_req_num(o, "fpts"@)->Some_0,
                    },
                )
            } else {
                None
            }
        },
        _ => None,
    }
}

impl RosterSettings {
    /// Decodes a `RosterSettings` from a JSON document, exactly when the
    /// document has the shape the specification above asks for.
    pub fn from_json(v: &JsonValue) -> (r: Option<RosterSettings>)
        ensures
            r.deep_view() == spec_roster_settings_of(v.deep_view()),
    {
        match v {
            JsonValue::Obj(entries) => {
                let wins = match req_u8(entries, "wins") {
                    Some(x) => x,
                    None => { return None; },
                };
                let waiver_position = match req_u16(entries, "waiver_position") {
                    Some(x) => x,
                    None => { return None; },
                };
                let waiver_budget_used = match req_u32(entries, "waiver_budget_used") {
                    Some(x) => x,
                    None => { return None; },
                };
                let total_moves = match req_u32(entries, "total_moves") {
                    Some(x) => x,
                    None => { return None; },
                };
                let ties = match req_u16(entries, "ties") {
                    Some(x) => x,
                    None => { return None; },
                };
                let losses = match req_u16(entries, "losses") {
                    Some(x) => x,
                    None => { return None; },
                };
                let fpts = match req_num(entries, "fpts") {
                    Some(x) => x,
                    None => { return None; },
                };
                Some(
                    RosterSettings {
                        wins,
                        waiver_position,
                        waiver_budget_used,
                        total_moves,
                        ties,
                        losses,
                        fpts,
                    },
                )
            },
            _ => None,
        }
    }
}

} // verus!
