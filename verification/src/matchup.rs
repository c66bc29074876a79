use vstd::prelude::*;

use crate::fields::{
    opt_num_map, opt_str_map, opt_string_vec, req_num, req_num_vec, req_string_vec, req_u8,
    spec_opt_num_map, spec_opt_str_map, spec_opt_string_seq, spec_req_num, spec_req_num_seq,
    spec_req_string_seq, spec_req_u8,
};
use crate::json::{JsonNumber, JsonNumberV, JsonValue, JsonView};

verus! {

/// One roster's entry in a league week: its matchup group, its
/// starters in slot order, and their point totals. The point values come
/// through as raw JSON numbers.
#[derive(Debug, PartialEq, Eq)]
pub struct Matchup {
    pub starters_points: Vec<JsonNumber>,
    pub starters: Vec<String>,
    pub roster_id: u8,
    pub points: JsonNumber,
    pub players_points: Option<Vec<(String, JsonNumber)>>,
    pub players: Option<Vec<String>>,
    pub matchup_id: u8,
    pub custom_points: Option<Vec<(String, String)>>,
}

/// The mathematical value of a `Matchup`.
pub ghost struct MatchupV {
    pub starters_points: Seq<JsonNumberV>,
    pub starters: Seq<Seq<char>>,
    pub roster_id: u8,
    pub points: JsonNumberV,
    pub players_points: Option<Seq<(Seq<char>, JsonNumberV)>>,
    pub players: Option<Seq<Seq<char>>>,
    pub matchup_id: u8,
    pub custom_points: Option<Seq<(Seq<char>, Seq<char>)>>,
}

impl DeepView for Matchup {
    type V = MatchupV;

    open spec fn deep_view(&self) -> MatchupV {
        MatchupV {
            starters_points: self.starters_points.deep_view(),
            starters: self.starters.deep_view(),
            roster_id: self.roster_id,
            points: self.points.deep_view(),
            players_points: self.players_points.deep_view(),
            players: self.players.deep_view(),
            matchup_id: self.matchup_id,
            custom_points: self.custom_points.deep_view(),
        }
    }
}

/// The `Matchup` a JSON document describes: an object with every
/// field below in the shape its type asks for; unknown entries are
/// ignored.
pub open spec fn spec_matchup_of(v: JsonView) -> Option<MatchupV> {
    match v {
        JsonView::Obj(o) => {
            if spec_req_num_seq(o, "starters_points"@) is Some
                && spec_req_string_seq(o, "starters"@) is Some
                && spec_req_u8(o, "roster_id"@) is Some
                && spec_req_num(o, "points"@) is Some
                && spec_opt_num_map(o, "players_points"@) is Some
                && spec_opt_string_seq(o, "players"@) is Some
                && spec_req_u8(o, "matchup_id"@) is Some
                && spec_opt_str_map(o, "custom_points"@) is Some {
                Some(
                    MatchupV {
                        starters_points: spec_req_num_seq(o, "starters_points"@)->Some_0,
                        starters: spec_req_string_seq(o, "starters"@)->Some_0,
                        roster_id: spec_req_u8(o, "roster_id"@)->Some_0,
                        points: spec_req_num(o, "points"@)->Some_0,
                        players_points: spec_opt_num_map(o, "players_points"@)->Some_0,
                        players: spec_opt_string_seq(o, "players"@)->Some_0,
                        matchup_id: spec_req_u8(o, "matchup_id"@)->Some_0,
                        custom_points: spec_opt_str_map(o, "custom_points"@)->Some_0,
                    },
                )
            } else {
                None
            }
        },
        _ => None,
    }
}

impl Matchup {
    /// Decodes a `Matchup` from a JSON document, exactly when the
    /// document has the shape the specification above asks for.
    pub fn from_json(v: &JsonValue) -> (r: Option<Matchup>)
        ensures
            r.deep_view() == spec_matchup_of(v.deep_view()),
    {
        match v {
            JsonValue::Obj(entries) => {
                let starters_points = match req_num_vec(entries, "starters_points") {
                    Some(x) => x,
                    None => { return None; },
                };
                let starters = match req_string_vec(entries, "starters") {
                    Some(x) => x,
                    None => { return None; },
                };
                let roster_id = match req_u8(entries, "roster_id") {
                    Some(x) => x,
                    None => { return None; },
                };
                let points = match req_num(entries, "points") {
                    Some(x) => x,
                    None => { return None; },
                };
                let players_points = match opt_num_map(entries, "players_points") {
                    Some(x) => x,
                    None => { return None; },
                };
                let players = match opt_string_vec(entries, "players") {
                    Some(x) => x,
                    None => { return None; },
                };
                let matchup_id = match req_u8(entries, "matchup_id") {
                    Some(x) => x,
                    None => { return None; },
                };
                let custom_points = match opt_str_map(entries, "custom_points") {
                    Some(x) => x,
                    None => { return None; },
                };
                Some(
                    Matchup {
                        starters_points,
                        starters,
                        roster_id,
                        points,
                        players_points,
                        players,
                        matchup_id,
                        custom_points,
                    },
                )
            },
            _ => None,
        }
    }
}

} // verus!
