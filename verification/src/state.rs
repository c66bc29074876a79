use vstd::prelude::*;

use crate::fields::{req_string, req_u8, spec_req_string, spec_req_u8};
use crate::json::{JsonValue, JsonView};

verus! {

/// Where a sport's season currently stands, independent of any league.
#[derive(Debug, PartialEq, Eq)]
pub struct SportState {
    pub week: u8,
    pub season_type: String,
    pub season_start_date: String,
    pub season: String,
    pub previous_season: String,
    pub leg: u8,
    pub league_season: String,
    pub league_create_season: String,
    pub display_week: u8,
}

/// The mathematical value of a `SportState`.
pub ghost struct SportStateV {
    pub week: u8,
    pub season_type: Seq<char>,
    pub season_start_date: Seq<char>,
    pub season: Seq<char>,
    pub previous_season: Seq<char>,
    pub leg: u8,
    pub league_season: Seq<char>,
    pub league_create_season: Seq<char>,
    pub display_week: u8,
}

impl DeepView for SportState {
    type V = SportStateV;

    open spec fn deep_view(&self) -> SportStateV {
        SportStateV {
            week: self.week,
            season_type: self.season_type@,
            season_start_date: self.season_start_date@,
            season: self.season@,
            previous_season: self.previous_season@,
            leg: self.leg,
            league_season: self.league_season@,
            league_create_season: self.league_create_season@,
            display_week: self.display_week,
        }
    }
}

/// The `SportState` a JSON document describes: an object with every
/// field below in the shape its type asks for; unknown entries are
/// ignored.
pub open spec fn spec_sport_state_of(v: JsonView) -> Option<SportStateV> {
    match v {
        JsonView::Obj(o) => {
            if spec_req_u8(o, "week"@) is Some
                && spec_req_string(o, "season_type"@) is Some
                && spec_req_string(o, "season_start_date"@) is Some
                && spec_req_string(o, "season"@) is Some
                && spec_req_string(o, "previous_season"@) is Some
                && spec_req_u8(o, "leg"@) is Some
                && spec_req_string(o, "league_season"@) is Some
                && spec_req_string(o, "league_create_season"@) is Some
                && spec_req_u8(o, "display_week"@) is Some {
                Some(
                    SportStateV {
                        week: spec_req_u8(o, "week"@)->Some_0,
                        season_type: spec_req_string(o, "season_type"@)->Some_0,
                        season_start_date: spec_req_string(o, "season_start_date"@)->Some_0,
                        season: spec_req_string(o, "season"@)->Some_0,
                        previous_season: spec_req_string(o, "previous_season"@)->Some_0,
                        leg: spec_req_u8(o, "leg"@)->Some_0,
                        league_season: spec_req_string(o, "league_season"@)->Some_0,
                        league_create_season: spec_req_string(o, "league_create_season"@)->Some_0,
                        display_week: spec_req_u8(o, "display_week"@)->Some_0,
                    },
                )
            } else {
                None
            }
        },
        _ => None,
    }
}

impl SportState {
    /// Decodes a `SportState` from a JSON document, exactly when the
    /// document has the shape the specification above asks for.
    pub fn from_json(v: &JsonValue) -> (r: Option<SportState>)
        ensures
            r.deep_view() == spec_sport_state_of(v.deep_view()),
    {
        match v {
            JsonValue::Obj(entries) => {
                let week = match req_u8(entries, "week") {
                    Some(x) => x,
                    None => { return None; },
                };
                let season_type = match req_string(entries, "season_type") {
                    Some(x) => x,
                    None => { return None; },
                };
                let season_start_date = match req_string(entries, "season_start_date") {
                    Some(x) => x,
                    None => { return None; },
                };
                let season = match req_string(entries, "season") {
                    Some(x) => x,
                    None => { return None; },
                };
                let previous_season = match req_string(entries, "previous_season") {
                    Some(x) => x,
                    None => { return None; },
                };
                let leg = match req_u8(entries, "leg") {
                    Some(x) => x,
                    None => { return None; },
                };
                let league_season = match req_string(entries, "league_season") {
                    Some(x) => x,
                    None => { return None; },
                };
                let league_create_season = match req_string(entries, "league_create_season") {
                    Some(x) => x,
                    None => { return None; },
                };
                let display_week = match req_u8(entries, "display_week") {
                    Some(x) => x,
                    None => { return None; },
                };
                Some(
                    SportState {
                        week,
                        season_type,
                        season_start_date,
                        season,
                        previous_season,
                        leg,
                        league_season,
                        league_create_season,
                        display_week,
                    },
                )
            },
            _ => None,
        }
    }
}

} // verus!
