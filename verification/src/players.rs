use vstd::prelude::*;

use crate::fields::{
    opt_i32, opt_i8, opt_string, opt_string_vec, opt_u64, opt_u8, opt_u32, opt_value_map,
    req_bool, req_string, spec_opt_i32, spec_opt_i8, spec_opt_string, spec_opt_string_seq,
    spec_opt_u64, spec_opt_u8, spec_opt_u32, spec_opt_value_map, spec_req_bool, spec_req_string,
    value_entries,
};
use crate::json::{lemma_views_of_entries, views_of_entries, JsonValue, JsonView};
use crate::sport::SleeperSport;

verus! {

/// One player of the primary sport. Identity, names, and the `active`
/// flag are always present; everything else is optional because the
/// upstream source omits fields per player.
#[derive(Debug, PartialEq, Eq)]
pub struct NflPlayer {
    pub birth_city: Option<String>,
    pub status: Option<String>,
    pub sportradar_id: Option<String>,
    pub search_first_name: Option<String>,
    pub practice_description: Option<String>,
    pub injury_body_part: Option<String>,
    pub injury_status: Option<String>,
    pub team: Option<String>,
    pub position: Option<String>,
    pub metadata: Option<Vec<(String, JsonValue)>>,
    pub first_name: String,
    pub injury_start_date: Option<String>,
    pub high_school: Option<String>,
    pub injury_notes: Option<String>,
    pub yahoo_id: Option<i32>,
    pub birth_date: Option<String>,
    pub age: Option<u8>,
    pub pandascore_id: Option<String>,
    pub sport: String,
    pub practice_participation: Option<String>,
    pub weight: Option<String>,
    pub swish_id: Option<u32>,
    pub depth_chart_order: Option<u8>,
    pub years_exp: Option<i8>,
    pub college: Option<String>,
    pub news_updated: Option<u64>,
    pub rotoworld_id: Option<u64>,
    pub last_name: String,
    pub birth_state: Option<String>,
    pub fantasy_positions: Option<Vec<String>>,
    pub birth_country: Option<String>,
    pub search_full_name: Option<String>,
    pub stats_id: Option<u32>,
    pub gsis_id: Option<String>,
    pub depth_chart_position: Option<String>,
    pub full_name: Option<String>,
    pub rotowire_id: Option<u32>,
    pub espn_id: Option<u64>,
    pub fantasy_data_id: Option<u64>,
    pub active: bool,
    pub number: Option<u8>,
    pub player_id: String,
    pub hashtag: Option<String>,
    pub search_last_name: Option<String>,
    pub search_rank: Option<u64>,
    pub height: Option<String>,
}

/// The mathematical value of a `NflPlayer`.
pub ghost struct NflPlayerV {
    pub birth_city: Option<Seq<char>>,
    pub status: Option<Seq<char>>,
    pub sportradar_id: Option<Seq<char>>,
    pub search_first_name: Option<Seq<char>>,
    pub practice_description: Option<Seq<char>>,
    pub injury_body_part: Option<Seq<char>>,
    pub injury_status: Option<Seq<char>>,
    pub team: Option<Seq<char>>,
    pub position: Option<Seq<char>>,
    pub metadata: Option<Seq<(Seq<char>, JsonView)>>,
    pub first_name: Seq<char>,
    pub injury_start_date: Option<Seq<char>>,
    pub high_school: Option<Seq<char>>,
    pub injury_notes: Option<Seq<char>>,
    pub yahoo_id: Option<i32>,
    pub birth_date: Option<Seq<char>>,
    pub age: Option<u8>,
    pub pandascore_id: Option<Seq<char>>,
    pub sport: Seq<char>,
    pub practice_participation: Option<Seq<char>>,
    pub weight: Option<Seq<char>>,
    pub swish_id: Option<u32>,
    pub depth_chart_order: Option<u8>,
    pub years_exp: Option<i8>,
    pub college: Option<Seq<char>>,
    pub news_updated: Option<u64>,
    pub rotoworld_id: Option<u64>,
    pub last_name: Seq<char>,
    pub birth_state: Option<Seq<char>>,
    pub fantasy_positions: Option<Seq<Seq<char>>>,
    pub birth_country: Option<Seq<char>>,
    pub search_full_name: Option<Seq<char>>,
    pub stats_id: Option<u32>,
    pub gsis_id: Option<Seq<char>>,
    pub depth_chart_position: Option<Seq<char>>,
    pub full_name: Option<Seq<char>>,
    pub rotowire_id: Option<u32>,
    pub espn_id: Option<u64>,
    pub fantasy_data_id: Option<u64>,
    pub active: bool,
    pub number: Option<u8>,
    pub player_id: Seq<char>,
    pub hashtag: Option<Seq<char>>,
    pub search_last_name: Option<Seq<char>>,
    pub search_rank: Option<u64>,
    pub height: Option<Seq<char>>,
}

impl DeepView for NflPlayer {
    type V = NflPlayerV;

    open spec fn deep_view(&self) -> NflPlayerV {
        NflPlayerV {
            birth_city: self.birth_city.deep_view(),
            status: self.status.deep_view(),
            sportradar_id: self.sportradar_id.deep_view(),
            search_first_name: self.search_first_name.deep_view(),
            practice_description: self.practice_description.deep_view(),
            injury_body_part: self.injury_body_part.deep_view(),
            injury_status: self.injury_status.deep_view(),
            team: self.team.deep_view(),
            position: self.position.deep_view(),
            metadata: self.metadata.deep_view(),
            first_name: self.first_name@,
            injury_start_date: self.injury_start_date.deep_view(),
            high_school: self.high_school.deep_view(),
            injury_notes: self.injury_notes.deep_view(),
            yahoo_id: self.yahoo_id,
            birth_date: self.birth_date.deep_view(),
            age: self.age,
            pandascore_id: self.pandascore_id.deep_view(),
            sport: self.sport@,
            practice_participation: self.practice_participation.deep_view(),
            weight: self.weight.deep_view(),
            swish_id: self.swish_id,
            depth_chart_order: self.depth_chart_order,
            years_exp: self.years_exp,
            college: self.college.deep_view(),
            news_updated: self.news_updated,
            rotoworld_id: self.rotoworld_id,
            last_name: self.last_name@,
            birth_state: self.birth_state.deep_view(),
            fantasy_positions: self.fantasy_positions.deep_view(),
            birth_country: self.birth_country.deep_view(),
            search_full_name: self.search_full_name.deep_view(),
            stats_id: self.stats_id,
            gsis_id: self.gsis_id.deep_view(),
            depth_chart_position: self.depth_chart_position.deep_view(),
            full_name: self.full_name.deep_view(),
            rotowire_id: self.rotowire_id,
            espn_id: self.espn_id,
            fantasy_data_id: self.fantasy_data_id,
            active: self.active,
            number: self.number,
            player_id: self.player_id@,
            hashtag: self.hashtag.deep_view(),
            search_last_name: self.search_last_name.deep_view(),
            search_rank: self.search_rank,
            height: self.height.deep_view(),
        }
    }
}

/// The `NflPlayer` a JSON document describes: an object with every
/// field below in the shape its type asks for; unknown entries are
/// ignored.
pub open spec fn spec_nfl_player_of(v: JsonView) -> Option<NflPlayerV> {
    match v {
        JsonView::Obj(o) => {
            if spec_opt_string(o, "birth_city"@) is Some
                && spec_opt_string(o, "status"@) is Some
                && spec_opt_string(o, "sportradar_id"@) is Some
                && spec_opt_string(o, "search_first_name"@) is Some
                && spec_opt_string(o, "practice_description"@) is Some
                && spec_opt_string(o, "injury_body_part"@) is Some
                && spec_opt_string(o, "injury_status"@) is Some
                && spec_opt_string(o, "team"@) is Some
                && spec_opt_string(o, "position"@) is Some
                && spec_opt_value_map(o, "metadata"@) is Some
                && spec_req_string(o, "first_name"@) is Some
                && spec_opt_string(o, "injury_start_date"@) is Some
                && spec_opt_string(o, "high_school"@) is Some
                && spec_opt_string(o, "injury_notes"@) is Some
                && spec_opt_i32(o, "yahoo_id"@) is Some
                && spec_opt_string(o, "birth_date"@) is Some
                && spec_opt_u8(o, "age"@) is Some
                && spec_opt_string(o, "pandascore_id"@) is Some
                && spec_req_string(o, "sport"@) is Some
                && spec_opt_string(o, "practice_participation"@) is Some
                && spec_opt_string(o, "weight"@) is Some
                && spec_opt_u32(o, "swish_id"@) is Some
                && spec_opt_u8(o, "depth_chart_order"@) is Some
                && spec_opt_i8(o, "years_exp"@) is Some
                && spec_opt_string(o, "college"@) is Some
                && spec_opt_u64(o, "news_updated"@) is Some
                && spec_opt_u64(o, "rotoworld_id"@) is Some
                && spec_req_string(o, "last_name"@) is Some
                && spec_opt_string(o, "birth_state"@) is Some
                && spec_opt_string_seq(o, "fantasy_positions"@) is Some
                && spec_opt_string(o, "birth_country"@) is Some
                && spec_opt_string(o, "search_full_name"@) is Some
                && spec_opt_u32(o, "stats_id"@) is Some
                && spec_opt_string(o, "gsis_id"@) is Some
                && spec_opt_string(o, "depth_chart_position"@) is Some
                && spec_opt_string(o, "full_name"@) is Some
                && spec_opt_u32(o, "rotowire_id"@) is Some
                && spec_opt_u64(o, "espn_id"@) is Some
                && spec_opt_u64(o, "fantasy_data_id"@) is Some
                && spec_req_bool(o, "active"@) is Some
                && spec_opt_u8(o, "number"@) is Some
                && spec_req_string(o, "player_id"@) is Some
                && spec_opt_string(o, "hashtag"@) is Some
                && spec_opt_string(o, "search_last_name"@) is Some
                && spec_opt_u64(o, "search_rank"@) is Some
                && spec_opt_string(o, "height"@) is Some {
                Some(
                    NflPlayerV {
                        birth_city: spec_opt_string(o, "birth_city"@)->Some_0,
                        status: spec_opt_string(o, "status"@)->Some_0,
                        sportradar_id: spec_opt_string(o, "sportradar_id"@)->Some_0,
                        search_first_name: spec_opt_string(o, "search_first_name"@)->Some_0,
                        practice_description: spec_opt_string(o, "practice_description"@)->Some_0,
                        injury_body_part: spec_opt_string(o, "injury_body_part"@)->Some_0,
                        injury_status: spec_opt_string(o, "injury_status"@)->Some_0,
                        team: spec_opt_string(o, "team"@)->Some_0,
                        position: spec_opt_string(o, "position"@)->Some_0,
                        metadata: spec_opt_value_map(o, "metadata"@)->Some_0,
                        first_name: spec_req_string(o, "first_name"@)->Some_0,
                        injury_start_date: spec_opt_string(o, "injury_start_date"@)->Some_0,
                        high_school: spec_opt_string(o, "high_school"@)->Some_0,
                        injury_notes: spec_opt_string(o, "injury_notes"@)->Some_0,
                        yahoo_id: spec_opt_i32(o, "yahoo_id"@)->Some_0,
                        birth_date: spec_opt_string(o, "birth_date"@)->Some_0,
                        age: spec_opt_u8(o, "age"@)->Some_0,
                        pandascore_id: spec_opt_string(o, "pandascore_id"@)->Some_0,
                        sport: spec_req_string(o, "sport"@)->Some_0,
                        practice_participation: spec_opt_string(o, "practice_participation"@)->Some_0,
                        weight: spec_opt_string(o, "weight"@)->Some_0,
                        swish_id: spec_opt_u32(o, "swish_id"@)->Some_0,
                        depth_chart_order: spec_opt_u8(o, "depth_chart_order"@)->Some_0,
                        years_exp: spec_opt_i8(o, "years_exp"@)->Some_0,
                        college: spec_opt_string(o, "college"@)->Some_0,
                        news_updated: spec_opt_u64(o, "news_updated"@)->Some_0,
                        rotoworld_id: spec_opt_u64(o, "rotoworld_id"@)->Some_0,
                        last_name: spec_req_string(o, "last_name"@)->Some_0,
                        birth_state: spec_opt_string(o, "birth_state"@)->Some_0,
                        fantasy_positions: spec_opt_string_seq(o, "fantasy_positions"@)->Some_0,
                        birth_country: spec_opt_string(o, "birth_country"@)->Some_0,
                        search_full_name: spec_opt_string(o, "search_full_name"@)->Some_0,
                        stats_id: spec_opt_u32(o, "stats_id"@)->Some_0,
                        gsis_id: spec_opt_string(o, "gsis_id"@)->Some_0,
                        depth_chart_position: spec_opt_string(o, "depth_chart_position"@)->Some_0,
                        full_name: spec_opt_string(o, "full_name"@)->Some_0,
                        rotowire_id: spec_opt_u32(o, "rotowire_id"@)->Some_0,
                        espn_id: spec_opt_u64(o, "espn_id"@)->Some_0,
                        fantasy_data_id: spec_opt_u64(o, "fantasy_data_id"@)->Some_0,
                        active: spec_req_bool(o, "active"@)->Some_0,
                        number: spec_opt_u8(o, "number"@)->Some_0,
                        player_id: spec_req_string(o, "player_id"@)->Some_0,
                        hashtag: spec_opt_string(o, "hashtag"@)->Some_0,
                        search_last_name: spec_opt_string(o, "search_last_name"@)->Some_0,
                        search_rank: spec_opt_u64(o, "search_rank"@)->Some_0,
                        height: spec_opt_string(o, "height"@)->Some_0,
                    },
                )
            } else {
                None
            }
        },
        _ => None,
    }
}

impl NflPlayer {
    /// Decodes a `NflPlayer` from a JSON document, exactly when the
    /// document has the shape the specification above asks for.
    pub fn from_json(v: &JsonValue) -> (r: Option<NflPlayer>)
        ensures
            r.deep_view() == spec_nfl_player_of(v.deep_view()),
    {
        match v {
            JsonValue::Obj(entries) => {
                let birth_city = match opt_string(entries, "birth_city") {
                    Some(x) => x,
                    None => { return None; },
                };
                let status = match opt_string(entries, "status") {
                    Some(x) => x,
                    None => { return None; },
                };
                let sportradar_id = match opt_string(entries, "sportradar_id") {
                    Some(x) => x,
                    None => { return None; },
                };
                let search_first_name = match opt_string(entries, "search_first_name") {
                    Some(x) => x,
                    None => { return None; },
                };
                let practice_description = match opt_string(entries, "practice_description") {
                    Some(x) => x,
                    None => { return None; },
                };
                let injury_body_part = match opt_string(entries, "injury_body_part") {
                    Some(x) => x,
                    None => { return None; },
                };
                let injury_status = match opt_string(entries, "injury_status") {
                    Some(x) => x,
                    None => { return None; },
                };
                let team = match opt_string(entries, "team") {
                    Some(x) => x,
                    None => { return None; },
                };
                let position = match opt_string(entries, "position") {
                    Some(x) => x,
                    None => { return None; },
                };
                let metadata = match opt_value_map(entries, "metadata") {
                    Some(x) => x,
                    None => { return None; },
                };
                let first_name = match req_string(entries, "first_name") {
                    Some(x) => x,
                    None => { return None; },
                };
                let injury_start_date = match opt_string(entries, "injury_start_date") {
                    Some(x) => x,
                    None => { return None; },
                };
                let high_school = match opt_string(entries, "high_school") {
                    Some(x) => x,
                    None => { return None; },
                };
                let injury_notes = match opt_string(entries, "injury_notes") {
                    Some(x) => x,
                    None => { return None; },
                };
                let yahoo_id = match opt_i32(entries, "yahoo_id") {
                    Some(x) => x,
                    None => { return None; },
                };
                let birth_date = match opt_string(entries, "birth_date") {
                    Some(x) => x,
                    None => { return None; },
                };
                let age = match opt_u8(entries, "age") {
                    Some(x) => x,
                    None => { return None; },
                };
                let pandascore_id = match opt_string(entries, "pandascore_id") {
                    Some(x) => x,
                    None => { return None; },
                };
                let sport = match req_string(entries, "sport") {
                    Some(x) => x,
                    None => { return None; },
                };
                let practice_participation = match opt_string(entries, "practice_participation") {
                    Some(x) => x,
                    None => { return None; },
                };
                let weight = match opt_string(entries, "weight") {
                    Some(x) => x,
                    None => { return None; },
                };
                let swish_id = match opt_u32(entries, "swish_id") {
                    Some(x) => x,
                    None => { return None; },
                };
                let depth_chart_order = match opt_u8(entries, "depth_chart_order") {
                    Some(x) => x,
                    None => { return None; },
                };
                let years_exp = match opt_i8(entries, "years_exp") {
                    Some(x) => x,
                    None => { return None; },
                };
                let college = match opt_string(entries, "college") {
                    Some(x) => x,
                    None => { return None; },
                };
                let news_updated = match opt_u64(entries, "news_updated") {
                    Some(x) => x,
                    None => { return None; },
                };
                let rotoworld_id = match opt_u64(entries, "rotoworld_id") {
                    Some(x) => x,
                    None => { return None; },
                };
                let last_name = match req_string(entries, "last_name") {
                    Some(x) => x,
                    None => { return None; },
                };
                let birth_state = match opt_string(entries, "birth_state") {
                    Some(x) => x,
                    None => { return None; },
                };
                let fantasy_positions = match opt_string_vec(entries, "fantasy_positions") {
                    Some(x) => x,
                    None => { return None; },
                };
                let birth_country = match opt_string(entries, "birth_country") {
                    Some(x) => x,
                    None => { return None; },
                };
                let search_full_name = match opt_string(entries, "search_full_name") {
                    Some(x) => x,
                    None => { return None; },
                };
                let stats_id = match opt_u32(entries, "stats_id") {
                    Some(x) => x,
                    None => { return None; },
                };
                let gsis_id = match opt_string(entries, "gsis_id") {
                    Some(x) => x,
                    None => { return None; },
                };
                let depth_chart_position = match opt_string(entries, "depth_chart_position") {
                    Some(x) => x,
                    None => { return None; },
                };
                let full_name = match opt_string(entries, "full_name") {
                    Some(x) => x,
                    None => { return None; },
                };
                let rotowire_id = match opt_u32(entries, "rotowire_id") {
                    Some(x) => x,
                    None => { return None; },
                };
                let espn_id = match opt_u64(entries, "espn_id") {
                    Some(x) => x,
                    None => { return None; },
                };
                let fantasy_data_id = match opt_u64(entries, "fantasy_data_id") {
                    Some(x) => x,
                    None => { return None; },
                };
                let active = match req_bool(entries, "active") {
                    Some(x) => x,
                    None => { return None; },
                };
                let number = match opt_u8(entries, "number") {
                    Some(x) => x,
                    None => { return None; },
                };
                let player_id = match req_string(entries, "player_id") {
                    Some(x) => x,
                    None => { return None; },
                };
                let hashtag = match opt_string(entries, "hashtag") {
                    Some(x) => x,
                    None => { return None; },
                };
                let search_last_name = match opt_string(entries, "search_last_name") {
                    Some(x) => x,
                    None => { return None; },
                };
                let search_rank = match opt_u64(entries, "search_rank") {
                    Some(x) => x,
                    None => { return None; },
                };
                let height = match opt_string(entries, "height") {
                    Some(x) => x,
                    None => { return None; },
                };
                Some(
                    NflPlayer {
                        birth_city,
                        status,
                        sportradar_id,
                        search_first_name,
                        practice_description,
                        injury_body_part,
                        injury_status,
                        team,
                        position,
                        metadata,
                        first_name,
                        injury_start_date,
                        high_school,
                        injury_notes,
                        yahoo_id,
                        birth_date,
                        age,
                        pandascore_id,
                        sport,
                        practice_participation,
                        weight,
                        swish_id,
                        depth_chart_order,
                        years_exp,
                        college,
                        news_updated,
                        rotoworld_id,
                        last_name,
                        birth_state,
                        fantasy_positions,
                        birth_country,
                        search_full_name,
                        stats_id,
                        gsis_id,
                        depth_chart_position,
                        full_name,
                        rotowire_id,
                        espn_id,
                        fantasy_data_id,
                        active,
                        number,
                        player_id,
                        hashtag,
                        search_last_name,
                        search_rank,
                        height,
                    },
                )
            },
            _ => None,
        }
    }
}

/// The player directory for one sport. The primary sport's directory is
/// fully typed; the other sports' directories pass through as raw JSON
/// values, one entry per player id.
#[derive(Debug, PartialEq, Eq)]
pub enum AllPlayers {
    NFL(Vec<(String, NflPlayer)>),
    LCS(Vec<(String, JsonValue)>),
    NBA(Vec<(String, JsonValue)>),
}

/// The mathematical value of an `AllPlayers`.
pub ghost enum AllPlayersV {
    NFL(Seq<(Seq<char>, NflPlayerV)>),
    LCS(Seq<(Seq<char>, JsonView)>),
    NBA(Seq<(Seq<char>, JsonView)>),
}

impl DeepView for AllPlayers {
    type V = AllPlayersV;

    open spec fn deep_view(&self) -> AllPlayersV {
        match self {
            AllPlayers::NFL(m) => AllPlayersV::NFL(m.deep_view()),
            AllPlayers::LCS(m) => AllPlayersV::LCS(m.deep_view()),
            AllPlayers::NBA(m) => AllPlayersV::NBA(m.deep_view()),
        }
    }
}

/// The typed player directory a document describes: an object whose every
/// value is a valid player record, keys kept in order. One bad entry
/// rejects the whole directory; no partial map exists.
pub open spec fn spec_nfl_players_of(v: JsonView) -> Option<Seq<(Seq<char>, NflPlayerV)>> {
    match v {
        JsonView::Obj(kvs) => {
            if forall|i: int|
                0 <= i < kvs.len() ==> spec_nfl_player_of((#[trigger] kvs[i]).1) is Some {
                Some(
                    Seq::new(
                        kvs.len(),
                        |i: int| (kvs[i].0, spec_nfl_player_of(kvs[i].1)->Some_0),
                    ),
                )
            } else {
                None
            }
        },
        _ => None,
    }
}

/// Decodes the typed player directory; exactly when every entry is a
/// valid player record.
pub fn nfl_players_from_json(v: &JsonValue) -> (r: Option<Vec<(String, NflPlayer)>>)
    ensures
        r.deep_view() == spec_nfl_players_of(v.deep_view()),
{
    match v {
        JsonValue::Obj(kvs) => {
            let ghost evs = views_of_entries(kvs@);
            proof {
                lemma_views_of_entries(kvs@);
            }
            let mut out: Vec<(String, NflPlayer)> = Vec::new();
            let mut i: usize = 0;
            while i < kvs.len()
                invariant
                    v.deep_view() == JsonView::Obj(evs),
                    evs == views_of_entries(kvs@),
                    evs.len() == kvs@.len(),
                    forall|j: int|
                        0 <= j < kvs@.len() ==> evs[j] == (kvs@[j].0@, kvs@[j].1.deep_view()),
                    0 <= i <= kvs@.len(),
                    out@.len() == i,
                    forall|j: int|
                        0 <= j < i ==> spec_nfl_player_of((#[trigger] evs[j]).1) == Some(
                            out@[j].1.deep_view(),
                        ) && out@[j].0@ == evs[j].0,
                decreases kvs@.len() - i,
            {
                let pair = &kvs[i];
                match NflPlayer::from_json(&pair.1) {
                    Some(p) => out.push((pair.0.clone(), p)),
                    None => {
                        proof {
                            assert(spec_nfl_player_of((#[trigger] evs[i as int]).1) is None);
                        }
                        return None;
                    },
                }
                i += 1;
            }
            proof {
                assert(spec_nfl_players_of(v.deep_view()) is Some);
                assert(out.deep_view() =~= spec_nfl_players_of(v.deep_view())->Some_0);
            }
            Some(out)
        },
        _ => None,
    }
}

/// The directory a document describes for a sport: fully typed for the
/// primary sport, entries passed through verbatim for the others, and in
/// every case only an object is accepted.
pub open spec fn spec_all_players_of(sport: SleeperSport, v: JsonView) -> Option<AllPlayersV> {
    match sport {
        SleeperSport::NFL => match spec_nfl_players_of(v) {
            Some(m) => Some(AllPlayersV::NFL(m)),
            None => None,
        },
        SleeperSport::LCS => match v {
            JsonView::Obj(kvs) => Some(AllPlayersV::LCS(kvs)),
            _ => None,
        },
        SleeperSport::NBA => match v {
            JsonView::Obj(kvs) => Some(AllPlayersV::NBA(kvs)),
            _ => None,
        },
    }
}

impl AllPlayers {
    /// Decodes the player directory for the sport the caller asked for;
    /// the endpoint's body carries no sport marker of its own.
    pub fn from_json(sport: SleeperSport, v: &JsonValue) -> (r: Option<AllPlayers>)
        ensures
            r.deep_view() == spec_all_players_of(sport, v.deep_view()),
    {
        match sport {
            SleeperSport::NFL => match nfl_players_from_json(v) {
                Some(m) => Some(AllPlayers::NFL(m)),
                None => None,
            },
            SleeperSport::LCS => match v {
                JsonValue::Obj(kvs) => {
                    let es = value_entries(kvs);
                    proof {
                        lemma_views_of_entries(kvs@);
                        assert(es.deep_view() =~= v.deep_view()->Obj_0);
                    }
                    Some(AllPlayers::LCS(es))
                },
                _ => None,
            },
            SleeperSport::NBA => match v {
                JsonValue::Obj(kvs) => {
                    let es = value_entries(kvs);
                    proof {
                        lemma_views_of_entries(kvs@);
                        assert(es.deep_view() =~= v.deep_view()->Obj_0);
                    }
                    Some(AllPlayers::NBA(es))
                },
                _ => None,
            },
        }
    }
}

} // verus!
