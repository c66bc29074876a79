use vstd::prelude::*;

use crate::error::{is_deser_err, SleeperError};
use crate::json::{
    json_doc_of, lemma_views_of_values, parse_json, views_of_values, JsonValue, JsonView,
};
use crate::league::{spec_league_of, League};
use crate::matchup::{spec_matchup_of, Matchup, MatchupV};
use crate::players::{spec_all_players_of, AllPlayers};
use crate::roster::{spec_roster_of, Roster, RosterV};
use crate::sport::{spec_sport_code, SleeperSport};
use crate::state::{spec_sport_state_of, SportState};
use crate::users::{spec_user_of, SleeperUser, SleeperUserV};

verus! {

use vstd::string::StringExecFns;

/// The fixed base of every request path.
pub open spec fn spec_base_url() -> Seq<char> {
    "https://api.sleeper.app/v1"@
}

/// The base of every request path, as a fresh string.
pub fn base_url() -> (r: String)
    ensures
        r@ == spec_base_url(),
{
    String::from_str("https://api.sleeper.app/v1")
}

/// The decimal digit character for `d`; meaningful for `d < 10`.
pub open spec fn spec_digit(d: nat) -> char {
    if d == 0 {
        '0'
    } else if d == 1 {
        '1'
    } else if d == 2 {
        '2'
    } else if d == 3 {
        '3'
    } else if d == 4 {
        '4'
    } else if d == 5 {
        '5'
    } else if d == 6 {
        '6'
    } else if d == 7 {
        '7'
    } else if d == 8 {
        '8'
    } else {
        '9'
    }
}

/// The decimal rendering of `n`, most significant digit first, no sign
/// and no leading zero.
pub open spec fn spec_decimal(n: nat) -> Seq<char>
    decreases n,
{
    if n < 10 {
        seq![spec_digit(n)]
    } else {
        spec_decimal(n / 10) + seq![spec_digit(n % 10)]
    }
}

fn digit_str(d: u8) -> (r: &'static str)
    requires
        d < 10,
    ensures
        r@ == seq![spec_digit(d as nat)],
{
    proof {
        reveal_strlit("0");
        reveal_strlit("1");
        reveal_strlit("2");
        reveal_strlit("3");
        reveal_strlit("4");
        reveal_strlit("5");
        reveal_strlit("6");
        reveal_strlit("7");
        reveal_strlit("8");
        reveal_strlit("9");
    }
    let r = match d {
        0 => "0",
        1 => "1",
        2 => "2",
        3 => "3",
        4 => "4",
        5 => "5",
        6 => "6",
        7 => "7",
        8 => "8",
        _ => "9",
    };
    proof {
        assert(r@ =~= seq![spec_digit(d as nat)]);
    }
    r
}

/// Renders a week number in decimal, as request paths carry it.
pub fn u8_to_string(n: u8) -> (r: String)
    ensures
        r@ == spec_decimal(n as nat),
{
    let mut s = String::new();
    if n >= 100 {
        s.append(digit_str(n / 100));
    }
    if n >= 10 {
        s.append(digit_str((n / 10) % 10));
    }
    s.append(digit_str(n % 10));
    proof {
        let m = n as nat;
        if n < 10 {
            assert(spec_decimal(m) == seq![spec_digit(m)]);
            assert(n % 10 == n);
        } else if n < 100 {
            assert(spec_decimal(m) == spec_decimal(m / 10) + seq![spec_digit(m % 10)]);
            assert(m / 10 < 10);
            assert(spec_decimal(m / 10) == seq![spec_digit(m / 10)]);
            assert((n / 10) % 10 == n / 10);
        } else {
            assert(spec_decimal(m) == spec_decimal(m / 10) + seq![spec_digit(m % 10)]);
            assert(m / 10 >= 10);
            assert(spec_decimal(m / 10) == spec_decimal(m / 10 / 10) + seq![
                spec_digit(m / 10 % 10),
            ]);
            assert(m / 10 / 10 == m / 100);
            assert(m / 100 < 10);
            assert(spec_decimal(m / 100) == seq![spec_digit(m / 100)]);
        }
        assert(s@ =~= spec_decimal(m));
    }
    s
}

/// The URL of the league endpoint for a league id.
pub fn league_url(league_id: &str) -> (r: String)
    ensures
        r@ == spec_base_url() + "/league/"@ + league_id@,
{
    let mut url = base_url();
    url.append("/league/");
    url.append(league_id);
    url
}

/// The URL of the rosters endpoint for a league id.
pub fn rosters_url(league_id: &str) -> (r: String)
    ensures
        r@ == spec_base_url() + "/league/"@ + league_id@ + "/rosters"@,
{
    let mut url = base_url();
    url.append("/league/");
    url.append(league_id);
    url.append("/rosters");
    url
}

/// The URL of the league-members endpoint for a league id.
pub fn users_url(league_id: &str) -> (r: String)
    ensures
        r@ == spec_base_url() + "/league/"@ + league_id@ + "/users"@,
{
    let mut url = base_url();
    url.append("/league/");
    url.append(league_id);
    url.append("/users");
    url
}

/// The URL of the matchups endpoint for a league id and week.
pub fn matchups_url(league_id: &str, week: u8) -> (r: String)
    ensures
        r@ == spec_base_url() + "/league/"@ + league_id@ + "/matchups/"@ + spec_decimal(
            week as nat,
        ),
{
    let mut url = base_url();
    url.append("/league/");
    url.append(league_id);
    url.append("/matchups/");
    let w = u8_to_string(week);
    url.append(w.as_str());
    url
}

/// The URL of the season-state endpoint for a sport.
pub fn state_url(sport: SleeperSport) -> (r: String)
    ensures
        r@ == spec_base_url() + "/state/"@ + spec_sport_code(sport),
{
    let mut url = base_url();
    url.append("/state/");
    let code = sport.to_string();
    url.append(code.as_str());
    url
}

/// The URL of the player-directory endpoint for a sport.
pub fn players_url(sport: SleeperSport) -> (r: String)
    ensures
        r@ == spec_base_url() + "/players/"@ + spec_sport_code(sport),
{
    let mut url = base_url();
    url.append("/players/");
    let code = sport.to_string();
    url.append(code.as_str());
    url
}

/// The roster list a document describes: an array whose every item is
/// valid; one bad item rejects the whole list.
pub open spec fn spec_rosters_of(v: JsonView) -> Option<Seq<RosterV>> {
    match v {
        JsonView::Arr(items) => {
            if forall|i: int| 0 <= i < items.len() ==> spec_roster_of(#[trigger] items[i]) is Some {
                Some(Seq::new(items.len(), |i: int| spec_roster_of(items[i])->Some_0))
            } else {
                None
            }
        },
        _ => None,
    }
}

fn rosters_from_value(v: &JsonValue) -> (r: Option<Vec<Roster>>)
    ensures
        r.deep_view() == spec_rosters_of(v.deep_view()),
{
    match v {
        JsonValue::Arr(items) => {
            let ghost ivs = views_of_values(items@);
            proof {
                lemma_views_of_values(items@);
            }
            let mut out: Vec<Roster> = Vec::new();
            let mut i: usize = 0;
            while i < items.len()
                invariant
                    v.deep_view() == JsonView::Arr(ivs),
                    ivs == views_of_values(items@),
                    ivs.len() == items@.len(),
                    forall|j: int| 0 <= j < items@.len() ==> ivs[j] == items@[j].deep_view(),
                    0 <= i <= items@.len(),
                    out@.len() == i,
                    forall|j: int|
                        0 <= j < i ==> spec_roster_of(#[trigger] ivs[j]) == Some(out@[j].deep_view()),
                decreases items@.len() - i,
            {
                match Roster::from_json(&items[i]) {
                    Some(x) => out.push(x),
                    None => {
                        proof {
                            assert(spec_roster_of(#[trigger] ivs[i as int]) is None);
                        }
                        return None;
                    },
                }
                i += 1;
            }
            proof {
                assert(spec_rosters_of(v.deep_view()) is Some);
                assert(out.deep_view() =~= spec_rosters_of(v.deep_view())->Some_0);
            }
            Some(out)
        },
        _ => None,
    }
}

/// The member list a document describes: an array whose every item is
/// valid; one bad item rejects the whole list.
pub open spec fn spec_users_of(v: JsonView) -> Option<Seq<SleeperUserV>> {
    match v {
        JsonView::Arr(items) => {
            if forall|i: int| 0 <= i < items.len() ==> spec_user_of(#[trigger] items[i]) is Some {
                Some(Seq::new(items.len(), |i: int| spec_user_of(items[i])->Some_0))
            } else {
                None
            }
        },
        _ => None,
    }
}

fn users_from_value(v: &JsonValue) -> (r: Option<Vec<SleeperUser>>)
    ensures
        r.deep_view() == spec_users_of(v.deep_view()),
{
    match v {
        JsonValue::Arr(items) => {
            let ghost ivs = views_of_values(items@);
            proof {
                lemma_views_of_values(items@);
            }
            let mut out: Vec<SleeperUser> = Vec::new();
            let mut i: usize = 0;
            while i < items.len()
                invariant
                    v.deep_view() == JsonView::Arr(ivs),
                    ivs == views_of_values(items@),
                    ivs.len() == items@.len(),
                    forall|j: int| 0 <= j < items@.len() ==> ivs[j] == items@[j].deep_view(),
                    0 <= i <= items@.len(),
                    out@.len() == i,
                    forall|j: int|
                        0 <= j < i ==> spec_user_of(#[trigger] ivs[j]) == Some(out@[j].deep_view()),
                decreases items@.len() - i,
            {
                match SleeperUser::from_json(&items[i]) {
                    Some(x) => out.push(x),
                    None => {
                        proof {
                            assert(spec_user_of(#[trigger] ivs[i as int]) is None);
                        }
                        return None;
                    },
                }
                i += 1;
            }
            proof {
                assert(spec_users_of(v.deep_view()) is Some);
                assert(out.deep_view() =~= spec_users_of(v.deep_view())->Some_0);
            }
            Some(out)
        },
        _ => None,
    }
}

/// The matchup list a document describes: an array whose every item is
/// valid; one bad item rejects the whole list.
pub open spec fn spec_matchups_of(v: JsonView) -> Option<Seq<MatchupV>> {
    match v {
        JsonView::Arr(items) => {
            if forall|i: int| 0 <= i < items.len() ==> spec_matchup_of(#[trigger] items[i]) is Some {
                Some(Seq::new(items.len(), |i: int| spec_matchup_of(items[i])->Some_0))
            } else {
                None
            }
        },
        _ => None,
    }
}

fn matchups_from_value(v: &JsonValue) -> (r: Option<Vec<Matchup>>)
    ensures
        r.deep_view() == spec_matchups_of(v.deep_view()),
{
    match v {
        JsonValue::Arr(items) => {
            let ghost ivs = views_of_values(items@);
            proof {
                lemma_views_of_values(items@);
            }
            let mut out: Vec<Matchup> = Vec::new();
            let mut i: usize = 0;
            while i < items.len()
                invariant
                    v.deep_view() == JsonView::Arr(ivs),
                    ivs == views_of_values(items@),
                    ivs.len() == items@.len(),
                    forall|j: int| 0 <= j < items@.len() ==> ivs[j] == items@[j].deep_view(),
                    0 <= i <= items@.len(),
                    out@.len() == i,
                    forall|j: int|
                        0 <= j < i ==> spec_matchup_of(#[trigger] ivs[j]) == Some(out@[j].deep_view()),
                decreases items@.len() - i,
            {
                match Matchup::from_json(&items[i]) {
                    Some(x) => out.push(x),
                    None => {
                        proof {
                            assert(spec_matchup_of(#[trigger] ivs[i as int]) is None);
                        }
                        return None;
                    },
                }
                i += 1;
            }
            proof {
                assert(spec_matchups_of(v.deep_view()) is Some);
                assert(out.deep_view() =~= spec_matchups_of(v.deep_view())->Some_0);
            }
            Some(out)
        },
        _ => None,
    }
}

/// The outcome that decoding a league body owes for a given parse
/// result: the typed value exactly when the text is valid JSON of the
/// right shape, and otherwise the shape error naming the target type.
pub open spec fn decode_league_outcome(doc: Option<JsonView>, r: Result<League, SleeperError>) -> bool {
    match doc {
        Some(d) => match r {
            Ok(x) => spec_league_of(d) == Some(x.deep_view()),
            Err(e) => spec_league_of(d) is None && is_deser_err(e, "League"@),
        },
        None => r matches Err(e) && is_deser_err(e, "League"@),
    }
}

/// Decodes a league response body.
pub fn decode_league(text: &str) -> (r: Result<League, SleeperError>)
    ensures
        decode_league_outcome(json_doc_of(text@), r),
{
    match parse_json(text) {
        Some(v) => match League::from_json(&v) {
            Some(x) => Ok(x),
            None => Err(SleeperError::DeserializationError(String::from_str("League"))),
        },
        None => Err(SleeperError::DeserializationError(String::from_str("League"))),
    }
}

/// The outcome that decoding a roster-list body owes for a given parse
/// result: the typed value exactly when the text is valid JSON of the
/// right shape, and otherwise the shape error naming the target type.
pub open spec fn decode_rosters_outcome(doc: Option<JsonView>, r: Result<Vec<Roster>, SleeperError>) -> bool {
    match doc {
        Some(d) => match r {
            Ok(x) => spec_rosters_of(d) == Some(x.deep_view()),
            Err(e) => spec_rosters_of(d) is None && is_deser_err(e, "Roster"@),
        },
        None => r matches Err(e) && is_deser_err(e, "Roster"@),
    }
}

/// Decodes a roster-list response body.
pub fn decode_rosters(text: &str) -> (r: Result<Vec<Roster>, SleeperError>)
    ensures
        decode_rosters_outcome(json_doc_of(text@), r),
{
    match parse_json(text) {
        Some(v) => match rosters_from_value(&v) {
            Some(x) => Ok(x),
            None => Err(SleeperError::DeserializationError(String::from_str("Roster"))),
        },
        None => Err(SleeperError::DeserializationError(String::from_str("Roster"))),
    }
}

/// The outcome that decoding a member-list body owes for a given parse
/// result: the typed value exactly when the text is valid JSON of the
/// right shape, and otherwise the shape error naming the target type.
pub open spec fn decode_users_outcome(doc: Option<JsonView>, r: Result<Vec<SleeperUser>, SleeperError>) -> bool {
    match doc {
        Some(d) => match r {
            Ok(x) => spec_users_of(d) == Some(x.deep_view()),
            Err(e) => spec_users_of(d) is None && is_deser_err(e, "SleeperUser"@),
        },
        None => r matches Err(e) && is_deser_err(e, "SleeperUser"@),
    }
}

/// Decodes a member-list response body.
pub fn decode_users(text: &str) -> (r: Result<Vec<SleeperUser>, SleeperError>)
    ensures
        decode_users_outcome(json_doc_of(text@), r),
{
    match parse_json(text) {
        Some(v) => match users_from_value(&v) {
            Some(x) => Ok(x),
            None => Err(SleeperError::DeserializationError(String::from_str("SleeperUser"))),
        },
        None => Err(SleeperError::DeserializationError(String::from_str("SleeperUser"))),
    }
}

/// The outcome that decoding a matchup-list body owes for a given parse
/// result: the typed value exactly when the text is valid JSON of the
/// right shape, and otherwise the shape error naming the target type.
pub open spec fn decode_matchups_outcome(doc: Option<JsonView>, r: Result<Vec<Matchup>, SleeperError>) -> bool {
    match doc {
        Some(d) => match r {
            Ok(x) => spec_matchups_of(d) == Some(x.deep_view()),
            Err(e) => spec_matchups_of(d) is None && is_deser_err(e, "Matchup"@),
        },
        None => r matches Err(e) && is_deser_err(e, "Matchup"@),
    }
}

/// Decodes a matchup-list response body.
pub fn decode_matchups(text: &str) -> (r: Result<Vec<Matchup>, SleeperError>)
    ensures
        decode_matchups_outcome(json_doc_of(text@), r),
{
    match parse_json(text) {
        Some(v) => match matchups_from_value(&v) {
            Some(x) => Ok(x),
            None => Err(SleeperError::DeserializationError(String::from_str("Matchup"))),
        },
        None => Err(SleeperError::DeserializationError(String::from_str("Matchup"))),
    }
}

/// The outcome that decoding a season-state body owes for a given parse
/// result: the typed value exactly when the text is valid JSON of the
/// right shape, and otherwise the shape error naming the target type.
pub open spec fn decode_sport_state_outcome(doc: Option<JsonView>, r: Result<SportState, SleeperError>) -> bool {
    match doc {
        Some(d) => match r {
            Ok(x) => spec_sport_state_of(d) == Some(x.deep_view()),
            Err(e) => spec_sport_state_of(d) is None && is_deser_err(e, "SportState"@),
        },
        None => r matches Err(e) && is_deser_err(e, "SportState"@),
    }
}

/// Decodes a season-state response body.
pub fn decode_sport_state(text: &str) -> (r: Result<SportState, SleeperError>)
    ensures
        decode_sport_state_outcome(json_doc_of(text@), r),
{
    match parse_json(text) {
        Some(v) => match SportState::from_json(&v) {
            Some(x) => Ok(x),
            None => Err(SleeperError::DeserializationError(String::from_str("SportState"))),
        },
        None => Err(SleeperError::DeserializationError(String::from_str("SportState"))),
    }
}

/// The error text that a failed typed player-directory decode carries,
/// naming the aggregate map type for the sport.
pub open spec fn spec_players_err_name(sport: SleeperSport) -> Seq<char> {
    match sport {
        SleeperSport::NFL => "Error trying to deserialize from JSON raw string to HashMap<PlayerId, NflPlayer>"@,
        _ => "Error trying to deserialize from JSON raw string to HashMap<PlayerId, Value>"@,
    }
}

/// The outcome that decoding a player-directory body owes: text that is
/// not valid JSON fails at the text step; a valid document either decodes
/// for the requested sport or fails naming the aggregate map type.
pub open spec fn decode_all_players_outcome(
    sport: SleeperSport,
    doc: Option<JsonView>,
    r: Result<AllPlayers, SleeperError>,
) -> bool {
    match doc {
        Some(d) => match r {
            Ok(x) => spec_all_players_of(sport, d) == Some(x.deep_view()),
            Err(e) => spec_all_players_of(sport, d) is None && is_deser_err(
                e,
                spec_players_err_name(sport),
            ),
        },
        None => r matches Err(e) && is_deser_err(e, "String"@),
    }
}

/// Decodes a player-directory body for the sport the caller asked for.
/// A bad entry fails the whole directory; no partial map is returned.
pub fn decode_all_players(sport: SleeperSport, text: &str) -> (r: Result<
    AllPlayers,
    SleeperError,
>)
    ensures
        decode_all_players_outcome(sport, json_doc_of(text@), r),
{
    match parse_json(text) {
        Some(v) => match AllPlayers::from_json(sport, &v) {
            Some(x) => Ok(x),
            None => match sport {
                SleeperSport::NFL => Err(
                    SleeperError::DeserializationError(
                        String::from_str(
                            "Error trying to deserialize from JSON raw string to HashMap<PlayerId, NflPlayer>",
                        ),
                    ),
                ),
                _ => Err(
                    SleeperError::DeserializationError(
                        String::from_str(
                            "Error trying to deserialize from JSON raw string to HashMap<PlayerId, Value>",
                        ),
                    ),
                ),
            },
        },
        None => Err(SleeperError::DeserializationError(String::from_str("String"))),
    }
}

/// The outcome that the untyped player-directory decode owes: the decoded
/// top-level JSON value exactly when the text is valid JSON, and otherwise
/// the shape error from the text step.
pub open spec fn decode_all_players_unparsed_outcome(
    doc: Option<JsonView>,
    r: Result<JsonValue, SleeperError>,
) -> bool {
    match doc {
        Some(d) => r matches Ok(v) && v.deep_view() == d,
        None => r matches Err(e) && is_deser_err(e, "String"@),
    }
}

/// Decodes a player-directory body with no per-player typing at all: the
/// top-level JSON value as decoded, for callers that defer typing.
pub fn decode_all_players_unparsed(text: &str) -> (r: Result<JsonValue, SleeperError>)
    ensures
        decode_all_players_unparsed_outcome(json_doc_of(text@), r),
{
    match parse_json(text) {
        Some(v) => Ok(v),
        None => Err(SleeperError::DeserializationError(String::from_str("String"))),
    }
}

/// What one transport exchange produced: a failure, with the status code
/// the transport observed if it observed one, or the response body as
/// text.
#[derive(Debug, PartialEq, Eq)]
pub enum FetchOutcome {
    Failure(Option<u16>),
    Body(String),
}

/// Turns one league-endpoint exchange into the operation's result. A
/// transport failure short-circuits with `NetworkError` carrying exactly
/// the observed status, whatever it was; a body is decoded.
pub fn league_from_response(resp: &FetchOutcome) -> (r: Result<League, SleeperError>)
    ensures
        match resp {
            FetchOutcome::Failure(status) => r == Err::<League, SleeperError>(
                SleeperError::NetworkError(*status),
            ),
            FetchOutcome::Body(text) => decode_league_outcome(json_doc_of(text@), r),
        },
{
    match resp {
        FetchOutcome::Failure(status) => Err(SleeperError::NetworkError(*status)),
        FetchOutcome::Body(text) => decode_league(text.as_str()),
    }
}

/// Turns one rosters-endpoint exchange into the operation's result. A
/// transport failure short-circuits with `NetworkError` carrying exactly
/// the observed status, whatever it was; a body is decoded.
pub fn rosters_from_response(resp: &FetchOutcome) -> (r: Result<Vec<Roster>, SleeperError>)
    ensures
        match resp {
            FetchOutcome::Failure(status) => r == Err::<Vec<Roster>, SleeperError>(
                SleeperError::NetworkError(*status),
            ),
            FetchOutcome::Body(text) => decode_rosters_outcome(json_doc_of(text@), r),
        },
{
    match resp {
        FetchOutcome::Failure(status) => Err(SleeperError::NetworkError(*status)),
        FetchOutcome::Body(text) => decode_rosters(text.as_str()),
    }
}

/// Turns one members-endpoint exchange into the operation's result. A
/// transport failure short-circuits with `NetworkError` carrying exactly
/// the observed status, whatever it was; a body is decoded.
pub fn users_from_response(resp: &FetchOutcome) -> (r: Result<Vec<SleeperUser>, SleeperError>)
    ensures
        match resp {
            FetchOutcome::Failure(status) => r == Err::<Vec<SleeperUser>, SleeperError>(
                SleeperError::NetworkError(*status),
            ),
            FetchOutcome::Body(text) => decode_users_outcome(json_doc_of(text@), r),
        },
{
    match resp {
        FetchOutcome::Failure(status) => Err(SleeperError::NetworkError(*status)),
        FetchOutcome::Body(text) => decode_users(text.as_str()),
    }
}

/// Turns one matchups-endpoint exchange into the operation's result. A
/// transport failure short-circuits with `NetworkError` carrying exactly
/// the observed status, whatever it was; a body is decoded.
pub fn matchups_from_response(resp: &FetchOutcome) -> (r: Result<Vec<Matchup>, SleeperError>)
    ensures
        match resp {
            FetchOutcome::Failure(status) => r == Err::<Vec<Matchup>, SleeperError>(
                SleeperError::NetworkError(*status),
            ),
            FetchOutcome::Body(text) => decode_matchups_outcome(json_doc_of(text@), r),
        },
{
    match resp {
        FetchOutcome::Failure(status) => Err(SleeperError::NetworkError(*status)),
        FetchOutcome::Body(text) => decode_matchups(text.as_str()),
    }
}

/// Turns one season-state-endpoint exchange into the operation's result. A
/// transport failure short-circuits with `NetworkError` carrying exactly
/// the observed status, whatever it was; a body is decoded.
pub fn sport_state_from_response(resp: &FetchOutcome) -> (r: Result<SportState, SleeperError>)
    ensures
        match resp {
            FetchOutcome::Failure(status) => r == Err::<SportState, SleeperError>(
                SleeperError::NetworkError(*status),
            ),
            FetchOutcome::Body(text) => decode_sport_state_outcome(json_doc_of(text@), r),
        },
{
    match resp {
        FetchOutcome::Failure(status) => Err(SleeperError::NetworkError(*status)),
        FetchOutcome::Body(text) => decode_sport_state(text.as_str()),
    }
}

/// Turns one player-directory exchange into the operation's result,
/// dispatching the decode on the sport the caller asked for.
pub fn all_players_from_response(sport: SleeperSport, resp: &FetchOutcome) -> (r: Result<
    AllPlayers,
    SleeperError,
>)
    ensures
        match resp {
            FetchOutcome::Failure(status) => r == Err::<AllPlayers, SleeperError>(
                SleeperError::NetworkError(*status),
            ),
            FetchOutcome::Body(text) => decode_all_players_outcome(sport, json_doc_of(text@), r),
        },
{
    match resp {
        FetchOutcome::Failure(status) => Err(SleeperError::NetworkError(*status)),
        FetchOutcome::Body(text) => decode_all_players(sport, text.as_str()),
    }
}

/// Turns one player-directory exchange into the untyped result: the
/// decoded top-level JSON value, with no per-player typing.
pub fn all_players_unparsed_from_response(resp: &FetchOutcome) -> (r: Result<
    JsonValue,
    SleeperError,
>)
    ensures
        match resp {
            FetchOutcome::Failure(status) => r == Err::<JsonValue, SleeperError>(
                SleeperError::NetworkError(*status),
            ),
            FetchOutcome::Body(text) => decode_all_players_unparsed_outcome(
                json_doc_of(text@),
                r,
            ),
        },
{
    match resp {
        FetchOutcome::Failure(status) => Err(SleeperError::NetworkError(*status)),
        FetchOutcome::Body(text) => decode_all_players_unparsed(text.as_str()),
    }
}

/// Law: league decoding has no hidden state: any two results that one
/// parse outcome admits agree, as values on success and as the same
/// error name on failure.
pub proof fn lemma_league_decode_deterministic(
    doc: Option<JsonView>,
    r1: Result<League, SleeperError>,
    r2: Result<League, SleeperError>,
)
    requires
        decode_league_outcome(doc, r1),
        decode_league_outcome(doc, r2),
    ensures
        r1 is Ok <==> r2 is Ok,
        r1 matches Ok(a) ==> (r2 matches Ok(b) && a.deep_view() == b.deep_view()),
        r1 matches Err(e1) ==> is_deser_err(e1, "League"@),
        r2 matches Err(e2) ==> is_deser_err(e2, "League"@),
{
}

/// Law: roster-list decoding has no hidden state: any two results that one
/// parse outcome admits agree, as values on success and as the same
/// error name on failure.
pub proof fn lemma_rosters_decode_deterministic(
    doc: Option<JsonView>,
    r1: Result<Vec<Roster>, SleeperError>,
    r2: Result<Vec<Roster>, SleeperError>,
)
    requires
        decode_rosters_outcome(doc, r1),
        decode_rosters_outcome(doc, r2),
    ensures
        r1 is Ok <==> r2 is Ok,
        r1 matches Ok(a) ==> (r2 matches Ok(b) && a.deep_view() == b.deep_view()),
        r1 matches Err(e1) ==> is_deser_err(e1, "Roster"@),
        r2 matches Err(e2) ==> is_deser_err(e2, "Roster"@),
{
}

/// Law: member-list decoding has no hidden state: any two results that one
/// parse outcome admits agree, as values on success and as the same
/// error name on failure.
pub proof fn lemma_users_decode_deterministic(
    doc: Option<JsonView>,
    r1: Result<Vec<SleeperUser>, SleeperError>,
    r2: Result<Vec<SleeperUser>, SleeperError>,
)
    requires
        decode_users_outcome(doc, r1),
        decode_users_outcome(doc, r2),
    ensures
        r1 is Ok <==> r2 is Ok,
        r1 matches Ok(a) ==> (r2 matches Ok(b) && a.deep_view() == b.deep_view()),
        r1 matches Err(e1) ==> is_deser_err(e1, "SleeperUser"@),
        r2 matches Err(e2) ==> is_deser_err(e2, "SleeperUser"@),
{
}

/// Law: matchup-list decoding has no hidden state: any two results that one
/// parse outcome admits agree, as values on success and as the same
/// error name on failure.
pub proof fn lemma_matchups_decode_deterministic(
    doc: Option<JsonView>,
    r1: Result<Vec<Matchup>, SleeperError>,
    r2: Result<Vec<Matchup>, SleeperError>,
)
    requires
        decode_matchups_outcome(doc, r1),
        decode_matchups_outcome(doc, r2),
    ensures
        r1 is Ok <==> r2 is Ok,
        r1 matches Ok(a) ==> (r2 matches Ok(b) && a.deep_view() == b.deep_view()),
        r1 matches Err(e1) ==> is_deser_err(e1, "Matchup"@),
        r2 matches Err(e2) ==> is_deser_err(e2, "Matchup"@),
{
}

/// Law: season-state decoding has no hidden state: any two results that one
/// parse outcome admits agree, as values on success and as the same
/// error name on failure.
pub proof fn lemma_sport_state_decode_deterministic(
    doc: Option<JsonView>,
    r1: Result<SportState, SleeperError>,
    r2: Result<SportState, SleeperError>,
)
    requires
        decode_sport_state_outcome(doc, r1),
        decode_sport_state_outcome(doc, r2),
    ensures
        r1 is Ok <==> r2 is Ok,
        r1 matches Ok(a) ==> (r2 matches Ok(b) && a.deep_view() == b.deep_view()),
        r1 matches Err(e1) ==> is_deser_err(e1, "SportState"@),
        r2 matches Err(e2) ==> is_deser_err(e2, "SportState"@),
{
}

/// Law: the untyped player-directory decode has no hidden state: any two
/// results that one parse outcome admits agree at the view level.
pub proof fn lemma_all_players_unparsed_deterministic(
    doc: Option<JsonView>,
    r1: Result<JsonValue, SleeperError>,
    r2: Result<JsonValue, SleeperError>,
)
    requires
        decode_all_players_unparsed_outcome(doc, r1),
        decode_all_players_unparsed_outcome(doc, r2),
    ensures
        r1 is Ok <==> r2 is Ok,
        r1 matches Ok(a) ==> (r2 matches Ok(b) && a.deep_view() == b.deep_view()),
        r1 matches Err(e1) ==> is_deser_err(e1, "String"@),
        r2 matches Err(e2) ==> is_deser_err(e2, "String"@),
{
}

/// Law: player-directory decoding has no hidden state: any two results
/// that one parse outcome admits agree, as values on success and as the
/// same error name on failure.
pub proof fn lemma_all_players_decode_deterministic(
    sport: SleeperSport,
    doc: Option<JsonView>,
    r1: Result<AllPlayers, SleeperError>,
    r2: Result<AllPlayers, SleeperError>,
)
    requires
        decode_all_players_outcome(sport, doc, r1),
        decode_all_players_outcome(sport, doc, r2),
    ensures
        r1 is Ok <==> r2 is Ok,
        r1 matches Ok(a) ==> (r2 matches Ok(b) && a.deep_view() == b.deep_view()),
{
}

} // verus!
