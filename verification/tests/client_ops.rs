use sleeper::client::{
    all_players_from_response, all_players_unparsed_from_response, league_from_response,
    league_url, matchups_from_response, matchups_url, players_url, rosters_from_response,
    rosters_url, sport_state_from_response, state_url, u8_to_string, users_from_response,
    users_url, FetchOutcome,
};
use sleeper::client::{decode_matchups, decode_rosters, decode_sport_state, decode_users};
use sleeper::error::SleeperError;
use sleeper::json::parse_json;
use sleeper::roster::RosterSettings;
use sleeper::json::{JsonNumber, JsonValue};
use sleeper::sport::SleeperSport;

#[test]
fn urls_follow_the_fixed_endpoint_paths() {
    assert_eq!(league_url("123"), "https://api.sleeper.app/v1/league/123");
    assert_eq!(rosters_url("123"), "https://api.sleeper.app/v1/league/123/rosters");
    assert_eq!(users_url("123"), "https://api.sleeper.app/v1/league/123/users");
    assert_eq!(matchups_url("123", 5), "https://api.sleeper.app/v1/league/123/matchups/5");
    assert_eq!(matchups_url("9", 17), "https://api.sleeper.app/v1/league/9/matchups/17");
    assert_eq!(state_url(SleeperSport::NFL), "https://api.sleeper.app/v1/state/nfl");
    assert_eq!(state_url(SleeperSport::NBA), "https://api.sleeper.app/v1/state/nba");
    assert_eq!(players_url(SleeperSport::LCS), "https://api.sleeper.app/v1/players/lcs");
}

#[test]
fn week_numbers_render_in_plain_decimal() {
    assert_eq!(u8_to_string(0), "0");
    assert_eq!(u8_to_string(7), "7");
    assert_eq!(u8_to_string(10), "10");
    assert_eq!(u8_to_string(99), "99");
    assert_eq!(u8_to_string(100), "100");
    assert_eq!(u8_to_string(255), "255");
}

#[test]
fn transport_failure_with_status_becomes_network_error_everywhere() {
    let failed = FetchOutcome::Failure(Some(503));
    let expected = SleeperError::NetworkError(Some(503));
    assert_eq!(league_from_response(&failed), Err(expected.clone()));
    assert_eq!(rosters_from_response(&failed), Err(expected.clone()));
    assert_eq!(users_from_response(&failed), Err(expected.clone()));
    assert_eq!(matchups_from_response(&failed), Err(expected.clone()));
    assert_eq!(sport_state_from_response(&failed), Err(expected.clone()));
    assert_eq!(
        all_players_from_response(SleeperSport::NFL, &failed),
        Err(expected.clone())
    );
    assert_eq!(all_players_unparsed_from_response(&failed), Err(expected));
}

#[test]
fn transport_failure_without_status_keeps_the_absence() {
    let failed = FetchOutcome::Failure(None);
    assert_eq!(
        league_from_response(&failed),
        Err(SleeperError::NetworkError(None))
    );
}

#[test]
fn sport_state_decodes_every_field() {
    let body = r#"{"week": 5, "season_type": "regular", "season_start_date": "2023-09-07",
        "season": "2023", "previous_season": "2022", "leg": 5,
        "league_season": "2023", "league_create_season": "2023", "display_week": 6}"#;
    let state = decode_sport_state(body).unwrap();
    assert_eq!(state.week, 5);
    assert_eq!(state.display_week, 6);
    assert_eq!(state.season, "2023");
    assert_eq!(state.previous_season, "2022");
    assert_eq!(state.season_type, "regular");
    assert_eq!(state.season_start_date, "2023-09-07");
}

#[test]
fn sport_state_decode_fails_with_the_type_name() {
    assert_eq!(
        decode_sport_state(r#"{"week": 5}"#),
        Err(SleeperError::DeserializationError("SportState".to_string()))
    );
}

#[test]
fn rosters_decode_as_an_ordered_sequence() {
    let one = r#"{"taxi": null, "starters": ["11", "22"], "settings": {"wins": 3},
        "roster_id": 1, "reserve": null, "players": ["11", "22", "33"],
        "player_map": null, "owner_id": "owner-a", "metadata": {"p_nick_11": "Cheese"},
        "league_id": "999", "keepers": null, "co_owners": null}"#;
    let two = r#"{"taxi": [], "starters": ["44"], "settings": null,
        "roster_id": 2, "reserve": ["55"], "players": ["44", "55"],
        "player_map": null, "owner_id": "owner-b", "metadata": null,
        "league_id": "999", "keepers": null, "co_owners": ["x", "y"]}"#;
    let body = format!("[{}, {}]", one, two);
    let rosters = decode_rosters(&body).unwrap();
    assert_eq!(rosters.len(), 2);
    assert_eq!(rosters[0].roster_id, 1);
    assert_eq!(rosters[0].owner_id, "owner-a");
    assert_eq!(rosters[0].starters, vec!["11".to_string(), "22".to_string()]);
    assert_eq!(rosters[0].taxi, JsonValue::Null);
    assert_eq!(rosters[1].roster_id, 2);
    assert_eq!(rosters[1].co_owners, JsonValue::Arr(vec![
        JsonValue::Str("x".to_string()),
        JsonValue::Str("y".to_string()),
    ]));
    assert_eq!(rosters[1].league_id, "999");
}

#[test]
fn rosters_decode_fails_when_one_item_is_bad() {
    let good = r#"{"taxi": null, "starters": [], "settings": null, "roster_id": 1,
        "reserve": null, "players": [], "player_map": null, "owner_id": "o",
        "metadata": null, "league_id": "9", "keepers": null, "co_owners": null}"#;
    let body = format!("[{}, {{\"roster_id\": 2}}]", good);
    assert_eq!(
        decode_rosters(&body),
        Err(SleeperError::DeserializationError("Roster".to_string()))
    );
}

#[test]
fn users_decode_with_flags_and_metadata() {
    let body = r#"[{"user_id": "u1", "username": "alpha",
        "settings": null, "metadata": {"team_name": "The Team", "avatar": null},
        "is_owner": true, "is_bot": false, "league_id": "999",
        "display_name": "Alpha", "avatar": null}]"#;
    let users = decode_users(body).unwrap();
    assert_eq!(users.len(), 1);
    assert_eq!(users[0].user_id, "u1");
    assert_eq!(users[0].is_owner, true);
    assert_eq!(users[0].is_bot, false);
    assert_eq!(users[0].display_name, Some("Alpha".to_string()));
    assert_eq!(users[0].avatar, None);
    assert!(users[0]
        .metadata
        .contains(&("team_name".to_string(), Some("The Team".to_string()))));
}

#[test]
fn users_decode_fails_without_required_fields() {
    assert_eq!(
        decode_users(r#"[{"user_id": "u1"}]"#),
        Err(SleeperError::DeserializationError("SleeperUser".to_string()))
    );
}

#[test]
fn matchups_decode_with_parallel_point_sequences() {
    let body = r#"[{"starters_points": [12.5, 0, -2], "starters": ["a", "b", "c"],
        "roster_id": 3, "points": 10.5, "players_points": {"a": 12.5, "b": 0},
        "players": ["a", "b", "c", "d"], "matchup_id": 1, "custom_points": null}]"#;
    let matchups = decode_matchups(body).unwrap();
    assert_eq!(matchups.len(), 1);
    let m = &matchups[0];
    assert_eq!(m.roster_id, 3);
    assert_eq!(m.matchup_id, 1);
    assert_eq!(m.starters, vec!["a".to_string(), "b".to_string(), "c".to_string()]);
    assert_eq!(m.starters_points.len(), 3);
    assert_eq!(m.starters_points[0], JsonNumber::Dec("12.5".to_string()));
    assert_eq!(m.starters_points[1], JsonNumber::UInt(0));
    assert_eq!(m.starters_points[2], JsonNumber::Int(-2));
    assert_eq!(m.points, JsonNumber::Dec("10.5".to_string()));
    let pp = m.players_points.as_ref().unwrap();
    assert_eq!(pp.len(), 2);
    assert_eq!(m.custom_points, None);
}

#[test]
fn matchups_decode_fails_with_the_type_name() {
    assert_eq!(
        decode_matchups(r#"[{"matchup_id": 1}]"#),
        Err(SleeperError::DeserializationError("Matchup".to_string()))
    );
}

#[test]
fn body_responses_are_decoded() {
    let body = r#"{"week": 1, "season_type": "regular", "season_start_date": "2023-09-07",
        "season": "2023", "previous_season": "2022", "leg": 1,
        "league_season": "2023", "league_create_season": "2023", "display_week": 1}"#;
    let resp = FetchOutcome::Body(body.to_string());
    let state = sport_state_from_response(&resp).unwrap();
    assert_eq!(state.week, 1);
    let unparsed = all_players_unparsed_from_response(&FetchOutcome::Body("{}".to_string()));
    assert_eq!(unparsed, Ok(JsonValue::Obj(vec![])));
}

#[test]
fn roster_settings_decode_from_a_raw_substructure() {
    let raw = parse_json(
        r#"{"wins": 11, "waiver_position": 4, "waiver_budget_used": 35,
            "total_moves": 60, "ties": 0, "losses": 3, "fpts": 1510.3}"#,
    )
    .unwrap();
    let settings = RosterSettings::from_json(&raw).unwrap();
    assert_eq!(settings.wins, 11);
    assert_eq!(settings.waiver_position, 4);
    assert_eq!(settings.waiver_budget_used, 35);
    assert_eq!(settings.total_moves, 60);
    assert_eq!(settings.ties, 0);
    assert_eq!(settings.losses, 3);
    assert_eq!(settings.fpts, JsonNumber::Dec("1510.3".to_string()));
    assert_eq!(RosterSettings::from_json(&JsonValue::Null), None);
}
