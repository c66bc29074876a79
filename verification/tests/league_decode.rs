use sleeper::client::decode_league;
use sleeper::error::SleeperError;
use sleeper::json::JsonNumber;
use sleeper::league::{League, RosterPosition};

fn league_json() -> &'static str {
    r#"
        {
            "name": "League name",
            "status": "complete",
            "metadata": {
                "auto_continue": "on",
                "continued": "yes",
                "keeper_deadline": "0",
                "latest_league_winner_roster_id": "2"
            },
            "settings": {
                "best_ball": 0,
                "last_report": 14,
                "waiver_budget": 100,
                "disable_adds": 0,
                "capacity_override": 0,
                "taxi_deadline": 0,
                "draft_rounds": 3,
                "reserve_allow_na": 0,
                "start_week": 1,
                "playoff_seed_type": 0,
                "playoff_teams": 6,
                "veto_votes_needed": 5,
                "squads": 1,
                "num_teams": 10,
                "daily_waivers_hour": 0,
                "playoff_type": 0,
                "taxi_slots": 0,
                "last_scored_leg": 17,
                "daily_waivers_days": 1093,
                "playoff_week_start": 15,
                "waiver_clear_days": 2,
                "reserve_allow_doubtful": 0,
                "commissioner_direct_invite": 0,
                "veto_auto_poll": 0,
                "reserve_allow_dnr": 0,
                "taxi_allow_vets": 0,
                "waiver_day_of_week": 2,
                "playoff_round_type": 0,
                "reserve_allow_out": 1,
                "reserve_allow_sus": 0,
                "veto_show_votes": 0,
                "trade_deadline": 99,
                "taxi_years": 0,
                "daily_waivers": 0,
                "disable_trades": 0,
                "pick_trading": 1,
                "type": 1,
                "max_keepers": 3,
                "waiver_type": 0,
                "league_average_match": 0,
                "trade_review_days": 3,
                "bench_lock": 1,
                "offseason_adds": 1,
                "leg": 17,
                "reserve_slots": 1,
                "reserve_allow_cov": 1,
                "daily_waivers_last_ran": 27
            },
              "avatar": "aaaaaaaaaaaaaaaaaaaaaaaaaaaaaaaa",
              "company_id": null,
              "shard": 434,
              "season": "2023",
              "season_type": "regular",
              "sport": "nfl",
              "scoring_settings": {
                "sack": 1,
                "fgm_40_49": 4,
                "pass_int": -1,
                "pts_allow_0": 10,
                "pass_2pt": 2,
                "st_td": 6,
                "rec_td": 6,
                "fgm_30_39": 3,
                "xpmiss": 0,
                "rush_td": 6,
                "def_pr_td": 0,
                "rec_2pt": 2,
                "st_fum_rec": 2,
                "fgmiss": 0,
                "ff": 0,
                "rec": 0,
                "pts_allow_14_20": 1,
                "fgm_0_19": 3,
                "def_kr_td": 0,
                "int": 2,
                "def_st_fum_rec": 2,
                "fum_lost": -2,
                "pts_allow_1_6": 7,
                "fgm_20_29": 3,
                "pts_allow_21_27": 0,
                "xpm": 1,
                "rush_2pt": 2,
                "fum_rec": 2,
                "def_st_td": 6,
                "fgm_50p": 5,
                "def_td": 6,
                "safe": 2,
                "pass_yd": 0.03999999910593033,
                "blk_kick": 2,
                "pass_td": 4,
                "rush_yd": 0.10000000149011612,
                "fum": 0,
                "pts_allow_28_34": -1,
                "pts_allow_35p": -4,
                "fum_rec_td": 6,
                "rec_yd": 0.10000000149011612,
                "def_st_ff": 0,
                "pts_allow_7_13": 4,
                "st_ff": 0
              },
              "last_message_id": "1111111111111111111",
              "last_author_avatar": null,
              "last_author_display_name": "sys",
              "last_author_id": "666666666666666666",
              "last_author_is_bot": true,
              "last_message_attachment": null,
              "last_message_text_map": null,
              "last_message_time": 1704267066920,
              "last_pinned_message_id": "555555555555555555",
              "last_read_id": null,
              "draft_id": "888888888888888888",
              "league_id": "999999999999999999",
              "previous_league_id": "777777777777777777",
              "bracket_id": 1111111111111111111,
              "group_id": null,
              "roster_positions": [
                "QB",
                "RB",
                "RB",
                "WR",
                "WR",
                "WR",
                "TE",
                "FLEX",
                "FLEX",
                "K",
                "DEF",
                "BN",
                "BN",
                "BN",
                "BN",
                "BN",
                "BN",
                "BN"
              ],
              "loser_bracket_id": 1111111111111111111,
              "total_rosters": 10
        }"#
}

#[test]
fn test_deserialize_league_from_json_succeeds() {
    let result: Result<League, SleeperError> = decode_league(league_json());
    assert_eq!(result.is_ok(), true);
    let league = result.unwrap();
    assert_eq!(league.name, "League name");
    assert_eq!(league.status, "complete");
    assert_eq!(league.settings.best_ball, 0);
    assert_eq!(league.settings.last_report, 14);
    assert_eq!(league.settings.waiver_budget, 100);
    assert_eq!(league.settings.disable_adds, 0);
    assert_eq!(league.settings.capacity_override, 0);
    assert_eq!(league.settings.taxi_deadline, 0);
    assert_eq!(league.settings.draft_rounds, 3);
    assert_eq!(league.settings.reserve_allow_na, 0);
    assert_eq!(league.settings.start_week, 1);
    assert_eq!(league.settings.playoff_seed_type, 0);
    assert_eq!(league.settings.playoff_teams, 6);
    assert_eq!(league.settings.veto_votes_needed, 5);
    assert_eq!(league.settings.squads, 1);
    assert_eq!(league.settings.num_teams, 10);
    assert_eq!(league.settings.daily_waivers_hour, 0);
    assert_eq!(league.settings.playoff_type, 0);
    assert_eq!(league.avatar, "aaaaaaaaaaaaaaaaaaaaaaaaaaaaaaaa");
    assert_eq!(league.company_id, None);
    assert_eq!(league.shard, 434);
    assert_eq!(league.season, "2023");
    assert_eq!(league.season_type, "regular");
    assert_eq!(league.sport, "nfl");
    assert_eq!(league.scoring_settings.sack, JsonNumber::UInt(1));
    assert_eq!(league.scoring_settings.fgm_40_49, JsonNumber::UInt(4));
    assert_eq!(league.scoring_settings.pass_int, JsonNumber::Int(-1));
    assert_eq!(league.scoring_settings.pts_allow_0, JsonNumber::UInt(10));
    assert_eq!(league.scoring_settings.pass_2pt, JsonNumber::UInt(2));
    assert_eq!(league.scoring_settings.st_td, JsonNumber::UInt(6));
    assert_eq!(league.scoring_settings.rec_td, JsonNumber::UInt(6));
    assert_eq!(league.scoring_settings.fgm_30_39, JsonNumber::UInt(3));
    assert_eq!(league.scoring_settings.xpmiss, JsonNumber::UInt(0));
    assert_eq!(league.scoring_settings.rush_td, JsonNumber::UInt(6));
    assert_eq!(league.scoring_settings.def_pr_td, JsonNumber::UInt(0));
    assert_eq!(league.scoring_settings.rec_2pt, JsonNumber::UInt(2));
}

#[test]
fn test_deserialize_league_from_json_deserialization_error() {
    let json_str = r#"{ "invalid_field": null }"#;

    let result: Result<League, SleeperError> = decode_league(json_str);
    assert_eq!(result.is_err(), true);
}

#[test]
fn league_decode_reads_total_rosters_and_positions() {
    let league = decode_league(league_json()).unwrap();
    assert_eq!(league.total_rosters, 10);
    assert_eq!(
        league.roster_positions,
        vec![
            RosterPosition::QB,
            RosterPosition::RB,
            RosterPosition::RB,
            RosterPosition::WR,
            RosterPosition::WR,
            RosterPosition::WR,
            RosterPosition::TE,
            RosterPosition::FLEX,
            RosterPosition::FLEX,
            RosterPosition::K,
            RosterPosition::DEF,
            RosterPosition::BN,
            RosterPosition::BN,
            RosterPosition::BN,
            RosterPosition::BN,
            RosterPosition::BN,
            RosterPosition::BN,
            RosterPosition::BN,
        ]
    );
    assert_eq!(league.roster_positions.len(), 18);
    assert_eq!(league.last_message_time, 1704267066920);
    assert_eq!(league.loser_bracket_id, Some(1111111111111111111));
    assert_eq!(league.last_transation_id, None);
    assert_eq!(league.last_message_text_mape, None);
    assert_eq!(league.scoring_settings.pass_yd, JsonNumber::Dec("0.03999999910593033".to_string()));
    let metadata = league.metadata.unwrap();
    assert!(metadata.contains(&("auto_continue".to_string(), Some("on".to_string()))));
    assert_eq!(metadata.len(), 4);
}

#[test]
fn league_decode_fails_when_scalar_is_out_of_range() {
    let json_str = league_json().replace("\"total_rosters\": 10", "\"total_rosters\": 256");
    let result = decode_league(&json_str);
    assert_eq!(
        result,
        Err(SleeperError::DeserializationError("League".to_string()))
    );
}

#[test]
fn league_decode_fails_on_unknown_roster_position() {
    let json_str = league_json().replace("\"IDP\"", "\"IDP\"").replace("\"QB\",", "\"QQ\",");
    let result = decode_league(&json_str);
    assert!(matches!(result, Err(SleeperError::DeserializationError(_))));
}

#[test]
fn league_decode_is_idempotent() {
    let a = decode_league(league_json()).unwrap();
    let b = decode_league(league_json()).unwrap();
    assert_eq!(a, b);
}

#[test]
fn league_decode_fails_on_malformed_text() {
    let result = decode_league("{ not json");
    assert_eq!(
        result,
        Err(SleeperError::DeserializationError("League".to_string()))
    );
}
