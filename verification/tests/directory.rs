use sleeper::client::{decode_all_players, decode_all_players_unparsed};
use sleeper::error::SleeperError;
use sleeper::json::{JsonNumber, JsonValue};
use sleeper::players::AllPlayers;
use sleeper::sport::SleeperSport;

fn player(id: &str, first: &str, last: &str) -> String {
    format!(
        r#""{}": {{"first_name": "{}", "last_name": "{}", "sport": "nfl", "active": true, "player_id": "{}"}}"#,
        id, first, last, id
    )
}

#[test]
fn nfl_directory_decodes_every_entry() {
    let body = format!("{{{}, {}}}", player("1", "Alpha", "One"), player("2", "Beta", "Two"));
    let decoded = decode_all_players(SleeperSport::NFL, &body).unwrap();
    match decoded {
        AllPlayers::NFL(map) => {
            assert_eq!(map.len(), 2);
            assert_eq!(map[0].0, "1");
            assert_eq!(map[0].1.first_name, "Alpha");
            assert_eq!(map[0].1.player_id, "1");
            assert_eq!(map[0].1.active, true);
            assert_eq!(map[0].1.team, None);
            assert_eq!(map[1].0, "2");
            assert_eq!(map[1].1.last_name, "Two");
        },
        _ => panic!("expected the typed directory"),
    }
}

#[test]
fn nfl_directory_reads_optional_player_fields() {
    let body = r#"{"42": {"first_name": "A", "last_name": "B", "sport": "nfl",
        "active": false, "player_id": "42", "age": 31, "team": "KC",
        "years_exp": -1, "yahoo_id": 12345, "injury_status": "pup",
        "fantasy_positions": ["QB", "TE"], "search_rank": 9999999,
        "metadata": {"extra": {"deep": [1, 2]}}}}"#;
    let decoded = decode_all_players(SleeperSport::NFL, body).unwrap();
    match decoded {
        AllPlayers::NFL(map) => {
            let p = &map[0].1;
            assert_eq!(p.age, Some(31));
            assert_eq!(p.team, Some("KC".to_string()));
            assert_eq!(p.years_exp, Some(-1));
            assert_eq!(p.yahoo_id, Some(12345));
            assert_eq!(p.injury_status, Some("pup".to_string()));
            assert_eq!(
                p.fantasy_positions,
                Some(vec!["QB".to_string(), "TE".to_string()])
            );
            assert_eq!(p.search_rank, Some(9999999));
            let meta = p.metadata.as_ref().unwrap();
            assert_eq!(meta.len(), 1);
            assert_eq!(meta[0].0, "extra");
        },
        _ => panic!("expected the typed directory"),
    }
}

#[test]
fn nfl_directory_fails_whole_when_one_entry_is_bad() {
    let bad = r#""2": {"first_name": "Beta", "sport": "nfl", "active": true, "player_id": "2"}"#;
    let body = format!("{{{}, {}}}", player("1", "Alpha", "One"), bad);
    let result = decode_all_players(SleeperSport::NFL, &body);
    assert_eq!(
        result,
        Err(SleeperError::DeserializationError(
            "Error trying to deserialize from JSON raw string to HashMap<PlayerId, NflPlayer>"
                .to_string()
        ))
    );
}

#[test]
fn secondary_sport_directory_preserves_entries_verbatim() {
    let body = r#"{"a": {"anything": [1, 2, {"x": null}]}, "b": "plain", "c": 7}"#;
    let decoded = decode_all_players(SleeperSport::LCS, body).unwrap();
    match decoded {
        AllPlayers::LCS(map) => {
            assert_eq!(map.len(), 3);
            assert_eq!(map[0].0, "a");
            assert_eq!(map[1].0, "b");
            assert_eq!(map[1].1, JsonValue::Str("plain".to_string()));
            assert_eq!(map[2].1, JsonValue::Num(JsonNumber::UInt(7)));
        },
        _ => panic!("expected the opaque directory"),
    }
    let nba = decode_all_players(SleeperSport::NBA, body).unwrap();
    assert!(matches!(nba, AllPlayers::NBA(m) if m.len() == 3));
}

#[test]
fn directory_decode_fails_on_malformed_text() {
    let result = decode_all_players(SleeperSport::LCS, "][");
    assert_eq!(
        result,
        Err(SleeperError::DeserializationError("String".to_string()))
    );
}

#[test]
fn directory_decode_rejects_a_non_object_document() {
    let result = decode_all_players(SleeperSport::LCS, "[1, 2, 3]");
    assert_eq!(
        result,
        Err(SleeperError::DeserializationError(
            "Error trying to deserialize from JSON raw string to HashMap<PlayerId, Value>"
                .to_string()
        ))
    );
}

#[test]
fn directory_decode_is_idempotent() {
    let body = format!("{{{}}}", player("9", "Gamma", "Nine"));
    let a = decode_all_players(SleeperSport::NFL, &body).unwrap();
    let b = decode_all_players(SleeperSport::NFL, &body).unwrap();
    assert_eq!(a, b);
}

#[test]
fn unparsed_directory_returns_the_decoded_document() {
    let body = r#"{"1": {"whatever": true}, "2": 7}"#;
    let result = decode_all_players_unparsed(body).unwrap();
    assert_eq!(
        result,
        JsonValue::Obj(vec![
            (
                "1".to_string(),
                JsonValue::Obj(vec![("whatever".to_string(), JsonValue::Bool(true))])
            ),
            ("2".to_string(), JsonValue::Num(JsonNumber::UInt(7))),
        ])
    );
}

#[test]
fn unparsed_directory_fails_on_malformed_text() {
    assert_eq!(
        decode_all_players_unparsed("{ not json"),
        Err(SleeperError::DeserializationError("String".to_string()))
    );
}
