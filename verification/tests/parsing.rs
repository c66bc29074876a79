use sleeper::error::SleeperError;
use sleeper::injury::InjuryStatus;
use sleeper::json::{JsonNumber, JsonValue};
use sleeper::league::RosterPosition;
use sleeper::sport::SleeperSport;

#[test]
fn sport_parse_accepts_any_letter_case() {
    assert_eq!(SleeperSport::from_str("nfl"), Ok(SleeperSport::NFL));
    assert_eq!(SleeperSport::from_str("NFL"), Ok(SleeperSport::NFL));
    assert_eq!(SleeperSport::from_str("nFl"), Ok(SleeperSport::NFL));
    assert_eq!(SleeperSport::from_str("nba"), Ok(SleeperSport::NBA));
    assert_eq!(SleeperSport::from_str("NbA"), Ok(SleeperSport::NBA));
    assert_eq!(SleeperSport::from_str("lcs"), Ok(SleeperSport::LCS));
    assert_eq!(SleeperSport::from_str("LCS"), Ok(SleeperSport::LCS));
}

#[test]
fn sport_parse_then_render_gives_canonical_code() {
    for raw in ["NFL", "nfl", "nFl", "NBA", "nba", "LCS", "lCs"] {
        let sport = SleeperSport::from_str(raw).unwrap();
        assert_eq!(sport.to_string(), raw.to_lowercase());
    }
}

#[test]
fn sport_parse_rejects_unknown_tags_with_the_original_string() {
    assert_eq!(
        SleeperSport::from_str("curling"),
        Err(SleeperError::InvalidSport("curling".to_string()))
    );
    assert_eq!(
        SleeperSport::from_str("NHL"),
        Err(SleeperError::InvalidSport("NHL".to_string()))
    );
    assert_eq!(
        SleeperSport::from_str(""),
        Err(SleeperError::InvalidSport("".to_string()))
    );
}

#[test]
fn sport_render_then_parse_returns_the_same_sport() {
    for sport in [SleeperSport::NFL, SleeperSport::NBA, SleeperSport::LCS] {
        assert_eq!(SleeperSport::from_str(&sport.to_string()), Ok(sport));
    }
}

#[test]
fn injury_parse_matches_the_fixed_code_table() {
    assert_eq!(InjuryStatus::from_str("questionable"), Ok(InjuryStatus::Questionable));
    assert_eq!(InjuryStatus::from_str("Questionable"), Ok(InjuryStatus::Questionable));
    assert_eq!(InjuryStatus::from_str("cov"), Ok(InjuryStatus::Covid));
    assert_eq!(InjuryStatus::from_str("COV"), Ok(InjuryStatus::Covid));
    assert_eq!(InjuryStatus::from_str("ir"), Ok(InjuryStatus::InjuredReserve));
    assert_eq!(InjuryStatus::from_str("IR"), Ok(InjuryStatus::InjuredReserve));
    assert_eq!(InjuryStatus::from_str("na"), Ok(InjuryStatus::NotActive));
    assert_eq!(InjuryStatus::from_str("NA"), Ok(InjuryStatus::NotActive));
    assert_eq!(InjuryStatus::from_str("pup"), Ok(InjuryStatus::PUP));
    assert_eq!(InjuryStatus::from_str("PUP"), Ok(InjuryStatus::PUP));
    assert_eq!(InjuryStatus::from_str("sus"), Ok(InjuryStatus::Suspended));
    assert_eq!(InjuryStatus::from_str("Sus"), Ok(InjuryStatus::Suspended));
}

#[test]
fn injury_parse_rejects_unmapped_codes_with_the_code() {
    assert_eq!(
        InjuryStatus::from_str("doubtful"),
        Err(SleeperError::InvalidInjuryStatus("doubtful".to_string()))
    );
    assert_eq!(
        InjuryStatus::from_str(""),
        Err(SleeperError::InvalidInjuryStatus("".to_string()))
    );
}

#[test]
fn injury_no_code_maps_to_out() {
    assert_eq!(
        InjuryStatus::from_str("out"),
        Err(SleeperError::InvalidInjuryStatus("out".to_string()))
    );
    assert_eq!(
        InjuryStatus::from_str("Out"),
        Err(SleeperError::InvalidInjuryStatus("Out".to_string()))
    );
}

#[test]
fn injury_from_json_reads_null_as_healthy() {
    assert_eq!(InjuryStatus::from_json(&JsonValue::Null), Ok(InjuryStatus::Healthy));
}

#[test]
fn injury_from_json_reads_strings_as_codes() {
    assert_eq!(
        InjuryStatus::from_json(&JsonValue::Str("pup".to_string())),
        Ok(InjuryStatus::PUP)
    );
    assert_eq!(
        InjuryStatus::from_json(&JsonValue::Str("nope".to_string())),
        Err(SleeperError::InvalidInjuryStatus("nope".to_string()))
    );
}

#[test]
fn injury_from_json_rejects_other_shapes_with_the_sentinel() {
    for node in [
        JsonValue::Bool(true),
        JsonValue::Num(JsonNumber::UInt(3)),
        JsonValue::Arr(vec![]),
        JsonValue::Obj(vec![]),
    ] {
        assert_eq!(
            InjuryStatus::from_json(&node),
            Err(SleeperError::InvalidInjuryStatus("{ an object }".to_string()))
        );
    }
}

#[test]
fn injury_from_opt_string_treats_absence_as_healthy() {
    assert_eq!(InjuryStatus::from_opt_string(None), Ok(InjuryStatus::Healthy));
    assert_eq!(
        InjuryStatus::from_opt_string(Some("ir".to_string())),
        Ok(InjuryStatus::InjuredReserve)
    );
    assert_eq!(
        InjuryStatus::from_opt_string(Some("xyz".to_string())),
        Err(SleeperError::InvalidInjuryStatus("xyz".to_string()))
    );
}

#[test]
fn roster_position_codes_round_trip() {
    let all = [
        RosterPosition::QB,
        RosterPosition::RB,
        RosterPosition::WR,
        RosterPosition::TE,
        RosterPosition::FLEX,
        RosterPosition::K,
        RosterPosition::DEF,
        RosterPosition::BN,
        RosterPosition::IDP,
    ];
    for p in all {
        assert_eq!(RosterPosition::from_code(&p.code()), Some(p));
    }
    assert_eq!(RosterPosition::from_code(&"qb".to_string()), None);
    assert_eq!(RosterPosition::from_code(&"XX".to_string()), None);
}

#[test]
fn injury_labels_match_the_display_table() {
    assert_eq!(InjuryStatus::Healthy.label(), "Healthy");
    assert_eq!(InjuryStatus::InjuredReserve.label(), "Injured Reserve");
    assert_eq!(InjuryStatus::Covid.label(), "COVID-19");
    assert_eq!(InjuryStatus::NotActive.label(), "Inactive");
    assert_eq!(InjuryStatus::Out.label(), "Out");
    assert_eq!(InjuryStatus::PUP.label(), "PUP");
    assert_eq!(InjuryStatus::Questionable.label(), "Questionable");
    assert_eq!(InjuryStatus::Suspended.label(), "Suspended");
}

#[test]
fn error_messages_quote_the_rejected_string() {
    assert_eq!(
        SleeperError::InvalidSport("mlb".to_string()).describe(),
        "could parse String into SleeperSport: \"mlb\" was not a valid sport"
    );
    assert_eq!(
        SleeperError::InvalidInjuryStatus("dnr".to_string()).describe(),
        "could parse String into PlayerStatus: \"dnr\" was not a valid injury designation"
    );
    assert_eq!(
        SleeperError::DeserializationError("League".to_string()).describe(),
        "could not deserialize Sleeper response into provided type"
    );
    assert_eq!(
        SleeperError::NetworkError(Some(404)).describe(),
        "request to Sleeper failed"
    );
}
