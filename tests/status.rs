use station_api::error::{EnumKind, Error, ValueKind};
use station_api::status::{
    decode, set_field, status_from_response, GameState, SecurityLevel, ShuttleMode, Status,
};
use station_api::topic::Response;

#[test]
fn decodes_version_respawn_admins() {
    let status = decode("version=X&respawn=1&admins=3").unwrap();
    let mut expected = Status::new();
    expected.version = "X".to_string();
    expected.respawn = true;
    expected.admins = 3;
    assert_eq!(status, expected);
}

#[test]
fn zero_record_defaults() {
    let s = Status::new();
    assert_eq!(s.version, "");
    assert!(!s.respawn);
    assert_eq!(s.round_id, 0);
    assert_eq!(s.gamestate, GameState::Startup);
    assert_eq!(s.security_level, SecurityLevel::Green);
    assert_eq!(s.shuttle_mode, ShuttleMode::Idle);
    assert_eq!(s.time_dilation_current, None);
}

#[test]
fn empty_text_is_zero_record() {
    assert_eq!(decode(""), Ok(Status::new()));
}

#[test]
fn endgame_shuttle_matches_encoded_literal() {
    let status = decode("shuttle_mode=endgame%3a+game+over").unwrap();
    assert_eq!(status.shuttle_mode, ShuttleMode::Endgame);
}

#[test]
fn unknown_shuttle_mode_fails() {
    assert_eq!(
        decode("shuttle_mode=foo"),
        Err(Error::EnumConversionFailed(EnumKind::ShuttleMode, "foo".to_string()))
    );
}

#[test]
fn decoded_endgame_text_is_not_accepted() {
    assert!(matches!(
        decode("shuttle_mode=endgame: game over"),
        Err(Error::EnumConversionFailed(EnumKind::ShuttleMode, _))
    ));
}

#[test]
fn game_states_by_number() {
    let cases = [
        ("0", GameState::Startup),
        ("1", GameState::Pregame),
        ("2", GameState::SettingUp),
        ("3", GameState::Playing),
        ("4", GameState::Finished),
    ];
    for (text, state) in cases {
        assert_eq!(GameState::from_str(text), Ok(state));
    }
    assert_eq!(
        GameState::from_str("5"),
        Err(Error::EnumConversionFailed(EnumKind::GameState, "5".to_string()))
    );
}

#[test]
fn security_levels_by_name() {
    assert_eq!(SecurityLevel::from_str("green"), Ok(SecurityLevel::Green));
    assert_eq!(SecurityLevel::from_str("blue"), Ok(SecurityLevel::Blue));
    assert_eq!(SecurityLevel::from_str("red"), Ok(SecurityLevel::Red));
    assert_eq!(SecurityLevel::from_str("delta"), Ok(SecurityLevel::Delta));
    assert_eq!(
        decode("security_level=Red"),
        Err(Error::EnumConversionFailed(EnumKind::SecurityLevel, "Red".to_string()))
    );
}

#[test]
fn all_shuttle_names() {
    let cases = [
        ("idle", ShuttleMode::Idle),
        ("igniting", ShuttleMode::Igniting),
        ("recallled", ShuttleMode::Recallled),
        ("called", ShuttleMode::Called),
        ("docked", ShuttleMode::Docked),
        ("stranded", ShuttleMode::Stranded),
        ("disabled", ShuttleMode::Disabled),
        ("escape", ShuttleMode::Escape),
        ("recharging", ShuttleMode::Recharging),
        ("landing", ShuttleMode::Landing),
    ];
    for (text, mode) in cases {
        assert_eq!(ShuttleMode::from_str(text), Ok(mode));
    }
}

#[test]
fn bad_counter_names_key_and_value() {
    assert_eq!(
        decode("version=1&players=abc&admins=2"),
        Err(Error::FieldParseFailed("players".to_string(), "abc".to_string(), ValueKind::Integer))
    );
}

#[test]
fn counter_parse_rules() {
    assert_eq!(decode("players=+5").unwrap().players, 5);
    assert_eq!(decode("players=4294967295").unwrap().players, u32::MAX);
    assert!(decode("players=4294967296").is_err());
    assert!(decode("players=-1").is_err());
    assert!(decode("players= 1").is_err());
}

#[test]
fn key_without_equals_has_empty_value() {
    assert_eq!(decode("hub").unwrap().hub, false);
    assert_eq!(
        decode("players"),
        Err(Error::FieldParseFailed("players".to_string(), String::new(), ValueKind::Integer))
    );
}

#[test]
fn value_splits_on_first_equals_only() {
    assert_eq!(decode("version=a=b").unwrap().version, "a=b");
}

#[test]
fn unknown_keys_are_ignored() {
    let status = decode("foo=bar&round_id=42&=x&&").unwrap();
    let mut expected = Status::new();
    expected.round_id = 42;
    assert_eq!(status, expected);
}

#[test]
fn flags_are_true_only_for_one() {
    let status = decode("respawn=1&enter=true&ai=0&popcap=1&bunkered=11").unwrap();
    assert!(status.respawn);
    assert!(!status.enter);
    assert!(!status.ai);
    assert!(status.popcap);
    assert!(!status.bunkered);
}

#[test]
fn map_name_plus_becomes_space() {
    assert_eq!(decode("map_name=Box+Station+2").unwrap().map_name, "Box Station 2");
    assert_eq!(decode("host=a+b").unwrap().host, "a+b");
}

#[test]
fn time_dilation_kept_as_sent() {
    let s = decode("time_dilation_current=1.5&time_dilation_avg_fast=0").unwrap();
    assert_eq!(s.time_dilation_current, Some("1.5".to_string()));
    assert_eq!(s.time_dilation_avg_fast, Some("0".to_string()));
    assert_eq!(s.time_dilation_avg, None);
}

#[test]
fn later_value_wins() {
    assert_eq!(decode("round_id=1&round_id=2").unwrap().round_id, 2);
}

#[test]
fn full_status_text() {
    let text = "version=/tg/Station+13&respawn=0&enter=1&ai=1&host=&round_id=1234&players=57\
                &revision=abc123&revision_date=2024-01-01&hub=1&identifier=1&admins=2&gamestate=3\
                &map_name=Meta+Station&security_level=blue&round_duration=3600\
                &time_dilation_current=3.2&soft_popcap=80&hard_popcap=100&extreme_popcap=120\
                &popcap=0&bunkered=0&interviews=1&shuttle_mode=docked&shuttle_timer=90\
                &public_address=play.example.org:3131";
    let s = decode(text).unwrap();
    assert_eq!(s.version, "/tg/Station+13");
    assert!(s.enter && s.ai && s.hub && s.identifier && s.interviews);
    assert_eq!(s.round_id, 1234);
    assert_eq!(s.players, 57);
    assert_eq!(s.revision_data, "2024-01-01");
    assert_eq!(s.gamestate, GameState::Playing);
    assert_eq!(s.map_name, "Meta Station");
    assert_eq!(s.security_level, SecurityLevel::Blue);
    assert_eq!(s.round_duration, 3600);
    assert_eq!((s.soft_popcap, s.hard_popcap, s.extreme_popcap), (80, 100, 120));
    assert_eq!(s.shuttle_mode, ShuttleMode::Docked);
    assert_eq!(s.shuttle_timer, 90);
    assert_eq!(s.public_address, "play.example.org:3131");
}

#[test]
fn set_field_single_pair() {
    let mut s = Status::new();
    assert_eq!(set_field(&mut s, "admins", "7"), Ok(()));
    assert_eq!(s.admins, 7);
    assert_eq!(set_field(&mut s, "nothing", "7"), Ok(()));
    assert_eq!(s.admins, 7);
}

#[test]
fn only_text_replies_carry_a_status() {
    assert_eq!(
        status_from_response(Response::Null),
        Err(Error::UnexpectedResponse(Response::Null))
    );
    assert_eq!(
        status_from_response(Response::Float(0)),
        Err(Error::UnexpectedResponse(Response::Float(0)))
    );
    assert_eq!(
        status_from_response(Response::String("players=3".to_string())).unwrap().players,
        3
    );
}
