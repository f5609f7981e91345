use rust_sc2::action::ActionResult;
use rust_sc2::parse::{enum_from_str, parse_i64, parse_u32, str_equal, ParseEnumError};
use rust_sc2::paths::{execute_info_dir, get_latest_base_version, get_version_info, to_forward_slashes};
use rust_sc2::player::{AIBuild, Difficulty, Race};

#[test]
fn parse_i64_follows_from_str() {
    assert_eq!(parse_i64("0"), Some(0));
    assert_eq!(parse_i64("-1000"), Some(-1000));
    assert_eq!(parse_i64("+42"), Some(42));
    assert_eq!(parse_i64("9223372036854775807"), Some(i64::MAX));
    assert_eq!(parse_i64("-9223372036854775808"), Some(i64::MIN));
    assert_eq!(parse_i64("9223372036854775808"), None);
    assert_eq!(parse_i64(""), None);
    assert_eq!(parse_i64("-"), None);
    assert_eq!(parse_i64("+"), None);
    assert_eq!(parse_i64("1a"), None);
    assert_eq!(parse_i64(" 1"), None);
}

#[test]
fn parse_u32_follows_from_str() {
    assert_eq!(parse_u32("4294967295"), Some(u32::MAX));
    assert_eq!(parse_u32("4294967296"), None);
    assert_eq!(parse_u32("-1"), None);
    assert_eq!(parse_u32("+7"), Some(7));
    assert_eq!(parse_u32("007"), Some(7));
}

#[test]
fn str_equal_compares_characters() {
    assert!(str_equal("Base", "Base"));
    assert!(!str_equal("Base", "Bas"));
    assert!(!str_equal("Base", "base"));
}

#[test]
fn enum_from_str_prefers_names_then_first_value() {
    let names = ["A", "B", "C"];
    let values = [5, 7, 5];
    assert_eq!(enum_from_str("B", &names, &values, true), Ok(1));
    assert_eq!(enum_from_str("5", &names, &values, true), Ok(0));
    assert_eq!(enum_from_str("5", &names, &values, false), Err(ParseEnumError));
    assert_eq!(enum_from_str("6", &names, &values, true), Err(ParseEnumError));
    assert_eq!(ParseEnumError.message(), "failed to parse enum");
}

#[test]
fn races_difficulties_and_builds_by_name() {
    assert_eq!(Race::from_name("Zerg"), Ok(Race::Zerg));
    assert!(Race::from_name("zerg").is_err());
    assert_eq!(Difficulty::from_name("CheatInsane"), Ok(Difficulty::CheatInsane));
    assert_eq!(Difficulty::from_name("3"), Ok(Difficulty::MediumHard));
    assert!(Difficulty::from_name("10").is_err());
    assert_eq!(Difficulty::from_index(0), Some(Difficulty::VeryEasy));
    assert_eq!(Difficulty::from_i64(-1), None);
    assert_eq!(AIBuild::from_name("Macro"), Ok(AIBuild::Macro));
    assert!(AIBuild::from_name("Nope").is_err());
    assert_eq!(AIBuild::default(), AIBuild::RandomBuild);
    assert_eq!(Race::default(), Race::Random);
}

#[test]
fn action_results_by_number() {
    assert_eq!(ActionResult::from_number(1), Some(ActionResult::Success));
    assert_eq!(ActionResult::from_number(2), Some(ActionResult::NotSupported));
    assert_eq!(ActionResult::from_number(214), Some(ActionResult::CantFindCancelOrder));
    assert_eq!(ActionResult::from_number(0), None);
    assert_eq!(ActionResult::from_number(215), None);
    assert!(ActionResult::Success.is_success());
    assert!(!ActionResult::Error.is_success());
}

#[test]
fn version_info_table() {
    assert_eq!(get_version_info("4.10"), (75689, "B89B5D6FA7CBF6452E721311BFBC6CB2"));
    assert_eq!(get_version_info("4.10.0"), (75689, "B89B5D6FA7CBF6452E721311BFBC6CB2"));
    assert_eq!(get_version_info("4.11.4"), (78285, "69493AFAB5C7B45DDB2F3442FD60F0CF"));
    assert_eq!(get_version_info("4.8"), (71061, "760581629FC458A1937A05ED8388725B"));
}

#[test]
fn latest_base_version_takes_the_largest_base_directory() {
    let entries = vec![
        ("Base75689".to_string(), true),
        ("Base81009".to_string(), true),
        ("Base99999".to_string(), false),
        ("Other1".to_string(), true),
        ("Base78285".to_string(), true),
    ];
    assert_eq!(get_latest_base_version(&entries), 81009);
}

#[test]
fn execute_info_gives_the_game_directory() {
    let contents = "executable = C:\\Program Files (x86)\\StarCraft II\\Versions\\Base81009\\SC2_x64.exe\n";
    let dir = execute_info_dir(contents);
    assert_eq!(dir.as_deref(), Some("C:\\Program Files (x86)\\StarCraft II"));
    assert_eq!(execute_info_dir("nothing here"), None);
    assert_eq!(to_forward_slashes("C:\\Program Files (x86)\\StarCraft II"), "C:/Program Files (x86)/StarCraft II");
}

#[test]
fn later_versions_have_later_bases_and_hex_hashes() {
    let order = ["4.8", "4.8.1", "4.8.6", "4.9", "4.9.3", "4.10", "4.10.4", "4.11", "4.11.4"];
    for w in order.windows(2) {
        assert!(get_version_info(w[0]).0 < get_version_info(w[1]).0);
    }
    for v in order {
        let hash = get_version_info(v).1;
        assert_eq!(hash.len(), 32);
        assert!(hash.chars().all(|c| c.is_ascii_digit() || ('A'..='F').contains(&c)));
    }
}
