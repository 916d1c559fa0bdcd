use profile_import::location::Location;
use std::path::PathBuf;

#[test]
fn new_location_is_the_root_itself() {
    let location = Location::new(PathBuf::from("/data"));
    assert_eq!(location.root, PathBuf::from("/data"));
    assert!(location.segments.is_empty());
}

#[test]
fn join_appends_a_segment_and_keeps_the_root() {
    let root = Location::new(PathBuf::from("/data"));
    let game = root.join("RiskOfRain2");
    let profiles = game.join("profiles");
    assert_eq!(profiles.root, PathBuf::from("/data"));
    assert_eq!(profiles.segments, vec!["RiskOfRain2".to_string(), "profiles".to_string()]);
    assert_eq!(game.segments, vec!["RiskOfRain2".to_string()]);
    assert!(root.segments.is_empty());
}

#[test]
fn name_is_the_last_segment() {
    let location = Location::new(PathBuf::from("/data")).join("profiles").join("Default");
    assert_eq!(location.name(), "Default");
    assert_eq!(location.join("mods.yml").name(), "mods.yml");
}

#[test]
fn duplicate_is_equal_to_its_source() {
    let location = Location::new(PathBuf::from("C:\\Users\\bob")).join("a b").join("c");
    assert_eq!(location.duplicate(), location);
}
