use profile_import::discovery::{
    count_directories, find_profiles, gather_info, gather_slot, profile_names, profiles_dir,
    DirEntry, DirListing, DiscoveryError, ProfileImportData,
};
use profile_import::location::Location;
use profile_import::manager_data::ManagerData;
use std::path::PathBuf;

fn root() -> Location {
    Location::new(PathBuf::from("/managers/r2"))
}

fn dir(name: &str) -> Option<DirEntry> {
    Some(DirEntry { name: name.to_string(), is_dir: true })
}

fn file(name: &str) -> Option<DirEntry> {
    Some(DirEntry { name: name.to_string(), is_dir: false })
}

fn mixed() -> Vec<Option<DirEntry>> {
    vec![dir("Zeta"), file("notes.txt"), None, dir("Alpha"), file("Alpha.bak"), dir("Default")]
}

#[test]
fn profiles_dir_is_the_game_folder_then_profiles() {
    let found = profiles_dir(&root(), "Lethal Company");
    assert_eq!(found.root, PathBuf::from("/managers/r2"));
    assert_eq!(found.segments, vec!["Lethal Company".to_string(), "profiles".to_string()]);
}

#[test]
fn discovery_over_an_empty_directory_gives_an_empty_sequence() {
    let found = find_profiles(&root(), "Game", DirListing::Entries(Vec::new()));
    assert_eq!(found, Ok(Vec::new()));
}

#[test]
fn discovery_over_a_missing_directory_gives_not_found() {
    let found = find_profiles(&root(), "Game", DirListing::Missing);
    assert_eq!(found, Err(DiscoveryError::NotFound));
}

#[test]
fn discovery_over_an_unreadable_directory_gives_its_cause() {
    let listing = DirListing::Unreadable { cause: "permission denied".to_string() };
    let found = find_profiles(&root(), "Game", listing);
    assert_eq!(found, Err(DiscoveryError::Unreadable { cause: "permission denied".to_string() }));
}

#[test]
fn discovery_keeps_the_directories_in_listing_order() {
    let found = find_profiles(&root(), "Game", DirListing::Entries(mixed())).unwrap();
    let profiles = profiles_dir(&root(), "Game");
    assert_eq!(
        found,
        vec![profiles.join("Zeta"), profiles.join("Alpha"), profiles.join("Default")]
    );
}

#[test]
fn discovery_over_files_only_gives_an_empty_sequence() {
    let listing = DirListing::Entries(vec![file("a"), None, file("b")]);
    assert_eq!(find_profiles(&root(), "Game", listing), Ok(Vec::new()));
}

#[test]
fn profile_names_are_the_names_of_the_directories() {
    assert_eq!(profile_names(&mixed()), vec!["Zeta", "Alpha", "Default"]);
    assert_eq!(profile_names(&Vec::new()), Vec::<String>::new());
    assert_eq!(count_directories(&mixed()), 3);
    assert_eq!(count_directories(&vec![None, file("x")]), 0);
}

#[test]
fn gather_slot_offers_the_profiles_of_a_listed_directory() {
    let offered = gather_slot(root(), DirListing::Entries(mixed()));
    assert_eq!(
        offered,
        Some(ProfileImportData {
            path: root(),
            profiles: vec!["Zeta".to_string(), "Alpha".to_string(), "Default".to_string()],
        })
    );
    assert_eq!(gather_slot(root(), DirListing::Missing), None);
    assert_eq!(gather_slot(root(), DirListing::Unreadable { cause: "busy".to_string() }), None);
}

#[test]
fn gather_slot_offers_an_empty_list_for_an_empty_directory() {
    let offered = gather_slot(root(), DirListing::Entries(Vec::new()));
    assert_eq!(offered, Some(ProfileImportData { path: root(), profiles: Vec::new() }));
}

#[test]
fn gather_info_fills_the_slots_that_can_be_listed() {
    let thunderstore = Location::new(PathBuf::from("/managers/tmm")).join("DataFolder");
    let paths = ManagerData::new(Some(root()), Some(thunderstore));
    let out = gather_info(paths, DirListing::Entries(vec![dir("One")]), DirListing::Missing);
    assert_eq!(
        out.r2modman,
        Some(ProfileImportData { path: root(), profiles: vec!["One".to_string()] })
    );
    assert_eq!(out.thunderstore, None);
}

#[test]
fn gather_info_does_not_read_the_listing_of_an_absent_manager() {
    let paths = ManagerData::new(None, Some(root()));
    let out = gather_info(
        paths,
        DirListing::Entries(vec![dir("Ghost")]),
        DirListing::Entries(vec![dir("Real"), file("x")]),
    );
    assert_eq!(out.r2modman, None);
    assert_eq!(
        out.thunderstore,
        Some(ProfileImportData { path: root(), profiles: vec!["Real".to_string()] })
    );
}
