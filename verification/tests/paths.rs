use profile_import::location::Location;
use profile_import::paths::{
    base_dir, base_dir_kind, find_paths, r2modman_dir, thunderstore_dir, BaseDir, EnvironmentFatal,
};
use std::path::PathBuf;

fn names(location: &Location) -> Vec<&str> {
    location.segments.iter().map(|segment| segment.as_str()).collect()
}

#[test]
fn base_dir_kind_is_the_config_root_on_linux_only() {
    assert_eq!(base_dir_kind(true), BaseDir::Config);
    assert_eq!(base_dir_kind(false), BaseDir::Data);
}

#[test]
fn base_dir_is_what_the_platform_reports() {
    assert_eq!(base_dir(BaseDir::Config), dirs_next::config_dir());
    assert_eq!(base_dir(BaseDir::Data), dirs_next::data_dir());
}

#[test]
fn manager_dirs_lie_in_the_base_dir() {
    let base = PathBuf::from("/home/alice/.config");
    let r2modman = r2modman_dir(&base);
    assert_eq!(r2modman.root, base);
    assert_eq!(names(&r2modman), vec!["r2modmanPlus-local"]);
    let thunderstore = thunderstore_dir(&base);
    assert_eq!(thunderstore.root, base);
    assert_eq!(names(&thunderstore), vec!["Thunderstore Mod Manager", "DataFolder"]);
}

#[test]
fn find_paths_fails_without_a_base_dir() {
    assert_eq!(find_paths(None, true, true), Err(EnvironmentFatal));
    assert_eq!(find_paths(None, false, false), Err(EnvironmentFatal));
}

#[test]
fn find_paths_gives_both_dirs_where_both_exist() {
    let base = PathBuf::from("/base");
    let found = find_paths(Some(base.clone()), true, true).unwrap();
    assert_eq!(found.r2modman, Some(r2modman_dir(&base)));
    assert_eq!(found.thunderstore, Some(thunderstore_dir(&base)));
}

#[test]
fn find_paths_leaves_out_a_dir_that_does_not_exist() {
    let base = PathBuf::from("/base");
    let found = find_paths(Some(base.clone()), true, false).unwrap();
    assert_eq!(found.r2modman, Some(r2modman_dir(&base)));
    assert_eq!(found.thunderstore, None);

    let found = find_paths(Some(base.clone()), false, true).unwrap();
    assert_eq!(found.r2modman, None);
    assert_eq!(found.thunderstore, Some(thunderstore_dir(&base)));

    let found = find_paths(Some(base), false, false).unwrap();
    assert_eq!(found.r2modman, None);
    assert_eq!(found.thunderstore, None);
}
