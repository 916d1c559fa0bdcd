use profile_import::location::Location;
use profile_import::prepare::{
    descriptor_file, import_profile, prepare_import, Descriptor, ImportData, ImportSource,
    InstallOptions, PendingImport, Preparation, PrepareError, Removal,
};
use std::path::PathBuf;

fn profile_dir() -> Location {
    Location::new(PathBuf::from("/r2")).join("Game").join("profiles").join("Default")
}

fn mods() -> Vec<String> {
    vec!["bbepis-BepInExPack-5.4.2100".to_string(), "tristanmcpherson-R2API-5.0.5".to_string()]
}

fn pending() -> PendingImport<String> {
    PendingImport { name: "Default".to_string(), mods: mods(), profile_dir: profile_dir() }
}

#[test]
fn descriptor_file_is_mods_yml_in_the_profile_dir() {
    assert_eq!(descriptor_file(&profile_dir()), profile_dir().join("mods.yml"));
}

#[test]
fn profile_without_descriptor_is_skipped() {
    let out = prepare_import::<String>(profile_dir(), Descriptor::Missing);
    assert_eq!(out, Preparation::NoDescriptor);
}

#[test]
fn profile_with_empty_mod_list_is_skipped() {
    let out = prepare_import::<String>(profile_dir(), Descriptor::Parsed(Vec::new()));
    assert_eq!(out, Preparation::Empty);
}

#[test]
fn unreadable_descriptor_fails_the_profile() {
    let descriptor = Descriptor::Unreadable { cause: "is a directory".to_string() };
    let out = prepare_import::<String>(profile_dir(), descriptor);
    assert_eq!(
        out,
        Preparation::Failed(PrepareError::ReadFailed { cause: "is a directory".to_string() })
    );
}

#[test]
fn malformed_descriptor_fails_the_profile() {
    let descriptor = Descriptor::Malformed { cause: "expected a sequence".to_string() };
    let out = prepare_import::<String>(profile_dir(), descriptor);
    assert_eq!(
        out,
        Preparation::Failed(PrepareError::ParseFailure { cause: "expected a sequence".to_string() })
    );
}

#[test]
fn profile_with_mods_is_pending_under_its_directory_name() {
    let out = prepare_import(profile_dir(), Descriptor::Parsed(mods()));
    assert_eq!(out, Preparation::Pending(pending()));
}

#[test]
fn pending_import_becomes_a_request_when_nothing_is_in_the_way() {
    let expected = ImportData {
        name: "Default".to_string(),
        mods: mods(),
        extra_files: Vec::new(),
        source_root: profile_dir(),
        overwrite_flag: false,
        origin_tag: ImportSource::R2,
    };
    assert_eq!(pending().finish(Removal::NotPresent), Ok(expected));
}

#[test]
fn pending_import_becomes_a_request_after_the_old_profile_is_deleted() {
    let data = pending().finish(Removal::Deleted).unwrap();
    assert_eq!(data.name, "Default");
    assert_eq!(data.mods, mods());
    assert!(data.extra_files.is_empty());
    assert_eq!(data.source_root, profile_dir());
    assert!(!data.overwrite_flag);
    assert_eq!(data.origin_tag, ImportSource::R2);
}

#[test]
fn pending_import_fails_when_the_old_profile_cannot_be_deleted() {
    let out = pending().finish(Removal::Failed { cause: "in use".to_string() });
    assert_eq!(out, Err(PrepareError::DeleteExistingFailed { cause: "in use".to_string() }));
}

#[test]
fn import_profile_announces_nought_per_cent_and_fixes_the_options() {
    let data = pending().finish(Removal::NotPresent).unwrap();
    let start = import_profile(data);
    assert_eq!(start.update.topic, "transfer_update");
    assert_eq!(start.update.message, "Importing profile 'Default'... 0%");
    assert_eq!(start.options, InstallOptions { can_cancel: false, send_progress: false });
    assert_eq!(start.data, pending().finish(Removal::NotPresent).unwrap());
}
