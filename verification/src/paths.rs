//! Where the two source managers keep their data.

use vstd::prelude::*;
use crate::location::{Location, LocationView};
use crate::manager_data::ManagerData;

verus! {

/// `dirs_next::config_dir`: the user's configuration directory, or `None`
/// where the platform gives none. The answer comes from the environment, so
/// nothing is claimed of it.
pub assume_specification[ dirs_next::config_dir ]() -> (out: Option<std::path::PathBuf>)
;

/// `dirs_next::data_dir`: the user's data directory, or `None` where the
/// platform gives none. The answer comes from the environment, so nothing is
/// claimed of it.
pub assume_specification[ dirs_next::data_dir ]() -> (out: Option<std::path::PathBuf>)
;

/// The base directory could not be resolved on this machine.
#[derive(Debug, Clone, Copy, PartialEq, Eq)]
pub struct EnvironmentFatal;

/// Which of the user's directories holds the managers' folders.
#[derive(Debug, Clone, Copy, PartialEq, Eq)]
pub enum BaseDir {
    /// The configuration root, used on Linux.
    Config,
    /// The user data root, used everywhere else.
    Data,
}

/// r2modman's folder inside the base directory.
pub open spec fn r2modman_location(base: std::path::PathBuf) -> LocationView {
    LocationView { root: base, segments: seq!["r2modmanPlus-local"@] }
}

/// Thunderstore Mod Manager's folder inside the base directory.
pub open spec fn thunderstore_location(base: std::path::PathBuf) -> LocationView {
    LocationView { root: base, segments: seq!["Thunderstore Mod Manager"@, "DataFolder"@] }
}

/// The base directory's kind on a platform.
pub fn base_dir_kind(linux: bool) -> (out: BaseDir)
    ensures
        out == if linux { BaseDir::Config } else { BaseDir::Data },
{
    if linux {
        BaseDir::Config
    } else {
        BaseDir::Data
    }
}

/// Asks the platform for the base directory of the given kind.
pub fn base_dir(kind: BaseDir) -> (out: Option<std::path::PathBuf>) {
    match kind {
        BaseDir::Config => dirs_next::config_dir(),
        BaseDir::Data => dirs_next::data_dir(),
    }
}

/// Where r2modman's folder would be.
pub fn r2modman_dir(base: &std::path::PathBuf) -> (out: Location)
    ensures
        out@ == r2modman_location(*base),
{
    let out = Location::new(base.clone()).join("r2modmanPlus-local");
    assert(out@.segments =~= seq!["r2modmanPlus-local"@]);
    out
}

/// Where Thunderstore Mod Manager's folder would be.
pub fn thunderstore_dir(base: &std::path::PathBuf) -> (out: Location)
    ensures
        out@ == thunderstore_location(*base),
{
    let out = Location::new(base.clone()).join("Thunderstore Mod Manager").join("DataFolder");
    assert(out@.segments =~= seq!["Thunderstore Mod Manager"@, "DataFolder"@]);
    out
}

/// What `find_paths` returns for a resolved base directory.
pub open spec fn found_paths(
    base: std::path::PathBuf,
    r2modman_exists: bool,
    thunderstore_exists: bool,
    out: ManagerData<Location>,
) -> bool {
    &&& match out.r2modman {
        Some(dir) => r2modman_exists && dir@ == r2modman_location(base),
        None => !r2modman_exists,
    }
    &&& match out.thunderstore {
        Some(dir) => thunderstore_exists && dir@ == thunderstore_location(base),
        None => !thunderstore_exists,
    }
}

/// The data directories of the two source managers: each slot holds the
/// manager's folder if the caller found it on disk, and `None` if not. Fails
/// only where the platform has no base directory.
pub fn find_paths(
    base: Option<std::path::PathBuf>,
    r2modman_exists: bool,
    thunderstore_exists: bool,
) -> (out: Result<ManagerData<Location>, EnvironmentFatal>)
    ensures
        match base {
            Some(dir) => out matches Ok(found) && found_paths(
                dir,
                r2modman_exists,
                thunderstore_exists,
                found,
            ),
            None => out == Err::<ManagerData<Location>, EnvironmentFatal>(EnvironmentFatal),
        },
{
    match base {
        None => Err(EnvironmentFatal),
        Some(dir) => {
            let r2modman = if r2modman_exists {
                Some(r2modman_dir(&dir))
            } else {
                None
            };
            let thunderstore = if thunderstore_exists {
                Some(thunderstore_dir(&dir))
            } else {
                None
            };
            Ok(ManagerData::new(r2modman, thunderstore))
        },
    }
}

} // verus!
