//! Finding the profiles that a source manager keeps for a game.

use vstd::prelude::*;
use crate::location::{Location, LocationView, location_views};
use crate::manager_data::ManagerData;

verus! {

/// One entry of a directory, as the caller read it.
#[derive(Debug, PartialEq, Eq)]
pub struct DirEntry {
    pub name: String,
    pub is_dir: bool,
}

/// What the caller found when it listed a directory. An entry that could not
/// be read stands in the list as `None`.
#[derive(Debug, PartialEq, Eq)]
pub enum DirListing {
    Missing,
    Unreadable { cause: String },
    Entries(Vec<Option<DirEntry>>),
}

/// Why the profiles of a game could not be listed.
#[derive(Debug, PartialEq, Eq)]
pub enum DiscoveryError {
    NotFound,
    Unreadable { cause: String },
}

/// The profiles that one source manager holds for the active game.
#[derive(Debug, PartialEq, Eq)]
pub struct ProfileImportData {
    pub path: Location,
    pub profiles: Vec<String>,
}

/// A `ProfileImportData` with its strings as character sequences.
pub struct ProfileImportDataView {
    pub path: LocationView,
    pub profiles: Seq<Seq<char>>,
}

impl View for ProfileImportData {
    type V = ProfileImportDataView;

    open spec fn view(&self) -> ProfileImportDataView {
        ProfileImportDataView { path: self.path@, profiles: self.profiles.deep_view() }
    }
}

/// The directory that holds a game's profiles below a manager's data folder.
pub open spec fn profiles_location(root: LocationView, game_dir_name: Seq<char>) -> LocationView {
    root.join(game_dir_name).join("profiles"@)
}

/// The names of the entries that are directories, in the order of the
/// listing. Unreadable entries and entries of other kinds are left out.
pub open spec fn directory_names(entries: Seq<Option<DirEntry>>) -> Seq<Seq<char>>
    decreases entries.len(),
{
    if entries.len() == 0 {
        Seq::empty()
    } else {
        let earlier = directory_names(entries.drop_last());
        match entries.last() {
            Some(entry) => if entry.is_dir {
                earlier.push(entry.name@)
            } else {
                earlier
            },
            None => earlier,
        }
    }
}

/// Whether a listed entry is a directory that could be read.
pub open spec fn is_directory(entry: Option<DirEntry>) -> bool {
    entry matches Some(found) && found.is_dir
}

/// The entries of `dir` with the given names.
pub open spec fn children(dir: LocationView, names: Seq<Seq<char>>) -> Seq<LocationView> {
    Seq::new(names.len(), |i: int| dir.join(names[i]))
}

/// The profile directories that a listing of the profiles directory shows,
/// or the reason why there are none to show.
pub open spec fn discovered(
    root: LocationView,
    game_dir_name: Seq<char>,
    listing: DirListing,
) -> Result<Seq<LocationView>, DiscoveryError> {
    match listing {
        DirListing::Missing => Err(DiscoveryError::NotFound),
        DirListing::Unreadable { cause } => Err(DiscoveryError::Unreadable { cause }),
        DirListing::Entries(entries) => Ok(
            children(profiles_location(root, game_dir_name), directory_names(entries@)),
        ),
    }
}

/// An empty profiles directory holds no profile, and that is no error.
pub proof fn lemma_empty_directory_has_no_profiles(
    root: LocationView,
    game_dir_name: Seq<char>,
    entries: Vec<Option<DirEntry>>,
)
    requires
        entries@.len() == 0,
    ensures
        discovered(root, game_dir_name, DirListing::Entries(entries)) == Ok::<
            Seq<LocationView>,
            DiscoveryError,
        >(Seq::empty()),
{
    assert(children(profiles_location(root, game_dir_name), directory_names(entries@))
        =~= Seq::<LocationView>::empty());
}

/// The directory that holds the profiles of the game whose folder is
/// `game_dir_name`, below a manager's data folder.
pub fn profiles_dir(root: &Location, game_dir_name: &str) -> (out: Location)
    ensures
        out@ == profiles_location(root@, game_dir_name@),
{
    root.join(game_dir_name).join("profiles")
}

/// The profile directories of a game, in the order in which the directory
/// was read. `listing` is what the caller found at `profiles_dir`: a missing
/// directory gives `NotFound`, one that could not be read gives `Unreadable`,
/// and otherwise every entry that is a directory is a profile.
pub fn find_profiles(root: &Location, game_dir_name: &str, listing: DirListing) -> (out: Result<
    Vec<Location>,
    DiscoveryError,
>)
    ensures
        match discovered(root@, game_dir_name@, listing) {
            Ok(dirs) => out matches Ok(found) && location_views(found@) == dirs,
            Err(error) => out == Err::<Vec<Location>, DiscoveryError>(error),
        },
{
    match listing {
        DirListing::Missing => Err(DiscoveryError::NotFound),
        DirListing::Unreadable { cause } => Err(DiscoveryError::Unreadable { cause }),
        DirListing::Entries(entries) => {
            let dir = profiles_dir(root, game_dir_name);
            let mut found: Vec<Location> = Vec::new();
            let mut i: usize = 0;
            assert(entries@.take(0) =~= Seq::<Option<DirEntry>>::empty());
            while i < entries.len()
                invariant
                    i <= entries.len(),
                    location_views(found@) =~= children(dir@, directory_names(entries@.take(i as int))),
                decreases entries.len() - i,
            {
                let ghost before = found@;
                match &entries[i] {
                    Some(entry) => {
                        if entry.is_dir {
                            found.push(dir.join(entry.name.as_str()));
                        }
                    },
                    None => {},
                }
                proof {
                    let earlier = directory_names(entries@.take(i as int));
                    let shown = entries@.take(i + 1);
                    assert(shown.drop_last() =~= entries@.take(i as int));
                    assert(shown.last() == entries@[i as int]);
                    if is_directory(entries@[i as int]) {
                        let name = entries@[i as int].unwrap().name@;
                        assert(directory_names(shown) == earlier.push(name));
                        assert(location_views(before).len() == before.len());
                        assert(children(dir@, earlier).len() == earlier.len());
                        assert(found@.len() == before.len() + 1);
                        assert forall|j: int| 0 <= j < found@.len() implies location_views(
                            found@,
                        )[j] == children(dir@, earlier.push(name))[j] by {
                            if j < before.len() {
                                assert(found@[j] == before[j]);
                                assert(location_views(before)[j] == children(dir@, earlier)[j]);
                            } else {
                                assert(found@[j]@ == dir@.join(name));
                            }
                        }
                    } else {
                        assert(directory_names(shown) == earlier);
                    }
                }
                i += 1;
            }
            assert(entries@.take(i as int) =~= entries@);
            Ok(found)
        },
    }
}

/// The names of the profiles that a listing of the profiles directory shows.
pub fn profile_names(entries: &Vec<Option<DirEntry>>) -> (out: Vec<String>)
    ensures
        out.deep_view() == directory_names(entries@),
{
    let mut names: Vec<String> = Vec::new();
    let mut i: usize = 0;
    assert(entries@.take(0) =~= Seq::<Option<DirEntry>>::empty());
    while i < entries.len()
        invariant
            i <= entries.len(),
            names.deep_view() =~= directory_names(entries@.take(i as int)),
        decreases entries.len() - i,
    {
        assert(entries@.take(i + 1).drop_last() =~= entries@.take(i as int));
        match &entries[i] {
            Some(entry) => {
                if entry.is_dir {
                    names.push(entry.name.clone());
                }
            },
            None => {},
        }
        i += 1;
    }
    assert(entries@.take(i as int) =~= entries@);
    names
}

/// The number of profiles that a listing of the profiles directory shows.
pub fn count_directories(entries: &Vec<Option<DirEntry>>) -> (out: usize)
    ensures
        out == directory_names(entries@).len(),
{
    let mut count: usize = 0;
    let mut i: usize = 0;
    assert(entries@.take(0) =~= Seq::<Option<DirEntry>>::empty());
    while i < entries.len()
        invariant
            i <= entries.len(),
            count <= i,
            count == directory_names(entries@.take(i as int)).len(),
        decreases entries.len() - i,
    {
        assert(entries@.take(i + 1).drop_last() =~= entries@.take(i as int));
        match &entries[i] {
            Some(entry) => {
                if entry.is_dir {
                    count += 1;
                }
            },
            None => {},
        }
        i += 1;
    }
    assert(entries@.take(i as int) =~= entries@);
    count
}

/// What one source manager offers for import: its data folder with the names
/// of the profiles found there, or nothing where they could not be listed.
pub open spec fn offered(path: Location, listing: DirListing) -> Option<ProfileImportDataView> {
    match listing {
        DirListing::Entries(entries) => Some(
            ProfileImportDataView { path: path@, profiles: directory_names(entries@) },
        ),
        _ => None,
    }
}

/// What `gather_info` puts in one slot.
pub open spec fn gathered_slot(
    path: Option<Location>,
    listing: DirListing,
    out: Option<ProfileImportData>,
) -> bool {
    match path {
        Some(dir) => match offered(dir, listing) {
            Some(data) => out matches Some(found) && found@ == data,
            None => out is None,
        },
        None => out is None,
    }
}

/// The profiles of one source manager, from its data folder and the listing
/// of its profiles directory for the active game.
pub fn gather_slot(path: Location, listing: DirListing) -> (out: Option<ProfileImportData>)
    ensures
        gathered_slot(Some(path), listing, out),
{
    match listing {
        DirListing::Entries(entries) => {
            let profiles = profile_names(&entries);
            Some(ProfileImportData { path, profiles })
        },
        _ => None,
    }
}

/// The profiles that each source manager offers for import. A slot is
/// present where the manager's data folder was found and its profiles
/// directory could be listed; the listing of an absent manager is not read.
pub fn gather_info(
    paths: ManagerData<Location>,
    r2modman_listing: DirListing,
    thunderstore_listing: DirListing,
) -> (out: ManagerData<ProfileImportData>)
    ensures
        gathered_slot(paths.r2modman, r2modman_listing, out.r2modman),
        gathered_slot(paths.thunderstore, thunderstore_listing, out.thunderstore),
{
    let r2modman = match paths.r2modman {
        Some(path) => gather_slot(path, r2modman_listing),
        None => None,
    };
    let thunderstore = match paths.thunderstore {
        Some(path) => gather_slot(path, thunderstore_listing),
        None => None,
    };
    ManagerData { r2modman, thunderstore }
}

} // verus!
