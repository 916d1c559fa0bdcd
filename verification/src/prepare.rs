//! Deciding whether a profile directory can be imported, and building the
//! request that imports it.

use vstd::prelude::*;
use crate::location::{Location, LocationView, location_views};
use crate::status::{StatusUpdate, report_progress, transfer_update, progress_text};

verus! {

/// The file inside a profile directory that lists the profile's mods.
pub open spec fn descriptor_name() -> Seq<char> {
    "mods.yml"@
}

/// What the caller found when it read and parsed a profile's descriptor.
/// `M` is one entry of the mod list; the library never looks inside one.
#[derive(Debug, PartialEq, Eq)]
pub enum Descriptor<M> {
    /// The profile directory holds no descriptor.
    Missing,
    /// The descriptor is there and could not be read.
    Unreadable { cause: String },
    /// The descriptor was read and is no list of mods.
    Malformed { cause: String },
    /// The mods that the descriptor lists, in its order.
    Parsed(Vec<M>),
}

/// What came of asking the profile store to delete the profile of a name.
#[derive(Debug, PartialEq, Eq)]
pub enum Removal {
    /// The store holds no profile of that name.
    NotPresent,
    /// The profile and its files are gone.
    Deleted,
    /// The store holds such a profile and could not delete it.
    Failed { cause: String },
}

/// Why a profile could not be prepared for import.
#[derive(Debug, PartialEq, Eq)]
pub enum PrepareError {
    ReadFailed { cause: String },
    ParseFailure { cause: String },
    DeleteExistingFailed { cause: String },
}

/// The manager that a profile comes from.
#[derive(Debug, Clone, Copy, PartialEq, Eq)]
pub enum ImportSource {
    R2,
}

/// A profile that is ready to be applied to the profile store.
#[derive(Debug, PartialEq, Eq)]
pub struct ImportData<M> {
    pub name: String,
    pub mods: Vec<M>,
    pub extra_files: Vec<Location>,
    pub source_root: Location,
    pub overwrite_flag: bool,
    pub origin_tag: ImportSource,
}

/// An `ImportData` with its strings and lists as sequences.
pub struct ImportDataView<M> {
    pub name: Seq<char>,
    pub mods: Seq<M>,
    pub extra_files: Seq<LocationView>,
    pub source_root: LocationView,
    pub overwrite_flag: bool,
    pub origin_tag: ImportSource,
}

impl<M> View for ImportData<M> {
    type V = ImportDataView<M>;

    open spec fn view(&self) -> ImportDataView<M> {
        ImportDataView {
            name: self.name@,
            mods: self.mods@,
            extra_files: location_views(self.extra_files@),
            source_root: self.source_root@,
            overwrite_flag: self.overwrite_flag,
            origin_tag: self.origin_tag,
        }
    }
}

/// A profile with a mod list, waiting for the store to make room for it.
#[derive(Debug, PartialEq, Eq)]
pub struct PendingImport<M> {
    pub name: String,
    pub mods: Vec<M>,
    pub profile_dir: Location,
}

/// A `PendingImport` with its strings and lists as sequences.
pub struct PendingImportView<M> {
    pub name: Seq<char>,
    pub mods: Seq<M>,
    pub profile_dir: LocationView,
}

impl<M> View for PendingImport<M> {
    type V = PendingImportView<M>;

    open spec fn view(&self) -> PendingImportView<M> {
        PendingImportView { name: self.name@, mods: self.mods@, profile_dir: self.profile_dir@ }
    }
}

/// What reading a profile's descriptor leads to.
#[derive(Debug, PartialEq, Eq)]
pub enum Preparation<M> {
    /// No descriptor: the profile is passed over.
    NoDescriptor,
    /// The descriptor lists no mod: the profile is passed over.
    Empty,
    /// The profile cannot be imported.
    Failed(PrepareError),
    /// The profile can be imported once no profile of its name is in the way.
    Pending(PendingImport<M>),
}

/// A `Preparation` with its pending import as a view.
pub enum PreparationView<M> {
    NoDescriptor,
    Empty,
    Failed(PrepareError),
    Pending(PendingImportView<M>),
}

impl<M> View for Preparation<M> {
    type V = PreparationView<M>;

    open spec fn view(&self) -> PreparationView<M> {
        match *self {
            Preparation::NoDescriptor => PreparationView::NoDescriptor,
            Preparation::Empty => PreparationView::Empty,
            Preparation::Failed(error) => PreparationView::Failed(error),
            Preparation::Pending(pending) => PreparationView::Pending(pending@),
        }
    }
}

/// What the descriptor of the profile at `profile_dir` leads to: a missing
/// descriptor and an empty mod list pass the profile over, an unreadable or
/// malformed descriptor fails it, and a list with mods makes it pending
/// under the name of its directory.
pub open spec fn prepared<M>(profile_dir: LocationView, descriptor: Descriptor<M>)
    -> PreparationView<M> {
    match descriptor {
        Descriptor::Missing => PreparationView::NoDescriptor,
        Descriptor::Unreadable { cause } => PreparationView::Failed(
            PrepareError::ReadFailed { cause },
        ),
        Descriptor::Malformed { cause } => PreparationView::Failed(
            PrepareError::ParseFailure { cause },
        ),
        Descriptor::Parsed(mods) => if mods@.len() == 0 {
            PreparationView::Empty
        } else {
            PreparationView::Pending(
                PendingImportView { name: profile_dir.name(), mods: mods@, profile_dir },
            )
        },
    }
}

/// The request that imports a pending profile.
pub open spec fn request_for<M>(pending: PendingImportView<M>) -> ImportDataView<M> {
    ImportDataView {
        name: pending.name,
        mods: pending.mods,
        extra_files: Seq::empty(),
        source_root: pending.profile_dir,
        overwrite_flag: false,
        origin_tag: ImportSource::R2,
    }
}

/// What a pending profile becomes once the store has answered: the request,
/// unless a profile of the same name is still in the way.
pub open spec fn resolved<M>(pending: PendingImportView<M>, removal: Removal) -> Result<
    ImportDataView<M>,
    PrepareError,
> {
    match removal {
        Removal::Failed { cause } => Err(PrepareError::DeleteExistingFailed { cause }),
        _ => Ok(request_for(pending)),
    }
}

/// The descriptor file of the profile at `profile_dir`.
pub fn descriptor_file(profile_dir: &Location) -> (out: Location)
    ensures
        out@ == profile_dir@.join(descriptor_name()),
{
    profile_dir.join("mods.yml")
}

/// Decides from a profile's descriptor whether the profile is imported.
/// `descriptor` is what the caller found at `descriptor_file(&profile_dir)`.
pub fn prepare_import<M>(profile_dir: Location, descriptor: Descriptor<M>) -> (out: Preparation<M>)
    requires
        profile_dir@.has_name(),
    ensures
        out@ == prepared(profile_dir@, descriptor),
{
    match descriptor {
        Descriptor::Missing => Preparation::NoDescriptor,
        Descriptor::Unreadable { cause } => Preparation::Failed(PrepareError::ReadFailed { cause }),
        Descriptor::Malformed { cause } => Preparation::Failed(
            PrepareError::ParseFailure { cause },
        ),
        Descriptor::Parsed(mods) => {
            if mods.len() == 0 {
                Preparation::Empty
            } else {
                let name = profile_dir.name();
                Preparation::Pending(PendingImport { name, mods, profile_dir })
            }
        },
    }
}

impl<M> PendingImport<M> {
    /// Builds the request once the store was asked to delete, files and
    /// all, the profile that has this one's name. `removal` is the store's
    /// answer: the request is built unless that profile could not be deleted.
    pub fn finish(self, removal: Removal) -> (out: Result<ImportData<M>, PrepareError>)
        ensures
            match resolved(self@, removal) {
                Ok(request) => out matches Ok(data) && data@ == request,
                Err(error) => out == Err::<ImportData<M>, PrepareError>(error),
            },
    {
        match removal {
            Removal::Failed { cause } => Err(PrepareError::DeleteExistingFailed { cause }),
            _ => {
                let data = ImportData {
                    name: self.name,
                    mods: self.mods,
                    extra_files: Vec::new(),
                    source_root: self.profile_dir,
                    overwrite_flag: false,
                    origin_tag: ImportSource::R2,
                };
                assert(location_views(data.extra_files@) =~= Seq::<LocationView>::empty());
                Ok(data)
            },
        }
    }
}

/// How the store's importer is to run.
#[derive(Debug, Clone, Copy, PartialEq, Eq)]
pub struct InstallOptions {
    /// Whether the user may cancel the import half-way.
    pub can_cancel: bool,
    /// Whether the importer publishes progress of its own.
    pub send_progress: bool,
}

/// The options of every profile import: it cannot be cancelled, and the
/// importer's own progress messages are off.
pub open spec fn import_options() -> InstallOptions {
    InstallOptions { can_cancel: false, send_progress: false }
}

/// An import that is about to run.
#[derive(Debug, PartialEq, Eq)]
pub struct ImportStart<M> {
    /// What to publish before the importer starts.
    pub update: StatusUpdate,
    /// What the importer applies.
    pub data: ImportData<M>,
    /// How the importer runs.
    pub options: InstallOptions,
}

/// Starts the import of a prepared profile: the first progress message, at
/// nought per cent, and the request with the options the importer runs under.
pub fn import_profile<M>(data: ImportData<M>) -> (out: ImportStart<M>)
    ensures
        out.update@ == transfer_update(progress_text(data.name@, 0)),
        out.data == data,
        out.options == import_options(),
{
    let update = report_progress(data.name.as_str(), 0);
    ImportStart {
        update,
        data,
        options: InstallOptions { can_cancel: false, send_progress: false },
    }
}

} // verus!
