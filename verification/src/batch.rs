//! The batch import as a machine that the caller drives: the caller performs
//! each command and hands back what came of it.

use vstd::prelude::*;
use crate::discovery::{DirListing, DiscoveryError, count_directories, find_profiles, profiles_dir};
use crate::gate::{GateStep, wait_for_mods};
use crate::location::{Location, location_views};
use crate::model::{
    BatchView, CommandView, NoticeView, PhaseView, StepView, lemma_settle,
    lemma_step_preserves_wf, settle, started, step,
};
use crate::prepare::{
    Descriptor, ImportData, InstallOptions, PendingImport, Preparation, PrepareError, Removal,
    descriptor_file, import_profile, prepare_import,
};
use crate::status::StatusUpdate;

verus! {

/// Why a profile was not imported.
#[derive(Debug, Clone, Copy, PartialEq, Eq)]
pub enum FailureKind {
    ReadFailed,
    ParseFailure,
    DeleteExistingFailed,
    ImportFailed,
}

/// What became of one discovered profile.
#[derive(Debug, Clone, Copy, PartialEq, Eq)]
pub enum Outcome {
    /// The mask left the profile out.
    NotSelected,
    Imported,
    SkippedEmpty,
    SkippedNoDescriptor,
    Failed(FailureKind),
}

/// What the caller reports back after it has performed a command.
#[derive(Debug, PartialEq, Eq)]
pub enum Event<M> {
    /// The registry was asked whether its packages are fetched.
    RegistryPolled { ready: bool },
    /// The time to wait has passed.
    Slept,
    /// The store was asked for the active game's folder in a source manager.
    ActiveGame { r2_dir_name: String },
    /// The profiles directory was listed.
    Listed(DirListing),
    /// A profile's descriptor was looked for, read and parsed.
    DescriptorLoaded(Descriptor<M>),
    /// The store was asked to delete the profile of a name.
    ProfileRemoved(Removal),
    /// The importer has run: `Err` holds the reason of its failure.
    ImportFinished(Result<(), String>),
}

/// The next thing for the caller to do. Its answer is the next event.
#[derive(Debug, PartialEq, Eq)]
pub enum Command<M> {
    /// Ask the registry whether its packages are fetched.
    PollRegistry,
    /// Let this many seconds pass, holding no lock meanwhile.
    Sleep { seconds: u64 },
    /// Ask the store for the active game's folder in a source manager.
    ReadActiveGame,
    /// List the entries of the profiles directory.
    ListProfiles { dir: Location },
    /// Look for a profile's descriptor, read it and parse it.
    LoadDescriptor { file: Location },
    /// Delete the profile of this name from the store, if there is one.
    RemoveProfile { name: String, purge_files: bool },
    /// Run the store's importer on the request.
    ApplyImport { data: ImportData<M>, options: InstallOptions },
    /// The batch is over, with this result.
    Finish { result: Result<(), DiscoveryError> },
}

impl<M> View for Command<M> {
    type V = CommandView<M>;

    open spec fn view(&self) -> CommandView<M> {
        match *self {
            Command::PollRegistry => CommandView::PollRegistry,
            Command::Sleep { seconds } => CommandView::Sleep { seconds },
            Command::ReadActiveGame => CommandView::ReadActiveGame,
            Command::ListProfiles { dir } => CommandView::ListProfiles { dir: dir@ },
            Command::LoadDescriptor { file } => CommandView::LoadDescriptor { file: file@ },
            Command::RemoveProfile { name, purge_files } => CommandView::RemoveProfile {
                name: name@,
                purge_files,
            },
            Command::ApplyImport { data, options } => CommandView::ApplyImport {
                data: data@,
                options,
            },
            Command::Finish { result } => CommandView::Finish { result },
        }
    }
}

/// Something for the caller to publish or to log before the next command.
#[derive(Debug, PartialEq, Eq)]
pub enum Notice {
    /// A status message for the observer.
    Status(StatusUpdate),
    /// An error: the profile could not be prepared for import.
    PrepareFailed { profile: String, error: PrepareError },
    /// An error: the importer failed on the profile.
    ImportFailed { profile: String, cause: String },
    /// A warning: what the failed import left of the profile is still there.
    RollbackFailed { profile: String, cause: String },
}

impl View for Notice {
    type V = NoticeView;

    open spec fn view(&self) -> NoticeView {
        match *self {
            Notice::Status(update) => NoticeView::Status(update@),
            Notice::PrepareFailed { profile, error } => NoticeView::PrepareFailed {
                profile: profile@,
                error,
            },
            Notice::ImportFailed { profile, cause } => NoticeView::ImportFailed {
                profile: profile@,
                cause: cause@,
            },
            Notice::RollbackFailed { profile, cause } => NoticeView::RollbackFailed {
                profile: profile@,
                cause: cause@,
            },
        }
    }
}

/// The views of a sequence of notices.
pub open spec fn notice_views(notices: Seq<Notice>) -> Seq<NoticeView> {
    notices.map_values(|notice: Notice| notice@)
}

/// What one step hands to the caller: notices first, then the command.
#[derive(Debug, PartialEq, Eq)]
pub struct Step<M> {
    pub notices: Vec<Notice>,
    pub command: Command<M>,
}

impl<M> View for Step<M> {
    type V = StepView<M>;

    open spec fn view(&self) -> StepView<M> {
        StepView { notices: notice_views(self.notices@), command: self.command@ }
    }
}

#[derive(Debug)]
enum Phase<M> {
    AwaitingRegistry,
    Sleeping,
    Locating,
    Discovering,
    Preparing,
    Overwriting { pending: PendingImport<M> },
    Importing,
    RollingBack,
    Complete,
}

impl<M> View for Phase<M> {
    type V = PhaseView<M>;

    closed spec fn view(&self) -> PhaseView<M> {
        match *self {
            Phase::AwaitingRegistry => PhaseView::AwaitingRegistry,
            Phase::Sleeping => PhaseView::Sleeping,
            Phase::Locating => PhaseView::Locating,
            Phase::Discovering => PhaseView::Discovering,
            Phase::Preparing => PhaseView::Preparing,
            Phase::Overwriting { pending } => PhaseView::Overwriting { pending: pending@ },
            Phase::Importing => PhaseView::Importing,
            Phase::RollingBack => PhaseView::RollingBack,
            Phase::Complete => PhaseView::Complete,
        }
    }
}

#[derive(Debug)]
struct Records {
    root: Location,
    game_dir_name: String,
    mask: Vec<bool>,
    profiles: Vec<Location>,
    outcomes: Vec<Outcome>,
}

/// A batch import in progress.
#[derive(Debug)]
pub struct Batch<M> {
    records: Records,
    phase: Phase<M>,
}

impl<M> View for Batch<M> {
    type V = BatchView<M>;

    closed spec fn view(&self) -> BatchView<M> {
        self.records.with(self.phase@)
    }
}

fn no_notices() -> (out: Vec<Notice>)
    ensures
        notice_views(out@) == Seq::<NoticeView>::empty(),
{
    let out: Vec<Notice> = Vec::new();
    assert(notice_views(out@) =~= Seq::<NoticeView>::empty());
    out
}

fn one_notice(notice: Notice) -> (out: Vec<Notice>)
    ensures
        notice_views(out@) == seq![notice@],
{
    let mut out: Vec<Notice> = Vec::new();
    out.push(notice);
    assert(notice_views(out@) =~= seq![notice@]);
    out
}

/// The failure that a preparation error is recorded as.
pub fn failure_kind(error: &PrepareError) -> (out: FailureKind)
    ensures
        out == crate::model::failure_kind(*error),
{
    match error {
        PrepareError::ReadFailed { .. } => FailureKind::ReadFailed,
        PrepareError::ParseFailure { .. } => FailureKind::ParseFailure,
        PrepareError::DeleteExistingFailed { .. } => FailureKind::DeleteExistingFailed,
    }
}

impl Records {
    spec fn with<M>(self, phase: PhaseView<M>) -> BatchView<M> {
        BatchView {
            root: self.root@,
            game_dir_name: self.game_dir_name@,
            mask: self.mask@,
            profiles: location_views(self.profiles@),
            outcomes: self.outcomes@,
            phase,
        }
    }

    /// The name of the profile in progress.
    fn current_name(&self) -> (out: String)
        requires
            self.outcomes@.len() < self.profiles@.len(),
            self.profiles@[self.outcomes@.len() as int]@.has_name(),
        ensures
            out@ == self.profiles@[self.outcomes@.len() as int]@.name(),
    {
        self.profiles[self.outcomes.len()].name()
    }

    fn settle<M>(self, Ghost(phase): Ghost<PhaseView<M>>) -> (out: (Batch<M>, Command<M>))
        requires
            self.with(phase).records_wf(),
        ensures
            (out.0@, out.1@) == settle(self.with(phase)),
    {
        let ghost start = self.with(phase);
        let mut records = self;
        proof {
            lemma_settle(start);
        }
        while records.outcomes.len() < records.profiles.len() && !records.mask[records.outcomes.len()]
            invariant
                records.with(phase).records_wf(),
                settle(records.with(phase)) == settle(start),
            decreases records.profiles.len() - records.outcomes.len(),
        {
            let ghost earlier = records.with(phase);
            records.outcomes.push(Outcome::NotSelected);
            assert(records.with(phase) == earlier.record(Outcome::NotSelected));
        }
        proof {
            lemma_settle(records.with(phase));
        }
        if records.outcomes.len() >= records.profiles.len() {
            let batch = Batch { records, phase: Phase::Complete };
            (batch, Command::Finish { result: Ok(()) })
        } else {
            let file = descriptor_file(&records.profiles[records.outcomes.len()]);
            let batch = Batch { records, phase: Phase::Preparing };
            (batch, Command::LoadDescriptor { file })
        }
    }

    fn conclude<M>(self, Ghost(phase): Ghost<PhaseView<M>>, notices: Vec<Notice>, outcome: Outcome)
        -> (out: (Batch<M>, Option<Step<M>>))
        requires
            self.with(phase).wf(),
            self.with(phase).in_profile(),
            !(outcome is NotSelected),
        ensures
            out.1 matches Some(handed) && (out.0@, handed@) == crate::model::conclude(
                self.with(phase),
                notice_views(notices@),
                outcome,
            ),
    {
        let ghost earlier = self.with(phase);
        let mut records = self;
        records.outcomes.push(outcome);
        assert(records.with(phase) == earlier.record(outcome));
        let (batch, command) = records.settle(Ghost(phase));
        (batch, Some(Step { notices, command }))
    }
}

/// Starts a batch import from a manager's data folder. `mask` says, in the
/// order in which the profiles will be discovered, which of them to import.
/// The first command asks whether the registry is ready.
pub fn import<M>(path: Location, mask: Vec<bool>) -> (out: (Batch<M>, Step<M>))
    ensures
        (out.0@, out.1@) == started::<M>(path@, mask@),
        out.0@.wf(),
{
    let records = Records {
        root: path,
        game_dir_name: String::new(),
        mask,
        profiles: Vec::new(),
        outcomes: Vec::new(),
    };
    assert(location_views(records.profiles@) =~= Seq::empty());
    let batch = Batch { records, phase: Phase::AwaitingRegistry };
    (batch, Step { notices: no_notices(), command: Command::PollRegistry })
}

impl<M> Batch<M> {
    #[verifier::type_invariant]
    spec fn well_formed(self) -> bool {
        self@.wf()
    }

    /// The outcomes of the profiles decided so far, in discovery order.
    pub fn outcomes(&self) -> (out: &Vec<Outcome>)
        ensures
            out@ == self@.outcomes,
    {
        &self.records.outcomes
    }

    /// Whether the batch is over.
    pub fn is_complete(&self) -> (out: bool)
        ensures
            out == (self@.phase is Complete),
    {
        match self.phase {
            Phase::Complete => true,
            _ => false,
        }
    }

    /// Whether the batch can take the event: a listing may not show more
    /// profiles than the mask has entries.
    pub fn admits(&self, event: &Event<M>) -> (out: bool)
        ensures
            out == self@.admits(*event),
    {
        match self.phase {
            Phase::Discovering => match event {
                Event::Listed(DirListing::Entries(entries)) => count_directories(entries)
                    <= self.records.mask.len(),
                _ => true,
            },
            _ => true,
        }
    }

    /// Takes the answer to the command that the batch last handed out, and
    /// hands out the next step. An event that is no answer to that command
    /// leaves the batch as it is and gives `None`. The caller sees to it
    /// that the batch admits the event.
    pub fn advance(self, event: Event<M>) -> (out: (Batch<M>, Option<Step<M>>))
        requires
            self@.admits(event),
        ensures
            match step(self@, event) {
                Some((next, handed)) => out.0@ == next && (out.1 matches Some(found) && found@
                    == handed),
                None => out.0@ == self@ && out.1 is None,
            },
            out.0@.wf(),
    {
        proof {
            use_type_invariant(&self);
            if step(self@, event) is Some {
                lemma_step_preserves_wf(self@, event);
            }
        }
        let ghost before = self@;
        let Batch { records, phase } = self;
        match phase {
            Phase::AwaitingRegistry => match event {
                Event::RegistryPolled { ready } => match wait_for_mods(ready) {
                    GateStep::Proceed => {
                        let batch = Batch { records, phase: Phase::Locating };
                        let handed = Step {
                            notices: no_notices(),
                            command: Command::ReadActiveGame,
                        };
                        (batch, Some(handed))
                    },
                    GateStep::Wait { update, seconds } => {
                        let batch = Batch { records, phase: Phase::Sleeping };
                        let handed = Step {
                            notices: one_notice(Notice::Status(update)),
                            command: Command::Sleep { seconds },
                        };
                        (batch, Some(handed))
                    },
                },
                _ => (Batch { records, phase: Phase::AwaitingRegistry }, None),
            },
            Phase::Sleeping => match event {
                Event::Slept => {
                    let batch = Batch { records, phase: Phase::AwaitingRegistry };
                    let handed = Step { notices: no_notices(), command: Command::PollRegistry };
                    (batch, Some(handed))
                },
                _ => (Batch { records, phase: Phase::Sleeping }, None),
            },
            Phase::Locating => match event {
                Event::ActiveGame { r2_dir_name } => {
                    let dir = profiles_dir(&records.root, r2_dir_name.as_str());
                    let Records { root, game_dir_name: _, mask, profiles, outcomes } = records;
                    let records = Records {
                        root,
                        game_dir_name: r2_dir_name,
                        mask,
                        profiles,
                        outcomes,
                    };
                    let batch = Batch { records, phase: Phase::Discovering };
                    let handed = Step {
                        notices: no_notices(),
                        command: Command::ListProfiles { dir },
                    };
                    (batch, Some(handed))
                },
                _ => (Batch { records, phase: Phase::Locating }, None),
            },
            Phase::Discovering => match event {
                Event::Listed(listing) => {
                    match find_profiles(&records.root, records.game_dir_name.as_str(), listing) {
                        Err(error) => {
                            let batch = Batch { records, phase: Phase::Complete };
                            let handed = Step {
                                notices: no_notices(),
                                command: Command::Finish { result: Err(error) },
                            };
                            (batch, Some(handed))
                        },
                        Ok(found) => {
                            let Records { root, game_dir_name, mask, profiles: _, outcomes } =
                                records;
                            let records = Records {
                                root,
                                game_dir_name,
                                mask,
                                profiles: found,
                                outcomes,
                            };
                            assert(records.with(before.phase) == (BatchView {
                                profiles: location_views(found@),
                                ..before
                            }));
                            assert(records.with(before.phase).records_wf());
                            let (batch, command) = records.settle(Ghost(before.phase));
                            (batch, Some(Step { notices: no_notices(), command }))
                        },
                    }
                },
                _ => (Batch { records, phase: Phase::Discovering }, None),
            },
            Phase::Preparing => match event {
                Event::DescriptorLoaded(descriptor) => {
                    let profile_dir = records.profiles[records.outcomes.len()].duplicate();
                    match prepare_import(profile_dir, descriptor) {
                        Preparation::NoDescriptor => records.conclude(
                            Ghost(before.phase),
                            no_notices(),
                            Outcome::SkippedNoDescriptor,
                        ),
                        Preparation::Empty => records.conclude(
                            Ghost(before.phase),
                            no_notices(),
                            Outcome::SkippedEmpty,
                        ),
                        Preparation::Failed(error) => {
                            let outcome = Outcome::Failed(failure_kind(&error));
                            let profile = records.current_name();
                            records.conclude(
                                Ghost(before.phase),
                                one_notice(Notice::PrepareFailed { profile, error }),
                                outcome,
                            )
                        },
                        Preparation::Pending(pending) => {
                            let name = pending.name.clone();
                            let batch = Batch { records, phase: Phase::Overwriting { pending } };
                            let handed = Step {
                                notices: no_notices(),
                                command: Command::RemoveProfile { name, purge_files: true },
                            };
                            (batch, Some(handed))
                        },
                    }
                },
                _ => (Batch { records, phase: Phase::Preparing }, None),
            },
            Phase::Overwriting { pending } => match event {
                Event::ProfileRemoved(removal) => {
                    let profile = pending.name.clone();
                    match pending.finish(removal) {
                        Err(error) => {
                            let outcome = Outcome::Failed(failure_kind(&error));
                            records.conclude(
                                Ghost(before.phase),
                                one_notice(Notice::PrepareFailed { profile, error }),
                                outcome,
                            )
                        },
                        Ok(data) => {
                            let start = import_profile(data);
                            let batch = Batch { records, phase: Phase::Importing };
                            let handed = Step {
                                notices: one_notice(Notice::Status(start.update)),
                                command: Command::ApplyImport {
                                    data: start.data,
                                    options: start.options,
                                },
                            };
                            (batch, Some(handed))
                        },
                    }
                },
                _ => (Batch { records, phase: Phase::Overwriting { pending } }, None),
            },
            Phase::Importing => match event {
                Event::ImportFinished(result) => match result {
                    Ok(_) => records.conclude(Ghost(before.phase), no_notices(), Outcome::Imported),
                    Err(cause) => {
                        let profile = records.current_name();
                        let name = profile.clone();
                        let batch = Batch { records, phase: Phase::RollingBack };
                        let handed = Step {
                            notices: one_notice(Notice::ImportFailed { profile, cause }),
                            command: Command::RemoveProfile { name, purge_files: true },
                        };
                        (batch, Some(handed))
                    },
                },
                _ => (Batch { records, phase: Phase::Importing }, None),
            },
            Phase::RollingBack => match event {
                Event::ProfileRemoved(removal) => match removal {
                    Removal::Failed { cause } => {
                        let profile = records.current_name();
                        records.conclude(
                            Ghost(before.phase),
                            one_notice(Notice::RollbackFailed { profile, cause }),
                            Outcome::Failed(FailureKind::ImportFailed),
                        )
                    },
                    _ => records.conclude(
                        Ghost(before.phase),
                        no_notices(),
                        Outcome::Failed(FailureKind::ImportFailed),
                    ),
                },
                _ => (Batch { records, phase: Phase::RollingBack }, None),
            },
            Phase::Complete => (Batch { records, phase: Phase::Complete }, None),
        }
    }
}

} // verus!
