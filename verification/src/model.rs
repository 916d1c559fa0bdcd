//! The batch import as mathematics: its states, the commands it hands out,
//! and the step it takes on each answer.

use vstd::prelude::*;
use crate::batch::{Event, FailureKind, Outcome};
use crate::discovery::{DirListing, DiscoveryError, directory_names, discovered, profiles_location};
use crate::gate::{POLL_SECONDS, fetching_update};
use crate::location::LocationView;
use crate::prepare::{
    Descriptor, ImportDataView, InstallOptions, PendingImportView, PreparationView, PrepareError,
    Removal, descriptor_name, import_options, prepared, resolved,
};
use crate::status::{StatusUpdateView, progress_text, transfer_update};

verus! {

/// The next thing for the caller to do.
pub enum CommandView<M> {
    PollRegistry,
    Sleep { seconds: u64 },
    ReadActiveGame,
    ListProfiles { dir: LocationView },
    LoadDescriptor { file: LocationView },
    RemoveProfile { name: Seq<char>, purge_files: bool },
    ApplyImport { data: ImportDataView<M>, options: InstallOptions },
    Finish { result: Result<(), DiscoveryError> },
}

/// Something for the caller to publish or to log.
pub enum NoticeView {
    Status(StatusUpdateView),
    PrepareFailed { profile: Seq<char>, error: PrepareError },
    ImportFailed { profile: Seq<char>, cause: Seq<char> },
    RollbackFailed { profile: Seq<char>, cause: Seq<char> },
}

/// What one step hands to the caller: notices first, then the command.
pub struct StepView<M> {
    pub notices: Seq<NoticeView>,
    pub command: CommandView<M>,
}

/// Which answer the batch is waiting for.
pub enum PhaseView<M> {
    AwaitingRegistry,
    Sleeping,
    Locating,
    Discovering,
    Preparing,
    Overwriting { pending: PendingImportView<M> },
    Importing,
    RollingBack,
    Complete,
}

/// The state of a batch import.
pub struct BatchView<M> {
    pub root: LocationView,
    /// The folder of the active game inside a source manager; empty until
    /// the caller has read it.
    pub game_dir_name: Seq<char>,
    pub mask: Seq<bool>,
    pub profiles: Seq<LocationView>,
    pub outcomes: Seq<Outcome>,
    pub phase: PhaseView<M>,
}

/// The failure that a preparation error is recorded as.
pub open spec fn failure_kind(error: PrepareError) -> FailureKind {
    match error {
        PrepareError::ReadFailed { .. } => FailureKind::ReadFailed,
        PrepareError::ParseFailure { .. } => FailureKind::ParseFailure,
        PrepareError::DeleteExistingFailed { .. } => FailureKind::DeleteExistingFailed,
    }
}

/// A step that has nothing to publish or log.
pub open spec fn quiet<M>(command: CommandView<M>) -> StepView<M> {
    StepView { notices: Seq::empty(), command }
}

/// A step with one notice.
pub open spec fn noted<M>(notice: NoticeView, command: CommandView<M>) -> StepView<M> {
    StepView { notices: seq![notice], command }
}

impl<M> BatchView<M> {
    /// The index of the profile in progress: every earlier one has its outcome.
    pub open spec fn cursor(self) -> int {
        self.outcomes.len() as int
    }

    /// Whether the mask selects the profile at index `i`.
    pub open spec fn selected(self, i: int) -> bool {
        0 <= i < self.mask.len() && self.mask[i]
    }

    /// Whether a profile is in progress.
    pub open spec fn in_profile(self) -> bool {
        self.phase is Preparing || self.phase is Overwriting || self.phase is Importing
            || self.phase is RollingBack
    }

    /// The directory of the profile in progress.
    pub open spec fn current(self) -> LocationView
        recommends
            self.cursor() < self.profiles.len(),
    {
        self.profiles[self.cursor()]
    }

    /// What holds of the profiles and outcomes in every phase: each profile
    /// has a name and a place in the mask, each outcome belongs to a
    /// profile, and `NotSelected` is the outcome of exactly the profiles
    /// that the mask leaves out.
    pub open spec fn records_wf(self) -> bool {
        &&& self.outcomes.len() <= self.profiles.len() <= self.mask.len()
        &&& forall|i: int| 0 <= i < self.profiles.len() ==> (#[trigger] self.profiles[i]).has_name()
        &&& forall|i: int|
            0 <= i < self.outcomes.len() ==> ((#[trigger] self.outcomes[i] is NotSelected)
                <==> !self.mask[i])
    }

    /// The states that a batch can be in.
    pub open spec fn wf(self) -> bool {
        &&& self.records_wf()
        &&& match self.phase {
            PhaseView::AwaitingRegistry
            | PhaseView::Sleeping
            | PhaseView::Locating
            | PhaseView::Discovering => self.profiles.len() == 0,
            PhaseView::Preparing | PhaseView::Importing | PhaseView::RollingBack => {
                self.cursor() < self.profiles.len() && self.selected(self.cursor())
            },
            PhaseView::Overwriting { pending } => {
                &&& self.cursor() < self.profiles.len()
                &&& self.selected(self.cursor())
                &&& pending.profile_dir == self.current()
                &&& pending.name == self.current().name()
                &&& pending.mods.len() > 0
            },
            PhaseView::Complete => self.outcomes.len() == self.profiles.len(),
        }
    }

    /// Whether the batch can take the event: a listing may not show more
    /// profiles than the mask has entries.
    pub open spec fn admits(self, event: Event<M>) -> bool {
        self.phase is Discovering ==> (event matches Event::Listed(DirListing::Entries(entries))
            ==> directory_names(entries@).len() <= self.mask.len())
    }

    /// The batch with one more outcome recorded.
    pub open spec fn record(self, outcome: Outcome) -> BatchView<M> {
        BatchView { outcomes: self.outcomes.push(outcome), ..self }
    }

    /// The batch in another phase.
    pub open spec fn enter(self, phase: PhaseView<M>) -> BatchView<M> {
        BatchView { phase, ..self }
    }
}

/// The batch at the start of an import from `root`, with its first step:
/// to ask whether the registry is ready.
pub open spec fn started<M>(root: LocationView, mask: Seq<bool>) -> (BatchView<M>, StepView<M>) {
    (
        BatchView {
            root,
            game_dir_name: Seq::empty(),
            mask,
            profiles: Seq::empty(),
            outcomes: Seq::empty(),
            phase: PhaseView::AwaitingRegistry,
        },
        quiet(CommandView::PollRegistry),
    )
}

/// The command that ends a batch whose profiles were all looked at.
pub open spec fn finish_command<M>() -> CommandView<M> {
    CommandView::Finish { result: Ok(()) }
}

/// The command that loads the descriptor of the profile at `profile_dir`.
pub open spec fn load_command<M>(profile_dir: LocationView) -> CommandView<M> {
    CommandView::LoadDescriptor { file: profile_dir.join(descriptor_name()) }
}

/// Moves on to the next profile that the mask selects, recording every
/// profile passed on the way as `NotSelected`; finishes where none is left.
pub open spec fn settle<M>(s: BatchView<M>) -> (BatchView<M>, CommandView<M>)
    decreases s.profiles.len() - s.outcomes.len(),
{
    if s.outcomes.len() >= s.profiles.len() {
        (s.enter(PhaseView::Complete), finish_command())
    } else if s.selected(s.cursor()) {
        (s.enter(PhaseView::Preparing), load_command(s.current()))
    } else {
        settle(s.record(Outcome::NotSelected))
    }
}

/// Records the outcome of the profile in progress and moves on.
pub open spec fn conclude<M>(s: BatchView<M>, notices: Seq<NoticeView>, outcome: Outcome) -> (
    BatchView<M>,
    StepView<M>,
) {
    let (next, command) = settle(s.record(outcome));
    (next, StepView { notices, command })
}

/// The step of the batch on an event: the next state, and what the caller
/// is to do. `None` where the event does not answer the command that the
/// batch last handed out.
pub open spec fn step<M>(s: BatchView<M>, event: Event<M>) -> Option<(BatchView<M>, StepView<M>)> {
    match (s.phase, event) {
        (PhaseView::AwaitingRegistry, Event::RegistryPolled { ready }) => Some(
            if ready {
                (s.enter(PhaseView::Locating), quiet(CommandView::ReadActiveGame))
            } else {
                (
                    s.enter(PhaseView::Sleeping),
                    noted(
                        NoticeView::Status(fetching_update()),
                        CommandView::Sleep { seconds: POLL_SECONDS },
                    ),
                )
            },
        ),
        (PhaseView::Sleeping, Event::Slept) => Some(
            (s.enter(PhaseView::AwaitingRegistry), quiet(CommandView::PollRegistry)),
        ),
        (PhaseView::Locating, Event::ActiveGame { r2_dir_name }) => Some(
            (
                BatchView { game_dir_name: r2_dir_name@, phase: PhaseView::Discovering, ..s },
                quiet(
                    CommandView::ListProfiles { dir: profiles_location(s.root, r2_dir_name@) },
                ),
            ),
        ),
        (PhaseView::Discovering, Event::Listed(listing)) => Some(
            match discovered(s.root, s.game_dir_name, listing) {
                Err(error) => (
                    s.enter(PhaseView::Complete),
                    quiet(CommandView::Finish { result: Err(error) }),
                ),
                Ok(dirs) => {
                    let (next, command) = settle(BatchView { profiles: dirs, ..s });
                    (next, quiet(command))
                },
            },
        ),
        (PhaseView::Preparing, Event::DescriptorLoaded(descriptor)) => Some(
            match prepared(s.current(), descriptor) {
                PreparationView::NoDescriptor => conclude(
                    s,
                    Seq::empty(),
                    Outcome::SkippedNoDescriptor,
                ),
                PreparationView::Empty => conclude(s, Seq::empty(), Outcome::SkippedEmpty),
                PreparationView::Failed(error) => conclude(
                    s,
                    seq![NoticeView::PrepareFailed { profile: s.current().name(), error }],
                    Outcome::Failed(failure_kind(error)),
                ),
                PreparationView::Pending(pending) => (
                    s.enter(PhaseView::Overwriting { pending }),
                    quiet(CommandView::RemoveProfile { name: pending.name, purge_files: true }),
                ),
            },
        ),
        (PhaseView::Overwriting { pending }, Event::ProfileRemoved(removal)) => Some(
            match resolved(pending, removal) {
                Err(error) => conclude(
                    s,
                    seq![NoticeView::PrepareFailed { profile: pending.name, error }],
                    Outcome::Failed(failure_kind(error)),
                ),
                Ok(data) => (
                    s.enter(PhaseView::Importing),
                    noted(
                        NoticeView::Status(transfer_update(progress_text(data.name, 0))),
                        CommandView::ApplyImport { data, options: import_options() },
                    ),
                ),
            },
        ),
        (PhaseView::Importing, Event::ImportFinished(result)) => Some(
            match result {
                Ok(_) => conclude(s, Seq::empty(), Outcome::Imported),
                Err(cause) => (
                    s.enter(PhaseView::RollingBack),
                    noted(
                        NoticeView::ImportFailed { profile: s.current().name(), cause: cause@ },
                        CommandView::RemoveProfile {
                            name: s.current().name(),
                            purge_files: true,
                        },
                    ),
                ),
            },
        ),
        (PhaseView::RollingBack, Event::ProfileRemoved(removal)) => Some(
            match removal {
                Removal::Failed { cause } => conclude(
                    s,
                    seq![
                        NoticeView::RollbackFailed { profile: s.current().name(), cause: cause@ },
                    ],
                    Outcome::Failed(FailureKind::ImportFailed),
                ),
                _ => conclude(s, Seq::empty(), Outcome::Failed(FailureKind::ImportFailed)),
            },
        ),
        _ => None,
    }
}

/// Moving on keeps the records in order, and ends either on a selected
/// profile or with every profile decided.
pub proof fn lemma_settle<M>(s: BatchView<M>)
    requires
        s.records_wf(),
    ensures
        settle(s).0.wf(),
        settle(s).0.phase is Preparing || settle(s).0.phase is Complete,
        settle(s).0.phase is Complete ==> settle(s).1 == finish_command::<M>(),
        settle(s).0.phase is Preparing ==> settle(s).1 == load_command::<M>(settle(s).0.current()),
        settle(s).0.root == s.root,
        settle(s).0.game_dir_name == s.game_dir_name,
        settle(s).0.mask == s.mask,
        settle(s).0.profiles == s.profiles,
        s.outcomes.len() <= settle(s).0.outcomes.len(),
        settle(s).0.outcomes.subrange(0, s.outcomes.len() as int) == s.outcomes,
    decreases s.profiles.len() - s.outcomes.len(),
{
    if s.outcomes.len() >= s.profiles.len() {
        assert(s.outcomes.subrange(0, s.outcomes.len() as int) =~= s.outcomes);
    } else if s.selected(s.cursor()) {
        assert(s.outcomes.subrange(0, s.outcomes.len() as int) =~= s.outcomes);
    } else {
        let t = s.record(Outcome::NotSelected);
        lemma_settle(t);
        assert(settle(t).0.outcomes.subrange(0, s.outcomes.len() as int) =~= settle(
            t,
        ).0.outcomes.subrange(0, t.outcomes.len() as int).subrange(0, s.outcomes.len() as int));
        assert(t.outcomes.subrange(0, s.outcomes.len() as int) =~= s.outcomes);
    }
}

/// What the listing of the profiles directory leads to: without a listing
/// the batch is over, with the reason as its result; with one, the listed
/// profiles are the batch's profiles, and the batch moves on to the first
/// that the mask selects, or finishes with success where it selects none.
pub proof fn lemma_listed<M>(s: BatchView<M>, listing: DirListing)
    requires
        s.wf(),
        s.phase is Discovering,
        s.admits(Event::Listed(listing)),
    ensures
        ({
            let (next, handed) = step(s, Event::Listed(listing)).unwrap();
            &&& next.wf()
            &&& next.mask == s.mask
            &&& handed.notices.len() == 0
            &&& match discovered(s.root, s.game_dir_name, listing) {
                Err(error) => {
                    &&& next.phase is Complete
                    &&& next.profiles.len() == 0
                    &&& handed.command == CommandView::<M>::Finish { result: Err(error) }
                },
                Ok(dirs) => {
                    &&& next.profiles == dirs
                    &&& (next.phase is Preparing && handed.command == load_command::<M>(
                        next.current(),
                    )) || (next.phase is Complete && handed.command == finish_command::<M>())
                },
            }
        }),
{
    if let Ok(dirs) = discovered(s.root, s.game_dir_name, listing) {
        let found = BatchView { profiles: dirs, ..s };
        assert(found.records_wf());
        lemma_settle(found);
    }
}

/// Every step leads from a state of the batch to a state of the batch.
pub proof fn lemma_step_preserves_wf<M>(s: BatchView<M>, event: Event<M>)
    requires
        s.wf(),
        s.admits(event),
        step(s, event) is Some,
    ensures
        step(s, event).unwrap().0.wf(),
{
    match (s.phase, event) {
        (PhaseView::Discovering, Event::Listed(listing)) => {
            lemma_listed(s, listing);
        },
        (PhaseView::Preparing, Event::DescriptorLoaded(descriptor)) => {
            lemma_concluding(s);
        },
        (PhaseView::Overwriting { pending }, Event::ProfileRemoved(removal)) => {
            lemma_concluding(s);
        },
        (PhaseView::Importing, Event::ImportFinished(result)) => {
            lemma_concluding(s);
        },
        (PhaseView::RollingBack, Event::ProfileRemoved(removal)) => {
            lemma_concluding(s);
        },
        _ => {},
    }
}

/// What recording an outcome for the profile in progress leads to: the
/// batch moves on to a selected profile whose descriptor is to be loaded, or
/// finishes with success; the outcome stands at the profile's index.
pub proof fn lemma_concluding<M>(s: BatchView<M>)
    requires
        s.wf(),
        s.in_profile(),
    ensures
        forall|notices: Seq<NoticeView>, outcome: Outcome|
            !(outcome is NotSelected) ==> {
                let (next, handed) = #[trigger] conclude(s, notices, outcome);
                &&& next.wf()
                &&& handed.notices == notices
                &&& next.profiles == s.profiles
                &&& next.mask == s.mask
                &&& next.root == s.root
                &&& next.game_dir_name == s.game_dir_name
                &&& next.outcomes.len() > s.outcomes.len()
                &&& next.outcomes.subrange(0, s.outcomes.len() as int) == s.outcomes
                &&& next.outcomes[s.cursor()] == outcome
                &&& (next.phase is Preparing && handed.command == load_command::<M>(
                    next.current(),
                )) || (next.phase is Complete && handed.command == finish_command::<M>())
            },
{
    assert forall|notices: Seq<NoticeView>, outcome: Outcome| !(outcome is NotSelected) implies {
        let (next, handed) = #[trigger] conclude(s, notices, outcome);
        &&& next.wf()
        &&& handed.notices == notices
        &&& next.profiles == s.profiles
        &&& next.mask == s.mask
        &&& next.root == s.root
        &&& next.game_dir_name == s.game_dir_name
        &&& next.outcomes.len() > s.outcomes.len()
        &&& next.outcomes.subrange(0, s.outcomes.len() as int) == s.outcomes
        &&& next.outcomes[s.cursor()] == outcome
        &&& (next.phase is Preparing && handed.command == load_command::<M>(next.current()))
            || (next.phase is Complete && handed.command == finish_command::<M>())
    } by {
        let t = s.record(outcome);
        assert(t.records_wf());
        lemma_settle(t);
        let next = settle(t).0;
        assert(next.outcomes.subrange(0, t.outcomes.len() as int)[s.cursor()] == outcome);
        assert(next.outcomes.subrange(0, s.outcomes.len() as int) =~= next.outcomes.subrange(
            0,
            t.outcomes.len() as int,
        ).subrange(0, s.outcomes.len() as int));
        assert(t.outcomes.subrange(0, s.outcomes.len() as int) =~= s.outcomes);
    }
}


} // verus!
