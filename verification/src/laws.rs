//! What holds of every batch import, whatever the caller reports.

use vstd::prelude::*;
use crate::batch::{Event, FailureKind, Outcome};
use crate::discovery::DirListing;
use crate::gate::fetching_update;
use crate::location::LocationView;
use crate::model::{
    BatchView, CommandView, NoticeView, PhaseView, StepView,
    finish_command, lemma_concluding, lemma_listed, lemma_step_preserves_wf, load_command, step,
};
use crate::prepare::{
    Descriptor, ImportSource, PendingImportView, Removal, descriptor_name, import_options,
    prepared, request_for,
};
use crate::status::StatusUpdateView;

verus! {

/// Whether performing the command reads or changes anything that belongs
/// to one profile.
pub open spec fn touches_profile<M>(command: CommandView<M>) -> bool {
    command is LoadDescriptor || command is RemoveProfile || command is ApplyImport
}

/// Whether the command is about the profile in the directory `dir`, and is
/// made out as every command of its kind is: a removal purges the files, an
/// import runs under the fixed options.
pub open spec fn concerns<M>(command: CommandView<M>, dir: LocationView) -> bool {
    match command {
        CommandView::LoadDescriptor { file } => file == dir.join(descriptor_name()),
        CommandView::RemoveProfile { name, purge_files } => name == dir.name() && purge_files,
        CommandView::ApplyImport { data, options } => {
            &&& data.name == dir.name()
            &&& data.source_root == dir
            &&& options == import_options()
        },
        _ => false,
    }
}

/// The profile that a log entry names; a status message is no log entry.
pub open spec fn logged_profile(notice: NoticeView) -> Option<Seq<char>> {
    match notice {
        NoticeView::Status(_) => None,
        NoticeView::PrepareFailed { profile, .. } => Some(profile),
        NoticeView::ImportFailed { profile, .. } => Some(profile),
        NoticeView::RollbackFailed { profile, .. } => Some(profile),
    }
}

/// The status messages among some notices, in order.
pub open spec fn statuses(notices: Seq<NoticeView>) -> Seq<StatusUpdateView>
    decreases notices.len(),
{
    if notices.len() == 0 {
        Seq::empty()
    } else {
        match notices.last() {
            NoticeView::Status(update) => statuses(notices.drop_last()).push(update),
            _ => statuses(notices.drop_last()),
        }
    }
}

/// The status messages that a run of steps publishes, in order.
pub open spec fn published<M>(steps: Seq<StepView<M>>) -> Seq<StatusUpdateView>
    decreases steps.len(),
{
    if steps.len() == 0 {
        Seq::empty()
    } else {
        published(steps.drop_last()) + statuses(steps.last().notices)
    }
}

/// The batch after a run of events, with the steps it handed out on the
/// way. `None` where one of the events is refused or is no answer to the
/// command before it.
pub open spec fn follow<M>(s: BatchView<M>, events: Seq<Event<M>>) -> Option<
    (BatchView<M>, Seq<StepView<M>>),
>
    decreases events.len(),
{
    if events.len() == 0 {
        Some((s, Seq::empty()))
    } else {
        match follow(s, events.drop_last()) {
            Some((reached, steps)) => if reached.admits(events.last()) {
                match step(reached, events.last()) {
                    Some((next, handed)) => Some((next, steps.push(handed))),
                    None => None,
                }
            } else {
                None
            },
            None => None,
        }
    }
}

/// The answers of a registry that is found loading `polls` times: each
/// look that finds it loading is followed by the wait.
pub open spec fn loading<M>(polls: nat) -> Seq<Event<M>>
    decreases polls,
{
    if polls == 0 {
        Seq::empty()
    } else {
        loading::<M>((polls - 1) as nat).push(Event::RegistryPolled { ready: false }).push(
            Event::Slept,
        )
    }
}

/// What the profile store holds, by profile name, after the caller has
/// performed `command` on the store `before` and seen `event` come of it.
/// A deletion that succeeds takes the profile of that name away, and one
/// that finds none changes nothing; an import that succeeds puts the
/// request's mods under the request's name. Where either fails, only the
/// profile of that name may have changed.
pub open spec fn store_follows<M>(
    before: Map<Seq<char>, Seq<M>>,
    command: CommandView<M>,
    event: Event<M>,
    after: Map<Seq<char>, Seq<M>>,
) -> bool {
    match (command, event) {
        (CommandView::RemoveProfile { name, .. }, Event::ProfileRemoved(removal)) => match removal {
            Removal::NotPresent => !before.contains_key(name) && after == before,
            Removal::Deleted => before.contains_key(name) && after == before.remove(name),
            Removal::Failed { .. } => before.contains_key(name) && after.remove(name)
                == before.remove(name),
        },
        (CommandView::ApplyImport { data, .. }, Event::ImportFinished(result)) => match result {
            Ok(_) => after == before.insert(data.name, data.mods),
            Err(_) => after.remove(data.name) == before.remove(data.name),
        },
        _ => after == before,
    }
}

/// Every command that touches a profile is about the profile in progress,
/// and every log entry names the profile that was in progress when the
/// event came; the mask selects both. So a profile that the mask leaves out
/// has no descriptor read, no store change and no log entry: its one trace
/// is the outcome `NotSelected`.
pub proof fn lemma_unselected_profiles_are_untouched<M>(s: BatchView<M>, event: Event<M>)
    requires
        s.wf(),
        s.admits(event),
        step(s, event) is Some,
    ensures
        ({
            let (next, handed) = step(s, event).unwrap();
            &&& touches_profile(handed.command) ==> {
                &&& next.in_profile()
                &&& next.selected(next.cursor())
                &&& concerns(handed.command, next.current())
            }
            &&& forall|k: int|
                0 <= k < handed.notices.len() ==> (#[trigger] logged_profile(handed.notices[k])
                    matches Some(name) ==> {
                    &&& s.in_profile()
                    &&& s.selected(s.cursor())
                    &&& name == s.current().name()
                })
            &&& forall|i: int|
                s.outcomes.len() <= i < next.outcomes.len() && !next.selected(i)
                    ==> next.outcomes[i] == Outcome::NotSelected
        }),
{
    lemma_step_preserves_wf(s, event);
    let (next, handed) = step(s, event).unwrap();
    match (s.phase, event) {
        (PhaseView::Discovering, Event::Listed(listing)) => {
            lemma_listed(s, listing);
        },
        (PhaseView::Preparing, Event::DescriptorLoaded(_)) => {
            lemma_concluding(s);
        },
        (PhaseView::Overwriting { .. }, Event::ProfileRemoved(_)) => {
            lemma_concluding(s);
        },
        (PhaseView::Importing, Event::ImportFinished(_)) => {
            lemma_concluding(s);
        },
        (PhaseView::RollingBack, Event::ProfileRemoved(_)) => {
            lemma_concluding(s);
        },
        _ => {},
    }
}

/// A profile without a descriptor is passed over: nothing is logged, its
/// outcome is `SkippedNoDescriptor`, and the batch moves past it.
pub proof fn lemma_missing_descriptor_is_skipped<M>(s: BatchView<M>)
    requires
        s.wf(),
        s.phase is Preparing,
    ensures
        prepared::<M>(s.current(), Descriptor::Missing) is NoDescriptor,
        ({
            let (next, handed) = step(s, Event::<M>::DescriptorLoaded(Descriptor::Missing)).unwrap();
            &&& handed.notices.len() == 0
            &&& next.outcomes[s.cursor()] == Outcome::SkippedNoDescriptor
            &&& next.cursor() > s.cursor()
            &&& !(handed.command is RemoveProfile) && !(handed.command is ApplyImport)
        }),
{
    lemma_concluding(s);
}

/// A profile whose descriptor lists no mod is passed over: nothing is
/// logged, its outcome is `SkippedEmpty`, and the batch moves past it.
pub proof fn lemma_empty_mod_list_is_skipped<M>(s: BatchView<M>, mods: Vec<M>)
    requires
        s.wf(),
        s.phase is Preparing,
        mods@.len() == 0,
    ensures
        prepared(s.current(), Descriptor::Parsed(mods)) is Empty,
        ({
            let (next, handed) = step(s, Event::DescriptorLoaded(Descriptor::Parsed(mods))).unwrap();
            &&& handed.notices.len() == 0
            &&& next.outcomes[s.cursor()] == Outcome::SkippedEmpty
            &&& next.cursor() > s.cursor()
            &&& !(handed.command is RemoveProfile) && !(handed.command is ApplyImport)
        }),
{
    lemma_concluding(s);
}

/// Once the profiles are discovered, a run of events leaves them and the
/// outcomes already recorded as they are, and every command of the run that
/// touches a profile is about a selected profile that was not yet decided
/// when the run began. So a profile that was passed over or has failed is
/// not read, changed or imported afterwards.
pub proof fn lemma_decided_profiles_are_left_alone<M>(s: BatchView<M>, events: Seq<Event<M>>)
    requires
        s.wf(),
        s.in_profile() || s.phase is Complete,
        follow(s, events) is Some,
    ensures
        ({
            let (reached, steps) = follow(s, events).unwrap();
            &&& reached.wf()
            &&& reached.in_profile() || reached.phase is Complete
            &&& steps.len() == events.len()
            &&& reached.profiles == s.profiles
            &&& reached.mask == s.mask
            &&& reached.outcomes.len() >= s.outcomes.len()
            &&& reached.outcomes.subrange(0, s.outcomes.len() as int) == s.outcomes
            &&& forall|k: int|
                0 <= k < steps.len() && touches_profile(#[trigger] steps[k].command) ==> exists|
                    i: int,
                |
                    s.cursor() <= i < s.profiles.len() && s.selected(i) && concerns(
                        steps[k].command,
                        s.profiles[i],
                    )
        }),
    decreases events.len(),
{
    if events.len() == 0 {
        assert(s.outcomes.subrange(0, s.outcomes.len() as int) =~= s.outcomes);
    } else {
        let earlier = events.drop_last();
        lemma_decided_profiles_are_left_alone(s, earlier);
        let (middle, before) = follow(s, earlier).unwrap();
        let (reached, handed) = step(middle, events.last()).unwrap();
        let steps = before.push(handed);
        lemma_step_preserves_wf(middle, events.last());
        lemma_unselected_profiles_are_untouched(middle, events.last());
        if middle.in_profile() {
            lemma_concluding(middle);
        }
        assert forall|i: int| 0 <= i < s.outcomes.len() implies reached.outcomes[i]
            == s.outcomes[i] by {
            assert(middle.outcomes.subrange(0, s.outcomes.len() as int)[i] == s.outcomes[i]);
            if reached.outcomes != middle.outcomes {
                assert(reached.outcomes.subrange(0, middle.outcomes.len() as int)[i]
                    == middle.outcomes[i]);
            }
        }
        assert(reached.outcomes.subrange(0, s.outcomes.len() as int) =~= s.outcomes);
        assert forall|k: int|
            0 <= k < steps.len() && touches_profile(#[trigger] steps[k].command) implies exists|
            i: int,
        |
            s.cursor() <= i < s.profiles.len() && s.selected(i) && concerns(
                steps[k].command,
                s.profiles[i],
            ) by {
            if k < before.len() {
                assert(steps[k] == before[k]);
            } else {
                let i = reached.cursor();
                assert(s.cursor() <= i < s.profiles.len() && s.selected(i) && concerns(
                    steps[k].command,
                    s.profiles[i],
                ));
            }
        }
    }
}

/// Importing a profile whose name is taken replaces the profile of that
/// name: the store is first asked to delete it, files and all; only when
/// none is left is the request applied; and after a successful import the
/// store holds, under that name, the mods of the new profile.
pub proof fn lemma_reimport_replaces_profile<M>(
    s: BatchView<M>,
    mods: Vec<M>,
    removal: Removal,
    store: Map<Seq<char>, Seq<M>>,
    cleared: Map<Seq<char>, Seq<M>>,
    imported: Map<Seq<char>, Seq<M>>,
)
    requires
        s.wf(),
        s.phase is Preparing,
        mods@.len() > 0,
        !(removal is Failed),
    ensures
        ({
            let name = s.current().name();
            let pending = PendingImportView { name, mods: mods@, profile_dir: s.current() };
            let (s1, first) = step(s, Event::DescriptorLoaded(Descriptor::Parsed(mods))).unwrap();
            let (s2, second) = step(s1, Event::ProfileRemoved(removal)).unwrap();
            let (s3, third) = step(s2, Event::ImportFinished(Ok(()))).unwrap();
            &&& first.command == CommandView::<M>::RemoveProfile { name, purge_files: true }
            &&& second.command == CommandView::ApplyImport {
                data: request_for(pending),
                options: import_options(),
            }
            &&& s3.outcomes[s.cursor()] == Outcome::Imported
            &&& store_follows(store, first.command, Event::ProfileRemoved(removal), cleared)
                ==> !cleared.contains_key(name)
            &&& store_follows(cleared, second.command, Event::ImportFinished(Ok(())), imported)
                ==> imported.contains_key(name) && imported[name] == mods@
        }),
{
    let (s1, first) = step(s, Event::DescriptorLoaded(Descriptor::Parsed(mods))).unwrap();
    lemma_step_preserves_wf(s, Event::DescriptorLoaded(Descriptor::Parsed(mods)));
    let (s2, second) = step(s1, Event::ProfileRemoved(removal)).unwrap();
    lemma_step_preserves_wf(s1, Event::ProfileRemoved(removal));
    lemma_concluding(s2);
}

/// Where the importer fails on a profile, the failure is logged under the
/// profile's name and the store is asked to delete what the import left of
/// it, files and all. Unless that deletion fails too, the store then holds
/// no profile of that name. Either way the profile is recorded as failed
/// and the batch goes on to the next profile, or finishes with success.
pub proof fn lemma_failed_import_is_rolled_back<M>(
    s: BatchView<M>,
    cause: String,
    removal: Removal,
    store: Map<Seq<char>, Seq<M>>,
    after: Map<Seq<char>, Seq<M>>,
)
    requires
        s.wf(),
        s.phase is Importing,
    ensures
        ({
            let name = s.current().name();
            let (s1, first) = step(s, Event::<M>::ImportFinished(Err(cause))).unwrap();
            let (s2, second) = step(s1, Event::ProfileRemoved(removal)).unwrap();
            &&& first.notices == seq![NoticeView::ImportFailed { profile: name, cause: cause@ }]
            &&& first.command == CommandView::<M>::RemoveProfile { name, purge_files: true }
            &&& !(removal is Failed) && store_follows(
                store,
                first.command,
                Event::ProfileRemoved(removal),
                after,
            ) ==> !after.contains_key(name)
            &&& s2.outcomes[s.cursor()] == Outcome::Failed(FailureKind::ImportFailed)
            &&& (s2.phase is Preparing && second.command == load_command::<M>(s2.current()))
                || (s2.phase is Complete && second.command == finish_command::<M>())
        }),
{
    let (s1, first) = step(s, Event::<M>::ImportFinished(Err(cause))).unwrap();
    lemma_step_preserves_wf(s, Event::<M>::ImportFinished(Err(cause)));
    lemma_concluding(s1);
}

/// A request is handed to the importer only for a profile whose descriptor
/// was found, was read and parsed, and lists at least one mod. It carries
/// those mods under the name of the profile's directory, no extra files, no
/// leave to overwrite, and r2modman as its origin. The request goes out
/// right after the store has answered that no profile of that name is left.
pub proof fn lemma_requests_hold_mods<M>(s: BatchView<M>, event: Event<M>)
    requires
        s.wf(),
        s.admits(event),
        step(s, event) is Some,
    ensures
        step(s, event).unwrap().1.command matches CommandView::ApplyImport { data, options } ==> {
            &&& s.phase matches PhaseView::Overwriting { pending }
            &&& event matches Event::ProfileRemoved(removal)
            &&& !(removal is Failed)
            &&& data == request_for(pending)
            &&& data.mods.len() > 0
            &&& data.name == s.current().name()
            &&& data.source_root == s.current()
            &&& data.extra_files.len() == 0
            &&& !data.overwrite_flag
            &&& data.origin_tag == ImportSource::R2
            &&& options == import_options()
        },
{
    if s.in_profile() {
        lemma_concluding(s);
    } else if let (PhaseView::Discovering, Event::Listed(listing)) = (s.phase, event) {
        lemma_listed(s, listing);
    }
}

/// Whether the event reports that the profiles directory is missing or
/// could not be read.
pub open spec fn shows_no_listing<M>(event: Event<M>) -> bool {
    match event {
        Event::Listed(DirListing::Entries(_)) => false,
        Event::Listed(_) => true,
        _ => false,
    }
}

/// A batch fails only where its profiles cannot be listed, before any
/// profile is looked at. Every other step that finishes the batch finishes
/// it with success, and then every discovered profile has its outcome.
pub proof fn lemma_only_discovery_is_fatal<M>(s: BatchView<M>, event: Event<M>)
    requires
        s.wf(),
        s.admits(event),
        step(s, event) is Some,
    ensures
        ({
            let (next, handed) = step(s, event).unwrap();
            &&& handed.command is Finish <==> next.phase is Complete
            &&& next.phase is Complete ==> next.outcomes.len() == next.profiles.len()
            &&& handed.command matches CommandView::Finish { result } ==> (result is Err <==> (
            s.phase is Discovering && shows_no_listing(event)))
        }),
{
    lemma_step_preserves_wf(s, event);
    match (s.phase, event) {
        (PhaseView::Discovering, Event::Listed(listing)) => {
            lemma_listed(s, listing);
        },
        _ => {
            if s.in_profile() {
                lemma_concluding(s);
            }
        },
    }
}

/// How far a batch whose profiles are discovered is from its end, counted
/// in answers: four for each profile that is not yet decided, less the
/// answers that the profile in progress has already had.
pub open spec fn answers_left<M>(s: BatchView<M>) -> int {
    let undecided = s.profiles.len() - s.outcomes.len();
    match s.phase {
        PhaseView::Preparing => 4 * undecided,
        PhaseView::Overwriting { .. } => 4 * undecided - 1,
        PhaseView::Importing => 4 * undecided - 2,
        PhaseView::RollingBack => 4 * undecided - 3,
        _ => 0,
    }
}

/// Once the profiles are discovered, every answer brings the batch nearer
/// to its end: no profile is visited twice, none holds the batch up for more
/// than four answers, and a batch of `n` profiles is over after `4 * n`
/// answers at most.
pub proof fn lemma_every_answer_brings_the_end_nearer<M>(s: BatchView<M>, event: Event<M>)
    requires
        s.wf(),
        s.in_profile(),
        step(s, event) is Some,
    ensures
        0 <= answers_left(step(s, event).unwrap().0) < answers_left(s) <= 4 * s.profiles.len(),
        answers_left(step(s, event).unwrap().0) == 0 <==> step(s, event).unwrap().0.phase
            is Complete,
{
    lemma_step_preserves_wf(s, event);
    lemma_concluding(s);
}

/// While the registry is loading, each look at it publishes the fetching
/// message once and nothing else: after it was found loading `polls` times,
/// exactly `polls` such messages are out, and the batch is asking again.
/// The look that finds it ready publishes nothing and goes on to find the
/// profiles of the active game.
pub proof fn lemma_gate_publishes_once_per_wait<M>(s: BatchView<M>, polls: nat)
    requires
        s.wf(),
        s.phase is AwaitingRegistry,
    ensures
        follow(s, loading::<M>(polls)) matches Some((reached, steps)) && {
            &&& reached == s
            &&& published(steps) == Seq::new(polls, |i: int| fetching_update())
            &&& step(reached, Event::RegistryPolled { ready: true }) matches Some((next, handed))
                && next.phase is Locating && handed.notices.len() == 0 && handed.command
                is ReadActiveGame
        },
    decreases polls,
{
    if polls == 0 {
        assert(published(Seq::<StepView<M>>::empty()) =~= Seq::new(
            0,
            |i: int| fetching_update(),
        ));
    } else {
        let earlier = loading::<M>((polls - 1) as nat);
        lemma_gate_publishes_once_per_wait(s, (polls - 1) as nat);
        let looked = earlier.push(Event::RegistryPolled { ready: false });
        let events = looked.push(Event::Slept);
        assert(events.drop_last() =~= looked);
        assert(looked.drop_last() =~= earlier);
        let (reached, steps) = follow(s, earlier).unwrap();
        let (asleep, first) = step(s, Event::<M>::RegistryPolled { ready: false }).unwrap();
        let (awake, second) = step(asleep, Event::<M>::Slept).unwrap();
        assert(awake == s);
        assert(follow(s, looked) == Some((asleep, steps.push(first))));
        assert(follow(s, events) == Some((awake, steps.push(first).push(second))));
        let all = steps.push(first).push(second);
        assert(all.drop_last() =~= steps.push(first));
        assert(steps.push(first).drop_last() =~= steps);
        assert(first.notices.drop_last() =~= Seq::<NoticeView>::empty());
        assert(statuses(Seq::<NoticeView>::empty()) =~= Seq::<StatusUpdateView>::empty());
        assert(statuses(first.notices) =~= seq![fetching_update()]);
        assert(statuses(second.notices) =~= Seq::<StatusUpdateView>::empty());
        assert(published(steps.push(first)) =~= published(steps).push(fetching_update()));
        assert(published(all) =~= published(steps.push(first)));
        assert(published(all) =~= Seq::new(polls, |i: int| fetching_update()));
    }
}

} // verus!
