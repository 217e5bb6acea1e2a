use vstd::prelude::*;

use crate::installer::{is_terminal, next_stage, InstallError, InstallStage};

verus! {

/// The part of the disk that an install touches, seen abstractly: the
/// destination directory (absent, or the relative paths of the files in it)
/// and the temporary archive (absent, or the entries it holds).
pub struct DiskState {
    pub destination: Option<Set<Seq<char>>>,
    pub archive: Option<Set<Seq<char>>>,
}

/// One outside step as it happened: whether it succeeded, and the disk after it.
pub struct StepRecord {
    pub succeeded: bool,
    pub after: DiskState,
}

pub open spec fn files_in(dir: Option<Set<Seq<char>>>) -> Set<Seq<char>> {
    match dir {
        Some(files) => files,
        None => Set::empty(),
    }
}

/// What the outside step named by `stage` may do to the disk. A failed step
/// may leave partial work behind: a half-deleted destination, a partial
/// archive, or a destination that an interrupted extraction filled with some
/// of the archive's entries.
pub open spec fn step_allowed(stage: InstallStage, before: DiskState, step: StepRecord) -> bool {
    let after = step.after;
    match stage {
        InstallStage::ClearDestination => after.archive == before.archive && (step.succeeded
            ==> after.destination is None),
        InstallStage::CreateDestination => after.archive == before.archive && (step.succeeded
            ==> after.destination == Some(Set::<Seq<char>>::empty())),
        InstallStage::Download => after.destination == before.destination && (step.succeeded
            ==> after.archive is Some),
        InstallStage::Extract => after.archive == before.archive && (step.succeeded ==> {
            &&& before.archive is Some
            &&& after.destination == Some(
                files_in(before.destination).union(before.archive->Some_0),
            )
        }) && (!step.succeeded ==> {
            &&& after.destination is Some
            &&& files_in(after.destination).subset_of(
                files_in(before.destination).union(files_in(before.archive)),
            )
        }),
        InstallStage::RemoveArchive | InstallStage::DiscardArchive(_) => after.destination
            == before.destination && (step.succeeded ==> after.archive is None),
        InstallStage::Succeeded | InstallStage::Failed(_) => false,
    }
}

/// `steps` is a sequence of outside steps that the install, started at
/// `stage` on `disk`, may have gone through.
pub open spec fn is_run(stage: InstallStage, disk: DiskState, steps: Seq<StepRecord>) -> bool
    decreases steps.len(),
{
    steps.len() == 0 || (step_allowed(stage, disk, steps[0]) && is_run(
        next_stage(stage, steps[0].succeeded),
        steps[0].after,
        steps.drop_first(),
    ))
}

/// The stage reached after `steps`.
pub open spec fn final_stage(stage: InstallStage, steps: Seq<StepRecord>) -> InstallStage
    decreases steps.len(),
{
    if steps.len() == 0 {
        stage
    } else {
        final_stage(next_stage(stage, steps[0].succeeded), steps.drop_first())
    }
}

/// The disk after `steps`.
pub open spec fn final_disk(disk: DiskState, steps: Seq<StepRecord>) -> DiskState {
    if steps.len() == 0 {
        disk
    } else {
        steps.last().after
    }
}

/// The errors with which an install at `stage` may still end.
pub open spec fn may_end_with(stage: InstallStage, e: InstallError) -> bool {
    match stage {
        InstallStage::ClearDestination | InstallStage::CreateDestination => e
            is CleanupFailed || e is DownloadFailed || e is ExtractFailed,
        InstallStage::Download => e is DownloadFailed || e is ExtractFailed || e is CleanupFailed,
        InstallStage::Extract => e is ExtractFailed || e is CleanupFailed,
        InstallStage::RemoveArchive => e is CleanupFailed,
        InstallStage::DiscardArchive(x) => e == x,
        InstallStage::Succeeded => false,
        InstallStage::Failed(x) => e == x,
    }
}

proof fn lemma_terminal_run_is_empty(stage: InstallStage, disk: DiskState, steps: Seq<StepRecord>)
    requires
        is_terminal(stage),
        is_run(stage, disk, steps),
    ensures
        steps.len() == 0,
{
}

proof fn lemma_failure_reachable(stage: InstallStage, disk: DiskState, steps: Seq<StepRecord>)
    requires
        is_run(stage, disk, steps),
        final_stage(stage, steps) is Failed,
    ensures
        may_end_with(stage, final_stage(stage, steps)->Failed_0),
    decreases steps.len(),
{
    if steps.len() > 0 {
        lemma_failure_reachable(
            next_stage(stage, steps[0].succeeded),
            steps[0].after,
            steps.drop_first(),
        );
    }
}

proof fn lemma_rest_keeps_last(steps: Seq<StepRecord>)
    requires
        steps.len() >= 2,
    ensures
        steps.drop_first().last() == steps.last(),
{
}

proof fn lemma_succeeded_from_remove(disk: DiskState, steps: Seq<StepRecord>)
    requires
        is_run(InstallStage::RemoveArchive, disk, steps),
        final_stage(InstallStage::RemoveArchive, steps) == InstallStage::Succeeded,
    ensures
        steps.len() == 1,
        final_disk(disk, steps).archive is None,
        final_disk(disk, steps).destination == disk.destination,
{
    let next = next_stage(InstallStage::RemoveArchive, steps[0].succeeded);
    lemma_terminal_run_is_empty(next, steps[0].after, steps.drop_first());
    assert(final_stage(next, steps.drop_first()) == next);
}

proof fn lemma_succeeded_from_extract(disk: DiskState, steps: Seq<StepRecord>)
    requires
        is_run(InstallStage::Extract, disk, steps),
        final_stage(InstallStage::Extract, steps) == InstallStage::Succeeded,
        disk.destination == Some(Set::<Seq<char>>::empty()),
    ensures
        steps.len() == 2,
        final_disk(disk, steps).archive is None,
        final_disk(disk, steps).destination == disk.archive,
{
    let rest = steps.drop_first();
    if !steps[0].succeeded {
        lemma_succeeded_from_discard(InstallError::ExtractFailed, steps[0].after, rest);
    }
    lemma_succeeded_from_remove(steps[0].after, rest);
    assert(Set::<Seq<char>>::empty().union(disk.archive->Some_0) =~= disk.archive->Some_0);
    lemma_rest_keeps_last(steps);
}

proof fn lemma_succeeded_from_discard(e: InstallError, disk: DiskState, steps: Seq<StepRecord>)
    requires
        is_run(InstallStage::DiscardArchive(e), disk, steps),
    ensures
        final_stage(InstallStage::DiscardArchive(e), steps) != InstallStage::Succeeded,
{
    if steps.len() > 0 {
        lemma_terminal_run_is_empty(InstallStage::Failed(e), steps[0].after, steps.drop_first());
        assert(final_stage(InstallStage::Failed(e), steps.drop_first()) == InstallStage::Failed(e));
    }
}

proof fn lemma_succeeded_from_download(disk: DiskState, steps: Seq<StepRecord>)
    requires
        is_run(InstallStage::Download, disk, steps),
        final_stage(InstallStage::Download, steps) == InstallStage::Succeeded,
        disk.destination == Some(Set::<Seq<char>>::empty()),
    ensures
        steps.len() == 3,
        final_disk(disk, steps).archive is None,
        final_disk(disk, steps).destination == steps[0].after.archive,
{
    let rest = steps.drop_first();
    if !steps[0].succeeded {
        lemma_succeeded_from_discard(InstallError::DownloadFailed, steps[0].after, rest);
    }
    lemma_succeeded_from_extract(steps[0].after, rest);
    lemma_rest_keeps_last(steps);
}

proof fn lemma_succeeded_from_create(disk: DiskState, steps: Seq<StepRecord>)
    requires
        is_run(InstallStage::CreateDestination, disk, steps),
        final_stage(InstallStage::CreateDestination, steps) == InstallStage::Succeeded,
    ensures
        steps.len() == 4,
        final_disk(disk, steps).archive is None,
        final_disk(disk, steps).destination == steps[1].after.archive,
{
    let rest = steps.drop_first();
    if !steps[0].succeeded {
        lemma_terminal_run_is_empty(
            InstallStage::Failed(InstallError::CleanupFailed),
            steps[0].after,
            rest,
        );
        assert(final_stage(InstallStage::Failed(InstallError::CleanupFailed), rest)
            == InstallStage::Failed(InstallError::CleanupFailed));
    }
    lemma_succeeded_from_download(steps[0].after, rest);
    lemma_rest_keeps_last(steps);
}

/// A successful install took exactly five steps, leaves no archive behind,
/// and leaves the destination holding exactly the entries of the archive that
/// was downloaded (the disk after the third step), whatever the disk held
/// before.
pub proof fn lemma_success_leaves_exactly_archive(disk: DiskState, steps: Seq<StepRecord>)
    requires
        is_run(InstallStage::ClearDestination, disk, steps),
        final_stage(InstallStage::ClearDestination, steps) == InstallStage::Succeeded,
    ensures
        steps.len() == 5,
        final_disk(disk, steps).archive is None,
        final_disk(disk, steps).destination == steps[2].after.archive,
{
    let rest = steps.drop_first();
    if !steps[0].succeeded {
        lemma_terminal_run_is_empty(
            InstallStage::Failed(InstallError::CleanupFailed),
            steps[0].after,
            rest,
        );
        assert(final_stage(InstallStage::Failed(InstallError::CleanupFailed), rest)
            == InstallStage::Failed(InstallError::CleanupFailed));
    }
    lemma_succeeded_from_create(steps[0].after, rest);
    lemma_rest_keeps_last(steps);
}

/// Clean slate: after a successful install no file that was in the
/// destination before survives, unless the downloaded archive holds it.
pub proof fn lemma_success_removes_old_files(
    disk: DiskState,
    steps: Seq<StepRecord>,
    file: Seq<char>,
)
    requires
        is_run(InstallStage::ClearDestination, disk, steps),
        final_stage(InstallStage::ClearDestination, steps) == InstallStage::Succeeded,
        files_in(disk.destination).contains(file),
        !files_in(steps[2].after.archive).contains(file),
    ensures
        !files_in(final_disk(disk, steps).destination).contains(file),
{
    lemma_success_leaves_exactly_archive(disk, steps);
}

/// Stages from which a download failure can still leave the destination
/// empty: before the destination is created, or after it was created empty.
pub open spec fn destination_settled(stage: InstallStage, disk: DiskState) -> bool {
    match stage {
        InstallStage::ClearDestination | InstallStage::CreateDestination => true,
        InstallStage::Download | InstallStage::DiscardArchive(_) => disk.destination == Some(
            Set::<Seq<char>>::empty(),
        ),
        _ => false,
    }
}

proof fn lemma_failed_run_discards(
    stage: InstallStage,
    disk: DiskState,
    steps: Seq<StepRecord>,
    e: InstallError,
)
    requires
        is_run(stage, disk, steps),
        final_stage(stage, steps) == InstallStage::Failed(e),
        e is DownloadFailed || e is ExtractFailed,
        steps.len() > 0,
        steps.last().succeeded,
        !is_terminal(stage),
    ensures
        final_disk(disk, steps).archive is None,
        e is DownloadFailed && destination_settled(stage, disk) ==> final_disk(disk, steps).destination
            == Some(Set::<Seq<char>>::empty()),
    decreases steps.len(),
{
    lemma_failure_reachable(stage, disk, steps);
    let next = next_stage(stage, steps[0].succeeded);
    let rest = steps.drop_first();
    if rest.len() == 0 {
        assert(final_stage(next, rest) == next);
        assert(steps.last() == steps[0]);
    } else {
        if is_terminal(next) {
            lemma_terminal_run_is_empty(next, steps[0].after, rest);
        }
        lemma_rest_keeps_last(steps);
        lemma_failed_run_discards(next, steps[0].after, rest, e);
        if stage is Download && steps[0].succeeded {
            lemma_failure_reachable(next, steps[0].after, rest);
        }
    }
}

/// A failed download leaves the destination created and empty, and, once the
/// partial archive has been removed (the last step succeeded), no archive.
pub proof fn lemma_download_failure_leaves_empty_destination(
    disk: DiskState,
    steps: Seq<StepRecord>,
)
    requires
        is_run(InstallStage::ClearDestination, disk, steps),
        final_stage(InstallStage::ClearDestination, steps) == InstallStage::Failed(
            InstallError::DownloadFailed,
        ),
        steps.last().succeeded,
    ensures
        final_disk(disk, steps).destination == Some(Set::<Seq<char>>::empty()),
        final_disk(disk, steps).archive is None,
{
    lemma_failed_run_discards(
        InstallStage::ClearDestination,
        disk,
        steps,
        InstallError::DownloadFailed,
    );
}

/// The number of successful steps that take `stage` to success.
pub open spec fn steps_to_success(stage: InstallStage) -> nat {
    match stage {
        InstallStage::ClearDestination => 5,
        InstallStage::CreateDestination => 4,
        InstallStage::Download => 3,
        InstallStage::Extract => 2,
        InstallStage::RemoveArchive => 1,
        _ => 0,
    }
}

proof fn lemma_all_steps_succeed(stage: InstallStage, steps: Seq<StepRecord>)
    requires
        !(stage is DiscardArchive),
        !(stage is Failed),
        steps.len() == steps_to_success(stage),
        forall|i: int| 0 <= i < steps.len() ==> (#[trigger] steps[i]).succeeded,
    ensures
        final_stage(stage, steps) == InstallStage::Succeeded,
    decreases steps.len(),
{
    if steps.len() > 0 {
        let rest = steps.drop_first();
        assert forall|i: int| 0 <= i < rest.len() implies (#[trigger] rest[i]).succeeded by {
            assert(rest[i] == steps[i + 1]);
        }
        lemma_all_steps_succeed(next_stage(stage, steps[0].succeeded), rest);
    }
}

/// A failed extraction removes the archive (once that removal, the last
/// step, succeeded), and whatever partial content it left in the destination,
/// a later install whose five steps all succeed ends in success with the
/// destination holding exactly the freshly downloaded archive's entries.
pub proof fn lemma_retry_after_failed_extraction(
    disk: DiskState,
    first: Seq<StepRecord>,
    second: Seq<StepRecord>,
)
    requires
        is_run(InstallStage::ClearDestination, disk, first),
        final_stage(InstallStage::ClearDestination, first) == InstallStage::Failed(
            InstallError::ExtractFailed,
        ),
        first.last().succeeded,
        is_run(InstallStage::ClearDestination, final_disk(disk, first), second),
        second.len() == 5,
        forall|i: int| 0 <= i < second.len() ==> (#[trigger] second[i]).succeeded,
    ensures
        final_disk(disk, first).archive is None,
        final_stage(InstallStage::ClearDestination, second) == InstallStage::Succeeded,
        final_disk(final_disk(disk, first), second).destination == second[2].after.archive,
        final_disk(final_disk(disk, first), second).archive is None,
{
    lemma_failed_run_discards(
        InstallStage::ClearDestination,
        disk,
        first,
        InstallError::ExtractFailed,
    );
    lemma_all_steps_succeed(InstallStage::ClearDestination, second);
    lemma_success_leaves_exactly_archive(final_disk(disk, first), second);
}

proof fn lemma_final_disk_unfold(disk: DiskState, steps: Seq<StepRecord>)
    requires
        steps.len() >= 1,
    ensures
        final_disk(disk, steps) == final_disk(steps[0].after, steps.drop_first()),
{
    if steps.len() >= 2 {
        lemma_rest_keeps_last(steps);
    }
}

/// After the destination was created empty, and the archive (if it was
/// downloaded) holds `entries`: the destination holds nothing else.
pub open spec fn holds_only(stage: InstallStage, disk: DiskState, entries: Set<Seq<char>>) -> bool {
    &&& disk.destination is Some
    &&& match stage {
        InstallStage::Extract => disk.destination == Some(Set::<Seq<char>>::empty())
            && disk.archive == Some(entries),
        InstallStage::ClearDestination | InstallStage::CreateDestination
        | InstallStage::Download => false,
        _ => files_in(disk.destination).subset_of(entries),
    }
}

proof fn lemma_holds_only_to_end(
    stage: InstallStage,
    disk: DiskState,
    steps: Seq<StepRecord>,
    entries: Set<Seq<char>>,
)
    requires
        is_run(stage, disk, steps),
        holds_only(stage, disk, entries),
    ensures
        final_disk(disk, steps).destination is Some,
        files_in(final_disk(disk, steps).destination).subset_of(entries),
    decreases steps.len(),
{
    if steps.len() == 0 {
        if stage is Extract {
            assert(files_in(disk.destination) =~= Set::<Seq<char>>::empty());
        }
    } else {
        let next = next_stage(stage, steps[0].succeeded);
        let after = steps[0].after;
        if stage is Extract {
            assert(files_in(disk.destination).union(entries) =~= entries);
            assert(files_in(disk.destination).union(files_in(disk.archive)) =~= entries);
        }
        assert(holds_only(next, after, entries));
        lemma_holds_only_to_end(next, after, steps.drop_first(), entries);
        lemma_final_disk_unfold(disk, steps);
    }
}

/// Clean slate, whatever the outcome: once the destination has been removed
/// and re-created, it ends up holding nothing but entries of the downloaded
/// archive (the disk after the third step), and nothing at all where the
/// download failed or never ran. Nothing it held before survives unless the
/// archive holds it too.
pub proof fn lemma_destination_holds_only_archive_entries(
    disk: DiskState,
    steps: Seq<StepRecord>,
)
    requires
        is_run(InstallStage::ClearDestination, disk, steps),
        steps.len() >= 2,
        steps[0].succeeded,
        steps[1].succeeded,
    ensures
        final_disk(disk, steps).destination is Some,
        files_in(final_disk(disk, steps).destination).subset_of(
            if steps.len() >= 3 && steps[2].succeeded {
                files_in(steps[2].after.archive)
            } else {
                Set::<Seq<char>>::empty()
            },
        ),
{
    let rest1 = steps.drop_first();
    let rest2 = rest1.drop_first();
    lemma_final_disk_unfold(disk, steps);
    lemma_final_disk_unfold(steps[0].after, rest1);
    assert(rest1[0] == steps[1]);
    assert(is_run(InstallStage::CreateDestination, steps[0].after, rest1));
    assert(step_allowed(InstallStage::CreateDestination, steps[0].after, rest1[0]));
    let created = steps[1].after;
    assert(is_run(InstallStage::Download, created, rest2));
    assert(created.destination == Some(Set::<Seq<char>>::empty()));
    if rest2.len() == 0 {
        assert(files_in(created.destination) =~= Set::<Seq<char>>::empty());
    } else {
        assert(rest2[0] == steps[2]);
        assert(step_allowed(InstallStage::Download, created, rest2[0]));
        let fetched = steps[2];
        let entries = if fetched.succeeded {
            files_in(fetched.after.archive)
        } else {
            Set::<Seq<char>>::empty()
        };
        let next = next_stage(InstallStage::Download, fetched.succeeded);
        assert(holds_only(next, fetched.after, entries)) by {
            if !fetched.succeeded {
                assert(files_in(fetched.after.destination) =~= Set::<Seq<char>>::empty());
            }
        }
        lemma_final_disk_unfold(created, rest2);
        lemma_holds_only_to_end(next, fetched.after, rest2.drop_first(), entries);
    }
}

} // verus!
