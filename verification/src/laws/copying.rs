//! Copying a directory.

use crate::copy::{
    copy_dir_best_effort, CopyEntry, CopyEvent, CopyPath, CopyRun, CopyStage, EntryKind,
};
use vstd::prelude::*;
use vstd::string::*;

verus! {

/// Whether two pairs of paths are the same.
pub open spec fn same_paths(one: CopyPath<String>, other: CopyPath<String>) -> bool {
    one.source@ == other.source@ && one.target@ == other.target@
}

/// Whether two lists hold the same pairs of paths.
pub open spec fn same_lists(one: Seq<CopyPath<String>>, other: Seq<CopyPath<String>>) -> bool {
    &&& one.len() == other.len()
    &&& forall|i: int| 0 <= i < one.len() ==> same_paths(#[trigger] one[i], other[i])
}

/// Copying begins with the creation of the target directory.
pub proof fn copying_begins_with_the_directory(source: &str, target: &str, run: CopyRun)
    requires
        call_ensures(copy_dir_best_effort, (source, target), run),
    ensures
        run.stage is Create,
        run.stage->Create_0.source@ == source@,
        run.stage->Create_0.target@ == target@,
        run.outer@.len() == 0,
{
    assert(run@.outer.len() == run.outer@.len());
    assert(run@.stage == CopyStage::<Seq<char>>::Create(run.stage->Create_0@));
}

/// Whether copying ends with an error.
pub open spec fn ends_with(next: CopyRun, error: Seq<char>) -> bool {
    next.stage is Done && next.stage->Done_0 is Err && next.stage->Done_0->Err_0@ == error
}

/// Whether the next thing is to take an entry of the directory `dir`.
pub open spec fn goes_on_in(next: CopyRun, dir: CopyPath<String>) -> bool {
    next.stage is Next && same_paths(next.stage->Next_0, dir)
}

/// Whether the next thing is to write a warning, and then to go on in the directory `dir`.
pub open spec fn warns(next: CopyRun, dir: CopyPath<String>, warning: Seq<char>) -> bool {
    next.stage is Warn && same_paths(next.stage->Warn_0, dir) && next.stage->Warn_1@ == warning
}

/// Whether copying stands as before.
pub open spec fn stands_as_before(run: CopyRun, next: CopyRun) -> bool {
    match (run.stage, next.stage) {
        (CopyStage::Create(a), CopyStage::Create(b)) => same_paths(a, b),
        (CopyStage::Read(a), CopyStage::Read(b)) => same_paths(a, b),
        (CopyStage::Next(a), CopyStage::Next(b)) => same_paths(a, b),
        (CopyStage::Classify(a, c), CopyStage::Classify(b, d)) => same_paths(a, b) && same_paths(
            c,
            d,
        ),
        (CopyStage::Copy(a, c), CopyStage::Copy(b, d)) => same_paths(a, b) && same_paths(c, d),
        (CopyStage::Warn(a, c), CopyStage::Warn(b, d)) => same_paths(a, b) && c@ == d@,
        (CopyStage::Done(Ok(_)), CopyStage::Done(Ok(_))) => true,
        (CopyStage::Done(Err(a)), CopyStage::Done(Err(b))) => a@ == b@,
        _ => false,
    }
}

/// How copying goes on. Only a directory that cannot be created or read ends it with an error. An entry
/// that is to be left out, or whose kind cannot be told, is passed over; one that cannot be read, and a
/// file that cannot be copied, is warned about; a directory is entered, and left for the one around it
/// when it has no entry left; and everything else is copied. What does not answer the stage changes
/// nothing.
pub proof fn copying_goes_step_by_step(run: CopyRun, event: CopyEvent<String>, next: CopyRun)
    requires
        call_ensures(CopyRun::advance, (run, event), next),
    ensures
        match (run.stage, event) {
            (CopyStage::Create(dir), CopyEvent::Created(result)) => match result {
                Ok(_) => next.stage is Read && same_paths(next.stage->Read_0, dir),
                Err(error) => ends_with(
                    next,
                    "Failed to create directory "@ + dir.target@ + ": "@ + error@,
                ),
            },
            (CopyStage::Read(dir), CopyEvent::Opened(result)) => match result {
                Ok(_) => goes_on_in(next, dir),
                Err(error) => ends_with(
                    next,
                    "Failed to read directory "@ + dir.source@ + ": "@ + error@,
                ),
            },
            (CopyStage::Next(dir), CopyEvent::Entry(entry)) => match entry {
                CopyEntry::End => if run.outer@.len() == 0 {
                    next.stage is Done && next.stage->Done_0 is Ok
                } else {
                    goes_on_in(next, run.outer@.last())
                },
                CopyEntry::Unreadable(error) => warns(
                    next,
                    dir,
                    "Warning: failed to read entry in "@ + dir.source@ + ": "@ + error@,
                ),
                CopyEntry::Found { path, left_out } => if left_out {
                    goes_on_in(next, dir)
                } else {
                    next.stage is Classify && same_paths(next.stage->Classify_0, dir)
                        && same_paths(next.stage->Classify_1, path)
                },
            },
            (CopyStage::Classify(dir, entry), CopyEvent::Kind(kind)) => match kind {
                EntryKind::Unknown => goes_on_in(next, dir),
                EntryKind::Directory => next.stage is Create && same_paths(
                    next.stage->Create_0,
                    entry,
                ),
                EntryKind::Other => next.stage is Copy && same_paths(next.stage->Copy_0, dir)
                    && same_paths(next.stage->Copy_1, entry),
            },
            (CopyStage::Copy(dir, entry), CopyEvent::Copied(result)) => match result {
                Ok(_) => goes_on_in(next, dir),
                Err(error) => warns(
                    next,
                    dir,
                    "Warning: failed to copy "@ + entry.source@ + ": "@ + error@,
                ),
            },
            (CopyStage::Warn(dir, _), CopyEvent::Warned) => goes_on_in(next, dir),
            _ => stands_as_before(run, next),
        },
{
    outer_views(run);
    assert(next@ == crate::copy::copy_next(run@, event@));
}

/// Which directories are open around the one that is being read: one more when a directory is entered,
/// one less when one is left, and the same otherwise.
pub proof fn open_directories_are_kept_track_of(
    run: CopyRun,
    event: CopyEvent<String>,
    next: CopyRun,
)
    requires
        call_ensures(CopyRun::advance, (run, event), next),
    ensures
        match (run.stage, event) {
            (CopyStage::Classify(dir, _), CopyEvent::Kind(EntryKind::Directory)) => same_lists(
                next.outer@,
                run.outer@.push(dir),
            ),
            (CopyStage::Next(_), CopyEvent::Entry(CopyEntry::End)) => if run.outer@.len() == 0 {
                next.outer@.len() == 0
            } else {
                same_lists(next.outer@, run.outer@.drop_last())
            },
            _ => same_lists(next.outer@, run.outer@),
        },
{
    outer_views(run);
    outer_views(next);
    assert(next@ == crate::copy::copy_next(run@, event@));
    match (run.stage, event) {
        (CopyStage::Classify(dir, _), CopyEvent::Kind(EntryKind::Directory)) => {
            let outer = run.outer@.push(dir);
            assert(next@.outer == run@.outer.push(dir@));
            assert forall|i: int| 0 <= i < next.outer@.len() implies same_paths(
                #[trigger] next.outer@[i],
                outer[i],
            ) by {
                assert(next@.outer[i] == next.outer@[i]@);
                if i < run.outer@.len() {
                    assert(run@.outer[i] == run.outer@[i]@);
                }
            }
        },
        (CopyStage::Next(_), CopyEvent::Entry(CopyEntry::End)) => {
            if run.outer@.len() > 0 {
                assert(next@.outer == run@.outer.drop_last());
                assert forall|i: int| 0 <= i < next.outer@.len() implies same_paths(
                    #[trigger] next.outer@[i],
                    run.outer@.drop_last()[i],
                ) by {
                    assert(next@.outer[i] == next.outer@[i]@);
                    assert(run@.outer[i] == run.outer@[i]@);
                }
            }
        },
        _ => {
            assert(next@.outer == run@.outer);
            assert forall|i: int| 0 <= i < next.outer@.len() implies same_paths(
                #[trigger] next.outer@[i],
                run.outer@[i],
            ) by {
                assert(next@.outer[i] == next.outer@[i]@);
                assert(run@.outer[i] == run.outer@[i]@);
            }
        },
    }
}

proof fn outer_views(run: CopyRun)
    ensures
        run@.outer.len() == run.outer@.len(),
        forall|i: int| 0 <= i < run.outer@.len() ==> #[trigger] run@.outer[i] == run.outer@[i]@,
{
}

} // verus!
