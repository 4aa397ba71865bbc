//! Cloning a seed.

use crate::clone_seed::{clone_dir_with_id, clone_seed_to_temp, CloneEvent, CloneRun, CloneStage};
use crate::metadata::SeedMetadata;
use crate::name::validate_seed_name;
use vstd::prelude::*;
use vstd::string::*;

verus! {

/// The name of a clone's directory is made of a fixed word, the seed's name and the id.
pub proof fn a_directory_is_named_after_seed_and_id(name: &str, id: &str, dir: String)
    requires
        call_ensures(clone_dir_with_id, (name, id), dir),
    ensures
        dir@ == "agent-browser-seed-"@ + name@ + "-"@ + id@,
{
}

/// A clone of a valid name begins with a look for the seed. Any other name is refused at once, with the
/// error that belongs to it.
pub proof fn cloning_begins_with_a_look(
    name: &str,
    result: Result<(), String>,
    run: CloneRun<String, SeedMetadata>,
)
    requires
        call_ensures(validate_seed_name, (name,), result),
        call_ensures(clone_seed_to_temp, (name,), run),
    ensures
        run.name@ == name@,
        match result {
            Ok(_) => run.stage is Inspect,
            Err(error) => run.stage is Done && run.stage->Done_0 is Err
                && run.stage->Done_0->Err_0@ == error@,
        },
{
}

/// Whenever the metadata of the seed has been read, whatever it holds, the clone goes to a directory of
/// its own: one that is named after the seed and an id that was drawn for it, of the form of a random
/// UUID. The clone keeps the metadata that was read.
pub proof fn a_clone_goes_to_a_directory_of_its_own(
    run: CloneRun<String, SeedMetadata>,
    metadata: SeedMetadata,
    next: CloneRun<String, SeedMetadata>,
) -> (id: String)
    requires
        run.stage is Read,
        call_ensures(
            CloneRun::<String, SeedMetadata>::advance,
            (run, CloneEvent::Metadata(Ok(metadata))),
            next,
        ),
    ensures
        crate::clone_seed::drawn_id(id),
        id@.len() == 36,
        forall|i: int|
            0 <= i < 36 ==> if i == 8 || i == 13 || i == 18 || i == 23 {
                #[trigger] id@[i] == '-'
            } else {
                '0' <= id@[i] <= '9' || 'a' <= id@[i] <= 'f'
            },
        id@[14] == '4',
        id@[19] == '8' || id@[19] == '9' || id@[19] == 'a' || id@[19] == 'b',
        next.name@ == run.name@,
        next.stage is Create,
        next.stage->Create_directory@ == "agent-browser-seed-"@ + run.name@ + "-"@ + id@,
        crate::laws::listing::fields(next.stage->Create_metadata) == crate::laws::listing::fields(
            metadata,
        ),
{
    assert(next.stage->Create_metadata@ == metadata@);
    choose|id: String|
        #[trigger] crate::clone_seed::drawn_id(id) && crate::clone_seed::random_id_text(id@)
            && next.stage->Create_directory@ == "agent-browser-seed-"@ + run.name@ + "-"@ + id@
}

/// Two clones go to the same directory only if they are of one seed and the same id was drawn for both.
pub proof fn clones_of_different_ids_lie_apart(
    run1: CloneRun<String, SeedMetadata>,
    metadata1: SeedMetadata,
    next1: CloneRun<String, SeedMetadata>,
    run2: CloneRun<String, SeedMetadata>,
    metadata2: SeedMetadata,
    next2: CloneRun<String, SeedMetadata>,
) -> (ids: (String, String))
    requires
        run1.stage is Read,
        run2.stage is Read,
        call_ensures(
            CloneRun::<String, SeedMetadata>::advance,
            (run1, CloneEvent::Metadata(Ok(metadata1))),
            next1,
        ),
        call_ensures(
            CloneRun::<String, SeedMetadata>::advance,
            (run2, CloneEvent::Metadata(Ok(metadata2))),
            next2,
        ),
    ensures
        crate::clone_seed::drawn_id(ids.0),
        crate::clone_seed::drawn_id(ids.1),
        next1.stage->Create_directory@ == next2.stage->Create_directory@ <==> run1.name@ == run2.name@
            && ids.0@ == ids.1@,
{
    let id1 = a_clone_goes_to_a_directory_of_its_own(run1, metadata1, next1);
    let id2 = a_clone_goes_to_a_directory_of_its_own(run2, metadata2, next2);
    if next1.stage->Create_directory@ == next2.stage->Create_directory@ {
        assert(crate::clone_seed::random_id_text(id1@));
        assert(crate::clone_seed::random_id_text(id2@));
        crate::clone_seed::clones_do_not_share_directories(run1.name@, id1@, run2.name@, id2@);
    }
    (id1, id2)
}

/// Whether cloning stands as before.
pub open spec fn stands_as_before(
    run: CloneRun<String, SeedMetadata>,
    next: CloneRun<String, SeedMetadata>,
) -> bool {
    match (run.stage, next.stage) {
        (CloneStage::Inspect, CloneStage::Inspect) => true,
        (CloneStage::Read, CloneStage::Read) => true,
        (
            CloneStage::Create { directory: d1, metadata: m1 },
            CloneStage::Create { directory: d2, metadata: m2 },
        ) => d1@ == d2@ && crate::laws::listing::fields(m1) == crate::laws::listing::fields(m2),
        (
            CloneStage::Copy { directory: d1, metadata: m1 },
            CloneStage::Copy { directory: d2, metadata: m2 },
        ) => d1@ == d2@ && crate::laws::listing::fields(m1) == crate::laws::listing::fields(m2),
        (CloneStage::Done(Ok(c1)), CloneStage::Done(Ok(c2))) => c1.0@ == c2.0@
            && crate::laws::listing::fields(c1.1) == crate::laws::listing::fields(c2.1),
        (CloneStage::Done(Err(e1)), CloneStage::Done(Err(e2))) => e1@ == e2@,
        _ => false,
    }
}

/// Whether cloning ends with an error.
pub open spec fn ends_with(next: CloneRun<String, SeedMetadata>, error: Seq<char>) -> bool {
    next.stage is Done && next.stage->Done_0 is Err && next.stage->Done_0->Err_0@ == error
}

/// How cloning goes on, but for the naming of the directory: a seed that is not there, metadata that
/// cannot be read, and a directory that cannot be created or filled each end it with an error that says
/// so; otherwise it goes from reading to creating, copying and the outcome, with the directory and the
/// metadata that it has. What does not answer the stage changes nothing.
pub proof fn cloning_goes_step_by_step(
    run: CloneRun<String, SeedMetadata>,
    event: CloneEvent<String, SeedMetadata>,
    next: CloneRun<String, SeedMetadata>,
)
    requires
        call_ensures(CloneRun::<String, SeedMetadata>::advance, (run, event), next),
    ensures
        next.name@ == run.name@,
        match (run.stage, event) {
            (CloneStage::Inspect, CloneEvent::Directory(found)) => if found {
                next.stage is Read
            } else {
                ends_with(
                    next,
                    "Seed '"@ + run.name@ + "' not found. Run `agent-browser seed save "@
                        + run.name@ + " --profile <name>` first."@,
                )
            },
            (CloneStage::Read, CloneEvent::Metadata(result)) => match result {
                Ok(metadata) => next.stage is Create && crate::laws::listing::fields(
                    next.stage->Create_metadata,
                ) == crate::laws::listing::fields(metadata),
                Err(error) => ends_with(next, error@),
            },
            (CloneStage::Create { directory, metadata }, CloneEvent::Created(result)) => match result {
                Ok(_) => next.stage is Copy && next.stage->Copy_directory@ == directory@
                    && crate::laws::listing::fields(next.stage->Copy_metadata)
                    == crate::laws::listing::fields(metadata),
                Err(error) => ends_with(next, "Failed to create temp seed dir: "@ + error@),
            },
            (CloneStage::Copy { directory, metadata }, CloneEvent::Copied(result)) => match result {
                Ok(_) => next.stage is Done && next.stage->Done_0 is Ok
                    && next.stage->Done_0->Ok_0.0@ == directory@ && crate::laws::listing::fields(
                    next.stage->Done_0->Ok_0.1,
                ) == crate::laws::listing::fields(metadata),
                Err(error) => ends_with(next, error@),
            },
            _ => stands_as_before(run, next),
        },
{
}

/// The same of a step with a given id, which names the directory.
pub proof fn cloning_with_an_id_goes_step_by_step(
    run: CloneRun<String, SeedMetadata>,
    event: CloneEvent<String, SeedMetadata>,
    id: &str,
    next: CloneRun<String, SeedMetadata>,
    other: CloneRun<String, SeedMetadata>,
)
    requires
        call_ensures(CloneRun::<String, SeedMetadata>::advance_with_id, (run, event, id), next),
        call_ensures(CloneRun::<String, SeedMetadata>::advance, (run, event), other),
    ensures
        run.stage is Read && event is Metadata && event->Metadata_0 is Ok ==> next.stage is Create
            && next.stage->Create_directory@ == "agent-browser-seed-"@ + run.name@ + "-"@ + id@
            && crate::laws::listing::fields(next.stage->Create_metadata)
            == crate::laws::listing::fields(event->Metadata_0->Ok_0),
        !(run.stage is Read && event is Metadata && event->Metadata_0 is Ok) ==> stands_as_before(
            other,
            next,
        ),
        next.name@ == run.name@,
{
    assert(next@ == crate::clone_seed::clone_next(run@, event@, id@));
    if !(run.stage is Read && event is Metadata && event->Metadata_0 is Ok) {
        assert(next@ == other@);
    }
}

} // verus!
