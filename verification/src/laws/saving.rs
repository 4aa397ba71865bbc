//! Saving a seed.

use crate::metadata::{chrono_now, SeedMetadata};
use crate::name::validate_seed_name;
use crate::save::{save_seed, SaveEvent, SaveRun, SaveStage};
use vstd::prelude::*;
use vstd::string::*;

verus! {

/// Saving under a valid name begins with a look for Chrome's user data directory. Any other name is
/// refused at once, with the error that belongs to it.
pub proof fn saving_begins_with_a_look(
    name: &str,
    source_profile: &str,
    result: Result<(), String>,
    run: SaveRun<String, SeedMetadata>,
)
    requires
        call_ensures(validate_seed_name, (name,), result),
        call_ensures(save_seed, (name, source_profile), run),
    ensures
        run.name@ == name@,
        run.source_profile@ == source_profile@,
        match result {
            Ok(_) => run.stage is Locate,
            Err(error) => run.stage is Done && run.stage->Done_0 is Err
                && run.stage->Done_0->Err_0@ == error@,
        },
{
}

/// The time that is recorded is the number of seconds that the clock shows, in decimal digits; zero for
/// a clock that stands before the Unix epoch.
pub proof fn the_recorded_time_is_the_clocks(since_epoch: Option<u64>, text: String)
    requires
        call_ensures(chrono_now, (since_epoch,), text),
    ensures
        crate::laws::texts::is_decimal(text@),
        crate::text::decimal_value(text@) == (match since_epoch {
            Some(seconds) => seconds as int,
            None => 0,
        }),
{
    let n = crate::metadata::clock_seconds(since_epoch);
    crate::laws::texts::decimal_is_decimal(n);
    crate::text::decimal_reads_back(n);
}

/// What is recorded when the clock is read: the seed's name, the directory that the profile was found to
/// be, the profile that was asked for, and the time that the clock shows.
pub proof fn the_clock_is_recorded(
    run: SaveRun<String, SeedMetadata>,
    clock: Option<u64>,
    next: SaveRun<String, SeedMetadata>,
)
    requires
        run.stage is Stamp,
        call_ensures(
            SaveRun::<String, SeedMetadata>::advance,
            (run, SaveEvent::Clock(clock)),
            next,
        ),
    ensures
        next.stage is Encode,
        next.stage->Encode_metadata.name@ == run.name@,
        next.stage->Encode_metadata.profile_directory@ == run.stage->Stamp_profile_directory@,
        next.stage->Encode_metadata.source_profile@ == run.source_profile@,
        crate::laws::texts::is_decimal(next.stage->Encode_metadata.created_at@),
        crate::text::decimal_value(next.stage->Encode_metadata.created_at@) == (match clock {
            Some(seconds) => seconds as int,
            None => 0,
        }),
{
    let n = crate::metadata::clock_seconds(clock);
    crate::laws::texts::decimal_is_decimal(n);
    crate::text::decimal_reads_back(n);
    assert(next@.stage->Encode_metadata == next.stage->Encode_metadata@);
}

/// Whether saving ends with an error.
pub open spec fn ends_with(next: SaveRun<String, SeedMetadata>, error: Seq<char>) -> bool {
    next.stage is Done && next.stage->Done_0 is Err && next.stage->Done_0->Err_0@ == error
}

/// Whether two stages are the same.
pub open spec fn same_stage(
    one: SaveStage<String, SeedMetadata>,
    other: SaveStage<String, SeedMetadata>,
) -> bool {
    match (one, other) {
        (SaveStage::Locate, SaveStage::Locate) => true,
        (SaveStage::Resolve, SaveStage::Resolve) => true,
        (
            SaveStage::Inspect { profile_directory: a },
            SaveStage::Inspect { profile_directory: b },
        ) => a@ == b@,
        (
            SaveStage::Replace { profile_directory: a },
            SaveStage::Replace { profile_directory: b },
        ) => a@ == b@,
        (
            SaveStage::Create { profile_directory: a },
            SaveStage::Create { profile_directory: b },
        ) => a@ == b@,
        (
            SaveStage::Copy { profile_directory: a },
            SaveStage::Copy { profile_directory: b },
        ) => a@ == b@,
        (
            SaveStage::Stamp { profile_directory: a },
            SaveStage::Stamp { profile_directory: b },
        ) => a@ == b@,
        (SaveStage::Encode { metadata: a }, SaveStage::Encode { metadata: b }) =>
            crate::laws::listing::fields(a) == crate::laws::listing::fields(b),
        (
            SaveStage::Write { metadata: a, json: x },
            SaveStage::Write { metadata: b, json: y },
        ) => crate::laws::listing::fields(a) == crate::laws::listing::fields(b) && x@ == y@,
        (SaveStage::Done(Ok(a)), SaveStage::Done(Ok(b))) => crate::laws::listing::fields(a)
            == crate::laws::listing::fields(b),
        (SaveStage::Done(Err(a)), SaveStage::Done(Err(b))) => a@ == b@,
        _ => false,
    }
}

/// How saving goes on, but for what is recorded when the clock is read. An older seed is removed where
/// there is one, and only there; whatever fails ends saving with an error that says what failed; and the
/// metadata that is reported is what was encoded and written. What does not answer the stage changes
/// nothing.
pub proof fn saving_goes_step_by_step(
    run: SaveRun<String, SeedMetadata>,
    event: SaveEvent<String>,
    next: SaveRun<String, SeedMetadata>,
)
    requires
        call_ensures(SaveRun::<String, SeedMetadata>::advance, (run, event), next),
    ensures
        next.name@ == run.name@,
        next.source_profile@ == run.source_profile@,
        match (run.stage, event) {
            (SaveStage::Locate, SaveEvent::Located(found)) => if found {
                next.stage is Resolve
            } else {
                ends_with(
                    next,
                    "No Chrome user data directory found. Cannot snapshot a profile."@,
                )
            },
            (SaveStage::Resolve, SaveEvent::Resolved(result)) => match result {
                Ok(directory) => next.stage is Inspect && next.stage->Inspect_profile_directory@
                    == directory@,
                Err(error) => ends_with(next, error@),
            },
            (SaveStage::Inspect { profile_directory }, SaveEvent::Exists(exists)) => if exists {
                next.stage is Replace && next.stage->Replace_profile_directory@
                    == profile_directory@
            } else {
                next.stage is Create && next.stage->Create_profile_directory@ == profile_directory@
            },
            (SaveStage::Replace { profile_directory }, SaveEvent::Removed(result)) => match result {
                Ok(_) => next.stage is Create && next.stage->Create_profile_directory@
                    == profile_directory@,
                Err(error) => ends_with(
                    next,
                    "Failed to replace existing seed "@ + run.name@ + ": "@ + error@,
                ),
            },
            (SaveStage::Create { profile_directory }, SaveEvent::Created(result)) => match result {
                Ok(_) => next.stage is Copy && next.stage->Copy_profile_directory@
                    == profile_directory@,
                Err(error) => ends_with(next, "Failed to create seed dir: "@ + error@),
            },
            (SaveStage::Copy { profile_directory }, SaveEvent::Copied(result)) => match result {
                Ok(_) => next.stage is Stamp && next.stage->Stamp_profile_directory@
                    == profile_directory@,
                Err(error) => ends_with(next, error@),
            },
            (SaveStage::Stamp { .. }, SaveEvent::Clock(_)) => next.stage is Encode,
            (SaveStage::Encode { metadata }, SaveEvent::Encoded(result)) => match result {
                Ok(json) => next.stage is Write && crate::laws::listing::fields(
                    next.stage->Write_metadata,
                ) == crate::laws::listing::fields(metadata) && next.stage->json@ == json@,
                Err(error) => ends_with(next, "Failed to serialize seed metadata: "@ + error@),
            },
            (SaveStage::Write { metadata, .. }, SaveEvent::Written(result)) => match result {
                Ok(_) => next.stage is Done && next.stage->Done_0 is Ok
                    && crate::laws::listing::fields(next.stage->Done_0->Ok_0)
                    == crate::laws::listing::fields(metadata),
                Err(error) => ends_with(next, "Failed to write seed metadata: "@ + error@),
            },
            _ => same_stage(run.stage, next.stage),
        },
{
}

/// Whether each run comes from the one before it by taking note of an event.
pub open spec fn is_history(
    runs: Seq<SaveRun<String, SeedMetadata>>,
    events: Seq<SaveEvent<String>>,
) -> bool {
    &&& runs.len() == events.len() + 1
    &&& forall|k: int|
        0 <= k < events.len() ==> call_ensures(
            SaveRun::<String, SeedMetadata>::advance,
            (runs[k], #[trigger] events[k]),
            runs[k + 1],
        )
}

/// Whether at place `k` the profile was found to be the directory `directory`.
pub open spec fn resolved_at(
    runs: Seq<SaveRun<String, SeedMetadata>>,
    events: Seq<SaveEvent<String>>,
    k: int,
    directory: Seq<char>,
) -> bool {
    &&& 0 <= k < events.len()
    &&& runs[k].stage is Resolve
    &&& events[k] is Resolved
    &&& events[k]->Resolved_0 is Ok
    &&& events[k]->Resolved_0->Ok_0@ == directory
}

/// Whether at place `k` the clock was read, and shows the time `created_at`.
pub open spec fn stamped_at(
    runs: Seq<SaveRun<String, SeedMetadata>>,
    events: Seq<SaveEvent<String>>,
    k: int,
    created_at: Seq<char>,
) -> bool {
    &&& 0 <= k < events.len()
    &&& runs[k].stage is Stamp
    &&& events[k] is Clock
    &&& crate::laws::texts::is_decimal(created_at)
    &&& crate::text::decimal_value(created_at) == (match events[k]->Clock_0 {
        Some(seconds) => seconds as int,
        None => 0,
    })
}

/// A seed that has been saved is recorded under the name and the profile that were asked for, with the
/// directory that the profile was found to be, and with the time that the clock then showed.
pub proof fn a_saved_seed_records_what_happened(
    name: &str,
    source_profile: &str,
    runs: Seq<SaveRun<String, SeedMetadata>>,
    events: Seq<SaveEvent<String>>,
    metadata: SeedMetadata,
) -> (places: (int, int))
    requires
        is_history(runs, events),
        call_ensures(save_seed, (name, source_profile), runs[0]),
        runs.last().stage == SaveStage::<String, SeedMetadata>::Done(Ok(metadata)),
    ensures
        metadata.name@ == name@,
        metadata.source_profile@ == source_profile@,
        resolved_at(runs, events, places.0, metadata.profile_directory@),
        stamped_at(runs, events, places.1, metadata.created_at@),
        places.0 < places.1,
{
    what_happened(name, source_profile, runs, events, events.len() as int)
}

/// What must have happened for saving to stand where it does after `n` events.
proof fn what_happened(
    name: &str,
    source_profile: &str,
    runs: Seq<SaveRun<String, SeedMetadata>>,
    events: Seq<SaveEvent<String>>,
    n: int,
) -> (places: (int, int))
    requires
        is_history(runs, events),
        call_ensures(save_seed, (name, source_profile), runs[0]),
        0 <= n <= events.len(),
    ensures
        runs[n].name@ == name@,
        runs[n].source_profile@ == source_profile@,
        places.0 < n && places.1 < n || n == 0,
        match runs[n].stage {
            SaveStage::Locate => true,
            SaveStage::Resolve => true,
            SaveStage::Inspect { profile_directory } => resolved_at(
                runs,
                events,
                places.0,
                profile_directory@,
            ),
            SaveStage::Replace { profile_directory } => resolved_at(
                runs,
                events,
                places.0,
                profile_directory@,
            ),
            SaveStage::Create { profile_directory } => resolved_at(
                runs,
                events,
                places.0,
                profile_directory@,
            ),
            SaveStage::Copy { profile_directory } => resolved_at(
                runs,
                events,
                places.0,
                profile_directory@,
            ),
            SaveStage::Stamp { profile_directory } => resolved_at(
                runs,
                events,
                places.0,
                profile_directory@,
            ),
            SaveStage::Encode { metadata } => recorded(
                name@,
                source_profile@,
                runs,
                events,
                places,
                metadata,
            ),
            SaveStage::Write { metadata, .. } => recorded(
                name@,
                source_profile@,
                runs,
                events,
                places,
                metadata,
            ),
            SaveStage::Done(Ok(metadata)) => recorded(
                name@,
                source_profile@,
                runs,
                events,
                places,
                metadata,
            ),
            SaveStage::Done(Err(_)) => true,
        },
    decreases n,
{
    if n == 0 {
        (0, 0)
    } else {
        let k = n - 1;
        let (resolve, stamp) = what_happened(name, source_profile, runs, events, k);
        let (resolve, stamp) = if k == 0 {
            (-1int, -1int)
        } else {
            (resolve, stamp)
        };
        assert(call_ensures(
            SaveRun::<String, SeedMetadata>::advance,
            (runs[k], events[k]),
            runs[k + 1],
        ));
        saving_goes_step_by_step(runs[k], events[k], runs[n]);
        match (runs[k].stage, events[k]) {
            (SaveStage::Resolve, SaveEvent::Resolved(_)) => (k, stamp),
            (SaveStage::Stamp { .. }, SaveEvent::Clock(clock)) => {
                the_clock_is_recorded(runs[k], clock, runs[n]);
                (resolve, k)
            },
            _ => (resolve, stamp),
        }
    }
}

/// Whether metadata records what happened at two places.
spec fn recorded(
    name: Seq<char>,
    source_profile: Seq<char>,
    runs: Seq<SaveRun<String, SeedMetadata>>,
    events: Seq<SaveEvent<String>>,
    places: (int, int),
    metadata: SeedMetadata,
) -> bool {
    &&& metadata.name@ == name
    &&& metadata.source_profile@ == source_profile
    &&& resolved_at(runs, events, places.0, metadata.profile_directory@)
    &&& stamped_at(runs, events, places.1, metadata.created_at@)
    &&& places.0 < places.1
}

} // verus!
