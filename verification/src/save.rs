//! Saving a Chrome profile as a seed.
//!
//! A [`SaveRun`] decides what is to be done next. Its stage names the work that the caller does;
//! the caller reports what came of it as a [`SaveEvent`].

use crate::metadata::{chrono_now, MetadataFile, SeedMetadata, SeedMetadataView};
use crate::name::validate_seed_name;
use vstd::prelude::*;
use vstd::string::*;

verus! {

/// What is to be done next; `T` is the type of text and `M` that of a seed's metadata.
pub enum SaveStage<T, M> {
    /// Find Chrome's user data directory.
    Locate,
    /// Resolve the source profile to a directory inside the user data directory.
    Resolve,
    /// Find out whether the seed's directory exists.
    Inspect { profile_directory: T },
    /// Remove the seed's directory.
    Replace { profile_directory: T },
    /// Create the seed's directory.
    Create { profile_directory: T },
    /// Copy the profile into the seed's directory.
    Copy { profile_directory: T },
    /// Read the clock.
    Stamp { profile_directory: T },
    /// Encode the metadata as JSON.
    Encode { metadata: M },
    /// Write the JSON to the metadata file.
    Write { metadata: M, json: T },
    /// Nothing: this is the outcome.
    Done(Result<M, T>),
}

/// What came of it.
pub enum SaveEvent<T> {
    /// Whether Chrome's user data directory was found.
    Located(bool),
    /// The directory that the source profile stands for, or why there is none.
    Resolved(Result<T, T>),
    /// Whether the seed's directory exists.
    Exists(bool),
    /// The seed's directory has been removed, or could not be.
    Removed(Result<(), T>),
    /// The seed's directory has been created, or could not be.
    Created(Result<(), T>),
    /// The profile has been copied, or could not be.
    Copied(Result<(), T>),
    /// The seconds since the Unix epoch, unless the clock stands before it.
    Clock(Option<u64>),
    /// The metadata as JSON, or why there is none.
    Encoded(Result<T, T>),
    /// The metadata file has been written, or could not be.
    Written(Result<(), T>),
}

/// The saving of one seed.
pub struct SaveRun<T, M> {
    pub name: T,
    pub source_profile: T,
    pub stage: SaveStage<T, M>,
}

/// The text held in a stage.
pub open spec fn save_stage_view(stage: SaveStage<String, SeedMetadata>) -> SaveStage<
    Seq<char>,
    SeedMetadataView,
> {
    match stage {
        SaveStage::Locate => SaveStage::Locate,
        SaveStage::Resolve => SaveStage::Resolve,
        SaveStage::Inspect { profile_directory } => SaveStage::Inspect {
            profile_directory: profile_directory@,
        },
        SaveStage::Replace { profile_directory } => SaveStage::Replace {
            profile_directory: profile_directory@,
        },
        SaveStage::Create { profile_directory } => SaveStage::Create {
            profile_directory: profile_directory@,
        },
        SaveStage::Copy { profile_directory } => SaveStage::Copy {
            profile_directory: profile_directory@,
        },
        SaveStage::Stamp { profile_directory } => SaveStage::Stamp {
            profile_directory: profile_directory@,
        },
        SaveStage::Encode { metadata } => SaveStage::Encode { metadata: metadata@ },
        SaveStage::Write { metadata, json } => SaveStage::Write {
            metadata: metadata@,
            json: json@,
        },
        SaveStage::Done(result) => SaveStage::Done(crate::metadata::metadata_outcome(result)),
    }
}

impl View for SaveRun<String, SeedMetadata> {
    type V = SaveRun<Seq<char>, SeedMetadataView>;

    open spec fn view(&self) -> SaveRun<Seq<char>, SeedMetadataView> {
        SaveRun {
            name: self.name@,
            source_profile: self.source_profile@,
            stage: save_stage_view(self.stage),
        }
    }
}

impl View for SaveEvent<String> {
    type V = SaveEvent<Seq<char>>;

    open spec fn view(&self) -> SaveEvent<Seq<char>> {
        match *self {
            SaveEvent::Located(found) => SaveEvent::Located(found),
            SaveEvent::Resolved(result) => SaveEvent::Resolved(crate::text::text_outcome(result)),
            SaveEvent::Exists(exists) => SaveEvent::Exists(exists),
            SaveEvent::Removed(result) => SaveEvent::Removed(crate::text::outcome(result)),
            SaveEvent::Created(result) => SaveEvent::Created(crate::text::outcome(result)),
            SaveEvent::Copied(result) => SaveEvent::Copied(crate::text::outcome(result)),
            SaveEvent::Clock(seconds) => SaveEvent::Clock(seconds),
            SaveEvent::Encoded(result) => SaveEvent::Encoded(crate::text::text_outcome(result)),
            SaveEvent::Written(result) => SaveEvent::Written(crate::text::outcome(result)),
        }
    }
}

/// How saving begins: an invalid name is refused at once.
pub open spec fn save_start(name: Seq<char>, source_profile: Seq<char>) -> SaveRun<
    Seq<char>,
    SeedMetadataView,
> {
    SaveRun {
        name,
        source_profile,
        stage: if crate::name::valid_session_name(name) {
            SaveStage::Locate
        } else {
            SaveStage::Done(Err(crate::name::seed_name_error(name)))
        },
    }
}

/// What is recorded about a seed that is saved.
pub open spec fn saved_metadata(
    name: Seq<char>,
    source_profile: Seq<char>,
    profile_directory: Seq<char>,
    clock: Option<u64>,
) -> SeedMetadataView {
    SeedMetadataView {
        name,
        profile_directory,
        source_profile,
        created_at: crate::text::decimal(crate::metadata::clock_seconds(clock)),
    }
}

/// How saving goes on. An event that does not answer the stage changes nothing.
pub open spec fn save_next(
    run: SaveRun<Seq<char>, SeedMetadataView>,
    event: SaveEvent<Seq<char>>,
) -> SaveRun<Seq<char>, SeedMetadataView> {
    SaveRun {
        name: run.name,
        source_profile: run.source_profile,
        stage: match (run.stage, event) {
            (SaveStage::Locate, SaveEvent::Located(true)) => SaveStage::Resolve,
            (SaveStage::Locate, SaveEvent::Located(false)) => SaveStage::Done(
                Err("No Chrome user data directory found. Cannot snapshot a profile."@),
            ),
            (SaveStage::Resolve, SaveEvent::Resolved(Ok(profile_directory))) => SaveStage::Inspect {
                profile_directory,
            },
            (SaveStage::Resolve, SaveEvent::Resolved(Err(error))) => SaveStage::Done(Err(error)),
            (
                SaveStage::Inspect { profile_directory },
                SaveEvent::Exists(true),
            ) => SaveStage::Replace { profile_directory },
            (
                SaveStage::Inspect { profile_directory },
                SaveEvent::Exists(false),
            ) => SaveStage::Create { profile_directory },
            (
                SaveStage::Replace { profile_directory },
                SaveEvent::Removed(Ok(())),
            ) => SaveStage::Create { profile_directory },
            (SaveStage::Replace { .. }, SaveEvent::Removed(Err(error))) => SaveStage::Done(
                Err("Failed to replace existing seed "@ + run.name + ": "@ + error),
            ),
            (
                SaveStage::Create { profile_directory },
                SaveEvent::Created(Ok(())),
            ) => SaveStage::Copy { profile_directory },
            (SaveStage::Create { .. }, SaveEvent::Created(Err(error))) => SaveStage::Done(
                Err("Failed to create seed dir: "@ + error),
            ),
            (
                SaveStage::Copy { profile_directory },
                SaveEvent::Copied(Ok(())),
            ) => SaveStage::Stamp { profile_directory },
            (SaveStage::Copy { .. }, SaveEvent::Copied(Err(error))) => SaveStage::Done(Err(error)),
            (
                SaveStage::Stamp { profile_directory },
                SaveEvent::Clock(clock),
            ) => SaveStage::Encode {
                metadata: saved_metadata(run.name, run.source_profile, profile_directory, clock),
            },
            (SaveStage::Encode { metadata }, SaveEvent::Encoded(Ok(json))) => SaveStage::Write {
                metadata,
                json,
            },
            (SaveStage::Encode { .. }, SaveEvent::Encoded(Err(error))) => SaveStage::Done(
                Err("Failed to serialize seed metadata: "@ + error),
            ),
            (SaveStage::Write { metadata, .. }, SaveEvent::Written(Ok(()))) => SaveStage::Done(
                Ok(metadata),
            ),
            (SaveStage::Write { .. }, SaveEvent::Written(Err(error))) => SaveStage::Done(
                Err("Failed to write seed metadata: "@ + error),
            ),
            (stage, _) => stage,
        },
    }
}

/// Begins to save the Chrome profile `source_profile` as the seed `name`.
pub fn save_seed(name: &str, source_profile: &str) -> (run: SaveRun<String, SeedMetadata>)
    ensures
        run@ == save_start(name@, source_profile@),
{
    let stage = match validate_seed_name(name) {
        Ok(()) => SaveStage::Locate,
        Err(error) => SaveStage::Done(Err(error)),
    };
    SaveRun { name: name.to_string(), source_profile: source_profile.to_string(), stage }
}

/// Ends with the error `context` followed by `error`.
fn failed(context: &str, error: String) -> (stage: SaveStage<String, SeedMetadata>)
    ensures
        save_stage_view(stage) == SaveStage::<Seq<char>, SeedMetadataView>::Done(
            Err(context@ + error@),
        ),
{
    SaveStage::Done(Err(context.to_string().concat(error.as_str())))
}

impl SaveRun<String, SeedMetadata> {
    /// Takes note of what came of the work, and decides what is next.
    pub fn advance(self, event: SaveEvent<String>) -> (next: SaveRun<String, SeedMetadata>)
        ensures
            next@ == save_next(self@, event@),
    {
        let name = self.name;
        let source_profile = self.source_profile;
        let stage = match (self.stage, event) {
            (SaveStage::Locate, SaveEvent::Located(found)) => if found {
                SaveStage::Resolve
            } else {
                SaveStage::Done(
                    Err(
                        "No Chrome user data directory found. Cannot snapshot a profile.".to_string(),
                    ),
                )
            },
            (SaveStage::Resolve, SaveEvent::Resolved(result)) => match result {
                Ok(profile_directory) => SaveStage::Inspect { profile_directory },
                Err(error) => SaveStage::Done(Err(error)),
            },
            (SaveStage::Inspect { profile_directory }, SaveEvent::Exists(exists)) => if exists {
                SaveStage::Replace { profile_directory }
            } else {
                SaveStage::Create { profile_directory }
            },
            (SaveStage::Replace { profile_directory }, SaveEvent::Removed(result)) => match result {
                Ok(()) => SaveStage::Create { profile_directory },
                Err(error) => failed(
                    "Failed to replace existing seed ".to_string().concat(name.as_str()).concat(
                        ": ",
                    ).as_str(),
                    error,
                ),
            },
            (SaveStage::Create { profile_directory }, SaveEvent::Created(result)) => match result {
                Ok(()) => SaveStage::Copy { profile_directory },
                Err(error) => failed("Failed to create seed dir: ", error),
            },
            (SaveStage::Copy { profile_directory }, SaveEvent::Copied(result)) => match result {
                Ok(()) => SaveStage::Stamp { profile_directory },
                Err(error) => SaveStage::Done(Err(error)),
            },
            (SaveStage::Stamp { profile_directory }, SaveEvent::Clock(clock)) => SaveStage::Encode {
                metadata: SeedMetadata {
                    name: name.clone(),
                    profile_directory,
                    source_profile: source_profile.clone(),
                    created_at: chrono_now(clock),
                },
            },
            (SaveStage::Encode { metadata }, SaveEvent::Encoded(result)) => match result {
                Ok(json) => SaveStage::Write { metadata, json },
                Err(error) => failed("Failed to serialize seed metadata: ", error),
            },
            (SaveStage::Write { metadata, json }, SaveEvent::Written(result)) => match result {
                Ok(()) => SaveStage::Done(Ok(metadata)),
                Err(error) => failed("Failed to write seed metadata: ", error),
            },
            (stage, _) => stage,
        };
        SaveRun { name, source_profile, stage }
    }
}

/// Where saving stands after some events.
pub open spec fn save_after(
    run: SaveRun<Seq<char>, SeedMetadataView>,
    events: Seq<SaveEvent<Seq<char>>>,
) -> SaveRun<Seq<char>, SeedMetadataView>
    decreases events.len(),
{
    if events.len() == 0 {
        run
    } else {
        save_next(save_after(run, events.drop_last()), events.last())
    }
}

/// An outcome is final.
pub proof fn save_outcome_is_final(
    run: SaveRun<Seq<char>, SeedMetadataView>,
    events: Seq<SaveEvent<Seq<char>>>,
)
    requires
        run.stage is Done,
    ensures
        save_after(run, events) == run,
    decreases events.len(),
{
    if events.len() > 0 {
        save_outcome_is_final(run, events.drop_last());
    }
}

/// An invalid name is refused whatever happens: nothing is looked for, removed or written.
pub proof fn save_refuses_invalid_names(
    name: Seq<char>,
    source_profile: Seq<char>,
    events: Seq<SaveEvent<Seq<char>>>,
)
    requires
        !crate::name::valid_session_name(name),
    ensures
        save_after(save_start(name, source_profile), events).stage == SaveStage::<
            Seq<char>,
            SeedMetadataView,
        >::Done(Err(crate::name::seed_name_error(name))),
{
    save_outcome_is_final(save_start(name, source_profile), events);
}

/// The steps that saving took in the course of some events: each is where it stood, and the event that
/// answered it there. An event that saving passed over is no step.
pub open spec fn save_steps(
    run: SaveRun<Seq<char>, SeedMetadataView>,
    events: Seq<SaveEvent<Seq<char>>>,
) -> Seq<(SaveStage<Seq<char>, SeedMetadataView>, SaveEvent<Seq<char>>)>
    decreases events.len(),
{
    if events.len() == 0 {
        Seq::empty()
    } else {
        let steps = save_steps(run, events.drop_last());
        let before = save_after(run, events.drop_last());
        if save_next(before, events.last()).stage == before.stage {
            steps
        } else {
            steps.push((before.stage, events.last()))
        }
    }
}

/// The step by which Chrome's user data directory is found.
pub open spec fn locating_steps() -> Seq<
    (SaveStage<Seq<char>, SeedMetadataView>, SaveEvent<Seq<char>>),
> {
    seq![(SaveStage::Locate, SaveEvent::Located(true))]
}

/// The steps by which the profile is found to be the directory `profile_directory`.
pub open spec fn finding_steps(profile_directory: Seq<char>) -> Seq<
    (SaveStage<Seq<char>, SeedMetadataView>, SaveEvent<Seq<char>>),
> {
    locating_steps().push((SaveStage::Resolve, SaveEvent::Resolved(Ok(profile_directory))))
}

/// The steps up to where the place of the seed is clear: an older seed, if there is one, is removed.
pub open spec fn clearing_steps(profile_directory: Seq<char>, existed: bool) -> Seq<
    (SaveStage<Seq<char>, SeedMetadataView>, SaveEvent<Seq<char>>),
> {
    let looked = finding_steps(profile_directory).push(
        (SaveStage::Inspect { profile_directory }, SaveEvent::Exists(existed)),
    );
    if existed {
        looked.push((SaveStage::Replace { profile_directory }, SaveEvent::Removed(Ok(()))))
    } else {
        looked
    }
}

/// The steps up to where the profile has been copied into the new directory of the seed.
pub open spec fn copying_steps(profile_directory: Seq<char>, existed: bool) -> Seq<
    (SaveStage<Seq<char>, SeedMetadataView>, SaveEvent<Seq<char>>),
> {
    clearing_steps(profile_directory, existed).push(
        (SaveStage::Create { profile_directory }, SaveEvent::Created(Ok(()))),
    ).push((SaveStage::Copy { profile_directory }, SaveEvent::Copied(Ok(()))))
}

/// The steps up to where it is known what is recorded about the seed.
pub open spec fn stamping_steps(
    profile_directory: Seq<char>,
    existed: bool,
    clock: Option<u64>,
) -> Seq<(SaveStage<Seq<char>, SeedMetadataView>, SaveEvent<Seq<char>>)> {
    copying_steps(profile_directory, existed).push(
        (SaveStage::Stamp { profile_directory }, SaveEvent::Clock(clock)),
    )
}

/// The steps up to where that has been encoded as `json`.
pub open spec fn encoding_steps(
    metadata: SeedMetadataView,
    existed: bool,
    clock: Option<u64>,
    json: Seq<char>,
) -> Seq<(SaveStage<Seq<char>, SeedMetadataView>, SaveEvent<Seq<char>>)> {
    stamping_steps(metadata.profile_directory, existed, clock).push(
        (SaveStage::Encode { metadata }, SaveEvent::Encoded(Ok(json))),
    )
}

/// All the steps of saving.
pub open spec fn saving_steps(
    metadata: SeedMetadataView,
    existed: bool,
    clock: Option<u64>,
    json: Seq<char>,
) -> Seq<(SaveStage<Seq<char>, SeedMetadataView>, SaveEvent<Seq<char>>)> {
    encoding_steps(metadata, existed, clock, json).push(
        (SaveStage::Write { metadata, json }, SaveEvent::Written(Ok(()))),
    )
}

/// Whether saving stands where it does by these steps, where an older seed existed or not, and with this
/// time and this text of the metadata, as far as it has come to know them.
spec fn save_explained(
    name: Seq<char>,
    source_profile: Seq<char>,
    run: SaveRun<Seq<char>, SeedMetadataView>,
    steps: Seq<(SaveStage<Seq<char>, SeedMetadataView>, SaveEvent<Seq<char>>)>,
    known: (bool, Option<u64>, Seq<char>),
) -> bool {
    let (existed, clock, json) = known;
    &&& run.name == name
    &&& run.source_profile == source_profile
    &&& match run.stage {
        SaveStage::Locate => steps.len() == 0,
        SaveStage::Resolve => steps == locating_steps(),
        SaveStage::Inspect { profile_directory } => steps == finding_steps(profile_directory),
        SaveStage::Replace { profile_directory } => existed && steps == finding_steps(
            profile_directory,
        ).push((SaveStage::Inspect { profile_directory }, SaveEvent::Exists(true))),
        SaveStage::Create { profile_directory } => steps == clearing_steps(
            profile_directory,
            existed,
        ),
        SaveStage::Copy { profile_directory } => steps == clearing_steps(
            profile_directory,
            existed,
        ).push((SaveStage::Create { profile_directory }, SaveEvent::Created(Ok(())))),
        SaveStage::Stamp { profile_directory } => steps == copying_steps(
            profile_directory,
            existed,
        ),
        SaveStage::Encode { metadata } => {
            &&& steps == stamping_steps(metadata.profile_directory, existed, clock)
            &&& metadata == saved_metadata(
                name,
                source_profile,
                metadata.profile_directory,
                clock,
            )
        },
        SaveStage::Write { metadata, json: text } => {
            &&& text == json
            &&& steps == encoding_steps(metadata, existed, clock, json)
            &&& metadata == saved_metadata(
                name,
                source_profile,
                metadata.profile_directory,
                clock,
            )
        },
        SaveStage::Done(Ok(metadata)) => {
            &&& steps == saving_steps(metadata, existed, clock, json)
            &&& metadata == saved_metadata(
                name,
                source_profile,
                metadata.profile_directory,
                clock,
            )
        },
        SaveStage::Done(Err(_)) => true,
    }
}

proof fn save_explains_itself(
    name: Seq<char>,
    source_profile: Seq<char>,
    events: Seq<SaveEvent<Seq<char>>>,
) -> (known: (bool, Option<u64>, Seq<char>))
    ensures
        save_explained(
            name,
            source_profile,
            save_after(save_start(name, source_profile), events),
            save_steps(save_start(name, source_profile), events),
            known,
        ),
    decreases events.len(),
{
    if events.len() == 0 {
        (false, None, Seq::empty())
    } else {
        let rest = events.drop_last();
        let run = save_after(save_start(name, source_profile), rest);
        let steps = save_steps(save_start(name, source_profile), rest);
        let (existed, clock, json) = save_explains_itself(name, source_profile, rest);
        match (run.stage, events.last()) {
            (SaveStage::Locate, SaveEvent::Located(true)) => {
                assert(steps.push((run.stage, events.last())) =~= locating_steps());
                (existed, clock, json)
            },
            (SaveStage::Inspect { .. }, SaveEvent::Exists(exists)) => (exists, clock, json),
            (SaveStage::Stamp { .. }, SaveEvent::Clock(now)) => (existed, now, json),
            (SaveStage::Encode { .. }, SaveEvent::Encoded(Ok(text))) => (existed, clock, text),
            (_, SaveEvent::Removed(Ok(u))) | (_, SaveEvent::Created(Ok(u))) | (
                _,
                SaveEvent::Copied(Ok(u)),
            ) | (_, SaveEvent::Written(Ok(u))) => {
                assert(u == ());
                (existed, clock, json)
            },
            _ => (existed, clock, json),
        }
    }
}

/// An existing seed is removed only once the new one is known to be possible: the name is valid,
/// Chrome's user data directory was found, and the source profile was resolved. And it is removed only
/// where it was seen to exist.
pub proof fn save_replaces_only_when_ready(
    name: Seq<char>,
    source_profile: Seq<char>,
    events: Seq<SaveEvent<Seq<char>>>,
    profile_directory: Seq<char>,
)
    requires
        save_after(save_start(name, source_profile), events).stage == (SaveStage::<
            Seq<char>,
            SeedMetadataView,
        >::Replace { profile_directory }),
    ensures
        crate::name::valid_session_name(name),
        save_steps(save_start(name, source_profile), events) == finding_steps(
            profile_directory,
        ).push(((SaveStage::Inspect { profile_directory }), SaveEvent::Exists(true))),
{
    let known = save_explains_itself(name, source_profile, events);
    if !crate::name::valid_session_name(name) {
        save_refuses_invalid_names(name, source_profile, events);
    }
}

/// The directory of a seed is created only where its place is clear: saving looked whether there is an
/// older seed, and where there was one, it went on to remove it, and that succeeded.
pub proof fn save_creates_only_in_a_clear_place(
    name: Seq<char>,
    source_profile: Seq<char>,
    events: Seq<SaveEvent<Seq<char>>>,
    profile_directory: Seq<char>,
)
    requires
        save_after(save_start(name, source_profile), events).stage == (SaveStage::<
            Seq<char>,
            SeedMetadataView,
        >::Create { profile_directory }),
    ensures
        crate::name::valid_session_name(name),
        exists|existed: bool|
            save_steps(save_start(name, source_profile), events) == #[trigger] clearing_steps(
                profile_directory,
                existed,
            ),
{
    let (existed, clock, json) = save_explains_itself(name, source_profile, events);
    assert(save_steps(save_start(name, source_profile), events) == clearing_steps(
        profile_directory,
        existed,
    ));
    if !crate::name::valid_session_name(name) {
        save_refuses_invalid_names(name, source_profile, events);
    }
}

/// The metadata file is written last: only after the profile was copied into the seed's directory.
pub proof fn save_writes_metadata_last(
    name: Seq<char>,
    source_profile: Seq<char>,
    events: Seq<SaveEvent<Seq<char>>>,
    metadata: SeedMetadataView,
    json: Seq<char>,
)
    requires
        save_after(save_start(name, source_profile), events).stage == (SaveStage::Write {
            metadata,
            json,
        }),
    ensures
        crate::name::valid_session_name(name),
        exists|existed: bool, clock: Option<u64>|
            save_steps(save_start(name, source_profile), events) == #[trigger] encoding_steps(
                metadata,
                existed,
                clock,
                json,
            ) && metadata == saved_metadata(
                name,
                source_profile,
                metadata.profile_directory,
                clock,
            ),
{
    let (existed, clock, text) = save_explains_itself(name, source_profile, events);
    assert(save_steps(save_start(name, source_profile), events) == encoding_steps(
        metadata,
        existed,
        clock,
        json,
    ));
    if !crate::name::valid_session_name(name) {
        save_refuses_invalid_names(name, source_profile, events);
    }
}

/// Success is reported only after all of the work was done, step by step, and with metadata that
/// records it.
pub proof fn save_succeeds_only_when_all_is_done(
    name: Seq<char>,
    source_profile: Seq<char>,
    events: Seq<SaveEvent<Seq<char>>>,
    metadata: SeedMetadataView,
)
    requires
        save_after(save_start(name, source_profile), events).stage == SaveStage::<
            Seq<char>,
            SeedMetadataView,
        >::Done(Ok(metadata)),
    ensures
        crate::name::valid_session_name(name),
        metadata.name == name,
        metadata.source_profile == source_profile,
        exists|existed: bool, clock: Option<u64>, json: Seq<char>|
            save_steps(save_start(name, source_profile), events) == #[trigger] saving_steps(
                metadata,
                existed,
                clock,
                json,
            ) && metadata == saved_metadata(
                name,
                source_profile,
                metadata.profile_directory,
                clock,
            ),
{
    let (existed, clock, json) = save_explains_itself(name, source_profile, events);
    assert(save_steps(save_start(name, source_profile), events) == saving_steps(
        metadata,
        existed,
        clock,
        json,
    ));
    if !crate::name::valid_session_name(name) {
        save_refuses_invalid_names(name, source_profile, events);
    }
}

/// Saving that succeeded reports the metadata that it wrote: at some point it stood at writing that
/// very metadata, as the text that it was encoded to, and the writing succeeded.
pub proof fn save_reports_what_it_wrote(
    name: Seq<char>,
    source_profile: Seq<char>,
    events: Seq<SaveEvent<Seq<char>>>,
    metadata: SeedMetadataView,
) -> (written: (int, int, Seq<char>))
    requires
        save_after(save_start(name, source_profile), events).stage == SaveStage::<
            Seq<char>,
            SeedMetadataView,
        >::Done(Ok(metadata)),
    ensures
        ({
            let start = save_start(name, source_profile);
            let (encode, write, json) = written;
            &&& 0 <= encode < write < events.len()
            &&& save_after(start, events.take(encode)).stage == (SaveStage::<
            Seq<char>,
            SeedMetadataView,
        >::Encode { metadata })
            &&& events[encode] == SaveEvent::Encoded(Ok(json))
            &&& save_after(start, events.take(write)).stage == (SaveStage::Write { metadata, json })
            &&& events[write] == SaveEvent::<Seq<char>>::Written(Ok(()))
        }),
    decreases events.len(),
{
    let start = save_start(name, source_profile);
    let last = events.len() - 1;
    assert(events.len() > 0);
    assert(events.drop_last() =~= events.take(last));
    let before = save_after(start, events.drop_last());
    if before.stage is Done {
        let (encode, write, json) = save_reports_what_it_wrote(
            name,
            source_profile,
            events.drop_last(),
            metadata,
        );
        assert(events.drop_last().take(encode) =~= events.take(encode));
        assert(events.drop_last().take(write) =~= events.take(write));
        (encode, write, json)
    } else {
        let json = before.stage->json;
        assert(events.last()->Written_0->Ok_0 == ());
        let encode = save_encoded_what_it_writes(
            name,
            source_profile,
            events.drop_last(),
            metadata,
            json,
        );
        assert(events.drop_last().take(encode) =~= events.take(encode));
        (encode, last, json)
    }
}

/// Where saving stands at writing a text, that text is what the metadata was encoded to.
proof fn save_encoded_what_it_writes(
    name: Seq<char>,
    source_profile: Seq<char>,
    events: Seq<SaveEvent<Seq<char>>>,
    metadata: SeedMetadataView,
    json: Seq<char>,
) -> (encode: int)
    requires
        save_after(save_start(name, source_profile), events).stage == (SaveStage::Write {
            metadata,
            json,
        }),
    ensures
        0 <= encode < events.len(),
        save_after(save_start(name, source_profile), events.take(encode)).stage == (SaveStage::<
            Seq<char>,
            SeedMetadataView,
        >::Encode { metadata }),
        events[encode] == SaveEvent::Encoded(Ok(json)),
    decreases events.len(),
{
    let start = save_start(name, source_profile);
    let last = events.len() - 1;
    assert(events.len() > 0);
    assert(events.drop_last() =~= events.take(last));
    let before = save_after(start, events.drop_last());
    if before.stage is Write {
        let encode = save_encoded_what_it_writes(
            name,
            source_profile,
            events.drop_last(),
            metadata,
            json,
        );
        assert(events.drop_last().take(encode) =~= events.take(encode));
        encode
    } else {
        last
    }
}

/// What was saved reads back. Where `decode`, which turns the text of a metadata file back into
/// metadata, undoes every encoding that was done, the text that saving wrote makes a later reading
/// of the metadata file give exactly the metadata that saving reported.
pub proof fn saved_metadata_reads_back(
    name: Seq<char>,
    source_profile: Seq<char>,
    events: Seq<SaveEvent<Seq<char>>>,
    metadata: SeedMetadataView,
    decode: spec_fn(Seq<char>) -> MetadataFile<Seq<char>, SeedMetadataView>,
    path: Seq<char>,
)
    requires
        save_after(save_start(name, source_profile), events).stage == SaveStage::<
            Seq<char>,
            SeedMetadataView,
        >::Done(Ok(metadata)),
        forall|k: int, json: Seq<char>|
            0 <= k < events.len() && save_after(
                save_start(name, source_profile),
                events.take(k),
            ).stage is Encode && #[trigger] events[k] == SaveEvent::Encoded(Ok(json)) ==> #[trigger]
            decode(json) == MetadataFile::<Seq<char>, SeedMetadataView>::Parsed(
                save_after(
                    save_start(name, source_profile),
                    events.take(k),
                ).stage->Encode_metadata,
            ),
    ensures
        metadata.name == name,
        metadata.source_profile == source_profile,
        save_steps(save_start(name, source_profile), events).contains(
            (SaveStage::Resolve, SaveEvent::Resolved(Ok(metadata.profile_directory))),
        ),
        exists|write: int, json: Seq<char>|
            0 <= write < events.len() && #[trigger] events[write] == SaveEvent::<
                Seq<char>,
            >::Written(Ok(())) && save_after(
                save_start(name, source_profile),
                events.take(write),
            ).stage == (SaveStage::Write { metadata, json }) && crate::metadata::metadata_read(
                path,
                #[trigger] decode(json),
            ) == Ok::<SeedMetadataView, Seq<char>>(metadata),
{
    save_succeeds_only_when_all_is_done(name, source_profile, events, metadata);
    assert(save_steps(save_start(name, source_profile), events)[1] == (
        SaveStage::<Seq<char>, SeedMetadataView>::Resolve,
        SaveEvent::Resolved(Ok::<Seq<char>, Seq<char>>(metadata.profile_directory)),
    ));
    let (encode, write, json) = save_reports_what_it_wrote(
        name,
        source_profile,
        events,
        metadata,
    );
    assert(events[encode] == SaveEvent::Encoded(Ok(json)));
    assert(decode(json) == MetadataFile::<Seq<char>, SeedMetadataView>::Parsed(metadata));
    assert(events[write] == SaveEvent::<Seq<char>>::Written(Ok(())));
}

/// Where all of the work succeeds, saving succeeds, with metadata that names the seed, the source
/// profile and its directory, and the time.
pub proof fn save_succeeds_when_all_is_done(
    name: Seq<char>,
    source_profile: Seq<char>,
    profile_directory: Seq<char>,
    existed: bool,
    clock: Option<u64>,
    json: Seq<char>,
)
    requires
        crate::name::valid_session_name(name),
    ensures
        ({
            let begin = seq![
                SaveEvent::Located(true),
                SaveEvent::Resolved(Ok(profile_directory)),
                SaveEvent::Exists(existed),
            ];
            let clear = if existed {
                seq![SaveEvent::Removed(Ok(()))]
            } else {
                Seq::empty()
            };
            let end = seq![
                SaveEvent::Created(Ok(())),
                SaveEvent::Copied(Ok(())),
                SaveEvent::Clock(clock),
                SaveEvent::Encoded(Ok(json)),
                SaveEvent::Written(Ok(())),
            ];
            save_after(save_start(name, source_profile), begin + clear + end).stage
                == SaveStage::<Seq<char>, SeedMetadataView>::Done(
                Ok(saved_metadata(name, source_profile, profile_directory, clock)),
            )
        }),
{
    let begin = seq![
        SaveEvent::<Seq<char>>::Located(true),
        SaveEvent::Resolved(Ok(profile_directory)),
        SaveEvent::Exists(existed),
    ];
    let clear = if existed {
        seq![SaveEvent::<Seq<char>>::Removed(Ok(()))]
    } else {
        Seq::empty()
    };
    let end = seq![
        SaveEvent::<Seq<char>>::Created(Ok(())),
        SaveEvent::Copied(Ok(())),
        SaveEvent::Clock(clock),
        SaveEvent::Encoded(Ok(json)),
        SaveEvent::Written(Ok(())),
    ];
    let all = begin + clear + end;
    let start = save_start(name, source_profile);
    assert(all.take(all.len() as int) =~= all);
    assert(save_after(start, all.take(0)) == start);
    save_step(start, all, 0);
    save_step(start, all, 1);
    save_step(start, all, 2);
    save_step(start, all, 3);
    save_step(start, all, 4);
    save_step(start, all, 5);
    save_step(start, all, 6);
    save_step(start, all, 7);
    if existed {
        save_step(start, all, 8);
    }
}

/// One event of a longer run.
proof fn save_step(
    start: SaveRun<Seq<char>, SeedMetadataView>,
    events: Seq<SaveEvent<Seq<char>>>,
    k: int,
)
    requires
        0 <= k < events.len(),
    ensures
        save_after(start, events.take(k + 1)) == save_next(
            save_after(start, events.take(k)),
            events[k],
        ),
{
    assert(events.take(k + 1).drop_last() =~= events.take(k));
}

} // verus!
