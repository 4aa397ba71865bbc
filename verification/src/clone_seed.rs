//! Cloning a seed into a temporary directory.
//!
//! A [`CloneRun`] decides what is to be done next. Its stage names the work that the caller does;
//! the caller reports what came of it as a [`CloneEvent`].

use crate::metadata::{SeedMetadata, SeedMetadataView};
use crate::name::validate_seed_name;
use vstd::prelude::*;
use vstd::string::*;

verus! {

/// A lower-case hexadecimal digit.
pub open spec fn hex_digit(c: char) -> bool {
    '0' <= c <= '9' || 'a' <= c <= 'f'
}

/// The hyphenated text of a random (version 4) UUID.
pub open spec fn random_id_text(id: Seq<char>) -> bool {
    &&& id.len() == 36
    &&& forall|i: int|
        0 <= i < 36 ==> if i == 8 || i == 13 || i == 18 || i == 23 {
            #[trigger] id[i] == '-'
        } else {
            hex_digit(id[i])
        }
    &&& id[14] == '4'
    &&& id[19] == '8' || id[19] == '9' || id[19] == 'a' || id[19] == 'b'
}

/// `uuid::Uuid::new_v4`, by its `Display`: the lower-case hyphenated text of a random UUID. Which one
/// is up to chance; nothing but its form is claimed. The call panics on a system that has no
/// random numbers to give.
#[verifier::external_body]
pub(crate) fn random_id() -> (id: String)
    ensures
        random_id_text(id@),
{
    uuid::Uuid::new_v4().to_string()
}

/// Whether `id` is what a draw of a random id gave.
pub closed spec fn drawn_id(id: String) -> bool {
    call_ensures(random_id, (), id)
}

/// A drawn id is what a call of [`random_id`] gave.
proof fn drawn_ids_are_drawn(id: String)
    requires
        drawn_id(id),
    ensures
        call_ensures(random_id, (), id),
        random_id_text(id@),
{
}

/// The name of the temporary directory for a clone of the seed `name`.
pub open spec fn clone_dir(name: Seq<char>, id: Seq<char>) -> Seq<char> {
    "agent-browser-seed-"@ + name + "-"@ + id
}

/// The name of the temporary directory for a clone of the seed `name`, given the id that makes it
/// unique.
pub fn clone_dir_with_id(name: &str, id: &str) -> (dir: String)
    ensures
        dir@ == clone_dir(name@, id@),
{
    "agent-browser-seed-".to_string().concat(name).concat("-").concat(id)
}

/// What is to be done next; `T` is the type of text and `M` that of a seed's metadata.
pub enum CloneStage<T, M> {
    /// Find out whether the seed's directory is there.
    Inspect,
    /// Read the seed's metadata.
    Read,
    /// Create the directory, inside the one for temporary files.
    Create { directory: T, metadata: M },
    /// Copy the seed into the directory.
    Copy { directory: T, metadata: M },
    /// Nothing: this is the outcome, a directory and the metadata of the seed cloned into it.
    Done(Result<(T, M), T>),
}

/// What came of it.
pub enum CloneEvent<T, M> {
    /// Whether the seed's directory is there.
    Directory(bool),
    /// The seed's metadata, or why it cannot be read.
    Metadata(Result<M, T>),
    /// The directory has been created, or could not be.
    Created(Result<(), T>),
    /// The seed has been copied, or could not be.
    Copied(Result<(), T>),
}

/// The cloning of one seed.
pub struct CloneRun<T, M> {
    pub name: T,
    pub stage: CloneStage<T, M>,
}

impl View for CloneRun<String, SeedMetadata> {
    type V = CloneRun<Seq<char>, SeedMetadataView>;

    open spec fn view(&self) -> CloneRun<Seq<char>, SeedMetadataView> {
        CloneRun {
            name: self.name@,
            stage: match self.stage {
                CloneStage::Inspect => CloneStage::Inspect,
                CloneStage::Read => CloneStage::Read,
                CloneStage::Create { directory, metadata } => CloneStage::Create {
                    directory: directory@,
                    metadata: metadata@,
                },
                CloneStage::Copy { directory, metadata } => CloneStage::Copy {
                    directory: directory@,
                    metadata: metadata@,
                },
                CloneStage::Done(Ok(clone)) => CloneStage::Done(Ok((clone.0@, clone.1@))),
                CloneStage::Done(Err(error)) => CloneStage::Done(Err(error@)),
            },
        }
    }
}

impl View for CloneEvent<String, SeedMetadata> {
    type V = CloneEvent<Seq<char>, SeedMetadataView>;

    open spec fn view(&self) -> CloneEvent<Seq<char>, SeedMetadataView> {
        match *self {
            CloneEvent::Directory(found) => CloneEvent::Directory(found),
            CloneEvent::Metadata(result) => CloneEvent::Metadata(
                crate::metadata::metadata_outcome(result),
            ),
            CloneEvent::Created(result) => CloneEvent::Created(crate::text::outcome(result)),
            CloneEvent::Copied(result) => CloneEvent::Copied(crate::text::outcome(result)),
        }
    }
}

/// How cloning begins: an invalid name is refused at once.
pub open spec fn clone_start(name: Seq<char>) -> CloneRun<Seq<char>, SeedMetadataView> {
    CloneRun {
        name,
        stage: if crate::name::valid_session_name(name) {
            CloneStage::Inspect
        } else {
            CloneStage::Done(Err(crate::name::seed_name_error(name)))
        },
    }
}

/// How cloning goes on, given the id of the directory; it matters only when the directory is named.
/// An event that does not answer the stage changes nothing.
pub open spec fn clone_next(
    run: CloneRun<Seq<char>, SeedMetadataView>,
    event: CloneEvent<Seq<char>, SeedMetadataView>,
    id: Seq<char>,
) -> CloneRun<Seq<char>, SeedMetadataView> {
    CloneRun {
        name: run.name,
        stage: match (run.stage, event) {
            (CloneStage::Inspect, CloneEvent::Directory(true)) => CloneStage::Read,
            (CloneStage::Inspect, CloneEvent::Directory(false)) => CloneStage::Done(
                Err(
                    "Seed '"@ + run.name + "' not found. Run `agent-browser seed save "@ + run.name
                        + " --profile <name>` first."@,
                ),
            ),
            (CloneStage::Read, CloneEvent::Metadata(Ok(metadata))) => CloneStage::Create {
                directory: clone_dir(run.name, id),
                metadata,
            },
            (CloneStage::Read, CloneEvent::Metadata(Err(error))) => CloneStage::Done(Err(error)),
            (
                CloneStage::Create { directory, metadata },
                CloneEvent::Created(Ok(())),
            ) => CloneStage::Copy { directory, metadata },
            (CloneStage::Create { .. }, CloneEvent::Created(Err(error))) => CloneStage::Done(
                Err("Failed to create temp seed dir: "@ + error),
            ),
            (
                CloneStage::Copy { directory, metadata },
                CloneEvent::Copied(Ok(())),
            ) => CloneStage::Done(Ok((directory, metadata))),
            (CloneStage::Copy { .. }, CloneEvent::Copied(Err(error))) => CloneStage::Done(
                Err(error),
            ),
            (stage, _) => stage,
        },
    }
}

/// Whether the directory of the clone is to be named now: the metadata has been read.
pub open spec fn names_directory(
    run: CloneRun<Seq<char>, SeedMetadataView>,
    event: CloneEvent<Seq<char>, SeedMetadataView>,
) -> bool {
    run.stage is Read && event matches CloneEvent::Metadata(Ok(_))
}

/// Begins to clone the seed `name`.
pub fn clone_seed_to_temp(name: &str) -> (run: CloneRun<String, SeedMetadata>)
    ensures
        run@ == clone_start(name@),
{
    let stage = match validate_seed_name(name) {
        Ok(()) => CloneStage::Inspect,
        Err(error) => CloneStage::Done(Err(error)),
    };
    CloneRun { name: name.to_string(), stage }
}

impl CloneRun<String, SeedMetadata> {
    /// Takes note of what came of the work, and decides what is next. A directory that has to be
    /// named gets an id drawn for it.
    pub fn advance(self, event: CloneEvent<String, SeedMetadata>) -> (next: CloneRun<
        String,
        SeedMetadata,
    >)
        ensures
            names_directory(self@, event@) ==> exists|id: String| #[trigger]
                drawn_id(id) && random_id_text(id@) && next@ == clone_next(self@, event@, id@),
            !names_directory(self@, event@) ==> next@ == clone_next(self@, event@, ""@),
            self.stage is Read && event is Metadata && event->Metadata_0 is Ok ==> next.stage is Create
                && next.stage->Create_metadata@ == event->Metadata_0->Ok_0@ && exists|id: String|
                #[trigger] drawn_id(id) && random_id_text(id@) && next.stage->Create_directory@
                    == "agent-browser-seed-"@ + self.name@ + "-"@ + id@,
    {
        let reading = match &self.stage {
            CloneStage::Read => true,
            _ => false,
        };
        let found = match &event {
            CloneEvent::Metadata(Ok(_)) => true,
            _ => false,
        };
        if reading && found {
            let id = random_id();
            assert(drawn_id(id));
            self.advance_with_id(event, id.as_str())
        } else {
            self.advance_with_id(event, "")
        }
    }

    /// Takes note of what came of the work, and decides what is next. A directory that has to be
    /// named gets the id `id`.
    pub fn advance_with_id(self, event: CloneEvent<String, SeedMetadata>, id: &str) -> (next:
        CloneRun<String, SeedMetadata>)
        ensures
            next@ == clone_next(self@, event@, id@),
    {
        let name = self.name;
        let stage = match (self.stage, event) {
            (CloneStage::Inspect, CloneEvent::Directory(found)) => if found {
                CloneStage::Read
            } else {
                CloneStage::Done(
                    Err(
                        "Seed '".to_string().concat(name.as_str()).concat(
                            "' not found. Run `agent-browser seed save ",
                        ).concat(name.as_str()).concat(" --profile <name>` first."),
                    ),
                )
            },
            (CloneStage::Read, CloneEvent::Metadata(result)) => match result {
                Ok(metadata) => CloneStage::Create {
                    directory: clone_dir_with_id(name.as_str(), id),
                    metadata,
                },
                Err(error) => CloneStage::Done(Err(error)),
            },
            (CloneStage::Create { directory, metadata }, CloneEvent::Created(result)) => match result {
                Ok(()) => CloneStage::Copy { directory, metadata },
                Err(error) => CloneStage::Done(
                    Err("Failed to create temp seed dir: ".to_string().concat(error.as_str())),
                ),
            },
            (CloneStage::Copy { directory, metadata }, CloneEvent::Copied(result)) => match result {
                Ok(()) => CloneStage::Done(Ok((directory, metadata))),
                Err(error) => CloneStage::Done(Err(error)),
            },
            (stage, _) => stage,
        };
        CloneRun { name, stage }
    }
}

/// Where cloning stands after some events, each with the id that was at hand.
pub open spec fn clone_after(
    run: CloneRun<Seq<char>, SeedMetadataView>,
    events: Seq<(CloneEvent<Seq<char>, SeedMetadataView>, Seq<char>)>,
) -> CloneRun<Seq<char>, SeedMetadataView>
    decreases events.len(),
{
    if events.len() == 0 {
        run
    } else {
        clone_next(
            clone_after(run, events.drop_last()),
            events.last().0,
            events.last().1,
        )
    }
}

/// An outcome is final.
pub proof fn clone_outcome_is_final(
    run: CloneRun<Seq<char>, SeedMetadataView>,
    events: Seq<(CloneEvent<Seq<char>, SeedMetadataView>, Seq<char>)>,
)
    requires
        run.stage is Done,
    ensures
        clone_after(run, events) == run,
    decreases events.len(),
{
    if events.len() > 0 {
        clone_outcome_is_final(run, events.drop_last());
    }
}

/// An invalid name is refused whatever happens: nothing is looked at and nothing is created.
pub proof fn clone_refuses_invalid_names(
    name: Seq<char>,
    events: Seq<(CloneEvent<Seq<char>, SeedMetadataView>, Seq<char>)>,
)
    requires
        !crate::name::valid_session_name(name),
    ensures
        clone_after(clone_start(name), events).stage == CloneStage::<
            Seq<char>,
            SeedMetadataView,
        >::Done(Err(crate::name::seed_name_error(name))),
{
    clone_outcome_is_final(clone_start(name), events);
}

/// The steps that cloning took in the course of some events: each is where it stood, the event that
/// answered it there, and the id that was at hand. An event that cloning passed over is no step.
pub open spec fn clone_steps(
    run: CloneRun<Seq<char>, SeedMetadataView>,
    events: Seq<(CloneEvent<Seq<char>, SeedMetadataView>, Seq<char>)>,
) -> Seq<
    (CloneStage<Seq<char>, SeedMetadataView>, CloneEvent<Seq<char>, SeedMetadataView>, Seq<char>),
>
    decreases events.len(),
{
    if events.len() == 0 {
        Seq::empty()
    } else {
        let steps = clone_steps(run, events.drop_last());
        let before = clone_after(run, events.drop_last());
        if clone_next(before, events.last().0, events.last().1).stage == before.stage {
            steps
        } else {
            steps.push((before.stage, events.last().0, events.last().1))
        }
    }
}

/// Whether cloning found the seed's directory, then read the metadata, and then named the directory of
/// the clone with the id that was at hand.
pub open spec fn clone_named(
    name: Seq<char>,
    steps: Seq<
        (
            CloneStage<Seq<char>, SeedMetadataView>,
            CloneEvent<Seq<char>, SeedMetadataView>,
            Seq<char>,
        ),
    >,
    directory: Seq<char>,
    metadata: SeedMetadataView,
) -> bool {
    &&& steps.len() >= 2
    &&& steps[0].0 is Inspect
    &&& steps[0].1 == CloneEvent::<Seq<char>, SeedMetadataView>::Directory(true)
    &&& steps[1].0 is Read
    &&& steps[1].1 == CloneEvent::<Seq<char>, SeedMetadataView>::Metadata(Ok(metadata))
    &&& directory == clone_dir(name, steps[1].2)
}

/// Whether cloning then created that directory.
pub open spec fn clone_created(
    steps: Seq<
        (
            CloneStage<Seq<char>, SeedMetadataView>,
            CloneEvent<Seq<char>, SeedMetadataView>,
            Seq<char>,
        ),
    >,
    directory: Seq<char>,
    metadata: SeedMetadataView,
) -> bool {
    &&& steps.len() >= 3
    &&& steps[2].0 == CloneStage::Create { directory, metadata }
    &&& steps[2].1 == CloneEvent::<Seq<char>, SeedMetadataView>::Created(Ok(()))
}

/// Whether cloning then copied the seed into it, as its last step.
pub open spec fn clone_copied(
    steps: Seq<
        (
            CloneStage<Seq<char>, SeedMetadataView>,
            CloneEvent<Seq<char>, SeedMetadataView>,
            Seq<char>,
        ),
    >,
    directory: Seq<char>,
    metadata: SeedMetadataView,
) -> bool {
    &&& steps.len() == 4
    &&& steps[3].0 == CloneStage::Copy { directory, metadata }
    &&& steps[3].1 == CloneEvent::<Seq<char>, SeedMetadataView>::Copied(Ok(()))
}

/// A clone that was made lies in a directory named after the seed and the id that was at hand when the
/// metadata was read, comes with that metadata, and was copied in full.
pub proof fn clone_succeeds_only_when_all_is_done(
    name: Seq<char>,
    events: Seq<(CloneEvent<Seq<char>, SeedMetadataView>, Seq<char>)>,
    directory: Seq<char>,
    metadata: SeedMetadataView,
)
    requires
        clone_after(clone_start(name), events).stage == CloneStage::<
            Seq<char>,
            SeedMetadataView,
        >::Done(Ok((directory, metadata))),
    ensures
        crate::name::valid_session_name(name),
        clone_named(name, clone_steps(clone_start(name), events), directory, metadata),
        clone_created(clone_steps(clone_start(name), events), directory, metadata),
        clone_copied(clone_steps(clone_start(name), events), directory, metadata),
{
    clone_explains_itself(name, events);
    if !crate::name::valid_session_name(name) {
        clone_refuses_invalid_names(name, events);
    }
}

/// The steps of cloning must have been these for it to stand where it does.
proof fn clone_explains_itself(
    name: Seq<char>,
    events: Seq<(CloneEvent<Seq<char>, SeedMetadataView>, Seq<char>)>,
)
    ensures
        clone_after(clone_start(name), events).name == name,
        ({
            let steps = clone_steps(clone_start(name), events);
            match clone_after(clone_start(name), events).stage {
                CloneStage::Inspect => steps.len() == 0,
                CloneStage::Read => steps.len() == 1 && steps[0].0 is Inspect && steps[0].1
                    == CloneEvent::<Seq<char>, SeedMetadataView>::Directory(true),
                CloneStage::Create { directory, metadata } => steps.len() == 2 && clone_named(
                    name,
                    steps,
                    directory,
                    metadata,
                ),
                CloneStage::Copy { directory, metadata } => steps.len() == 3 && clone_named(
                    name,
                    steps,
                    directory,
                    metadata,
                ) && clone_created(steps, directory, metadata),
                CloneStage::Done(Ok((directory, metadata))) => clone_named(
                    name,
                    steps,
                    directory,
                    metadata,
                ) && clone_created(steps, directory, metadata) && clone_copied(
                    steps,
                    directory,
                    metadata,
                ),
                CloneStage::Done(Err(_)) => true,
            }
        }),
    decreases events.len(),
{
    if events.len() > 0 {
        clone_explains_itself(name, events.drop_last());
        match events.last().0 {
            CloneEvent::Created(Ok(u)) => assert(u == ()),
            CloneEvent::Copied(Ok(u)) => assert(u == ()),
            _ => {},
        }
    }
}

/// Where all of the work succeeds, cloning succeeds, with the metadata that was read and a directory
/// named after the seed and the id.
pub proof fn clone_succeeds_when_all_is_done(
    name: Seq<char>,
    metadata: SeedMetadataView,
    id: Seq<char>,
    other: Seq<char>,
)
    requires
        crate::name::valid_session_name(name),
    ensures
        clone_after(
            clone_start(name),
            seq![
                (CloneEvent::Directory(true), other),
                (CloneEvent::Metadata(Ok(metadata)), id),
                (CloneEvent::Created(Ok(())), other),
                (CloneEvent::Copied(Ok(())), other),
            ],
        ).stage == CloneStage::<Seq<char>, SeedMetadataView>::Done(
            Ok((clone_dir(name, id), metadata)),
        ),
{
    let events = seq![
        (CloneEvent::<Seq<char>, SeedMetadataView>::Directory(true), other),
        (CloneEvent::Metadata(Ok(metadata)), id),
        (CloneEvent::Created(Ok(())), other),
        (CloneEvent::Copied(Ok(())), other),
    ];
    reveal_with_fuel(clone_after, 5);
    assert(events.drop_last() =~= events.take(3));
    assert(events.take(3).drop_last() =~= events.take(2));
    assert(events.take(2).drop_last() =~= events.take(1));
    assert(events.take(1).drop_last() =~= events.take(0));
}

/// Two clones share a directory only if they are of the same seed and have the same id.
pub proof fn clones_do_not_share_directories(
    name1: Seq<char>,
    id1: Seq<char>,
    name2: Seq<char>,
    id2: Seq<char>,
)
    requires
        random_id_text(id1),
        random_id_text(id2),
        clone_dir(name1, id1) == clone_dir(name2, id2),
    ensures
        name1 == name2,
        id1 == id2,
{
    reveal_strlit("agent-browser-seed-");
    reveal_strlit("-");
    let d1 = clone_dir(name1, id1);
    let d2 = clone_dir(name2, id2);
    let p = "agent-browser-seed-"@.len() as int;
    assert(d1.len() == p + name1.len() + 1 + 36);
    assert(d2.len() == p + name2.len() + 1 + 36);
    assert(name1 =~= d1.subrange(p, p + name1.len()));
    assert(name2 =~= d2.subrange(p, p + name2.len()));
    assert(id1 =~= d1.skip(p + name1.len() + 1));
    assert(id2 =~= d2.skip(p + name2.len() + 1));
}

/// The directory of a clone lies directly inside the one for temporary files: its name holds neither
/// a path separator nor a dot.
pub proof fn clone_dir_is_one_component(name: Seq<char>, id: Seq<char>)
    requires
        crate::name::valid_session_name(name),
        random_id_text(id),
    ensures
        crate::name::valid_session_name(clone_dir(name, id)),
        !clone_dir(name, id).contains('/'),
        !clone_dir(name, id).contains('\\'),
        !clone_dir(name, id).contains('.'),
{
    reveal_strlit("agent-browser-seed-");
    reveal_strlit("-");
    let d = clone_dir(name, id);
    let p = "agent-browser-seed-"@.len() as int;
    assert forall|i: int| 0 <= i < d.len() implies crate::name::name_char(#[trigger] d[i]) by {
        if i < p {
            assert(d[i] == "agent-browser-seed-"@[i]);
        } else if i < p + name.len() {
            assert(d[i] == name[i - p]);
        } else if i == p + name.len() {
            assert(d[i] == '-');
        } else {
            assert(d[i] == id[i - p - name.len() - 1]);
        }
    }
    crate::name::valid_name_is_one_component(d);
}

} // verus!
