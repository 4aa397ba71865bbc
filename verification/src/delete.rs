//! Deleting a seed.
//!
//! A [`DeleteRun`] decides what is to be done next. Its stage names the work that the caller does;
//! the caller reports what came of it as a [`DeleteEvent`].

use crate::name::validate_seed_name;
use vstd::prelude::*;
use vstd::string::*;

verus! {

/// What is to be done next.
pub enum DeleteStage<T> {
    /// Find out whether the seed's directory exists.
    Inspect,
    /// Remove the seed's directory.
    Remove,
    /// Nothing: this is the outcome.
    Done(Result<(), T>),
}

/// What came of it.
pub enum DeleteEvent<T> {
    /// Whether the seed's directory exists.
    Exists(bool),
    /// The seed's directory has been removed, or could not be.
    Removed(Result<(), T>),
}

/// The deletion of one seed.
pub struct DeleteRun<T> {
    pub name: T,
    pub stage: DeleteStage<T>,
}

impl View for DeleteRun<String> {
    type V = DeleteRun<Seq<char>>;

    open spec fn view(&self) -> DeleteRun<Seq<char>> {
        DeleteRun {
            name: self.name@,
            stage: match self.stage {
                DeleteStage::Inspect => DeleteStage::Inspect,
                DeleteStage::Remove => DeleteStage::Remove,
                DeleteStage::Done(result) => DeleteStage::Done(crate::text::outcome(result)),
            },
        }
    }
}

impl View for DeleteEvent<String> {
    type V = DeleteEvent<Seq<char>>;

    open spec fn view(&self) -> DeleteEvent<Seq<char>> {
        match *self {
            DeleteEvent::Exists(exists) => DeleteEvent::Exists(exists),
            DeleteEvent::Removed(result) => DeleteEvent::Removed(crate::text::outcome(result)),
        }
    }
}

/// How a deletion begins: an invalid name is refused at once.
pub open spec fn delete_start(name: Seq<char>) -> DeleteRun<Seq<char>> {
    DeleteRun {
        name,
        stage: if crate::name::valid_session_name(name) {
            DeleteStage::Inspect
        } else {
            DeleteStage::Done(Err(crate::name::seed_name_error(name)))
        },
    }
}

/// How a deletion goes on. An event that does not answer the stage changes nothing.
pub open spec fn delete_next(run: DeleteRun<Seq<char>>, event: DeleteEvent<Seq<char>>) -> DeleteRun<
    Seq<char>,
> {
    DeleteRun {
        name: run.name,
        stage: match (run.stage, event) {
            (DeleteStage::Inspect, DeleteEvent::Exists(true)) => DeleteStage::Remove,
            (DeleteStage::Inspect, DeleteEvent::Exists(false)) => DeleteStage::Done(
                Err("Seed '"@ + run.name + "' not found"@),
            ),
            (DeleteStage::Remove, DeleteEvent::Removed(Ok(()))) => DeleteStage::Done(Ok(())),
            (DeleteStage::Remove, DeleteEvent::Removed(Err(error))) => DeleteStage::Done(
                Err("Failed to delete seed "@ + run.name + ": "@ + error),
            ),
            (stage, _) => stage,
        },
    }
}

/// Begins to delete the seed `name`.
pub fn delete_seed(name: &str) -> (run: DeleteRun<String>)
    ensures
        run@ == delete_start(name@),
{
    let stage = match validate_seed_name(name) {
        Ok(()) => DeleteStage::Inspect,
        Err(error) => DeleteStage::Done(Err(error)),
    };
    DeleteRun { name: name.to_string(), stage }
}

impl DeleteRun<String> {
    /// Takes note of what came of the work, and decides what is next.
    pub fn advance(self, event: DeleteEvent<String>) -> (next: DeleteRun<String>)
        ensures
            next@ == delete_next(self@, event@),
    {
        let name = self.name;
        let stage = match (self.stage, event) {
            (DeleteStage::Inspect, DeleteEvent::Exists(exists)) => if exists {
                DeleteStage::Remove
            } else {
                DeleteStage::Done(
                    Err("Seed '".to_string().concat(name.as_str()).concat("' not found")),
                )
            },
            (DeleteStage::Remove, DeleteEvent::Removed(result)) => match result {
                Ok(()) => DeleteStage::Done(Ok(())),
                Err(error) => DeleteStage::Done(
                    Err(
                        "Failed to delete seed ".to_string().concat(name.as_str()).concat(
                            ": ",
                        ).concat(error.as_str()),
                    ),
                ),
            },
            (stage, _) => stage,
        };
        DeleteRun { name, stage }
    }
}

/// Where a deletion stands after some events.
pub open spec fn delete_after(
    run: DeleteRun<Seq<char>>,
    events: Seq<DeleteEvent<Seq<char>>>,
) -> DeleteRun<Seq<char>>
    decreases events.len(),
{
    if events.len() == 0 {
        run
    } else {
        delete_next(delete_after(run, events.drop_last()), events.last())
    }
}

/// An outcome is final.
pub proof fn delete_outcome_is_final(
    run: DeleteRun<Seq<char>>,
    events: Seq<DeleteEvent<Seq<char>>>,
)
    requires
        run.stage is Done,
    ensures
        delete_after(run, events) == run,
    decreases events.len(),
{
    if events.len() > 0 {
        delete_outcome_is_final(run, events.drop_last());
    }
}

/// An invalid name is refused whatever happens: nothing is looked at and nothing is removed.
pub proof fn delete_refuses_invalid_names(name: Seq<char>, events: Seq<DeleteEvent<Seq<char>>>)
    requires
        !crate::name::valid_session_name(name),
    ensures
        delete_after(delete_start(name), events).stage == DeleteStage::<Seq<char>>::Done(
            Err(crate::name::seed_name_error(name)),
        ),
{
    delete_outcome_is_final(delete_start(name), events);
}

/// The steps that a deletion took in the course of some events: each is where it stood, and the event
/// that answered it there. An event that the deletion passed over is no step.
pub open spec fn delete_steps(
    run: DeleteRun<Seq<char>>,
    events: Seq<DeleteEvent<Seq<char>>>,
) -> Seq<(DeleteStage<Seq<char>>, DeleteEvent<Seq<char>>)>
    decreases events.len(),
{
    if events.len() == 0 {
        Seq::empty()
    } else {
        let steps = delete_steps(run, events.drop_last());
        let before = delete_after(run, events.drop_last());
        if delete_next(before, events.last()).stage == before.stage {
            steps
        } else {
            steps.push((before.stage, events.last()))
        }
    }
}

/// The step by which a seed is found.
pub open spec fn finding_steps() -> Seq<(DeleteStage<Seq<char>>, DeleteEvent<Seq<char>>)> {
    seq![(DeleteStage::Inspect, DeleteEvent::Exists(true))]
}

/// The steps by which a seed is found and then removed.
pub open spec fn removing_steps() -> Seq<(DeleteStage<Seq<char>>, DeleteEvent<Seq<char>>)> {
    finding_steps().push((DeleteStage::Remove, DeleteEvent::Removed(Ok(()))))
}

/// The steps of a deletion must have been these for it to stand where it does.
proof fn delete_explains_itself(name: Seq<char>, events: Seq<DeleteEvent<Seq<char>>>)
    ensures
        ({
            let steps = delete_steps(delete_start(name), events);
            match delete_after(delete_start(name), events).stage {
                DeleteStage::Inspect => steps == Seq::<
                    (DeleteStage<Seq<char>>, DeleteEvent<Seq<char>>),
                >::empty(),
                DeleteStage::Remove => steps == finding_steps(),
                DeleteStage::Done(Ok(())) => steps == removing_steps(),
                DeleteStage::Done(Err(_)) => true,
            }
        }),
    decreases events.len(),
{
    if events.len() > 0 {
        delete_explains_itself(name, events.drop_last());
        match events.last() {
            DeleteEvent::Removed(Ok(u)) => assert(u == ()),
            _ => {},
        }
    }
}

/// A directory is removed only after it was seen to exist, and only for a valid name.
pub proof fn delete_removes_only_what_exists(name: Seq<char>, events: Seq<DeleteEvent<Seq<char>>>)
    requires
        delete_after(delete_start(name), events).stage is Remove,
    ensures
        crate::name::valid_session_name(name),
        delete_steps(delete_start(name), events) == finding_steps(),
{
    delete_explains_itself(name, events);
    if !crate::name::valid_session_name(name) {
        delete_refuses_invalid_names(name, events);
    }
}

/// Success is reported only after the directory was seen to exist and then was removed, for a valid
/// name.
pub proof fn delete_succeeds_only_by_removing(name: Seq<char>, events: Seq<DeleteEvent<Seq<char>>>)
    requires
        delete_after(delete_start(name), events).stage == DeleteStage::<Seq<char>>::Done(Ok(())),
    ensures
        crate::name::valid_session_name(name),
        delete_steps(delete_start(name), events) == removing_steps(),
{
    delete_explains_itself(name, events);
    if !crate::name::valid_session_name(name) {
        delete_refuses_invalid_names(name, events);
    }
}

/// What the deletion of a seed with a valid name comes to, from whether the seed exists and what
/// came of removing it.
pub proof fn delete_outcome(name: Seq<char>, exists: bool, removed: Result<(), Seq<char>>)
    requires
        crate::name::valid_session_name(name),
    ensures
        delete_after(
            delete_start(name),
            seq![DeleteEvent::Exists(exists), DeleteEvent::Removed(removed)],
        ).stage == DeleteStage::Done(
            if !exists {
                Err("Seed '"@ + name + "' not found"@)
            } else {
                match removed {
                    Ok(()) => Ok(()),
                    Err(error) => Err("Failed to delete seed "@ + name + ": "@ + error),
                }
            },
        ),
{
    let events = seq![
        DeleteEvent::<Seq<char>>::Exists(exists),
        DeleteEvent::<Seq<char>>::Removed(removed),
    ];
    reveal_with_fuel(delete_after, 3);
    assert(events.drop_last() =~= seq![DeleteEvent::<Seq<char>>::Exists(exists)]);
    assert(events.drop_last().drop_last() =~= Seq::empty());
}

/// What deleting the seed `name` comes to where the seeds `seeds` are saved and removing one
/// succeeds, and the seeds that are saved afterwards.
pub open spec fn delete_among(seeds: Set<Seq<char>>, name: Seq<char>) -> (
    DeleteStage<Seq<char>>,
    Set<Seq<char>>,
) {
    let looked = delete_next(delete_start(name), DeleteEvent::Exists(seeds.contains(name)));
    if looked.stage is Remove {
        (delete_next(looked, DeleteEvent::Removed(Ok(()))).stage, seeds.remove(name))
    } else {
        (looked.stage, seeds)
    }
}

/// A deletion takes away the seed that it names and no other, and succeeds if and only if the name is
/// valid and the seed is there.
pub proof fn delete_takes_away_one_seed(seeds: Set<Seq<char>>, name: Seq<char>)
    ensures
        delete_among(seeds, name).0 == DeleteStage::<Seq<char>>::Done(Ok(()))
            <==> crate::name::valid_session_name(name) && seeds.contains(name),
        delete_among(seeds, name).0 is Done,
        delete_among(seeds, name).1 == (if crate::name::valid_session_name(name) {
            seeds.remove(name)
        } else {
            seeds
        }),
{
    assert(!seeds.contains(name) ==> seeds.remove(name) =~= seeds);
}

/// A seed that was deleted is gone: deleting it again is answered as not found, and changes nothing.
pub proof fn deleting_twice_finds_nothing(seeds: Set<Seq<char>>, name: Seq<char>)
    requires
        delete_among(seeds, name).0 == DeleteStage::<Seq<char>>::Done(Ok(())),
    ensures
        ({
            let left = delete_among(seeds, name).1;
            &&& left == seeds.remove(name)
            &&& delete_among(left, name) == (
                DeleteStage::<Seq<char>>::Done(Err("Seed '"@ + name + "' not found"@)),
                left,
            )
        }),
{
    delete_takes_away_one_seed(seeds, name);
}

/// A deletion of a valid name that is told at first that the directory is not there, as one that comes
/// after a deletion that succeeded is, is answered as not found, whatever else it is told.
pub proof fn deletion_of_what_is_gone(name: Seq<char>, events: Seq<DeleteEvent<Seq<char>>>)
    requires
        crate::name::valid_session_name(name),
        events.len() > 0,
        events[0] == DeleteEvent::<Seq<char>>::Exists(false),
    ensures
        delete_after(delete_start(name), events).stage == DeleteStage::<Seq<char>>::Done(
            Err("Seed '"@ + name + "' not found"@),
        ),
    decreases events.len(),
{
    if events.len() == 1 {
        assert(events.drop_last() =~= Seq::empty());
        assert(delete_after(delete_start(name), events.drop_last()) == delete_start(name));
    } else {
        deletion_of_what_is_gone(name, events.drop_last());
    }
}

} // verus!
