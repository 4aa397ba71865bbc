//! Deleting a seed.

use crate::delete::{delete_seed, DeleteEvent, DeleteRun, DeleteStage};
use crate::name::validate_seed_name;
use vstd::prelude::*;
use vstd::string::*;

verus! {

/// A deletion of a valid name begins with a look for the seed. Any other name is refused at once, with
/// the error that belongs to it.
pub proof fn deleting_begins_with_a_look(
    name: &str,
    result: Result<(), String>,
    run: DeleteRun<String>,
)
    requires
        call_ensures(validate_seed_name, (name,), result),
        call_ensures(delete_seed, (name,), run),
    ensures
        run.name@ == name@,
        match result {
            Ok(_) => run.stage is Inspect,
            Err(error) => run.stage is Done && run.stage->Done_0 is Err
                && run.stage->Done_0->Err_0@ == error@,
        },
{
}

/// How a deletion goes on: a seed that is there is removed, one that is not there is answered as not
/// found, and the outcome is that of the removal. What does not answer the stage changes nothing.
pub proof fn deleting_goes_step_by_step(
    run: DeleteRun<String>,
    event: DeleteEvent<String>,
    next: DeleteRun<String>,
)
    requires
        call_ensures(DeleteRun::<String>::advance, (run, event), next),
    ensures
        next.name@ == run.name@,
        match (run.stage, event) {
            (DeleteStage::Inspect, DeleteEvent::Exists(exists)) => if exists {
                next.stage is Remove
            } else {
                next.stage is Done && next.stage->Done_0 is Err && next.stage->Done_0->Err_0@
                    == "Seed '"@ + run.name@ + "' not found"@
            },
            (DeleteStage::Remove, DeleteEvent::Removed(result)) => next.stage is Done && match result {
                Ok(_) => next.stage->Done_0 is Ok,
                Err(error) => next.stage->Done_0 is Err && next.stage->Done_0->Err_0@
                    == "Failed to delete seed "@ + run.name@ + ": "@ + error@,
            },
            (DeleteStage::Inspect, _) => next.stage is Inspect,
            (DeleteStage::Remove, _) => next.stage is Remove,
            (DeleteStage::Done(Ok(_)), _) => next.stage is Done && next.stage->Done_0 is Ok,
            (DeleteStage::Done(Err(error)), _) => next.stage is Done && next.stage->Done_0 is Err
                && next.stage->Done_0->Err_0@ == error@,
        },
{
}

} // verus!
