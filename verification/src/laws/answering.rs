//! What the command answers.

use crate::command::{
    delete_output, fail, parse_command, run_list, run_seed, save_output, show_output, Output,
    SeedCommand, SeedEvent, SeedRun, SeedTask,
};
use crate::delete::{DeleteEvent, DeleteRun, DeleteStage};
use crate::json::JsonDoc;
use crate::metadata::SeedMetadata;
use crate::save::{SaveEvent, SaveRun, SaveStage};
use vstd::prelude::*;
use vstd::string::*;

verus! {

/// Whether some lines are printed to the standard output, and nothing else happens.
pub open spec fn prints(output: Output, lines: Seq<Seq<char>>) -> bool {
    &&& output.stdout@.len() == lines.len()
    &&& forall|i: int| 0 <= i < lines.len() ==> (#[trigger] output.stdout@[i])@ == lines[i]
    &&& output.stderr@.len() == 0
    &&& output.exit_code is None
}

/// Whether a document is printed, on one line of the standard output, and nothing else happens.
pub open spec fn prints_document(output: Output, doc: JsonDoc) -> bool {
    &&& output.stdout@.len() == 1
    &&& output.stdout@[0]@ == crate::json::json_text(doc)
    &&& !output.stdout@[0]@.contains('\n')
    &&& output.stderr@.len() == 0
    &&& output.exit_code is None
}

/// Whether a failure is answered with its message: in JSON mode as a document, and otherwise on the
/// standard error, with the exit code 1.
pub open spec fn answers_failure(output: Output, json_mode: bool, message: Seq<char>) -> bool {
    if json_mode {
        exists|doc: JsonDoc| #[trigger]
            prints_document(output, doc) && crate::laws::records::has_two(
                doc,
                "success"@,
                JsonDoc::Bool(false),
                "error"@,
                JsonDoc::Text(message),
            )
    } else {
        &&& output.stdout@.len() == 0
        &&& output.stderr@.len() == 1
        &&& output.stderr@[0]@ == message
        &&& output.exit_code == Some(1i32)
    }
}

/// Whether a success is answered with a document that holds `data`.
pub open spec fn answers_data(output: Output, data: JsonDoc) -> bool {
    exists|doc: JsonDoc| #[trigger]
        prints_document(output, doc) && crate::laws::records::has_two(
            doc,
            "success"@,
            JsonDoc::Bool(true),
            "data"@,
            data,
        )
}

/// Whether a document is an object with exactly one member.
pub open spec fn has_one(doc: JsonDoc, key: Seq<char>, value: JsonDoc) -> bool {
    doc matches JsonDoc::Object(members) && members.dom() == set![key] && members[key] == value
}

/// Whether the answer is that of a save: the seed with its source, or the error.
pub open spec fn answers_save(
    output: Output,
    json_mode: bool,
    result: Result<SeedMetadata, String>,
) -> bool {
    match result {
        Err(error) => answers_failure(output, json_mode, error@),
        Ok(seed) => if json_mode {
            exists|data: JsonDoc| #[trigger]
                answers_data(output, data) && crate::laws::records::tells_the_seed(data, seed)
        } else {
            prints(
                output,
                seq![
                    "Saved seed '"@ + seed.name@ + "' from profile '"@ + seed.source_profile@
                        + "' ("@ + seed.profile_directory@ + ")"@,
                ],
            )
        },
    }
}

/// Whether the answer is that of showing a seed: all of its metadata and its path, or the error.
pub open spec fn answers_show(
    output: Output,
    json_mode: bool,
    path: Seq<char>,
    result: Result<SeedMetadata, String>,
) -> bool {
    match result {
        Err(error) => answers_failure(output, json_mode, error@),
        Ok(seed) => if json_mode {
            exists|data: JsonDoc| #[trigger]
                answers_data(output, data) && crate::laws::records::tells_the_seed(data, seed)
        } else {
            prints(
                output,
                seq![
                    "Name:               "@ + seed.name@,
                    "Source profile:     "@ + seed.source_profile@,
                    "Profile directory:  "@ + seed.profile_directory@,
                    "Created (unix):     "@ + seed.created_at@,
                    "Path:               "@ + path,
                ],
            )
        },
    }
}

/// Whether the answer is that of deleting the seed `name`: the name, or the error.
pub open spec fn answers_delete(
    output: Output,
    json_mode: bool,
    name: Seq<char>,
    result: Result<(), String>,
) -> bool {
    match result {
        Err(error) => answers_failure(output, json_mode, error@),
        Ok(_) => if json_mode {
            exists|data: JsonDoc| #[trigger]
                answers_data(output, data) && has_one(data, "deleted"@, JsonDoc::Text(name))
        } else {
            prints(output, seq!["Deleted seed '"@ + name + "'"@])
        },
    }
}

/// Whether the answer is the list of the seeds: every one of them, in their order.
pub open spec fn answers_list(output: Output, json_mode: bool, seeds: Seq<SeedMetadata>) -> bool {
    if json_mode {
        exists|data: JsonDoc, list: JsonDoc|
            answers_data(output, data) && #[trigger] has_one(data, "seeds"@, list)
                && crate::laws::records::tells_the_seeds(list, seeds)
    } else if seeds.len() == 0 {
        prints(
            output,
            seq![
                "No seeds saved. Run `agent-browser seed save <name> --profile <chrome-profile>`."@,
            ],
        )
    } else {
        &&& output.stdout@.len() == seeds.len() + 1
        &&& output.stdout@[0]@ == "Seeds:"@
        &&& forall|i: int|
            0 <= i < seeds.len() ==> output.stdout@[i + 1]@ == "  "@ + (#[trigger] seeds[i]).name@
                + "  (from "@ + seeds[i].source_profile@ + " / "@ + seeds[i].profile_directory@
                + ")"@
        &&& output.stderr@.len() == 0
        &&& output.exit_code is None
    }
}

proof fn output_views(output: Output)
    ensures
        output@.stdout.len() == output.stdout@.len(),
        output@.stderr.len() == output.stderr@.len(),
        forall|i: int|
            0 <= i < output.stdout@.len() ==> (#[trigger] output.stdout@[i])@ == output@.stdout[i],
        forall|i: int|
            0 <= i < output.stderr@.len() ==> (#[trigger] output.stderr@[i])@ == output@.stderr[i],
{
}

proof fn failed_is_failure(output: Output, json_mode: bool, message: Seq<char>)
    requires
        output@ == crate::command::failed(json_mode, message),
        json_mode ==> crate::command::is_one_line(output@),
    ensures
        answers_failure(output, json_mode, message),
{
    output_views(output);
    if json_mode {
        crate::laws::records::failure_doc_has_two(message);
        assert(output.stdout@[0]@ == output@.stdout[0]);
        assert(prints_document(output, crate::json::failure_doc(message)));
    } else {
        assert(output.stderr@[0]@ == output@.stderr[0]);
    }
}

proof fn succeeded_is_data(
    output: Output,
    data: JsonDoc,
    lines: Seq<Seq<char>>,
)
    requires
        output@ == crate::command::succeeded(true, data, lines),
        crate::command::is_one_line(output@),
    ensures
        answers_data(output, data),
{
    output_views(output);
    crate::laws::records::success_doc_has_two(data);
    assert(output.stdout@[0]@ == output@.stdout[0]);
    assert(prints_document(output, crate::json::success_doc(data)));
}

proof fn succeeded_is_lines(output: Output, data: JsonDoc, lines: Seq<Seq<char>>)
    requires
        output@ == crate::command::succeeded(false, data, lines),
    ensures
        prints(output, lines),
{
    output_views(output);
}

/// A failure is answered with its message.
pub proof fn a_failure_is_answered_with_its_message(json_mode: bool, message: &str, output: Output)
    requires
        call_ensures(fail, (json_mode, message), output),
    ensures
        answers_failure(output, json_mode, message@),
{
    failed_is_failure(output, json_mode, message@);
}

/// A save is answered with the seed that was saved, or with the error.
pub proof fn a_save_is_answered_with_the_seed(
    json_mode: bool,
    result: Result<SeedMetadata, String>,
    output: Output,
)
    requires
        call_ensures(save_output, (json_mode, result), output),
    ensures
        answers_save(output, json_mode, result),
{
    saved_is_save(output, json_mode, result);
}

proof fn saved_is_save(output: Output, json_mode: bool, result: Result<SeedMetadata, String>)
    requires
        output@ == crate::command::saved_answer(
            json_mode,
            crate::metadata::metadata_outcome(result),
        ),
        json_mode ==> crate::command::is_one_line(output@),
    ensures
        answers_save(output, json_mode, result),
{
    match result {
        Ok(seed) => {
            let data = crate::metadata::metadata_doc(seed@);
            let lines = seq![crate::command::saved_line(seed@)];
            crate::laws::records::metadata_doc_tells(seed);
            if json_mode {
                succeeded_is_data(output, data, lines);
            } else {
                succeeded_is_lines(output, data, lines);
            }
        },
        Err(error) => {
            failed_is_failure(output, json_mode, error@);
        },
    }
}

/// Showing a seed is answered with all of its metadata and its path, or with the error.
pub proof fn a_show_is_answered_with_the_seed(
    json_mode: bool,
    path: &str,
    result: Result<SeedMetadata, String>,
    output: Output,
)
    requires
        call_ensures(show_output, (json_mode, path, result), output),
    ensures
        answers_show(output, json_mode, path@, result),
{
    shown_is_show(output, json_mode, path@, result);
}

proof fn shown_is_show(
    output: Output,
    json_mode: bool,
    path: Seq<char>,
    result: Result<SeedMetadata, String>,
)
    requires
        output@ == crate::command::shown_answer(
            json_mode,
            path,
            crate::metadata::metadata_outcome(result),
        ),
        json_mode ==> crate::command::is_one_line(output@),
    ensures
        answers_show(output, json_mode, path, result),
{
    match result {
        Ok(seed) => {
            let data = crate::metadata::metadata_doc(seed@);
            let lines = crate::command::shown_lines(seed@, path);
            crate::laws::records::metadata_doc_tells(seed);
            if json_mode {
                succeeded_is_data(output, data, lines);
            } else {
                succeeded_is_lines(output, data, lines);
            }
        },
        Err(error) => {
            failed_is_failure(output, json_mode, error@);
        },
    }
}

/// A deletion is answered with the name of the seed, or with the error.
pub proof fn a_deletion_is_answered_with_the_name(
    json_mode: bool,
    name: &str,
    result: Result<(), String>,
    output: Output,
)
    requires
        call_ensures(delete_output, (json_mode, name, result), output),
    ensures
        answers_delete(output, json_mode, name@, result),
{
    deleted_is_delete(output, json_mode, name@, result);
}

proof fn deleted_is_delete(
    output: Output,
    json_mode: bool,
    name: Seq<char>,
    result: Result<(), String>,
)
    requires
        output@ == crate::command::deleted_answer(json_mode, name, crate::text::outcome(result)),
        json_mode ==> crate::command::is_one_line(output@),
    ensures
        answers_delete(output, json_mode, name, result),
{
    match result {
        Ok(u) => {
            assert(u == ());
            let data = crate::command::deleted_doc(name);
            let lines = seq!["Deleted seed '"@ + name + "'"@];
            assert(data->Object_0.dom() =~= set!["deleted"@]);
            if json_mode {
                succeeded_is_data(output, data, lines);
                assert(has_one(data, "deleted"@, JsonDoc::Text(name)));
            } else {
                succeeded_is_lines(output, data, lines);
            }
        },
        Err(error) => {
            failed_is_failure(output, json_mode, error@);
        },
    }
}

/// The list is answered with every seed, in order.
pub proof fn the_list_is_answered_with_every_seed(
    json_mode: bool,
    seeds: Vec<SeedMetadata>,
    output: Output,
)
    requires
        call_ensures(run_list, (json_mode, &seeds), output),
    ensures
        answers_list(output, json_mode, seeds@),
{
    listed_is_list(output, json_mode, seeds@);
}

proof fn listed_is_list(output: Output, json_mode: bool, seeds: Seq<SeedMetadata>)
    requires
        output@ == crate::command::listed_answer(
            json_mode,
            crate::metadata::metadata_views(seeds),
        ),
        json_mode ==> crate::command::is_one_line(output@),
    ensures
        answers_list(output, json_mode, seeds),
{
    let views = crate::metadata::metadata_views(seeds);
    let data = crate::command::listed_doc(views);
    let lines = crate::command::listed_lines(views);
    if json_mode {
        succeeded_is_data(output, data, lines);
        let list = data->Object_0["seeds"@];
        let items = list->List_0;
        assert(data->Object_0.dom() =~= set!["seeds"@]);
        assert forall|i: int| 0 <= i < seeds.len() implies crate::laws::records::tells_the_seed(
            items[i],
            #[trigger] seeds[i],
        ) by {
            crate::laws::records::metadata_doc_tells(seeds[i]);
            assert(views[i] == seeds[i]@);
            assert(items[i] == crate::metadata::metadata_doc(views[i]));
        }
        assert(has_one(data, "seeds"@, list));
    } else {
        succeeded_is_lines(output, data, lines);
        if seeds.len() > 0 {
            assert(lines.len() == seeds.len() + 1);
            assert(output.stdout@[0]@ == lines[0]);
            assert forall|i: int| 0 <= i < seeds.len() implies output.stdout@[i + 1]@ == "  "@ + (
            #[trigger] seeds[i]).name@ + "  (from "@ + seeds[i].source_profile@ + " / "@
                + seeds[i].profile_directory@ + ")"@ by {
                assert(output.stdout@[i + 1]@ == lines[i + 1]);
                assert(views[i] == seeds[i]@);
            }
        }
    }
}

/// How the command begins: with what it is asked for. An invalid name is answered with its error at
/// once, and what cannot be done with the reason.
pub proof fn the_command_begins_with_what_is_asked_for(
    args: &[String],
    json_mode: bool,
    given: Option<&str>,
    command: SeedCommand<String>,
    run: SeedRun,
)
    requires
        call_ensures(parse_command, (args, given), command),
        call_ensures(run_seed, (args, json_mode, given), run),
    ensures
        run.json_mode == json_mode,
        match command {
            SeedCommand::List => run.task is List,
            SeedCommand::Show { name } => run.task is Show && run.task->name@ == name@,
            SeedCommand::Save { name, profile } => if crate::laws::names::is_name(name@) {
                &&& run.task is Save
                &&& run.task->Save_0.name@ == name@
                &&& run.task->Save_0.source_profile@ == profile@
                &&& run.task->Save_0.stage is Locate
            } else {
                run.task is Answer && answers_failure(
                    run.task->Answer_0,
                    json_mode,
                    "Invalid seed name '"@ + name@
                        + "'. Only alphanumeric characters, hyphens, and underscores are allowed."@,
                )
            },
            SeedCommand::Delete { name } => if crate::laws::names::is_name(name@) {
                &&& run.task is Delete
                &&& run.task->Delete_0.name@ == name@
                &&& run.task->Delete_0.stage is Inspect
            } else {
                run.task is Answer && answers_failure(
                    run.task->Answer_0,
                    json_mode,
                    "Invalid seed name '"@ + name@
                        + "'. Only alphanumeric characters, hyphens, and underscores are allowed."@,
                )
            },
            SeedCommand::Refuse { message } => run.task is Answer && answers_failure(
                run.task->Answer_0,
                json_mode,
                message@,
            ),
        },
{
    let view = run@;
    assert(view == crate::command::seed_start(command@, json_mode));
    match command {
        SeedCommand::Save { name, profile } => {
            assert(crate::laws::names::is_name(name@) == crate::name::valid_session_name(name@));
            if !crate::laws::names::is_name(name@) {
                failed_is_failure(
                    run.task->Answer_0,
                    json_mode,
                    crate::name::seed_name_error(name@),
                );
            }
        },
        SeedCommand::Delete { name } => {
            assert(crate::laws::names::is_name(name@) == crate::name::valid_session_name(name@));
            if !crate::laws::names::is_name(name@) {
                failed_is_failure(
                    run.task->Answer_0,
                    json_mode,
                    crate::name::seed_name_error(name@),
                );
            }
        },
        SeedCommand::Refuse { message } => {
            failed_is_failure(run.task->Answer_0, json_mode, message@);
        },
        _ => {},
    }
}

/// A list that was asked for is answered with the seeds that were found, and nothing else answers it.
pub proof fn a_listing_goes_on(run: SeedRun, event: SeedEvent, next: SeedRun)
    requires
        run.task is List,
        call_ensures(SeedRun::advance, (run, event), next),
    ensures
        next.json_mode == run.json_mode,
        match event {
            SeedEvent::Listed(seeds) => next.task is Answer && answers_list(
                next.task->Answer_0,
                run.json_mode,
                seeds@,
            ),
            _ => next.task is List,
        },
{
    assert(next@ == crate::command::seed_next(run@, event@));
    match event {
        SeedEvent::Listed(seeds) => {
            listed_is_list(next.task->Answer_0, run.json_mode, seeds@);
        },
        _ => {},
    }
}

/// A seed that is to be shown is answered with what was read of it, and nothing else answers it.
pub proof fn a_show_goes_on(run: SeedRun, event: SeedEvent, next: SeedRun)
    requires
        run.task is Show,
        call_ensures(SeedRun::advance, (run, event), next),
    ensures
        next.json_mode == run.json_mode,
        match event {
            SeedEvent::Read { path, result } => next.task is Answer && answers_show(
                next.task->Answer_0,
                run.json_mode,
                path@,
                result,
            ),
            _ => next.task is Show && next.task->name@ == run.task->name@,
        },
{
    assert(next@ == crate::command::seed_next(run@, event@));
    match event {
        SeedEvent::Read { path, result } => {
            shown_is_show(next.task->Answer_0, run.json_mode, path@, result);
        },
        _ => {},
    }
}

/// A save goes on as saving does, and is answered with its outcome.
pub proof fn a_save_goes_on(
    run: SeedRun,
    event: SaveEvent<String>,
    next: SeedRun,
    after: SaveRun<String, SeedMetadata>,
)
    requires
        run.task is Save,
        call_ensures(SeedRun::advance, (run, SeedEvent::Saving(event)), next),
        call_ensures(
            SaveRun::<String, SeedMetadata>::advance,
            (run.task->Save_0, event),
            after,
        ),
    ensures
        next.json_mode == run.json_mode,
        match after.stage {
            SaveStage::Done(result) => next.task is Answer && answers_save(
                next.task->Answer_0,
                run.json_mode,
                result,
            ),
            _ => {
                &&& next.task is Save
                &&& next.task->Save_0.name@ == after.name@
                &&& next.task->Save_0.source_profile@ == after.source_profile@
                &&& crate::laws::saving::same_stage(after.stage, next.task->Save_0.stage)
            },
        },
{
    assert(next@ == crate::command::seed_next(run@, SeedEvent::Saving(event)@));
    match after.stage {
        SaveStage::Done(result) => {
            saved_is_save(next.task->Answer_0, run.json_mode, result);
        },
        _ => {
            assert(next.task->Save_0@ == after@);
        },
    }
}

/// A deletion goes on as deleting does, and is answered with its outcome, for the name that was asked
/// for.
pub proof fn a_deletion_goes_on(
    run: SeedRun,
    event: DeleteEvent<String>,
    next: SeedRun,
    after: DeleteRun<String>,
)
    requires
        run.task is Delete,
        call_ensures(SeedRun::advance, (run, SeedEvent::Deleting(event)), next),
        call_ensures(DeleteRun::<String>::advance, (run.task->Delete_0, event), after),
    ensures
        next.json_mode == run.json_mode,
        match after.stage {
            DeleteStage::Done(result) => next.task is Answer && answers_delete(
                next.task->Answer_0,
                run.json_mode,
                run.task->Delete_0.name@,
                result,
            ),
            DeleteStage::Inspect => next.task is Delete && next.task->Delete_0.name@
                == run.task->Delete_0.name@ && next.task->Delete_0.stage is Inspect,
            DeleteStage::Remove => next.task is Delete && next.task->Delete_0.name@
                == run.task->Delete_0.name@ && next.task->Delete_0.stage is Remove,
        },
{
    assert(next@ == crate::command::seed_next(run@, SeedEvent::Deleting(event)@));
    match after.stage {
        DeleteStage::Done(result) => {
            deleted_is_delete(
                next.task->Answer_0,
                run.json_mode,
                run.task->Delete_0.name@,
                result,
            );
        },
        _ => {},
    }
}

/// A save or a deletion that is not done stays as it is where it is told of something else.
pub proof fn what_is_not_asked_for_changes_nothing(run: SeedRun, event: SeedEvent, next: SeedRun)
    requires
        call_ensures(SeedRun::advance, (run, event), next),
    ensures
        run.task is Save && !(event is Saving) && !(run.task->Save_0.stage is Done) ==> {
            &&& next.task is Save
            &&& next.task->Save_0.name@ == run.task->Save_0.name@
            &&& next.task->Save_0.source_profile@ == run.task->Save_0.source_profile@
            &&& crate::laws::saving::same_stage(run.task->Save_0.stage, next.task->Save_0.stage)
        },
        run.task is Delete && !(event is Deleting) && !(run.task->Delete_0.stage is Done) ==> {
            &&& next.task is Delete
            &&& next.task->Delete_0.name@ == run.task->Delete_0.name@
            &&& next.task->Delete_0.stage is Inspect <==> run.task->Delete_0.stage is Inspect
            &&& next.task->Delete_0.stage is Remove <==> run.task->Delete_0.stage is Remove
        },
{
    assert(next@ == crate::command::seed_next(run@, event@));
    if run.task is Save && !(event is Saving) && !(run.task->Save_0.stage is Done) {
        assert(next.task->Save_0@ == run.task->Save_0@);
    }
}

/// An answer stays as it is.
pub proof fn an_answer_stays(run: SeedRun, event: SeedEvent, next: SeedRun)
    requires
        run.task is Answer,
        call_ensures(SeedRun::advance, (run, event), next),
    ensures
        next.json_mode == run.json_mode,
        next.task is Answer,
        next.task->Answer_0.exit_code == run.task->Answer_0.exit_code,
        next.task->Answer_0.stdout@.len() == run.task->Answer_0.stdout@.len(),
        next.task->Answer_0.stderr@.len() == run.task->Answer_0.stderr@.len(),
        forall|i: int|
            0 <= i < run.task->Answer_0.stdout@.len() ==> (
            #[trigger] next.task->Answer_0.stdout@[i])@ == run.task->Answer_0.stdout@[i]@,
        forall|i: int|
            0 <= i < run.task->Answer_0.stderr@.len() ==> (
            #[trigger] next.task->Answer_0.stderr@[i])@ == run.task->Answer_0.stderr@[i]@,
{
    assert(next@ == crate::command::seed_next(run@, event@));
    assert(next.task->Answer_0@ == run.task->Answer_0@);
    output_views(next.task->Answer_0);
    output_views(run.task->Answer_0);
    assert forall|i: int| 0 <= i < run.task->Answer_0.stdout@.len() implies (
    #[trigger] next.task->Answer_0.stdout@[i])@ == run.task->Answer_0.stdout@[i]@ by {
        assert(run.task->Answer_0.stdout@[i]@ == run.task->Answer_0@.stdout[i]);
    }
    assert forall|i: int| 0 <= i < run.task->Answer_0.stderr@.len() implies (
    #[trigger] next.task->Answer_0.stderr@[i])@ == run.task->Answer_0.stderr@[i]@ by {
        assert(run.task->Answer_0.stderr@[i]@ == run.task->Answer_0@.stderr[i]);
    }
}

} // verus!
