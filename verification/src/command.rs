//! The `seed` command: what it is asked for, and what it answers.

use crate::delete::{delete_seed, DeleteEvent, DeleteRun, DeleteStage};
use crate::json::{failure_line, object_value, success_line, text_value, JsonDoc};
use crate::metadata::{metadata_list_value, metadata_value, SeedMetadata, SeedMetadataView};
use crate::save::{save_seed, SaveEvent, SaveRun, SaveStage};
use crate::text::{str_eq, strip_prefix};
use serde_json::Value;
use vstd::prelude::*;
use vstd::string::*;

verus! {

/// What the command is asked for.
pub enum SeedCommand<T> {
    /// List all seeds.
    List,
    /// Save a Chrome profile as a seed.
    Save { name: T, profile: T },
    /// Show a seed's metadata.
    Show { name: T },
    /// Delete a seed.
    Delete { name: T },
    /// Something that cannot be done, and the message for it.
    Refuse { message: T },
}

impl View for SeedCommand<String> {
    type V = SeedCommand<Seq<char>>;

    open spec fn view(&self) -> SeedCommand<Seq<char>> {
        match *self {
            SeedCommand::List => SeedCommand::List,
            SeedCommand::Save { name, profile } => SeedCommand::Save {
                name: name@,
                profile: profile@,
            },
            SeedCommand::Show { name } => SeedCommand::Show { name: name@ },
            SeedCommand::Delete { name } => SeedCommand::Delete { name: name@ },
            SeedCommand::Refuse { message } => SeedCommand::Refuse { message: message@ },
        }
    }
}

/// The value of the flag `--profile` among some arguments. The first argument that is the flag
/// counts: it is followed by the value, or holds the value behind an equals sign.
pub open spec fn profile_among(args: Seq<Seq<char>>) -> Option<Seq<char>>
    decreases args.len(),
{
    if args.len() == 0 {
        None
    } else if args[0] == "--profile"@ {
        if args.len() > 1 {
            Some(args[1])
        } else {
            None
        }
    } else if crate::text::starts_with(args[0], "--profile="@) {
        Some(args[0].skip("--profile="@.len() as int))
    } else {
        profile_among(args.drop_first())
    }
}

/// The value of the flag `--profile` among some arguments.
pub fn profile_flag(args: &[String]) -> (profile: Option<String>)
    ensures
        profile.deep_view() == profile_among(crate::text::texts(args@)),
{
    let ghost all = crate::text::texts(args@);
    let mut i: usize = 0;
    proof {
        assert(all.skip(0) =~= all);
    }
    while i < args.len()
        invariant
            i <= args.len(),
            all == crate::text::texts(args@),
            profile_among(all) == profile_among(all.skip(i as int)),
        decreases args.len() - i,
    {
        let arg = args[i].as_str();
        proof {
            assert(all.skip(i as int)[0] == arg@);
            assert(all.skip(i as int).drop_first() =~= all.skip(i + 1));
        }
        if str_eq(arg, "--profile") {
            if i + 1 < args.len() {
                proof {
                    assert(all.skip(i as int)[1] == args@[i + 1]@);
                }
                return Some(args[i + 1].clone());
            }
            return None;
        }
        let value = strip_prefix(arg, "--profile=");
        if value.is_some() {
            return value;
        }
        i = i + 1;
    }
    None
}

/// What the arguments ask for: the second one says what is to be done, and the third one is the name
/// of a seed. The value of a flag that has been taken out of the arguments before counts more than
/// one that is among them.
pub open spec fn command_of(args: Seq<Seq<char>>, profile: Option<Seq<char>>) -> SeedCommand<
    Seq<char>,
> {
    let wanted = if args.len() > 1 {
        args[1]
    } else {
        "list"@
    };
    let profile = if profile is Some {
        profile
    } else {
        profile_among(args)
    };
    if wanted == "list"@ {
        SeedCommand::List
    } else if wanted == "save"@ {
        if args.len() <= 2 {
            SeedCommand::Refuse {
                message: "Usage: agent-browser seed save <name> --profile <chrome-profile>"@,
            }
        } else {
            match profile {
                Some(profile) => SeedCommand::Save { name: args[2], profile },
                None => SeedCommand::Refuse {
                    message: "seed save requires --profile <name>. Example: agent-browser seed save work --profile Default"@,
                },
            }
        }
    } else if wanted == "show"@ {
        if args.len() <= 2 {
            SeedCommand::Refuse { message: "Usage: agent-browser seed show <name>"@ }
        } else {
            SeedCommand::Show { name: args[2] }
        }
    } else if wanted == "delete"@ || wanted == "rm"@ {
        if args.len() <= 2 {
            SeedCommand::Refuse { message: "Usage: agent-browser seed delete <name>"@ }
        } else {
            SeedCommand::Delete { name: args[2] }
        }
    } else {
        SeedCommand::Refuse {
            message: "Unknown seed subcommand '"@ + wanted
                + "'. Use list, save, show, or delete."@,
        }
    }
}

/// Refuses with a fixed message.
fn refuse(message: &str) -> (command: SeedCommand<String>)
    ensures
        command@ == (SeedCommand::Refuse { message: message@ }),
{
    SeedCommand::Refuse { message: message.to_string() }
}

/// Tells what the arguments ask for.
pub fn parse_command(args: &[String], profile_flag_value: Option<&str>) -> (command: SeedCommand<String>)
    ensures
        command@ == command_of(crate::text::texts(args@), profile_flag_value.deep_view()),
{
    let wanted = if args.len() > 1 {
        args[1].as_str()
    } else {
        "list"
    };
    if str_eq(wanted, "list") {
        SeedCommand::List
    } else if str_eq(wanted, "save") {
        if args.len() <= 2 {
            return refuse("Usage: agent-browser seed save <name> --profile <chrome-profile>");
        }
        let profile = match profile_flag_value {
            Some(value) => Some(value.to_string()),
            None => profile_flag(args),
        };
        match profile {
            Some(profile) => SeedCommand::Save { name: args[2].clone(), profile },
            None => refuse(
                "seed save requires --profile <name>. Example: agent-browser seed save work --profile Default",
            ),
        }
    } else if str_eq(wanted, "show") {
        if args.len() <= 2 {
            return refuse("Usage: agent-browser seed show <name>");
        }
        SeedCommand::Show { name: args[2].clone() }
    } else if str_eq(wanted, "delete") || str_eq(wanted, "rm") {
        if args.len() <= 2 {
            return refuse("Usage: agent-browser seed delete <name>");
        }
        SeedCommand::Delete { name: args[2].clone() }
    } else {
        SeedCommand::Refuse {
            message: "Unknown seed subcommand '".to_string().concat(wanted).concat(
                "'. Use list, save, show, or delete.",
            ),
        }
    }
}

/// What the command prints, and how the process ends.
pub struct Output {
    /// The lines for the standard output.
    pub stdout: Vec<String>,
    /// The lines for the standard error.
    pub stderr: Vec<String>,
    /// The code that the process exits with at once, if it does.
    pub exit_code: Option<i32>,
}

/// The text held in an [`Output`].
pub struct OutputView {
    pub stdout: Seq<Seq<char>>,
    pub stderr: Seq<Seq<char>>,
    pub exit_code: Option<i32>,
}

impl View for Output {
    type V = OutputView;

    open spec fn view(&self) -> OutputView {
        OutputView {
            stdout: crate::text::texts(self.stdout@),
            stderr: crate::text::texts(self.stderr@),
            exit_code: self.exit_code,
        }
    }
}

/// Lines for the standard output, and nothing else.
pub open spec fn printed(lines: Seq<Seq<char>>) -> OutputView {
    OutputView { stdout: lines, stderr: Seq::empty(), exit_code: None }
}

/// Whether exactly one line is printed, on the standard output, and the process does not exit early.
pub open spec fn is_one_line(output: OutputView) -> bool {
    &&& output.stdout.len() == 1
    &&& !output.stdout[0].contains('\n')
    &&& output.stderr.len() == 0
    &&& output.exit_code is None
}

/// What a failure prints: in JSON mode a document on the standard output, else the message on the
/// standard error, and the process exits with code 1.
pub open spec fn failed(json_mode: bool, message: Seq<char>) -> OutputView {
    if json_mode {
        printed(seq![crate::json::json_text(crate::json::failure_doc(message))])
    } else {
        OutputView { stdout: Seq::empty(), stderr: seq![message], exit_code: Some(1) }
    }
}

/// What a success prints: in JSON mode a document on the standard output, else lines of text there.
pub open spec fn succeeded(json_mode: bool, data: JsonDoc, lines: Seq<Seq<char>>) -> OutputView {
    if json_mode {
        printed(seq![crate::json::json_text(crate::json::success_doc(data))])
    } else {
        printed(lines)
    }
}

/// One line for the standard output.
fn print_line(line: String) -> (output: Output)
    ensures
        output@ == printed(seq![line@]),
{
    let output = Output { stdout: vec![line], stderr: Vec::new(), exit_code: None };
    proof {
        assert(output@.stdout =~= seq![line@]);
        assert(output@.stderr =~= Seq::empty());
    }
    output
}

/// What a failure prints.
pub fn fail(json_mode: bool, message: &str) -> (output: Output)
    ensures
        output@ == failed(json_mode, message@),
        json_mode ==> is_one_line(output@),
{
    if json_mode {
        print_line(failure_line(message))
    } else {
        let output = Output {
            stdout: Vec::new(),
            stderr: vec![message.to_string()],
            exit_code: Some(1),
        };
        proof {
            assert(output@.stdout =~= Seq::empty());
            assert(output@.stderr =~= seq![message@]);
        }
        output
    }
}

/// The line that says that a seed was saved.
pub open spec fn saved_line(seed: SeedMetadataView) -> Seq<char> {
    "Saved seed '"@ + seed.name + "' from profile '"@ + seed.source_profile + "' ("@
        + seed.profile_directory + ")"@
}

/// What saving a seed prints.
pub open spec fn saved_answer(
    json_mode: bool,
    result: Result<SeedMetadataView, Seq<char>>,
) -> OutputView {
    match result {
        Ok(seed) => succeeded(
            json_mode,
            crate::metadata::metadata_doc(seed),
            seq![saved_line(seed)],
        ),
        Err(error) => failed(json_mode, error),
    }
}

/// What saving a seed prints.
pub fn save_output(json_mode: bool, result: Result<SeedMetadata, String>) -> (output: Output)
    ensures
        output@ == saved_answer(json_mode, crate::metadata::metadata_outcome(result)),
        json_mode ==> is_one_line(output@),
{
    match result {
        Ok(seed) => if json_mode {
            print_line(success_line(metadata_value(&seed)))
        } else {
            print_line(
                "Saved seed '".to_string().concat(seed.name.as_str()).concat(
                    "' from profile '",
                ).concat(seed.source_profile.as_str()).concat("' (").concat(
                    seed.profile_directory.as_str(),
                ).concat(")"),
            )
        },
        Err(error) => fail(json_mode, error.as_str()),
    }
}

/// The lines that show a seed's metadata, and the path of its directory.
pub open spec fn shown_lines(seed: SeedMetadataView, path: Seq<char>) -> Seq<Seq<char>> {
    seq![
        "Name:               "@ + seed.name,
        "Source profile:     "@ + seed.source_profile,
        "Profile directory:  "@ + seed.profile_directory,
        "Created (unix):     "@ + seed.created_at,
        "Path:               "@ + path,
    ]
}

/// What showing a seed prints; `path` describes the path of its directory.
pub open spec fn shown_answer(
    json_mode: bool,
    path: Seq<char>,
    result: Result<SeedMetadataView, Seq<char>>,
) -> OutputView {
    match result {
        Ok(seed) => succeeded(
            json_mode,
            crate::metadata::metadata_doc(seed),
            shown_lines(seed, path),
        ),
        Err(error) => failed(json_mode, error),
    }
}

/// What showing a seed prints; `path` describes the path of its directory.
pub fn show_output(json_mode: bool, path: &str, result: Result<SeedMetadata, String>) -> (output:
    Output)
    ensures
        output@ == shown_answer(json_mode, path@, crate::metadata::metadata_outcome(result)),
        json_mode ==> is_one_line(output@),
{
    match result {
        Ok(seed) => if json_mode {
            print_line(success_line(metadata_value(&seed)))
        } else {
            let stdout: Vec<String> = vec![
                "Name:               ".to_string().concat(seed.name.as_str()),
                "Source profile:     ".to_string().concat(seed.source_profile.as_str()),
                "Profile directory:  ".to_string().concat(seed.profile_directory.as_str()),
                "Created (unix):     ".to_string().concat(seed.created_at.as_str()),
                "Path:               ".to_string().concat(path),
            ];
            let output = Output { stdout, stderr: Vec::new(), exit_code: None };
            proof {
                assert(output@.stdout =~= shown_lines(seed@, path@));
                assert(output@.stderr =~= Seq::empty());
            }
            output
        },
        Err(error) => fail(json_mode, error.as_str()),
    }
}

/// The document that says which seed was deleted.
pub open spec fn deleted_doc(name: Seq<char>) -> JsonDoc {
    JsonDoc::Object(map!["deleted"@ => JsonDoc::Text(name)])
}

/// An object with one member.
fn single_value(key: &str, value: Value) -> (object: Value)
    ensures
        crate::json::json_of(object) == JsonDoc::Object(map![key@ => crate::json::json_of(value)]),
{
    let members: Vec<(String, Value)> = vec![(key.to_string(), value)];
    proof {
        let docs = crate::json::member_docs(members@);
        assert(docs =~= seq![(key@, crate::json::json_of(value))]);
        assert(docs.drop_last() =~= Seq::<(Seq<char>, JsonDoc)>::empty());
        reveal_with_fuel(crate::json::object_of, 2);
    }
    object_value(members)
}

/// What deleting the seed `name` prints.
pub open spec fn deleted_answer(
    json_mode: bool,
    name: Seq<char>,
    result: Result<(), Seq<char>>,
) -> OutputView {
    match result {
        Ok(()) => succeeded(
            json_mode,
            deleted_doc(name),
            seq!["Deleted seed '"@ + name + "'"@],
        ),
        Err(error) => failed(json_mode, error),
    }
}

/// What deleting the seed `name` prints.
pub fn delete_output(json_mode: bool, name: &str, result: Result<(), String>) -> (output: Output)
    ensures
        output@ == deleted_answer(json_mode, name@, crate::text::outcome(result)),
        json_mode ==> is_one_line(output@),
{
    match result {
        Ok(()) => if json_mode {
            print_line(success_line(single_value("deleted", text_value(name))))
        } else {
            print_line("Deleted seed '".to_string().concat(name).concat("'"))
        },
        Err(error) => fail(json_mode, error.as_str()),
    }
}

/// The line for a seed in the list of seeds.
pub open spec fn listed_line(seed: SeedMetadataView) -> Seq<char> {
    "  "@ + seed.name + "  (from "@ + seed.source_profile + " / "@ + seed.profile_directory + ")"@
}

/// The lines of the list of seeds.
pub open spec fn listed_lines(seeds: Seq<SeedMetadataView>) -> Seq<Seq<char>> {
    if seeds.len() == 0 {
        seq![
            "No seeds saved. Run `agent-browser seed save <name> --profile <chrome-profile>`."@,
        ]
    } else {
        seq!["Seeds:"@] + seeds.map_values(|seed: SeedMetadataView| listed_line(seed))
    }
}

/// The document of the list of seeds.
pub open spec fn listed_doc(seeds: Seq<SeedMetadataView>) -> JsonDoc {
    JsonDoc::Object(
        map![
            "seeds"@ => JsonDoc::List(
                seeds.map_values(|seed: SeedMetadataView| crate::metadata::metadata_doc(seed)),
            ),
        ],
    )
}

/// What listing the seeds prints.
pub open spec fn listed_answer(json_mode: bool, seeds: Seq<SeedMetadataView>) -> OutputView {
    succeeded(json_mode, listed_doc(seeds), listed_lines(seeds))
}

/// What listing the seeds prints.
pub fn run_list(json_mode: bool, seeds: &Vec<SeedMetadata>) -> (output: Output)
    ensures
        output@ == listed_answer(json_mode, crate::metadata::metadata_views(seeds@)),
        json_mode ==> is_one_line(output@),
{
    if json_mode {
        return print_line(success_line(single_value("seeds", metadata_list_value(seeds))));
    }
    if seeds.len() == 0 {
        return print_line(
            "No seeds saved. Run `agent-browser seed save <name> --profile <chrome-profile>`.".to_string(),
        );
    }
    let ghost views = crate::metadata::metadata_views(seeds@);
    let mut stdout: Vec<String> = vec!["Seeds:".to_string()];
    for i in 0..seeds.len()
        invariant
            views == crate::metadata::metadata_views(seeds@),
            stdout.len() == i + 1,
            stdout@[0]@ == "Seeds:"@,
            forall|j: int| 1 <= j < i + 1 ==> (#[trigger] stdout@[j])@ == listed_line(views[j - 1]),
    {
        let seed = &seeds[i];
        stdout.push(
            "  ".to_string().concat(seed.name.as_str()).concat("  (from ").concat(
                seed.source_profile.as_str(),
            ).concat(" / ").concat(seed.profile_directory.as_str()).concat(")"),
        );
    }
    let output = Output { stdout, stderr: Vec::new(), exit_code: None };
    proof {
        assert(output@.stdout =~= listed_lines(views));
        assert(output@.stderr =~= Seq::empty());
    }
    output
}

/// What is to be done next for the command.
pub enum SeedTask {
    /// List the seeds.
    List,
    /// Do the next step of saving a seed.
    Save(SaveRun<String, SeedMetadata>),
    /// Read a seed's metadata.
    Show { name: String },
    /// Do the next step of deleting a seed.
    Delete(DeleteRun<String>),
    /// Nothing: this is the answer.
    Answer(Output),
}

/// The text held in a [`SeedTask`].
pub enum SeedTaskView {
    List,
    Save(SaveRun<Seq<char>, SeedMetadataView>),
    Show { name: Seq<char> },
    Delete(DeleteRun<Seq<char>>),
    Answer(OutputView),
}

impl View for SeedTask {
    type V = SeedTaskView;

    open spec fn view(&self) -> SeedTaskView {
        match *self {
            SeedTask::List => SeedTaskView::List,
            SeedTask::Save(run) => SeedTaskView::Save(run@),
            SeedTask::Show { name } => SeedTaskView::Show { name: name@ },
            SeedTask::Delete(run) => SeedTaskView::Delete(run@),
            SeedTask::Answer(output) => SeedTaskView::Answer(output@),
        }
    }
}

/// What came of it.
pub enum SeedEvent {
    /// The seeds, in the order in which they are listed.
    Listed(Vec<SeedMetadata>),
    /// What came of a step of saving.
    Saving(SaveEvent<String>),
    /// The seed's metadata, or why it cannot be read, and the path of the seed's directory.
    Read { path: String, result: Result<SeedMetadata, String> },
    /// What came of a step of deleting.
    Deleting(DeleteEvent<String>),
}

/// The text held in a [`SeedEvent`].
pub enum SeedEventView {
    Listed(Seq<SeedMetadataView>),
    Saving(SaveEvent<Seq<char>>),
    Read { path: Seq<char>, result: Result<SeedMetadataView, Seq<char>> },
    Deleting(DeleteEvent<Seq<char>>),
}

impl View for SeedEvent {
    type V = SeedEventView;

    open spec fn view(&self) -> SeedEventView {
        match *self {
            SeedEvent::Listed(seeds) => SeedEventView::Listed(
                crate::metadata::metadata_views(seeds@),
            ),
            SeedEvent::Saving(event) => SeedEventView::Saving(event@),
            SeedEvent::Read { path, result } => SeedEventView::Read {
                path: path@,
                result: crate::metadata::metadata_outcome(result),
            },
            SeedEvent::Deleting(event) => SeedEventView::Deleting(event@),
        }
    }
}

/// A run of the `seed` command.
pub struct SeedRun {
    pub json_mode: bool,
    pub task: SeedTask,
}

/// The text held in a [`SeedRun`].
pub struct SeedRunView {
    pub json_mode: bool,
    pub task: SeedTaskView,
}

impl View for SeedRun {
    type V = SeedRunView;

    open spec fn view(&self) -> SeedRunView {
        SeedRunView { json_mode: self.json_mode, task: self.task@ }
    }
}

/// Whether the answer, if it is there, is exactly one line.
pub open spec fn answers_in_one_line(task: SeedTaskView) -> bool {
    task matches SeedTaskView::Answer(output) ==> is_one_line(output)
}

/// A task, or its answer if it has come to an outcome.
pub open spec fn settled(json_mode: bool, task: SeedTaskView) -> SeedTaskView {
    match task {
        SeedTaskView::Save(run) => match run.stage {
            SaveStage::Done(result) => SeedTaskView::Answer(saved_answer(json_mode, result)),
            _ => task,
        },
        SeedTaskView::Delete(run) => match run.stage {
            DeleteStage::Done(result) => SeedTaskView::Answer(
                deleted_answer(json_mode, run.name, result),
            ),
            _ => task,
        },
        _ => task,
    }
}

/// How the command begins, for what is asked for: something that cannot be done is answered as a
/// failure.
pub open spec fn seed_start(command: SeedCommand<Seq<char>>, json_mode: bool) -> SeedRunView {
    SeedRunView {
        json_mode,
        task: settled(
            json_mode,
            match command {
                SeedCommand::List => SeedTaskView::List,
                SeedCommand::Save { name, profile } => SeedTaskView::Save(
                    crate::save::save_start(name, profile),
                ),
                SeedCommand::Show { name } => SeedTaskView::Show { name },
                SeedCommand::Delete { name } => SeedTaskView::Delete(
                    crate::delete::delete_start(name),
                ),
                SeedCommand::Refuse { message } => SeedTaskView::Answer(
                    failed(json_mode, message),
                ),
            },
        ),
    }
}

/// How the command goes on. An event that does not answer the task changes nothing.
pub open spec fn seed_next(run: SeedRunView, event: SeedEventView) -> SeedRunView {
    SeedRunView {
        json_mode: run.json_mode,
        task: settled(
            run.json_mode,
            match (run.task, event) {
                (SeedTaskView::List, SeedEventView::Listed(seeds)) => SeedTaskView::Answer(
                    listed_answer(run.json_mode, seeds),
                ),
                (SeedTaskView::Save(save), SeedEventView::Saving(event)) => SeedTaskView::Save(
                    crate::save::save_next(save, event),
                ),
                (
                    SeedTaskView::Show { .. },
                    SeedEventView::Read { path, result },
                ) => SeedTaskView::Answer(shown_answer(run.json_mode, path, result)),
                (
                    SeedTaskView::Delete(delete),
                    SeedEventView::Deleting(event),
                ) => SeedTaskView::Delete(crate::delete::delete_next(delete, event)),
                (task, _) => task,
            },
        ),
    }
}

/// The step of saving that is next, or the answer.
fn save_task(json_mode: bool, run: SaveRun<String, SeedMetadata>) -> (task: SeedTask)
    ensures
        task@ == settled(json_mode, SeedTaskView::Save(run@)),
        json_mode ==> answers_in_one_line(task@),
{
    let SaveRun { name, source_profile, stage } = run;
    match stage {
        SaveStage::Done(result) => SeedTask::Answer(save_output(json_mode, result)),
        stage => SeedTask::Save(SaveRun { name, source_profile, stage }),
    }
}

/// The step of deleting that is next, or the answer.
fn delete_task(json_mode: bool, run: DeleteRun<String>) -> (task: SeedTask)
    ensures
        task@ == settled(json_mode, SeedTaskView::Delete(run@)),
        json_mode ==> answers_in_one_line(task@),
{
    let DeleteRun { name, stage } = run;
    match stage {
        DeleteStage::Done(result) => SeedTask::Answer(
            delete_output(json_mode, name.as_str(), result),
        ),
        stage => SeedTask::Delete(DeleteRun { name, stage }),
    }
}

/// Begins to run the `seed` command with the given arguments.
pub fn run_seed(args: &[String], json_mode: bool, profile_flag_value: Option<&str>) -> (run:
    SeedRun)
    ensures
        run@ == seed_start(
            command_of(crate::text::texts(args@), profile_flag_value.deep_view()),
            json_mode,
        ),
        json_mode ==> answers_in_one_line(run@.task),
{
    let task = match parse_command(args, profile_flag_value) {
        SeedCommand::List => SeedTask::List,
        SeedCommand::Save { name, profile } => save_task(
            json_mode,
            save_seed(name.as_str(), profile.as_str()),
        ),
        SeedCommand::Show { name } => SeedTask::Show { name },
        SeedCommand::Delete { name } => delete_task(json_mode, delete_seed(name.as_str())),
        SeedCommand::Refuse { message } => SeedTask::Answer(fail(json_mode, message.as_str())),
    };
    SeedRun { json_mode, task }
}

impl SeedRun {
    /// Takes note of what came of the work, and decides what is next, or answers.
    pub fn advance(self, event: SeedEvent) -> (next: SeedRun)
        ensures
            next@ == seed_next(self@, event@),
            self@.json_mode && answers_in_one_line(self@.task) ==> answers_in_one_line(next@.task),
    {
        let json_mode = self.json_mode;
        let task = match (self.task, event) {
            (SeedTask::List, SeedEvent::Listed(seeds)) => SeedTask::Answer(
                run_list(json_mode, &seeds),
            ),
            (SeedTask::Save(run), SeedEvent::Saving(event)) => save_task(
                json_mode,
                run.advance(event),
            ),
            (SeedTask::Show { name }, SeedEvent::Read { path, result }) => SeedTask::Answer(
                show_output(json_mode, path.as_str(), result),
            ),
            (SeedTask::Delete(run), SeedEvent::Deleting(event)) => delete_task(
                json_mode,
                run.advance(event),
            ),
            (SeedTask::Save(run), _) => save_task(json_mode, run),
            (SeedTask::Delete(run), _) => delete_task(json_mode, run),
            (task, _) => task,
        };
        SeedRun { json_mode, task }
    }
}

/// Where the command stands after some events.
pub open spec fn seed_after(run: SeedRunView, events: Seq<SeedEventView>) -> SeedRunView
    decreases events.len(),
{
    if events.len() == 0 {
        run
    } else {
        seed_next(seed_after(run, events.drop_last()), events.last())
    }
}

/// An answer is final, and the mode in which the command answers never changes.
pub proof fn seed_answer_is_final(run: SeedRunView, events: Seq<SeedEventView>)
    ensures
        seed_after(run, events).json_mode == run.json_mode,
        run.task is Answer ==> seed_after(run, events) == run,
    decreases events.len(),
{
    if events.len() > 0 {
        seed_answer_is_final(run, events.drop_last());
    }
}

/// Steps of saving, as events of the command.
pub open spec fn saving(events: Seq<SaveEvent<Seq<char>>>) -> Seq<SeedEventView> {
    events.map_values(|event: SaveEvent<Seq<char>>| SeedEventView::Saving(event))
}

/// A command to save a seed goes the way of saving, and is answered with its outcome, in the mode that
/// was asked for.
pub proof fn save_command_answers_with_its_outcome(
    json_mode: bool,
    name: Seq<char>,
    profile: Seq<char>,
    events: Seq<SaveEvent<Seq<char>>>,
)
    ensures
        ({
            let save = crate::save::save_after(crate::save::save_start(name, profile), events);
            let run = seed_after(
                seed_start(SeedCommand::Save { name, profile }, json_mode),
                saving(events),
            );
            &&& run.json_mode == json_mode
            &&& run.task == match save.stage {
                SaveStage::Done(result) => SeedTaskView::Answer(saved_answer(json_mode, result)),
                _ => SeedTaskView::Save(save),
            }
        }),
    decreases events.len(),
{
    if events.len() == 0 {
        assert(saving(events) =~= Seq::empty());
    } else {
        save_command_answers_with_its_outcome(json_mode, name, profile, events.drop_last());
        assert(saving(events).drop_last() =~= saving(events.drop_last()));
        assert(saving(events).last() == SeedEventView::Saving(events.last()));
    }
}

/// Steps of deleting, as events of the command.
pub open spec fn deleting(events: Seq<DeleteEvent<Seq<char>>>) -> Seq<SeedEventView> {
    events.map_values(|event: DeleteEvent<Seq<char>>| SeedEventView::Deleting(event))
}

/// A command to delete a seed goes the way of deleting, and is answered with its outcome for that name,
/// in the mode that was asked for.
pub proof fn delete_command_answers_with_its_outcome(
    json_mode: bool,
    name: Seq<char>,
    events: Seq<DeleteEvent<Seq<char>>>,
)
    ensures
        ({
            let delete = crate::delete::delete_after(crate::delete::delete_start(name), events);
            let run = seed_after(
                seed_start(SeedCommand::Delete { name }, json_mode),
                deleting(events),
            );
            &&& run.json_mode == json_mode
            &&& delete.name == name
            &&& run.task == match delete.stage {
                DeleteStage::Done(result) => SeedTaskView::Answer(
                    deleted_answer(json_mode, name, result),
                ),
                _ => SeedTaskView::Delete(delete),
            }
        }),
    decreases events.len(),
{
    if events.len() == 0 {
        assert(deleting(events) =~= Seq::empty());
    } else {
        delete_command_answers_with_its_outcome(json_mode, name, events.drop_last());
        assert(deleting(events).drop_last() =~= deleting(events.drop_last()));
        assert(deleting(events).last() == SeedEventView::Deleting(events.last()));
    }
}

/// Listing and showing are answered with what was found, in the mode that was asked for.
pub proof fn list_and_show_answer_with_what_was_found(
    json_mode: bool,
    seeds: Seq<SeedMetadataView>,
    name: Seq<char>,
    path: Seq<char>,
    result: Result<SeedMetadataView, Seq<char>>,
)
    ensures
        seed_next(seed_start(SeedCommand::List, json_mode), SeedEventView::Listed(seeds)).task
            == SeedTaskView::Answer(listed_answer(json_mode, seeds)),
        seed_next(
            seed_start(SeedCommand::Show { name }, json_mode),
            (SeedEventView::Read { path, result }),
        ).task == SeedTaskView::Answer(shown_answer(json_mode, path, result)),
{
}

/// Whether an argument is the flag `--profile`, in either spelling.
pub open spec fn is_profile_flag(arg: Seq<char>) -> bool {
    arg == "--profile"@ || crate::text::starts_with(arg, "--profile="@)
}

/// Only the first flag among the arguments counts; what stands before it does not matter.
pub proof fn first_profile_flag_counts(before: Seq<Seq<char>>, rest: Seq<Seq<char>>)
    requires
        forall|i: int| 0 <= i < before.len() ==> !is_profile_flag(#[trigger] before[i]),
    ensures
        profile_among(before + rest) == profile_among(rest),
    decreases before.len(),
{
    if before.len() == 0 {
        assert(before + rest =~= rest);
    } else {
        assert((before + rest)[0] == before[0]);
        assert((before + rest).drop_first() =~= before.drop_first() + rest);
        assert forall|i: int| 0 <= i < before.drop_first().len() implies !is_profile_flag(
            #[trigger] before.drop_first()[i],
        ) by {
            assert(before.drop_first()[i] == before[i + 1]);
        }
        first_profile_flag_counts(before.drop_first(), rest);
    }
}

/// Without the flag there is no profile.
pub proof fn no_profile_flag_no_profile(args: Seq<Seq<char>>)
    requires
        forall|i: int| 0 <= i < args.len() ==> !is_profile_flag(#[trigger] args[i]),
    ensures
        profile_among(args) is None,
{
    first_profile_flag_counts(args, Seq::empty());
    assert(args + Seq::<Seq<char>>::empty() =~= args);
}

/// The two spellings of the flag, with the value in the next argument and with it behind an equals
/// sign, mean the same.
pub proof fn both_spellings_agree(value: Seq<char>, rest: Seq<Seq<char>>)
    ensures
        profile_among(seq!["--profile"@, value] + rest) == Some(value),
        profile_among(seq!["--profile="@ + value] + rest) == Some(value),
{
    reveal_strlit("--profile");
    reveal_strlit("--profile=");
    let spaced = seq!["--profile"@, value] + rest;
    assert(spaced[0] == "--profile"@ && spaced[1] == value);
    let joined = "--profile="@ + value;
    let equals = seq![joined] + rest;
    assert(equals[0] == joined);
    assert(joined.len() != "--profile"@.len());
    assert(joined.take("--profile="@.len() as int) =~= "--profile="@);
    assert(joined.skip("--profile="@.len() as int) =~= value);
}

/// A profile that was given outside of the arguments overrides any that is among them.
pub proof fn given_profile_overrides(args: Seq<Seq<char>>, profile: Seq<char>)
    requires
        args.len() > 2,
        args[1] == "save"@,
    ensures
        command_of(args, Some(profile)) == (SeedCommand::Save { name: args[2], profile }),
{
    reveal_strlit("save");
    reveal_strlit("list");
    assert("save"@[0] == 's' && "list"@[0] == 'l');
}

/// `rm` is another word for `delete`.
pub proof fn rm_is_delete(args: Seq<Seq<char>>, profile: Option<Seq<char>>)
    requires
        args.len() > 1,
    ensures
        command_of(args.update(1, "rm"@), profile) == command_of(
            args.update(1, "delete"@),
            profile,
        ),
{
    reveal_strlit("rm");
    reveal_strlit("delete");
    reveal_strlit("list");
    reveal_strlit("save");
    reveal_strlit("show");
    assert("rm"@.len() == 2 && "delete"@.len() == 6);
    assert("list"@.len() == 4 && "save"@.len() == 4 && "show"@.len() == 4);
}

/// With nothing asked for, the seeds are listed.
pub proof fn nothing_asked_for_lists(args: Seq<Seq<char>>, profile: Option<Seq<char>>)
    requires
        args.len() <= 1,
    ensures
        command_of(args, profile) is List,
{
}

/// In JSON mode every answer is one document on the standard output, and the process does not exit early.
/// Otherwise a failure is one line on the standard error, and the process exits with code 1, and a
/// success prints to the standard output alone.
pub proof fn answers_go_where_they_belong(
    message: Seq<char>,
    data: JsonDoc,
    lines: Seq<Seq<char>>,
    json_mode: bool,
)
    ensures
        ({
            let failure = failed(json_mode, message);
            let success = succeeded(json_mode, data, lines);
            &&& success.stderr.len() == 0 && success.exit_code is None
            &&& json_mode ==> failure.stdout.len() == 1 && failure.stderr.len() == 0
                && failure.exit_code is None && success.stdout.len() == 1
            &&& !json_mode ==> failure.stdout.len() == 0 && failure.stderr == seq![message]
                && failure.exit_code == Some(1i32) && success.stdout == lines
        }),
{
}

} // verus!
