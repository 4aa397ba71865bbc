//! Text, paths, JSON, the list of seeds and the command.

use agent_browser_seed::command::{
    delete_output, fail, parse_command, profile_flag, run_list, run_seed, save_output, show_output,
    Output, SeedCommand, SeedEvent, SeedRun, SeedTask,
};
use agent_browser_seed::delete::{DeleteEvent, DeleteStage};
use agent_browser_seed::json::{failure_line, optional_text_value, success_line};
use agent_browser_seed::listing::{list_seeds, SeedEntry};
use agent_browser_seed::metadata::{
    chrono_now, metadata_list_value, metadata_value, read_metadata, MetadataFile, SeedMetadata,
    SEED_METADATA,
};
use agent_browser_seed::paths::{seed_path, seed_path_in, seeds_dir, seeds_dir_in, SeedPath};
use agent_browser_seed::save::{SaveEvent, SaveStage};
use agent_browser_seed::text::{
    chars_of, decimal_text, is_white_space, str_eq, str_less, strip_prefix, trim,
};
use std::path::PathBuf;

fn seed(name: &str, source: &str) -> SeedMetadata {
    SeedMetadata {
        name: name.to_string(),
        profile_directory: "Profile 49".to_string(),
        source_profile: source.to_string(),
        created_at: "1700000000".to_string(),
    }
}

fn args(words: &[&str]) -> Vec<String> {
    words.iter().map(|w| w.to_string()).collect()
}

fn lines(output: &Output) -> (Vec<&str>, Vec<&str>, Option<i32>) {
    (
        output.stdout.iter().map(String::as_str).collect(),
        output.stderr.iter().map(String::as_str).collect(),
        output.exit_code,
    )
}

#[test]
fn white_space_is_that_of_the_standard_library() {
    for c in '\0'..=char::MAX {
        assert_eq!(is_white_space(c), c.is_whitespace(), "{c:?}");
    }
}

#[test]
fn trim_is_that_of_the_standard_library() {
    for s in ["", " ", "a", " a", "a ", "\u{2028} a b\t\r\n", "\u{85}\u{1680}", "é  "] {
        assert_eq!(trim(s), s.trim());
    }
}

#[test]
fn order_is_that_of_the_standard_library() {
    let words = ["", "a", "A", "ab", "b", "é", "z", "\u{ffff}", "\u{10000}", "aé", "a\u{10000}"];
    for a in words {
        for b in words {
            assert_eq!(str_less(a, b), a < b, "{a:?} {b:?}");
            assert_eq!(str_eq(a, b), a == b, "{a:?} {b:?}");
            assert_eq!(strip_prefix(a, b).as_deref(), a.strip_prefix(b), "{a:?} {b:?}");
        }
    }
    assert_eq!(chars_of("aé"), vec!['a', 'é']);
}

#[test]
fn decimal_reads_back_as_the_number() {
    for n in [0, 1, 9, 10, 11, 99, 100, 1_700_000_000, u64::MAX - 1, u64::MAX] {
        assert_eq!(decimal_text(n), n.to_string());
        assert_eq!(decimal_text(n).parse::<u64>().unwrap(), n);
    }
}

#[test]
fn clock_before_the_epoch_reads_zero() {
    assert_eq!(chrono_now(None), "0");
    assert_eq!(chrono_now(Some(1_700_000_000)), "1700000000");
}

fn joined(path: &SeedPath) -> PathBuf {
    path.components.iter().fold(path.base.clone(), |p, c| p.join(c))
}

#[test]
fn seeds_lie_in_the_home_directory() {
    let temp = PathBuf::from("/tmp");
    let home = PathBuf::from("/home/alice");
    assert_eq!(
        joined(&seeds_dir_in(Some(home.clone()), temp.clone())),
        PathBuf::from("/home/alice/.agent-browser/seeds")
    );
    assert_eq!(
        joined(&seeds_dir_in(None, temp.clone())),
        PathBuf::from("/tmp/.agent-browser/seeds")
    );
    let path = seed_path_in(Some(home), temp, "work");
    assert_eq!(path.components, args(&[".agent-browser", "seeds", "work"]));
    assert_eq!(
        joined(&path).join(SEED_METADATA),
        PathBuf::from("/home/alice/.agent-browser/seeds/work/seed.json")
    );
    assert_eq!(SEED_METADATA, "seed.json");
}

#[test]
fn current_user_has_a_seeds_directory() {
    let temp = PathBuf::from("/nowhere");
    let base = dirs::home_dir().unwrap_or(temp.clone());
    assert_eq!(joined(&seeds_dir(temp.clone())), base.join(".agent-browser").join("seeds"));
    assert_eq!(
        joined(&seed_path("work", temp)),
        base.join(".agent-browser").join("seeds").join("work")
    );
}

#[test]
fn seeds_have_directories_of_their_own() {
    let temp = || PathBuf::from("/tmp");
    let one = joined(&seed_path_in(None, temp(), "a"));
    let two = joined(&seed_path_in(None, temp(), "b"));
    assert_ne!(one, two);
    let all = joined(&seeds_dir_in(None, temp()));
    assert_eq!(one.parent(), Some(all.as_path()));
    assert_eq!(two.parent(), Some(all.as_path()));
}

#[test]
fn metadata_files() {
    let parsed = read_metadata("/p", MetadataFile::Parsed(seed("work", "Default"))).unwrap();
    assert_eq!(parsed.name, "work");
    assert_eq!(parsed.source_profile, "Default");
    assert_eq!(
        read_metadata("/p/seed.json", MetadataFile::Unreadable("no such file".to_string()))
            .unwrap_err(),
        "Seed metadata missing at /p/seed.json: no such file"
    );
    assert_eq!(
        read_metadata("/p", MetadataFile::Malformed("expected value".to_string())).unwrap_err(),
        "Invalid seed metadata: expected value"
    );
}

#[test]
fn json_of_metadata() {
    assert_eq!(
        metadata_value(&seed("work", "De\"fault")).to_string(),
        r#"{"createdAt":"1700000000","name":"work","profileDirectory":"Profile 49","sourceProfile":"De\"fault"}"#
    );
    assert_eq!(metadata_list_value(&vec![]).to_string(), "[]");
    assert_eq!(
        metadata_list_value(&vec![seed("a", "x"), seed("b", "y")]).to_string(),
        r#"[{"createdAt":"1700000000","name":"a","profileDirectory":"Profile 49","sourceProfile":"x"},{"createdAt":"1700000000","name":"b","profileDirectory":"Profile 49","sourceProfile":"y"}]"#
    );
}

#[test]
fn json_answers() {
    assert_eq!(failure_line("a\nb"), r#"{"error":"a\nb","success":false}"#);
    assert_eq!(
        success_line(optional_text_value(Some("x"))),
        r#"{"data":"x","success":true}"#
    );
    assert_eq!(success_line(optional_text_value(None)), r#"{"data":null,"success":true}"#);
}

#[test]
fn seeds_are_listed_by_name() {
    let entries = vec![
        SeedEntry::Directory(Some(seed("work", "1"))),
        SeedEntry::Other,
        SeedEntry::Directory(Some(seed("alpha", "2"))),
        SeedEntry::Directory(None),
        SeedEntry::Unreadable,
        SeedEntry::Directory(Some(seed("work", "3"))),
        SeedEntry::Directory(Some(seed("Beta", "4"))),
        SeedEntry::Directory(Some(seed("alpha", "5"))),
    ];
    let listed: Vec<(String, String)> = list_seeds(Some(entries))
        .into_iter()
        .map(|s| (s.name, s.source_profile))
        .collect();
    let expected: Vec<(String, String)> =
        [("Beta", "4"), ("alpha", "2"), ("alpha", "5"), ("work", "1"), ("work", "3")]
            .iter()
            .map(|(n, p)| (n.to_string(), p.to_string()))
            .collect();
    assert_eq!(listed, expected);
}

#[test]
fn listing_does_not_depend_on_directory_order() {
    let names = ["d", "b", "a", "c", "é", "aa"];
    let mut forward = Vec::new();
    let mut backward = Vec::new();
    for name in names {
        forward.push(SeedEntry::Directory(Some(seed(name, "p"))));
    }
    for name in names.iter().rev() {
        backward.push(SeedEntry::Directory(Some(seed(name, "p"))));
    }
    let one: Vec<String> = list_seeds(Some(forward)).into_iter().map(|s| s.name).collect();
    let two: Vec<String> = list_seeds(Some(backward)).into_iter().map(|s| s.name).collect();
    assert_eq!(one, two);
    assert_eq!(one, args(&["a", "aa", "b", "c", "d", "é"]));
}

#[test]
fn directory_that_cannot_be_read_holds_no_seeds() {
    assert!(list_seeds(None).is_empty());
    assert!(list_seeds(Some(vec![])).is_empty());
}

#[test]
fn profile_flag_spellings() {
    assert_eq!(profile_flag(&args(&[])), None);
    assert_eq!(profile_flag(&args(&["seed", "save", "work"])), None);
    assert_eq!(profile_flag(&args(&["--profile", "A"])).as_deref(), Some("A"));
    assert_eq!(profile_flag(&args(&["x", "--profile=A"])).as_deref(), Some("A"));
    assert_eq!(profile_flag(&args(&["--profile="])).as_deref(), Some(""));
    assert_eq!(profile_flag(&args(&["--profile"])), None);
    assert_eq!(profile_flag(&args(&["--profiles", "A"])), None);
}

#[test]
fn first_profile_flag_is_taken() {
    assert_eq!(
        profile_flag(&args(&["a", "--profile=A", "--profile", "B"])).as_deref(),
        Some("A")
    );
    assert_eq!(
        profile_flag(&args(&["a", "--profile", "--profile=B"])).as_deref(),
        Some("--profile=B")
    );
}

#[test]
fn commands() {
    assert!(matches!(parse_command(&args(&[]), None), SeedCommand::List));
    assert!(matches!(parse_command(&args(&["seed"]), Some("P")), SeedCommand::List));
    assert!(matches!(parse_command(&args(&["seed", "list"]), None), SeedCommand::List));
    match parse_command(&args(&["seed", "save", "work", "--profile", "A"]), None) {
        SeedCommand::Save { name, profile } => {
            assert_eq!((name.as_str(), profile.as_str()), ("work", "A"))
        }
        _ => panic!("not a save"),
    }
    match parse_command(&args(&["seed", "save", "work", "--profile", "A"]), Some("B")) {
        SeedCommand::Save { name, profile } => {
            assert_eq!((name.as_str(), profile.as_str()), ("work", "B"))
        }
        _ => panic!("not a save"),
    }
    match parse_command(&args(&["seed", "show", "work"]), None) {
        SeedCommand::Show { name } => assert_eq!(name, "work"),
        _ => panic!("not a show"),
    }
    for word in ["delete", "rm"] {
        match parse_command(&args(&["seed", word, "work"]), None) {
            SeedCommand::Delete { name } => assert_eq!(name, "work"),
            _ => panic!("not a delete"),
        }
    }
}

#[test]
fn refused_commands() {
    let cases = [
        (
            vec!["seed", "save"],
            "Usage: agent-browser seed save <name> --profile <chrome-profile>",
        ),
        (
            vec!["seed", "save", "work"],
            "seed save requires --profile <name>. Example: agent-browser seed save work --profile Default",
        ),
        (vec!["seed", "show"], "Usage: agent-browser seed show <name>"),
        (vec!["seed", "delete"], "Usage: agent-browser seed delete <name>"),
        (vec!["seed", "rm"], "Usage: agent-browser seed delete <name>"),
        (
            vec!["seed", "frob"],
            "Unknown seed subcommand 'frob'. Use list, save, show, or delete.",
        ),
    ];
    for (words, message) in cases {
        match run_seed(&args(&words), false, None).task {
            SeedTask::Answer(output) => {
                assert_eq!(lines(&output), (vec![], vec![message], Some(1)))
            }
            _ => panic!("not refused: {words:?}"),
        }
        match run_seed(&args(&words), true, None).task {
            SeedTask::Answer(output) => {
                let line = failure_line(message);
                assert_eq!(lines(&output), (vec![line.as_str()], vec![], None))
            }
            _ => panic!("not refused: {words:?}"),
        }
    }
}

#[test]
fn tasks() {
    let run = run_seed(&args(&["seed"]), true, None);
    assert!(run.json_mode);
    assert!(matches!(run.task, SeedTask::List));
    match run_seed(&args(&["seed", "save", "work"]), false, Some("A")).task {
        SeedTask::Save(run) => {
            assert_eq!((run.name.as_str(), run.source_profile.as_str()), ("work", "A"));
            assert!(matches!(run.stage, SaveStage::Locate));
        }
        _ => panic!("not a save"),
    }
    match run_seed(&args(&["seed", "show", "../x"]), false, None).task {
        SeedTask::Show { name } => assert_eq!(name, "../x"),
        _ => panic!("not a show"),
    }
    match run_seed(&args(&["seed", "rm", "work"]), false, None).task {
        SeedTask::Delete(run) => {
            assert_eq!(run.name, "work");
            assert!(matches!(run.stage, DeleteStage::Inspect));
        }
        _ => panic!("not a delete"),
    }
}

fn answer(run: SeedRun) -> Output {
    match run.task {
        SeedTask::Answer(output) => output,
        _ => panic!("no answer"),
    }
}

#[test]
fn invalid_names_are_refused_at_once() {
    let error = "Invalid seed name '../x'. Only alphanumeric characters, hyphens, and underscores are allowed.";
    let run = run_seed(&args(&["seed", "rm", "../x"]), false, None);
    assert_eq!(lines(&answer(run)), (vec![], vec![error], Some(1)));
    let run = run_seed(&args(&["seed", "save", "../x", "--profile", "A"]), false, None);
    assert_eq!(lines(&answer(run)), (vec![], vec![error], Some(1)));
}

#[test]
fn a_listing_is_answered_with_the_seeds() {
    for json_mode in [false, true] {
        let run = run_seed(&args(&["seed", "list"]), json_mode, None)
            .advance(SeedEvent::Deleting(DeleteEvent::Exists(true)))
            .advance(SeedEvent::Listed(vec![seed("work", "A")]));
        let expected = run_list(json_mode, &vec![seed("work", "A")]);
        assert_eq!(lines(&answer(run)), lines(&expected));
    }
}

#[test]
fn showing_is_answered_with_what_was_read() {
    for json_mode in [false, true] {
        for result in [Ok(seed("work", "A")), Err("Invalid seed metadata".to_string())] {
            let run = run_seed(&args(&["seed", "show", "work"]), json_mode, None).advance(
                SeedEvent::Read { path: "/h/work".to_string(), result: result.clone() },
            );
            let expected = show_output(json_mode, "/h/work", result);
            assert_eq!(lines(&answer(run)), lines(&expected));
        }
    }
}

#[test]
fn saving_is_answered_with_its_outcome() {
    let events = || {
        vec![
            SaveEvent::Located(true),
            SaveEvent::Resolved(Ok("Profile 49".to_string())),
            SaveEvent::Exists(false),
            SaveEvent::Created(Ok(())),
            SaveEvent::Copied(Ok(())),
            SaveEvent::Clock(Some(1_700_000_000)),
            SaveEvent::Encoded(Ok("{}".to_string())),
            SaveEvent::Written(Ok(())),
        ]
    };
    for json_mode in [false, true] {
        let mut run = run_seed(&args(&["seed", "save", "work", "--profile", "A"]), json_mode, None);
        for event in events() {
            assert!(matches!(run.task, SeedTask::Save(_)));
            run = run.advance(SeedEvent::Saving(event));
        }
        let expected = save_output(json_mode, Ok(seed("work", "A")));
        assert_eq!(lines(&answer(run)), lines(&expected));
        let run = run_seed(&args(&["seed", "save", "work", "--profile", "A"]), json_mode, None)
            .advance(SeedEvent::Saving(SaveEvent::Located(false)));
        let error = "No Chrome user data directory found. Cannot snapshot a profile.";
        assert_eq!(lines(&answer(run)), lines(&fail(json_mode, error)));
    }
}

#[test]
fn deleting_is_answered_with_its_outcome() {
    for json_mode in [false, true] {
        let run = run_seed(&args(&["seed", "delete", "work"]), json_mode, None)
            .advance(SeedEvent::Deleting(DeleteEvent::Exists(true)))
            .advance(SeedEvent::Deleting(DeleteEvent::Removed(Ok(()))));
        let expected = delete_output(json_mode, "work", Ok(()));
        assert_eq!(lines(&answer(run)), lines(&expected));
        let run = run_seed(&args(&["seed", "delete", "work"]), json_mode, None)
            .advance(SeedEvent::Deleting(DeleteEvent::Exists(false)))
            .advance(SeedEvent::Deleting(DeleteEvent::Exists(true)));
        let expected = fail(json_mode, "Seed 'work' not found");
        assert_eq!(lines(&answer(run)), lines(&expected));
    }
}

#[test]
fn json_answers_are_one_line() {
    let named = || seed("a\nb\r\u{1}", "c\n");
    let outputs = [
        fail(true, "one\ntwo"),
        save_output(true, Ok(named())),
        show_output(true, "/h\n/x", Ok(named())),
        delete_output(true, "a\nb", Ok(())),
        run_list(true, &vec![named(), named()]),
    ];
    for output in outputs {
        assert_eq!(output.stdout.len(), 1);
        assert!(!output.stdout[0].contains('\n'), "{}", output.stdout[0]);
        assert_eq!((output.stderr.len(), output.exit_code), (0, None));
    }
    assert_eq!(failure_line("a\nb"), r#"{"error":"a\nb","success":false}"#);
}

#[test]
fn failures() {
    assert_eq!(lines(&fail(false, "no")), (vec![], vec!["no"], Some(1)));
    assert_eq!(
        lines(&fail(true, "no")),
        (vec![r#"{"error":"no","success":false}"#], vec![], None)
    );
}

#[test]
fn answers_to_saving() {
    assert_eq!(
        lines(&save_output(false, Ok(seed("work", "Default")))),
        (vec!["Saved seed 'work' from profile 'Default' (Profile 49)"], vec![], None)
    );
    assert_eq!(
        lines(&save_output(true, Ok(seed("work", "Default")))),
        (
            vec![
                r#"{"data":{"createdAt":"1700000000","name":"work","profileDirectory":"Profile 49","sourceProfile":"Default"},"success":true}"#
            ],
            vec![],
            None
        )
    );
    assert_eq!(
        lines(&save_output(false, Err("no".to_string()))),
        (vec![], vec!["no"], Some(1))
    );
}

#[test]
fn answers_to_showing() {
    assert_eq!(
        lines(&show_output(false, "/seeds/work", Ok(seed("work", "Default")))),
        (
            vec![
                "Name:               work",
                "Source profile:     Default",
                "Profile directory:  Profile 49",
                "Created (unix):     1700000000",
                "Path:               /seeds/work",
            ],
            vec![],
            None
        )
    );
    assert_eq!(
        lines(&show_output(true, "/seeds/work", Ok(seed("work", "Default")))).0,
        vec![
            r#"{"data":{"createdAt":"1700000000","name":"work","profileDirectory":"Profile 49","sourceProfile":"Default"},"success":true}"#
        ]
    );
    assert_eq!(
        lines(&show_output(true, "/seeds/work", Err("no".to_string()))).0,
        vec![r#"{"error":"no","success":false}"#]
    );
}

#[test]
fn answers_to_deleting() {
    assert_eq!(
        lines(&delete_output(false, "work", Ok(()))),
        (vec!["Deleted seed 'work'"], vec![], None)
    );
    assert_eq!(
        lines(&delete_output(true, "work", Ok(()))),
        (vec![r#"{"data":{"deleted":"work"},"success":true}"#], vec![], None)
    );
    assert_eq!(
        lines(&delete_output(false, "work", Err("no".to_string()))),
        (vec![], vec!["no"], Some(1))
    );
}

#[test]
fn answers_to_listing() {
    assert_eq!(
        lines(&run_list(false, &vec![])),
        (
            vec!["No seeds saved. Run `agent-browser seed save <name> --profile <chrome-profile>`."],
            vec![],
            None
        )
    );
    assert_eq!(
        lines(&run_list(true, &vec![])),
        (vec![r#"{"data":{"seeds":[]},"success":true}"#], vec![], None)
    );
    assert_eq!(
        lines(&run_list(false, &vec![seed("a", "x"), seed("b", "y")])),
        (
            vec!["Seeds:", "  a  (from x / Profile 49)", "  b  (from y / Profile 49)"],
            vec![],
            None
        )
    );
    assert_eq!(
        lines(&run_list(true, &vec![seed("a", "x")])).0,
        vec![
            r#"{"data":{"seeds":[{"createdAt":"1700000000","name":"a","profileDirectory":"Profile 49","sourceProfile":"x"}]},"success":true}"#
        ]
    );
}
