//! Saving, deleting, cloning and copying, step by step.

use agent_browser_seed::clone_seed::{
    clone_dir_with_id, clone_seed_to_temp, CloneEvent, CloneStage,
};
use agent_browser_seed::copy::{
    copy_dir_best_effort, CopyEntry, CopyEvent, CopyPath, CopyStage, EntryKind,
};
use agent_browser_seed::delete::{delete_seed, DeleteEvent, DeleteStage};
use agent_browser_seed::metadata::{metadata_value, read_metadata, MetadataFile, SeedMetadata};
use agent_browser_seed::name::is_valid_session_name;
use agent_browser_seed::save::{save_seed, SaveEvent, SaveStage};

fn text(s: &str) -> String {
    s.to_string()
}

fn metadata(name: &str) -> SeedMetadata {
    SeedMetadata {
        name: text(name),
        profile_directory: text("Profile 49"),
        source_profile: text("Work"),
        created_at: text("1700000000"),
    }
}

fn delete_result(name: &str, events: Vec<DeleteEvent<String>>) -> Result<(), String> {
    let mut run = delete_seed(name);
    for event in events {
        run = run.advance(event);
    }
    match run.stage {
        DeleteStage::Done(result) => result,
        _ => panic!("not done"),
    }
}

#[test]
fn deleting() {
    assert!(matches!(delete_seed("work").stage, DeleteStage::Inspect));
    assert!(matches!(
        delete_seed("work").advance(DeleteEvent::Exists(true)).stage,
        DeleteStage::Remove
    ));
    let found = || DeleteEvent::Exists(true);
    assert_eq!(delete_result("work", vec![found(), DeleteEvent::Removed(Ok(()))]), Ok(()));
    assert_eq!(
        delete_result("work", vec![found(), DeleteEvent::Removed(Err(text("busy")))]),
        Err(text("Failed to delete seed work: busy"))
    );
    assert_eq!(
        delete_result("work", vec![DeleteEvent::Exists(false)]),
        Err(text("Seed 'work' not found"))
    );
}

#[test]
fn deleting_twice() {
    let mut seeds = vec!["home", "work"];
    let mut delete = |name: &str| {
        let exists = seeds.contains(&name);
        let removed = DeleteEvent::Removed(Ok(()));
        let result = delete_result(name, vec![DeleteEvent::Exists(exists), removed]);
        if result.is_ok() {
            seeds.retain(|seed| *seed != name);
        }
        (result, seeds.clone())
    };
    assert_eq!(delete("work"), (Ok(()), vec!["home"]));
    assert_eq!(delete("work"), (Err(text("Seed 'work' not found")), vec!["home"]));
}

#[test]
fn deleting_an_invalid_name_does_nothing() {
    let error = "Invalid seed name '..'. Only alphanumeric characters, hyphens, and underscores are allowed.";
    assert_eq!(
        delete_result("..", vec![DeleteEvent::Exists(true), DeleteEvent::Removed(Ok(()))]),
        Err(text(error))
    );
}

#[test]
fn events_that_do_not_answer_the_stage_are_ignored() {
    let run = delete_seed("work").advance(DeleteEvent::Removed(Ok(())));
    assert!(matches!(run.stage, DeleteStage::Inspect));
    let run = save_seed("work", "Default").advance(SaveEvent::Written(Ok(())));
    assert!(matches!(run.stage, SaveStage::Locate));
    let run = clone_seed_to_temp("work").advance(CloneEvent::Copied(Ok(())));
    assert!(matches!(run.stage, CloneStage::Inspect));
    let run = copy_dir_best_effort("/a", "/b").advance(CopyEvent::Warned);
    assert!(matches!(run.stage, CopyStage::Create(_)));
}

fn save_result(events: Vec<SaveEvent<String>>) -> Result<SeedMetadata, String> {
    let mut run = save_seed("work", "Default");
    for event in events {
        run = run.advance(event);
    }
    match run.stage {
        SaveStage::Done(result) => result,
        _ => panic!("not done"),
    }
}

#[test]
fn saving_over_an_existing_seed() {
    let run = save_seed("work", "Default");
    assert!(matches!(run.stage, SaveStage::Locate));
    let run = run.advance(SaveEvent::Located(true));
    assert!(matches!(run.stage, SaveStage::Resolve));
    let run = run.advance(SaveEvent::Resolved(Ok(text("Profile 49"))));
    assert!(matches!(run.stage, SaveStage::Inspect { .. }));
    let run = run.advance(SaveEvent::Exists(true));
    assert!(matches!(run.stage, SaveStage::Replace { .. }));
    let run = run.advance(SaveEvent::Removed(Ok(())));
    assert!(matches!(run.stage, SaveStage::Create { .. }));
    let run = run.advance(SaveEvent::Created(Ok(())));
    assert!(matches!(run.stage, SaveStage::Copy { .. }));
    let run = run.advance(SaveEvent::Copied(Ok(())));
    assert!(matches!(run.stage, SaveStage::Stamp { .. }));
    let run = run.advance(SaveEvent::Clock(Some(1_700_000_000)));
    assert!(matches!(run.stage, SaveStage::Encode { .. }));
    let run = run.advance(SaveEvent::Encoded(Ok(text("{}"))));
    match &run.stage {
        SaveStage::Write { metadata, json } => {
            assert_eq!(metadata.name, "work");
            assert_eq!(json, "{}");
        }
        _ => panic!("not writing"),
    }
    let run = run.advance(SaveEvent::Written(Ok(())));
    match run.stage {
        SaveStage::Done(Ok(metadata)) => {
            assert_eq!(metadata.name, "work");
            assert_eq!(metadata.profile_directory, "Profile 49");
            assert_eq!(metadata.source_profile, "Default");
            assert_eq!(metadata.created_at, "1700000000");
        }
        _ => panic!("not done"),
    }
}

#[test]
fn saved_metadata_is_read_back() {
    let mut run = save_seed("work", "Default")
        .advance(SaveEvent::Located(true))
        .advance(SaveEvent::Resolved(Ok(text("Profile 49"))))
        .advance(SaveEvent::Exists(false))
        .advance(SaveEvent::Created(Ok(())))
        .advance(SaveEvent::Copied(Ok(())))
        .advance(SaveEvent::Clock(Some(7)));
    let encoded = match &run.stage {
        SaveStage::Encode { metadata } => {
            serde_json::to_string_pretty(&metadata_value(metadata)).unwrap()
        }
        _ => panic!("not encoding"),
    };
    run = run.advance(SaveEvent::Encoded(Ok(encoded)));
    let file = match &run.stage {
        SaveStage::Write { json, .. } => json.clone(),
        _ => panic!("not writing"),
    };
    let saved = match run.advance(SaveEvent::Written(Ok(()))).stage {
        SaveStage::Done(Ok(metadata)) => metadata,
        _ => panic!("not saved"),
    };
    let value: serde_json::Value = serde_json::from_str(&file).unwrap();
    let field = |key: &str| text(value[key].as_str().unwrap());
    let parsed = SeedMetadata {
        name: field("name"),
        profile_directory: field("profileDirectory"),
        source_profile: field("sourceProfile"),
        created_at: field("createdAt"),
    };
    let read = read_metadata("/h/work/seed.json", MetadataFile::Parsed(parsed)).unwrap();
    assert_eq!(read.name, saved.name);
    assert_eq!(read.profile_directory, saved.profile_directory);
    assert_eq!(read.source_profile, saved.source_profile);
    assert_eq!(read.created_at, saved.created_at);
}

#[test]
fn saving_removes_an_older_seed_in_its_turn() {
    let run = save_seed("work", "Default")
        .advance(SaveEvent::Removed(Ok(())))
        .advance(SaveEvent::Exists(false))
        .advance(SaveEvent::Located(true))
        .advance(SaveEvent::Resolved(Ok(text("Profile 49"))))
        .advance(SaveEvent::Removed(Ok(())))
        .advance(SaveEvent::Exists(true))
        .advance(SaveEvent::Exists(false));
    assert!(matches!(run.stage, SaveStage::Replace { .. }));
    let run = run.advance(SaveEvent::Removed(Ok(())));
    assert!(matches!(run.stage, SaveStage::Create { .. }));
}

#[test]
fn saving_a_new_seed_removes_nothing() {
    let run = save_seed("work", "Default")
        .advance(SaveEvent::Located(true))
        .advance(SaveEvent::Resolved(Ok(text("Profile 49"))))
        .advance(SaveEvent::Exists(false));
    match run.stage {
        SaveStage::Create { profile_directory } => assert_eq!(profile_directory, "Profile 49"),
        _ => panic!("not creating"),
    }
}

#[test]
fn saving_fails() {
    let found = || SaveEvent::Located(true);
    let resolved = || SaveEvent::Resolved(Ok(text("P")));
    let fresh = || SaveEvent::Exists(false);
    let e = || Err(text("oops"));
    assert_eq!(
        save_result(vec![SaveEvent::Located(false)]).unwrap_err(),
        "No Chrome user data directory found. Cannot snapshot a profile."
    );
    assert_eq!(
        save_result(vec![found(), SaveEvent::Resolved(Err(text("oops")))]).unwrap_err(),
        "oops"
    );
    assert_eq!(
        save_result(vec![found(), resolved(), SaveEvent::Exists(true), SaveEvent::Removed(e())])
            .unwrap_err(),
        "Failed to replace existing seed work: oops"
    );
    assert_eq!(
        save_result(vec![found(), resolved(), fresh(), SaveEvent::Created(e())]).unwrap_err(),
        "Failed to create seed dir: oops"
    );
    let made = || SaveEvent::Created(Ok(()));
    assert_eq!(
        save_result(vec![found(), resolved(), fresh(), made(), SaveEvent::Copied(e())])
            .unwrap_err(),
        "oops"
    );
    let copied = || SaveEvent::Copied(Ok(()));
    let clock = || SaveEvent::Clock(None);
    assert_eq!(
        save_result(vec![
            found(),
            resolved(),
            fresh(),
            made(),
            copied(),
            clock(),
            SaveEvent::Encoded(Err(text("oops")))
        ])
        .unwrap_err(),
        "Failed to serialize seed metadata: oops"
    );
    assert_eq!(
        save_result(vec![
            found(),
            resolved(),
            fresh(),
            made(),
            copied(),
            clock(),
            SaveEvent::Encoded(Ok(text("{}"))),
            SaveEvent::Written(e())
        ])
        .unwrap_err(),
        "Failed to write seed metadata: oops"
    );
}

#[test]
fn saving_an_invalid_name_does_nothing() {
    let run = save_seed("a b", "Default").advance(SaveEvent::Located(true));
    match run.stage {
        SaveStage::Done(Err(error)) => assert!(error.starts_with("Invalid seed name 'a b'.")),
        _ => panic!("not refused"),
    }
}

#[test]
fn cloning() {
    let run = clone_seed_to_temp("work").advance(CloneEvent::Directory(true));
    assert!(matches!(run.stage, CloneStage::Read));
    let run = run.advance_with_id(CloneEvent::Metadata(Ok(metadata("work"))), "id");
    match &run.stage {
        CloneStage::Create { directory, metadata } => {
            assert_eq!(directory, "agent-browser-seed-work-id");
            assert_eq!(metadata.source_profile, "Work");
        }
        _ => panic!("not creating"),
    }
    let run = run.advance(CloneEvent::Created(Ok(())));
    assert!(matches!(run.stage, CloneStage::Copy { .. }));
    let run = run.advance(CloneEvent::Copied(Ok(())));
    match run.stage {
        CloneStage::Done(Ok((directory, metadata))) => {
            assert_eq!(directory, "agent-browser-seed-work-id");
            assert_eq!(metadata.name, "work");
        }
        _ => panic!("not done"),
    }
    assert_eq!(clone_dir_with_id("a", "b"), "agent-browser-seed-a-b");
}

fn clone_directory() -> String {
    let run = clone_seed_to_temp("work")
        .advance(CloneEvent::Directory(true))
        .advance(CloneEvent::Metadata(Ok(metadata("work"))));
    match run.stage {
        CloneStage::Create { directory, .. } => directory,
        _ => panic!("not creating"),
    }
}

#[test]
fn clones_get_directories_of_their_own() {
    let one = clone_directory();
    let two = clone_directory();
    assert_ne!(one, two);
    let id: Vec<char> = one.strip_prefix("agent-browser-seed-work-").unwrap().chars().collect();
    assert_eq!(id.len(), 36);
    for (i, c) in id.iter().enumerate() {
        if [8, 13, 18, 23].contains(&i) {
            assert_eq!(*c, '-');
        } else {
            assert!(c.is_ascii_digit() || ('a'..='f').contains(c), "{one}");
        }
    }
    assert!(is_valid_session_name(&one));
    assert_eq!(id[14], '4');
    assert!(['8', '9', 'a', 'b'].contains(&id[19]), "{one}");
}

fn clone_error(events: Vec<CloneEvent<String, SeedMetadata>>) -> String {
    let mut run = clone_seed_to_temp("work");
    for event in events {
        run = run.advance(event);
    }
    match run.stage {
        CloneStage::Done(Err(error)) => error,
        _ => panic!("not failed"),
    }
}

#[test]
fn cloning_fails() {
    let found = || CloneEvent::Directory(true);
    let read = || CloneEvent::Metadata(Ok(metadata("work")));
    assert_eq!(
        clone_error(vec![CloneEvent::Directory(false)]),
        "Seed 'work' not found. Run `agent-browser seed save work --profile <name>` first."
    );
    assert_eq!(
        clone_error(vec![found(), CloneEvent::Metadata(Err(text("bad file")))]),
        "bad file"
    );
    assert_eq!(
        clone_error(vec![found(), read(), CloneEvent::Created(Err(text("full")))]),
        "Failed to create temp seed dir: full"
    );
    assert_eq!(
        clone_error(vec![
            found(),
            read(),
            CloneEvent::Created(Ok(())),
            CloneEvent::Copied(Err(text("gone")))
        ]),
        "gone"
    );
    match clone_seed_to_temp("").stage {
        CloneStage::Done(Err(error)) => assert!(error.starts_with("Invalid seed name ''.")),
        _ => panic!("not refused"),
    }
}

/// A directory tree in memory.
enum Node {
    File,
    Broken,
    Untyped,
    Dir(Vec<(&'static str, Node)>),
}

fn sample() -> Vec<(&'static str, Node)> {
    vec![
        ("seed.json", Node::File),
        (
            "Profile 49",
            Node::Dir(vec![
                ("Cookies", Node::File),
                ("Current Session", Node::File),
                ("Cache", Node::Dir(vec![])),
                ("LOCK", Node::File),
                ("Socket", Node::Untyped),
                ("History", Node::Broken),
            ]),
        ),
        ("Local State", Node::File),
    ]
}

fn child(dir: &CopyPath<String>, name: &str) -> CopyPath<String> {
    CopyPath {
        source: format!("{}/{}", dir.source, name),
        target: format!("{}/{}", dir.target, name),
    }
}

/// Copies the tree, and tells what was done and what came of it.
fn copy_tree(
    root: &Vec<(&'static str, Node)>,
    left_out: &[&str],
    no_create: &str,
) -> (Vec<String>, Result<(), String>) {
    let mut done = Vec::new();
    let mut open: Vec<(&Vec<(&'static str, Node)>, usize)> = Vec::new();
    let mut pending: &Vec<(&'static str, Node)> = root;
    let mut current: &Node = &Node::File;
    let mut run = copy_dir_best_effort("/s", "/t");
    loop {
        let event = match &run.stage {
            CopyStage::Create(dir) => {
                done.push(format!("mkdir {}", dir.target));
                if dir.target == no_create {
                    CopyEvent::Created(Err(text("denied")))
                } else {
                    CopyEvent::Created(Ok(()))
                }
            }
            CopyStage::Read(_) => {
                open.push((pending, 0));
                CopyEvent::Opened(Ok(()))
            }
            CopyStage::Next(dir) => {
                let (items, index) = open.pop().unwrap();
                if index < items.len() {
                    open.push((items, index + 1));
                    current = &items[index].1;
                    let name = items[index].0;
                    CopyEvent::Entry(CopyEntry::Found {
                        path: child(dir, name),
                        left_out: left_out.contains(&name),
                    })
                } else {
                    CopyEvent::Entry(CopyEntry::End)
                }
            }
            CopyStage::Classify(_, _) => match current {
                Node::Dir(items) => {
                    pending = items;
                    CopyEvent::Kind(EntryKind::Directory)
                }
                Node::Untyped => CopyEvent::Kind(EntryKind::Unknown),
                _ => CopyEvent::Kind(EntryKind::Other),
            },
            CopyStage::Copy(_, entry) => {
                done.push(format!("copy {} {}", entry.source, entry.target));
                match current {
                    Node::Broken => CopyEvent::Copied(Err(text("io"))),
                    _ => CopyEvent::Copied(Ok(())),
                }
            }
            CopyStage::Warn(_, warning) => {
                done.push(warning.clone());
                CopyEvent::Warned
            }
            CopyStage::Done(result) => return (done, result.clone()),
        };
        run = run.advance(event);
    }
}

#[test]
fn copying_leaves_out_what_is_to_be_left_out() {
    let (done, result) = copy_tree(&sample(), &["seed.json", "Current Session", "LOCK"], "");
    assert_eq!(result, Ok(()));
    assert_eq!(
        done,
        vec![
            "mkdir /t",
            "mkdir /t/Profile 49",
            "copy /s/Profile 49/Cookies /t/Profile 49/Cookies",
            "mkdir /t/Profile 49/Cache",
            "copy /s/Profile 49/History /t/Profile 49/History",
            "Warning: failed to copy /s/Profile 49/History: io",
            "copy /s/Local State /t/Local State",
        ]
    );
}

#[test]
fn copies_stand_where_their_sources_stood() {
    let (done, _) = copy_tree(&sample(), &[], "");
    for line in done.iter().filter_map(|line| line.strip_prefix("copy ")) {
        let (source, target) = line.split_at(line.len() / 2);
        assert_eq!(source.trim_end().strip_prefix("/s/"), target.trim_start().strip_prefix("/t/"));
    }
    assert_eq!(done.iter().filter(|line| line.starts_with("copy ")).count(), 6);
}

#[test]
fn copying_stops_at_a_directory_that_cannot_be_created() {
    let (done, result) = copy_tree(&sample(), &[], "/t/Profile 49/Cache");
    assert_eq!(result, Err(text("Failed to create directory /t/Profile 49/Cache: denied")));
    assert_eq!(done.last().map(String::as_str), Some("mkdir /t/Profile 49/Cache"));
}

#[test]
fn copying_warns_of_entries_that_cannot_be_read() {
    let run = copy_dir_best_effort("/s", "/t")
        .advance(CopyEvent::Created(Ok(())))
        .advance(CopyEvent::Opened(Ok(())))
        .advance(CopyEvent::Entry(CopyEntry::Unreadable(text("io"))));
    match &run.stage {
        CopyStage::Warn(_, warning) => {
            assert_eq!(warning, "Warning: failed to read entry in /s: io")
        }
        _ => panic!("no warning"),
    }
    let run = run.advance(CopyEvent::Warned).advance(CopyEvent::Entry(CopyEntry::End));
    assert!(matches!(run.stage, CopyStage::Done(Ok(()))));
}

#[test]
fn copying_fails_for_a_directory_that_cannot_be_read() {
    let run = copy_dir_best_effort("/s", "/t")
        .advance(CopyEvent::Created(Ok(())))
        .advance(CopyEvent::Opened(Err(text("denied"))));
    match run.stage {
        CopyStage::Done(Err(error)) => assert_eq!(error, "Failed to read directory /s: denied"),
        _ => panic!("not failed"),
    }
}

#[test]
fn outcomes_are_final() {
    let run = delete_seed("work")
        .advance(DeleteEvent::Exists(false))
        .advance(DeleteEvent::Exists(true))
        .advance(DeleteEvent::Removed(Ok(())));
    assert!(matches!(run.stage, DeleteStage::Done(Err(_))));
    let run = save_seed("work", "Default")
        .advance(SaveEvent::Located(false))
        .advance(SaveEvent::Located(true));
    assert!(matches!(run.stage, SaveStage::Done(Err(_))));
    let run = clone_seed_to_temp("work")
        .advance(CloneEvent::Directory(false))
        .advance(CloneEvent::Directory(true));
    assert!(matches!(run.stage, CloneStage::Done(Err(_))));
    let run = copy_dir_best_effort("/s", "/t")
        .advance(CopyEvent::Created(Err(text("denied"))))
        .advance(CopyEvent::Created(Ok(())));
    assert!(matches!(run.stage, CopyStage::Done(Err(_))));
}
