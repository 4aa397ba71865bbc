//! Copying a directory, as far as its entries allow.
//!
//! A [`CopyRun`] decides what is to be done next. Its stage names the work that the caller does;
//! the caller reports what came of it as a [`CopyEvent`]. The caller keeps the directories that are
//! being read open, innermost last: it opens one at [`CopyStage::Read`] and closes the innermost
//! one when it has no entry left.
//!
//! A directory that cannot be created or read ends the copy. An entry that cannot be read or a file
//! that cannot be copied is passed over with a warning.

use vstd::prelude::*;
use vstd::string::*;

verus! {

/// What is copied, and where to, each by the text that describes its path.
pub struct CopyPath<T> {
    pub source: T,
    pub target: T,
}

/// What is to be done next.
pub enum CopyStage<T> {
    /// Create the target directory.
    Create(CopyPath<T>),
    /// Open the source directory for reading.
    Read(CopyPath<T>),
    /// Take the next entry of the innermost directory.
    Next(CopyPath<T>),
    /// Find out what kind of entry the second path is, in the directory that is the first.
    Classify(CopyPath<T>, CopyPath<T>),
    /// Copy the file that is the second path, in the directory that is the first.
    Copy(CopyPath<T>, CopyPath<T>),
    /// Write a warning, and go on in the directory.
    Warn(CopyPath<T>, T),
    /// Nothing: this is the outcome.
    Done(Result<(), T>),
}

/// The next entry of a directory.
pub enum CopyEntry<T> {
    /// There is none.
    End,
    /// It cannot be read, and why.
    Unreadable(T),
    /// It has these paths, and is or is not to be left out.
    Found { path: CopyPath<T>, left_out: bool },
}

/// What kind of entry there is.
#[derive(Debug, Clone, Copy, PartialEq, Eq, Structural)]
pub enum EntryKind {
    /// The kind cannot be told.
    Unknown,
    Directory,
    Other,
}

/// What came of the work.
pub enum CopyEvent<T> {
    /// The target directory has been created, or could not be.
    Created(Result<(), T>),
    /// The source directory has been opened, or could not be.
    Opened(Result<(), T>),
    /// The next entry of the innermost directory.
    Entry(CopyEntry<T>),
    /// The kind of the entry.
    Kind(EntryKind),
    /// The file has been copied, or could not be.
    Copied(Result<(), T>),
    /// The warning has been written.
    Warned,
}

/// The copying of one directory.
pub struct CopyRun {
    /// The directories around the innermost one, outermost first.
    pub outer: Vec<CopyPath<String>>,
    pub stage: CopyStage<String>,
}

/// The text held in a [`CopyRun`].
pub struct CopyRunView {
    pub outer: Seq<CopyPath<Seq<char>>>,
    pub stage: CopyStage<Seq<char>>,
}

impl View for CopyPath<String> {
    type V = CopyPath<Seq<char>>;

    open spec fn view(&self) -> CopyPath<Seq<char>> {
        CopyPath { source: self.source@, target: self.target@ }
    }
}

/// The text held in a stage.
pub open spec fn copy_stage_view(stage: CopyStage<String>) -> CopyStage<Seq<char>> {
    match stage {
        CopyStage::Create(dir) => CopyStage::Create(dir@),
        CopyStage::Read(dir) => CopyStage::Read(dir@),
        CopyStage::Next(dir) => CopyStage::Next(dir@),
        CopyStage::Classify(dir, entry) => CopyStage::Classify(dir@, entry@),
        CopyStage::Copy(dir, entry) => CopyStage::Copy(dir@, entry@),
        CopyStage::Warn(dir, warning) => CopyStage::Warn(dir@, warning@),
        CopyStage::Done(result) => CopyStage::Done(crate::text::outcome(result)),
    }
}

/// The text of each path in a list.
pub open spec fn path_views(paths: Seq<CopyPath<String>>) -> Seq<CopyPath<Seq<char>>> {
    paths.map_values(|path: CopyPath<String>| path@)
}

impl View for CopyRun {
    type V = CopyRunView;

    open spec fn view(&self) -> CopyRunView {
        CopyRunView { outer: path_views(self.outer@), stage: copy_stage_view(self.stage) }
    }
}

impl View for CopyEvent<String> {
    type V = CopyEvent<Seq<char>>;

    open spec fn view(&self) -> CopyEvent<Seq<char>> {
        match *self {
            CopyEvent::Created(result) => CopyEvent::Created(crate::text::outcome(result)),
            CopyEvent::Opened(result) => CopyEvent::Opened(crate::text::outcome(result)),
            CopyEvent::Entry(CopyEntry::End) => CopyEvent::Entry(CopyEntry::End),
            CopyEvent::Entry(CopyEntry::Unreadable(error)) => CopyEvent::Entry(
                CopyEntry::Unreadable(error@),
            ),
            CopyEvent::Entry(CopyEntry::Found { path, left_out }) => CopyEvent::Entry(
                CopyEntry::Found { path: path@, left_out },
            ),
            CopyEvent::Kind(kind) => CopyEvent::Kind(kind),
            CopyEvent::Copied(result) => CopyEvent::Copied(crate::text::outcome(result)),
            CopyEvent::Warned => CopyEvent::Warned,
        }
    }
}

/// How copying begins: with the directory itself.
pub open spec fn copy_start(dir: CopyPath<Seq<char>>) -> CopyRunView {
    CopyRunView { outer: Seq::empty(), stage: CopyStage::Create(dir) }
}

/// The warning for an entry of the directory `source` that cannot be read.
pub open spec fn entry_warning(source: Seq<char>, error: Seq<char>) -> Seq<char> {
    "Warning: failed to read entry in "@ + source + ": "@ + error
}

/// The warning for a file that cannot be copied.
pub open spec fn file_warning(source: Seq<char>, error: Seq<char>) -> Seq<char> {
    "Warning: failed to copy "@ + source + ": "@ + error
}

/// How copying goes on when the innermost directory has no entry left.
pub open spec fn copy_leave(outer: Seq<CopyPath<Seq<char>>>) -> CopyRunView {
    if outer.len() == 0 {
        CopyRunView { outer, stage: CopyStage::Done(Ok(())) }
    } else {
        CopyRunView { outer: outer.drop_last(), stage: CopyStage::Next(outer.last()) }
    }
}

/// How copying goes on. An event that does not answer the stage changes nothing.
pub open spec fn copy_next(run: CopyRunView, event: CopyEvent<Seq<char>>) -> CopyRunView {
    let stay = |stage: CopyStage<Seq<char>>| CopyRunView { outer: run.outer, stage };
    match (run.stage, event) {
        (CopyStage::Create(dir), CopyEvent::Created(Ok(()))) => stay(CopyStage::Read(dir)),
        (CopyStage::Create(dir), CopyEvent::Created(Err(error))) => stay(
            CopyStage::Done(
                Err("Failed to create directory "@ + dir.target + ": "@ + error),
            ),
        ),
        (CopyStage::Read(dir), CopyEvent::Opened(Ok(()))) => stay(CopyStage::Next(dir)),
        (CopyStage::Read(dir), CopyEvent::Opened(Err(error))) => stay(
            CopyStage::Done(Err("Failed to read directory "@ + dir.source + ": "@ + error)),
        ),
        (CopyStage::Next(_), CopyEvent::Entry(CopyEntry::End)) => copy_leave(run.outer),
        (CopyStage::Next(dir), CopyEvent::Entry(CopyEntry::Unreadable(error))) => stay(
            CopyStage::Warn(dir, entry_warning(dir.source, error)),
        ),
        (
            CopyStage::Next(dir),
            CopyEvent::Entry(CopyEntry::Found { path, left_out }),
        ) => if left_out {
            run
        } else {
            stay(CopyStage::Classify(dir, path))
        },
        (CopyStage::Classify(dir, _), CopyEvent::Kind(EntryKind::Unknown)) => stay(
            CopyStage::Next(dir),
        ),
        (CopyStage::Classify(dir, entry), CopyEvent::Kind(EntryKind::Directory)) => CopyRunView {
            outer: run.outer.push(dir),
            stage: CopyStage::Create(entry),
        },
        (CopyStage::Classify(dir, entry), CopyEvent::Kind(EntryKind::Other)) => stay(
            CopyStage::Copy(dir, entry),
        ),
        (CopyStage::Copy(dir, _), CopyEvent::Copied(Ok(()))) => stay(CopyStage::Next(dir)),
        (CopyStage::Copy(dir, entry), CopyEvent::Copied(Err(error))) => stay(
            CopyStage::Warn(dir, file_warning(entry.source, error)),
        ),
        (CopyStage::Warn(dir, _), CopyEvent::Warned) => stay(CopyStage::Next(dir)),
        _ => run,
    }
}

/// Begins to copy the directory described by `source` to the one described by `target`.
pub fn copy_dir_best_effort(source: &str, target: &str) -> (run: CopyRun)
    ensures
        run@ == copy_start(CopyPath { source: source@, target: target@ }),
{
    let dir = CopyPath { source: source.to_string(), target: target.to_string() };
    let run = CopyRun { outer: Vec::new(), stage: CopyStage::Create(dir) };
    proof {
        assert(run@.outer =~= Seq::empty());
    }
    run
}

/// The text `start`, `path`, a colon and `error`.
fn message(start: &str, path: &str, error: &str) -> (text: String)
    ensures
        text@ == start@ + path@ + ": "@ + error@,
{
    start.to_string().concat(path).concat(": ").concat(error)
}

impl CopyRun {
    /// Takes note of what came of the work, and decides what is next.
    pub fn advance(self, event: CopyEvent<String>) -> (next: CopyRun)
        ensures
            next@ == copy_next(self@, event@),
    {
        let mut outer = self.outer;
        let stage = match (self.stage, event) {
            (CopyStage::Create(dir), CopyEvent::Created(result)) => match result {
                Ok(()) => CopyStage::Read(dir),
                Err(error) => CopyStage::Done(
                    Err(
                        message("Failed to create directory ", dir.target.as_str(), error.as_str()),
                    ),
                ),
            },
            (CopyStage::Read(dir), CopyEvent::Opened(result)) => match result {
                Ok(()) => CopyStage::Next(dir),
                Err(error) => CopyStage::Done(
                    Err(message("Failed to read directory ", dir.source.as_str(), error.as_str())),
                ),
            },
            (CopyStage::Next(dir), CopyEvent::Entry(entry)) => match entry {
                CopyEntry::End => match outer.pop() {
                    Some(parent) => {
                        proof {
                            assert(path_views(outer@) =~= self@.outer.drop_last());
                        }
                        CopyStage::Next(parent)
                    },
                    None => {
                        proof {
                            assert(path_views(outer@) =~= self@.outer);
                        }
                        CopyStage::Done(Ok(()))
                    },
                },
                CopyEntry::Unreadable(error) => {
                    let warning = message(
                        "Warning: failed to read entry in ",
                        dir.source.as_str(),
                        error.as_str(),
                    );
                    CopyStage::Warn(dir, warning)
                },
                CopyEntry::Found { path, left_out } => if left_out {
                    CopyStage::Next(dir)
                } else {
                    CopyStage::Classify(dir, path)
                },
            },
            (CopyStage::Classify(dir, entry), CopyEvent::Kind(kind)) => match kind {
                EntryKind::Unknown => CopyStage::Next(dir),
                EntryKind::Directory => {
                    let ghost parent = dir@;
                    outer.push(dir);
                    proof {
                        assert(path_views(outer@) =~= self@.outer.push(parent));
                    }
                    CopyStage::Create(entry)
                },
                EntryKind::Other => CopyStage::Copy(dir, entry),
            },
            (CopyStage::Copy(dir, entry), CopyEvent::Copied(result)) => match result {
                Ok(()) => CopyStage::Next(dir),
                Err(error) => CopyStage::Warn(
                    dir,
                    message("Warning: failed to copy ", entry.source.as_str(), error.as_str()),
                ),
            },
            (CopyStage::Warn(dir, warning), CopyEvent::Warned) => CopyStage::Next(dir),
            (stage, _) => stage,
        };
        CopyRun { outer, stage }
    }
}

/// Where copying stands after some events.
pub open spec fn copy_after(run: CopyRunView, events: Seq<CopyEvent<Seq<char>>>) -> CopyRunView
    decreases events.len(),
{
    if events.len() == 0 {
        run
    } else {
        copy_next(copy_after(run, events.drop_last()), events.last())
    }
}

/// Something that copying does.
pub enum CopyEffect {
    /// Creates a directory.
    MakeDir(CopyPath<Seq<char>>),
    /// Copies a file.
    CopyFile(CopyPath<Seq<char>>),
    /// Writes a warning.
    Warn(Seq<char>),
}

/// What is done between a stage and the event that answers it.
pub open spec fn copy_effect(run: CopyRunView, event: CopyEvent<Seq<char>>) -> Seq<CopyEffect> {
    match (run.stage, event) {
        (CopyStage::Create(dir), CopyEvent::Created(_)) => seq![CopyEffect::MakeDir(dir)],
        (CopyStage::Copy(_, entry), CopyEvent::Copied(_)) => seq![CopyEffect::CopyFile(entry)],
        (CopyStage::Warn(_, warning), CopyEvent::Warned) => seq![CopyEffect::Warn(warning)],
        _ => Seq::empty(),
    }
}

/// What is done in the course of some events.
pub open spec fn copy_effects(run: CopyRunView, events: Seq<CopyEvent<Seq<char>>>) -> Seq<CopyEffect>
    decreases events.len(),
{
    if events.len() == 0 {
        Seq::empty()
    } else {
        copy_effects(run, events.drop_last()) + copy_effect(
            copy_after(run, events.drop_last()),
            events.last(),
        )
    }
}

/// An entry of a directory in the file system, and what comes of dealing with it.
pub enum CopyItem {
    /// An entry that cannot be read, and why.
    Unreadable(Seq<char>),
    /// An entry that is to be left out.
    LeftOut(CopyPath<Seq<char>>),
    /// An entry whose kind cannot be told.
    Untyped(CopyPath<Seq<char>>),
    /// A file, and what comes of copying it.
    File(CopyPath<Seq<char>>, Result<(), Seq<char>>),
    /// A directory that can be created and read, and its entries.
    Directory(CopyPath<Seq<char>>, Seq<CopyItem>),
    /// A directory that cannot be created, and why.
    Uncreatable(CopyPath<Seq<char>>, Seq<char>),
    /// A directory that can be created but not read, and why.
    Unopenable(CopyPath<Seq<char>>, Seq<char>),
}

/// The error, if any, that ends the copy at an entry: that of a directory that cannot be created or
/// read, be it the entry itself or one inside it.
pub open spec fn item_error(item: CopyItem) -> Option<Seq<char>>
    decreases item,
{
    match item {
        CopyItem::Directory(_, items) => items_error(items),
        CopyItem::Uncreatable(path, error) => Some(
            "Failed to create directory "@ + path.target + ": "@ + error,
        ),
        CopyItem::Unopenable(path, error) => Some(
            "Failed to read directory "@ + path.source + ": "@ + error,
        ),
        _ => None,
    }
}

/// The error, if any, that ends the copy at one of some entries: that of the first one that has any.
pub open spec fn items_error(items: Seq<CopyItem>) -> Option<Seq<char>>
    decreases items,
{
    if items.len() == 0 {
        None
    } else if items_error(items.drop_last()) is Some {
        items_error(items.drop_last())
    } else {
        item_error(items.last())
    }
}

/// The event that an entry was found, and is not to be left out.
pub open spec fn found(path: CopyPath<Seq<char>>) -> CopyEvent<Seq<char>> {
    CopyEvent::Entry(CopyEntry::Found { path, left_out: false })
}

/// The events that copying meets from the creation of a directory on, until it leaves the directory
/// or ends.
pub open spec fn directory_events(item: CopyItem) -> Seq<CopyEvent<Seq<char>>>
    decreases item, 0int,
{
    match item {
        CopyItem::Directory(_, items) => seq![
            CopyEvent::Created(Ok(())),
            CopyEvent::Opened(Ok(())),
        ] + items_events(items) + (if items_error(items) is Some {
            Seq::empty()
        } else {
            seq![CopyEvent::Entry(CopyEntry::End)]
        }),
        CopyItem::Uncreatable(_, error) => seq![CopyEvent::Created(Err(error))],
        CopyItem::Unopenable(_, error) => seq![
            CopyEvent::Created(Ok(())),
            CopyEvent::Opened(Err(error)),
        ],
        _ => Seq::empty(),
    }
}

/// The events that copying meets at an entry.
pub open spec fn item_events(item: CopyItem) -> Seq<CopyEvent<Seq<char>>>
    decreases item, 1int,
{
    match item {
        CopyItem::Unreadable(error) => seq![
            CopyEvent::Entry(CopyEntry::Unreadable(error)),
            CopyEvent::Warned,
        ],
        CopyItem::LeftOut(path) => seq![
            CopyEvent::Entry(CopyEntry::Found { path, left_out: true }),
        ],
        CopyItem::Untyped(path) => seq![found(path), CopyEvent::Kind(EntryKind::Unknown)],
        CopyItem::File(path, Ok(())) => seq![
            found(path),
            CopyEvent::Kind(EntryKind::Other),
            CopyEvent::Copied(Ok(())),
        ],
        CopyItem::File(path, Err(error)) => seq![
            found(path),
            CopyEvent::Kind(EntryKind::Other),
            CopyEvent::Copied(Err(error)),
            CopyEvent::Warned,
        ],
        CopyItem::Directory(path, _) => seq![found(path), CopyEvent::Kind(EntryKind::Directory)]
            + directory_events(item),
        CopyItem::Uncreatable(path, _) => seq![found(path), CopyEvent::Kind(EntryKind::Directory)]
            + directory_events(item),
        CopyItem::Unopenable(path, _) => seq![found(path), CopyEvent::Kind(EntryKind::Directory)]
            + directory_events(item),
    }
}

/// The events that copying meets at some entries of a directory: at one after the other, up to the
/// first one that ends the copy.
pub open spec fn items_events(items: Seq<CopyItem>) -> Seq<CopyEvent<Seq<char>>>
    decreases items, 1int,
{
    if items.len() == 0 {
        Seq::empty()
    } else if items_error(items.drop_last()) is Some {
        items_events(items.drop_last())
    } else {
        items_events(items.drop_last()) + item_events(items.last())
    }
}

/// What is to be done with an entry of the directory `dir`: a file is copied, a directory is created
/// and treated likewise, and what is to be left out, or is of no known kind, is not touched. What
/// cannot be read or copied is warned about. A directory that cannot be created or read is the last
/// thing that is tried.
pub open spec fn item_effects(dir: CopyPath<Seq<char>>, item: CopyItem) -> Seq<CopyEffect>
    decreases item,
{
    match item {
        CopyItem::Unreadable(error) => seq![CopyEffect::Warn(entry_warning(dir.source, error))],
        CopyItem::LeftOut(_) => Seq::empty(),
        CopyItem::Untyped(_) => Seq::empty(),
        CopyItem::File(path, Ok(())) => seq![CopyEffect::CopyFile(path)],
        CopyItem::File(path, Err(error)) => seq![
            CopyEffect::CopyFile(path),
            CopyEffect::Warn(file_warning(path.source, error)),
        ],
        CopyItem::Directory(path, items) => seq![CopyEffect::MakeDir(path)] + items_effects(
            path,
            items,
        ),
        CopyItem::Uncreatable(path, _) => seq![CopyEffect::MakeDir(path)],
        CopyItem::Unopenable(path, _) => seq![CopyEffect::MakeDir(path)],
    }
}

/// What is to be done with some entries of the directory `dir`: one after the other, up to the first
/// one that ends the copy.
pub open spec fn items_effects(dir: CopyPath<Seq<char>>, items: Seq<CopyItem>) -> Seq<CopyEffect>
    decreases items,
{
    if items.len() == 0 {
        Seq::empty()
    } else if items_error(items.drop_last()) is Some {
        items_effects(dir, items.drop_last())
    } else {
        items_effects(dir, items.drop_last()) + item_effects(dir, items.last())
    }
}

/// Whether an entry is a directory, with the given paths.
pub open spec fn is_directory_at(item: CopyItem, dir: CopyPath<Seq<char>>) -> bool {
    match item {
        CopyItem::Directory(path, _) => path == dir,
        CopyItem::Uncreatable(path, _) => path == dir,
        CopyItem::Unopenable(path, _) => path == dir,
        _ => false,
    }
}

/// Events in two portions.
proof fn copy_after_both(
    run: CopyRunView,
    first: Seq<CopyEvent<Seq<char>>>,
    second: Seq<CopyEvent<Seq<char>>>,
)
    ensures
        copy_after(run, first + second) == copy_after(copy_after(run, first), second),
        copy_effects(run, first + second) == copy_effects(run, first) + copy_effects(
            copy_after(run, first),
            second,
        ),
    decreases second.len(),
{
    if second.len() == 0 {
        assert(first + second =~= first);
        assert(copy_effects(run, first) + Seq::<CopyEffect>::empty() =~= copy_effects(run, first));
    } else {
        copy_after_both(run, first, second.drop_last());
        assert((first + second).drop_last() =~= first + second.drop_last());
        let between = copy_after(run, first);
        let step = copy_effect(copy_after(between, second.drop_last()), second.last());
        assert(copy_effects(run, first) + copy_effects(between, second.drop_last()) + step
            =~= copy_effects(run, first) + (copy_effects(between, second.drop_last()) + step));
    }
}

/// A single event.
proof fn copy_after_one(run: CopyRunView, event: CopyEvent<Seq<char>>)
    ensures
        copy_after(run, seq![event]) == copy_next(run, event),
        copy_effects(run, seq![event]) == copy_effect(run, event),
{
    assert(seq![event].drop_last() =~= Seq::empty());
    assert(copy_after(run, Seq::empty()) == run);
    assert(copy_effects(run, seq![event].drop_last()) =~= Seq::empty());
    assert(copy_effects(run, seq![event]) =~= copy_effect(run, event));
}

/// One event, then others.
proof fn copy_after_first(
    run: CopyRunView,
    event: CopyEvent<Seq<char>>,
    rest: Seq<CopyEvent<Seq<char>>>,
)
    ensures
        copy_after(run, seq![event] + rest) == copy_after(copy_next(run, event), rest),
        copy_effects(run, seq![event] + rest) == copy_effect(run, event) + copy_effects(
            copy_next(run, event),
            rest,
        ),
{
    copy_after_one(run, event);
    copy_after_both(run, seq![event], rest);
}

/// An entry that cannot be read is warned about.
proof fn copy_deals_with_unreadable(
    outer: Seq<CopyPath<Seq<char>>>,
    dir: CopyPath<Seq<char>>,
    error: Seq<char>,
)
    ensures
        ({
            let run = CopyRunView { outer, stage: CopyStage::Next(dir) };
            let item = CopyItem::Unreadable(error);
            &&& copy_effects(run, item_events(item)) == item_effects(dir, item)
            &&& copy_after(run, item_events(item)) == run
        }),
{
    let run = CopyRunView { outer, stage: CopyStage::Next(dir) };
    let e0 = CopyEvent::Entry(CopyEntry::Unreadable(error));
    let e1 = CopyEvent::Warned;
    assert(item_events(CopyItem::Unreadable(error)) =~= seq![e0] + seq![e1]);
    copy_after_first(run, e0, seq![e1]);
    copy_after_one(copy_next(run, e0), e1);
}

/// An entry that is to be left out is passed over.
proof fn copy_deals_with_left_out(
    outer: Seq<CopyPath<Seq<char>>>,
    dir: CopyPath<Seq<char>>,
    path: CopyPath<Seq<char>>,
)
    ensures
        ({
            let run = CopyRunView { outer, stage: CopyStage::Next(dir) };
            let item = CopyItem::LeftOut(path);
            &&& copy_effects(run, item_events(item)) == item_effects(dir, item)
            &&& copy_after(run, item_events(item)) == run
        }),
{
    let run = CopyRunView { outer, stage: CopyStage::Next(dir) };
    copy_after_one(run, CopyEvent::Entry(CopyEntry::Found { path, left_out: true }));
}

/// An entry whose kind cannot be told is passed over.
proof fn copy_deals_with_untyped(
    outer: Seq<CopyPath<Seq<char>>>,
    dir: CopyPath<Seq<char>>,
    path: CopyPath<Seq<char>>,
)
    ensures
        ({
            let run = CopyRunView { outer, stage: CopyStage::Next(dir) };
            let item = CopyItem::Untyped(path);
            &&& copy_effects(run, item_events(item)) == item_effects(dir, item)
            &&& copy_after(run, item_events(item)) == run
        }),
{
    let run = CopyRunView { outer, stage: CopyStage::Next(dir) };
    let e1 = CopyEvent::Kind(EntryKind::Unknown);
    assert(item_events(CopyItem::Untyped(path)) =~= seq![found(path)] + seq![e1]);
    copy_after_first(run, found(path), seq![e1]);
    copy_after_one(copy_next(run, found(path)), e1);
}

/// A file that can be copied is copied.
proof fn copy_deals_with_file(
    outer: Seq<CopyPath<Seq<char>>>,
    dir: CopyPath<Seq<char>>,
    path: CopyPath<Seq<char>>,
)
    ensures
        ({
            let run = CopyRunView { outer, stage: CopyStage::Next(dir) };
            let item = CopyItem::File(path, Ok(()));
            &&& copy_effects(run, item_events(item)) == item_effects(dir, item)
            &&& copy_after(run, item_events(item)) == run
        }),
{
    let run = CopyRunView { outer, stage: CopyStage::Next(dir) };
    let e1 = CopyEvent::Kind(EntryKind::Other);
    let e2 = CopyEvent::Copied(Ok(()));
    let run1 = copy_next(run, found(path));
    let item = CopyItem::File(path, Ok(()));
    assert(item_events(item) =~= seq![found(path)] + (seq![e1] + seq![e2]));
    copy_after_first(run, found(path), seq![e1] + seq![e2]);
    copy_after_first(run1, e1, seq![e2]);
    copy_after_one(copy_next(run1, e1), e2);
    assert(copy_effects(run, item_events(item)) =~= item_effects(dir, item));
}

/// A file that cannot be copied is tried and warned about.
proof fn copy_deals_with_broken_file(
    outer: Seq<CopyPath<Seq<char>>>,
    dir: CopyPath<Seq<char>>,
    path: CopyPath<Seq<char>>,
    error: Seq<char>,
)
    ensures
        ({
            let run = CopyRunView { outer, stage: CopyStage::Next(dir) };
            let item = CopyItem::File(path, Err(error));
            &&& copy_effects(run, item_events(item)) == item_effects(dir, item)
            &&& copy_after(run, item_events(item)) == run
        }),
{
    let run = CopyRunView { outer, stage: CopyStage::Next(dir) };
    let e1 = CopyEvent::Kind(EntryKind::Other);
    let e2 = CopyEvent::Copied(Err(error));
    let e3 = CopyEvent::Warned;
    let run1 = copy_next(run, found(path));
    let run2 = copy_next(run1, e1);
    let item = CopyItem::File(path, Err(error));
    assert(item_events(item) =~= seq![found(path)] + (seq![e1] + (seq![e2] + seq![e3])));
    copy_after_first(run, found(path), seq![e1] + (seq![e2] + seq![e3]));
    copy_after_first(run1, e1, seq![e2] + seq![e3]);
    copy_after_first(run2, e2, seq![e3]);
    copy_after_one(copy_next(run2, e2), e3);
    assert(copy_effects(run, item_events(item)) =~= item_effects(dir, item));
}

/// A directory among the entries is entered.
proof fn copy_enters_directory(
    outer: Seq<CopyPath<Seq<char>>>,
    dir: CopyPath<Seq<char>>,
    path: CopyPath<Seq<char>>,
    item: CopyItem,
)
    requires
        is_directory_at(item, path),
    ensures
        ({
            let run = CopyRunView { outer, stage: CopyStage::Next(dir) };
            let inside = CopyRunView { outer: outer.push(dir), stage: CopyStage::Create(path) };
            &&& copy_effects(run, item_events(item)) == copy_effects(
                inside,
                directory_events(item),
            )
            &&& copy_after(run, item_events(item)) == copy_after(inside, directory_events(item))
        }),
{
    let run = CopyRunView { outer, stage: CopyStage::Next(dir) };
    let e1 = CopyEvent::Kind(EntryKind::Directory);
    let run1 = copy_next(run, found(path));
    let inner = directory_events(item);
    assert(item_events(item) =~= seq![found(path)] + (seq![e1] + inner));
    copy_after_first(run, found(path), seq![e1] + inner);
    copy_after_first(run1, e1, inner);
    let inside = copy_next(run1, e1);
    assert(copy_effects(run, item_events(item)) =~= copy_effects(inside, inner));
}

/// An entry is dealt with; copying goes on in the same directory, or ends with the entry's error.
proof fn copy_deals_with_item(
    outer: Seq<CopyPath<Seq<char>>>,
    dir: CopyPath<Seq<char>>,
    item: CopyItem,
)
    ensures
        ({
            let run = CopyRunView { outer, stage: CopyStage::Next(dir) };
            &&& copy_effects(run, item_events(item)) == item_effects(dir, item)
            &&& match item_error(item) {
                None => copy_after(run, item_events(item)) == run,
                Some(error) => copy_after(run, item_events(item)).stage == CopyStage::Done(
                    Err(error),
                ),
            }
        }),
    decreases item, 1int,
{
    match item {
        CopyItem::Unreadable(error) => copy_deals_with_unreadable(outer, dir, error),
        CopyItem::LeftOut(path) => copy_deals_with_left_out(outer, dir, path),
        CopyItem::Untyped(path) => copy_deals_with_untyped(outer, dir, path),
        CopyItem::File(path, Ok(u)) => {
            assert(u == ());
            copy_deals_with_file(outer, dir, path);
        },
        CopyItem::File(path, Err(error)) => copy_deals_with_broken_file(outer, dir, path, error),
        CopyItem::Directory(path, _) | CopyItem::Uncreatable(path, _) | CopyItem::Unopenable(
            path,
            _,
        ) => {
            copy_enters_directory(outer, dir, path, item);
            copy_deals_with_directory(outer.push(dir), path, item);
            assert(outer.push(dir).drop_last() =~= outer);
        },
    }
}

/// Entries are dealt with one after the other; copying goes on in the same directory, or ends with
/// the first error.
proof fn copy_deals_with_items(
    outer: Seq<CopyPath<Seq<char>>>,
    dir: CopyPath<Seq<char>>,
    items: Seq<CopyItem>,
)
    ensures
        ({
            let run = CopyRunView { outer, stage: CopyStage::Next(dir) };
            &&& copy_effects(run, items_events(items)) == items_effects(dir, items)
            &&& match items_error(items) {
                None => copy_after(run, items_events(items)) == run,
                Some(error) => copy_after(run, items_events(items)).stage == CopyStage::Done(
                    Err(error),
                ),
            }
        }),
    decreases items, 1int,
{
    if items.len() > 0 {
        let run = CopyRunView { outer, stage: CopyStage::Next(dir) };
        copy_deals_with_items(outer, dir, items.drop_last());
        if items_error(items.drop_last()) is None {
            copy_deals_with_item(outer, dir, items.last());
            copy_after_both(run, items_events(items.drop_last()), item_events(items.last()));
        }
    }
}

/// A directory is created and opened.
proof fn copy_opens_directory(
    outer: Seq<CopyPath<Seq<char>>>,
    dir: CopyPath<Seq<char>>,
    rest: Seq<CopyEvent<Seq<char>>>,
)
    ensures
        ({
            let run = CopyRunView { outer, stage: CopyStage::Create(dir) };
            let inside = CopyRunView { outer, stage: CopyStage::Next(dir) };
            let events = seq![CopyEvent::Created(Ok(())), CopyEvent::Opened(Ok(()))] + rest;
            &&& copy_effects(run, events) == seq![CopyEffect::MakeDir(dir)] + copy_effects(
                inside,
                rest,
            )
            &&& copy_after(run, events) == copy_after(inside, rest)
        }),
{
    let run = CopyRunView { outer, stage: CopyStage::Create(dir) };
    let e0 = CopyEvent::Created(Ok(()));
    let e1 = CopyEvent::Opened(Ok(()));
    let run1 = copy_next(run, e0);
    let events = seq![e0, e1] + rest;
    assert(events =~= seq![e0] + (seq![e1] + rest));
    copy_after_first(run, e0, seq![e1] + rest);
    copy_after_first(run1, e1, rest);
    assert(copy_effects(run, events) =~= seq![CopyEffect::MakeDir(dir)] + copy_effects(
        copy_next(run1, e1),
        rest,
    ));
}

/// A directory that cannot be created ends the copy.
proof fn copy_deals_with_uncreatable(
    outer: Seq<CopyPath<Seq<char>>>,
    dir: CopyPath<Seq<char>>,
    error: Seq<char>,
)
    ensures
        ({
            let run = CopyRunView { outer, stage: CopyStage::Create(dir) };
            let item = CopyItem::Uncreatable(dir, error);
            &&& copy_effects(run, directory_events(item)) == item_effects(dir, item)
            &&& copy_after(run, directory_events(item)).stage == CopyStage::Done(
                Err(item_error(item)->Some_0),
            )
        }),
{
    let run = CopyRunView { outer, stage: CopyStage::Create(dir) };
    copy_after_one(run, CopyEvent::Created(Err(error)));
}

/// A directory that can be created but not read ends the copy.
proof fn copy_deals_with_unopenable(
    outer: Seq<CopyPath<Seq<char>>>,
    dir: CopyPath<Seq<char>>,
    error: Seq<char>,
)
    ensures
        ({
            let run = CopyRunView { outer, stage: CopyStage::Create(dir) };
            let item = CopyItem::Unopenable(dir, error);
            &&& copy_effects(run, directory_events(item)) == item_effects(dir, item)
            &&& copy_after(run, directory_events(item)).stage == CopyStage::Done(
                Err(item_error(item)->Some_0),
            )
        }),
{
    let run = CopyRunView { outer, stage: CopyStage::Create(dir) };
    let e0 = CopyEvent::Created(Ok(()));
    let failure = CopyEvent::Opened(Err(error));
    let item = CopyItem::Unopenable(dir, error);
    assert(directory_events(item) =~= seq![e0] + seq![failure]);
    copy_after_first(run, e0, seq![failure]);
    copy_after_one(copy_next(run, e0), failure);
    assert(copy_effects(run, directory_events(item)) =~= item_effects(dir, item));
}

/// A directory is created and its entries are dealt with; copying goes on around it, or ends with
/// the first error.
proof fn copy_deals_with_directory(
    outer: Seq<CopyPath<Seq<char>>>,
    dir: CopyPath<Seq<char>>,
    item: CopyItem,
)
    requires
        is_directory_at(item, dir),
    ensures
        ({
            let run = CopyRunView { outer, stage: CopyStage::Create(dir) };
            &&& copy_effects(run, directory_events(item)) == item_effects(dir, item)
            &&& match item_error(item) {
                None => copy_after(run, directory_events(item)) == copy_leave(outer),
                Some(error) => copy_after(run, directory_events(item)).stage == CopyStage::Done(
                    Err(error),
                ),
            }
        }),
    decreases item, 0int,
{
    match item {
        CopyItem::Directory(_, items) => {
            let inside = CopyRunView { outer, stage: CopyStage::Next(dir) };
            let end = CopyEvent::Entry(CopyEntry::End);
            let ending = if items_error(items) is Some {
                Seq::empty()
            } else {
                seq![end]
            };
            let rest = items_events(items) + ending;
            assert(directory_events(item) =~= seq![
                CopyEvent::Created(Ok(())),
                CopyEvent::Opened(Ok(())),
            ] + rest);
            copy_opens_directory(outer, dir, rest);
            copy_deals_with_items(outer, dir, items);
            copy_after_both(inside, items_events(items), ending);
            if items_error(items) is None {
                copy_after_one(inside, end);
            }
            assert(copy_effects(inside, rest) =~= items_effects(dir, items));
        },
        CopyItem::Uncreatable(_, error) => copy_deals_with_uncreatable(outer, dir, error),
        CopyItem::Unopenable(_, error) => copy_deals_with_unopenable(outer, dir, error),
        _ => {},
    }
}

/// Copying a directory does exactly what is to be done with it and its entries, in their order, up to
/// the first directory that cannot be created or read. It succeeds if there is no such directory,
/// and else ends with that directory's error.
pub proof fn copy_does_what_is_to_be_done(dir: CopyPath<Seq<char>>, root: CopyItem)
    requires
        is_directory_at(root, dir),
    ensures
        copy_effects(copy_start(dir), directory_events(root)) == item_effects(dir, root),
        copy_after(copy_start(dir), directory_events(root)).stage == CopyStage::Done(
            match item_error(root) {
                None => Ok(()),
                Some(error) => Err(error),
            },
        ),
{
    copy_deals_with_directory(Seq::empty(), dir, root);
}

/// An outcome is final, and nothing is done after it.
pub proof fn copy_outcome_is_final(run: CopyRunView, events: Seq<CopyEvent<Seq<char>>>)
    requires
        run.stage is Done,
    ensures
        copy_after(run, events) == run,
        copy_effects(run, events).len() == 0,
    decreases events.len(),
{
    if events.len() > 0 {
        copy_outcome_is_final(run, events.drop_last());
    }
}

/// Copying fails only where a directory cannot be created or read.
pub proof fn copy_fails_only_for_directories(
    dir: CopyPath<Seq<char>>,
    events: Seq<CopyEvent<Seq<char>>>,
)
    requires
        copy_after(copy_start(dir), events).stage matches CopyStage::Done(Err(_)),
    ensures
        exists|i: int|
            0 <= i < events.len() && match #[trigger] events[i] {
                CopyEvent::Created(result) => result is Err,
                CopyEvent::Opened(result) => result is Err,
                _ => false,
            },
    decreases events.len(),
{
    if events.len() > 0 {
        let rest = events.drop_last();
        let before = copy_after(copy_start(dir), rest);
        if before.stage is Done {
            copy_fails_only_for_directories(dir, rest);
            let i = choose|i: int|
                0 <= i < rest.len() && match #[trigger] rest[i] {
                    CopyEvent::Created(result) => result is Err,
                    CopyEvent::Opened(result) => result is Err,
                    _ => false,
                };
            assert(events[i] == rest[i]);
        } else {
            assert(events[events.len() - 1] == events.last());
        }
    }
}

} // verus!
