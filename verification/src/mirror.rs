//! What a copy leaves behind: the target mirrors the source, but for what is to be left out.
//!
//! But for the first, the laws here speak of a directory tree of files and directories, in which
//! nothing fails to be read, created or copied. How the text of a path is joined to a name, which
//! directories lie above a path, and which names are to be left out, is taken as given: what a law needs
//! of these it requires.

use crate::copy::{CopyEffect, CopyItem, CopyPath, CopyStage};
use vstd::prelude::*;

verus! {

/// An entry of a directory.
pub enum TreeEntry {
    File { name: Seq<char>, bytes: Seq<u8> },
    Directory { name: Seq<char>, entries: Seq<TreeEntry> },
}

/// What stands at a path.
pub enum DiskNode {
    File(Seq<u8>),
    Directory,
}

/// The name of an entry.
pub open spec fn entry_name(entry: TreeEntry) -> Seq<char> {
    match entry {
        TreeEntry::File { name, .. } => name,
        TreeEntry::Directory { name, .. } => name,
    }
}

/// What an entry is.
pub open spec fn entry_node(entry: TreeEntry) -> DiskNode {
    match entry {
        TreeEntry::File { bytes, .. } => DiskNode::File(bytes),
        TreeEntry::Directory { .. } => DiskNode::Directory,
    }
}

/// The source and the target for the entry `name` of the directory `dir`.
pub open spec fn child_path(
    join: spec_fn(Seq<char>, Seq<char>) -> Seq<char>,
    dir: CopyPath<Seq<char>>,
    name: Seq<char>,
) -> CopyPath<Seq<char>> {
    CopyPath { source: join(dir.source, name), target: join(dir.target, name) }
}

/// The source and the target at one relative path inside the directory `dir`.
pub open spec fn path_at(
    join: spec_fn(Seq<char>, Seq<char>) -> Seq<char>,
    dir: CopyPath<Seq<char>>,
    parts: Seq<Seq<char>>,
) -> CopyPath<Seq<char>>
    decreases parts.len(),
{
    if parts.len() == 0 {
        dir
    } else {
        path_at(join, child_path(join, dir, parts[0]), parts.drop_first())
    }
}

/// The paths of something that is done, other than a warning.
pub open spec fn effect_path(effect: CopyEffect) -> CopyPath<Seq<char>> {
    match effect {
        CopyEffect::MakeDir(path) => path,
        CopyEffect::CopyFile(path) => path,
        CopyEffect::Warn(_) => arbitrary(),
    }
}

/// The paths of an entry, unless it cannot be read.
pub open spec fn item_path(item: CopyItem) -> Option<CopyPath<Seq<char>>> {
    match item {
        CopyItem::Unreadable(_) => None,
        CopyItem::LeftOut(path) => Some(path),
        CopyItem::Untyped(path) => Some(path),
        CopyItem::File(path, _) => Some(path),
        CopyItem::Directory(path, _) => Some(path),
        CopyItem::Uncreatable(path, _) => Some(path),
        CopyItem::Unopenable(path, _) => Some(path),
    }
}

/// Whether an entry lies in the directory `dir`, under one name in the source and in the target, and so
/// on for the entries inside it.
pub open spec fn item_in_place(
    join: spec_fn(Seq<char>, Seq<char>) -> Seq<char>,
    dir: CopyPath<Seq<char>>,
    item: CopyItem,
) -> bool
    decreases item,
{
    &&& item_path(item) matches Some(path) ==> exists|name: Seq<char>|
        path == #[trigger] child_path(join, dir, name)
    &&& match item {
        CopyItem::Directory(path, items) => items_in_place(join, path, items),
        _ => true,
    }
}

/// Whether entries lie in the directory `dir` in this way.
pub open spec fn items_in_place(
    join: spec_fn(Seq<char>, Seq<char>) -> Seq<char>,
    dir: CopyPath<Seq<char>>,
    items: Seq<CopyItem>,
) -> bool
    decreases items,
{
    items.len() > 0 ==> items_in_place(join, dir, items.drop_last()) && item_in_place(
        join,
        dir,
        items.last(),
    )
}

/// Whatever fails on the way, a copy creates and copies only from the source to the target at one
/// relative path.
pub proof fn copy_keeps_relative_paths(
    join: spec_fn(Seq<char>, Seq<char>) -> Seq<char>,
    dir: CopyPath<Seq<char>>,
    items: Seq<CopyItem>,
    effect: CopyEffect,
) -> (parts: Seq<Seq<char>>)
    requires
        items_in_place(join, dir, items),
        crate::copy::items_effects(dir, items).contains(effect),
        !(effect is Warn),
    ensures
        parts.len() > 0,
        effect_path(effect) == path_at(join, dir, parts),
    decreases items,
{
    let front = crate::copy::items_effects(dir, items.drop_last());
    if front.contains(effect) {
        copy_keeps_relative_paths(join, dir, items.drop_last(), effect)
    } else {
        let back = crate::copy::item_effects(dir, items.last());
        let k = choose|k: int| 0 <= k < (front + back).len() && (front + back)[k] == effect;
        if k < front.len() {
            assert(front[k] == effect);
        }
        assert(back[k - front.len()] == effect);
        entry_keeps_relative_path(join, dir, items.last(), effect)
    }
}

proof fn entry_keeps_relative_path(
    join: spec_fn(Seq<char>, Seq<char>) -> Seq<char>,
    dir: CopyPath<Seq<char>>,
    item: CopyItem,
    effect: CopyEffect,
) -> (parts: Seq<Seq<char>>)
    requires
        item_in_place(join, dir, item),
        crate::copy::item_effects(dir, item).contains(effect),
        !(effect is Warn),
    ensures
        parts.len() > 0,
        effect_path(effect) == path_at(join, dir, parts),
    decreases item,
{
    let path = item_path(item)->Some_0;
    let name = choose|name: Seq<char>| path == #[trigger] child_path(join, dir, name);
    let single = seq![name];
    assert(single.drop_first() =~= Seq::empty());
    reveal_with_fuel(path_at, 2);
    let effects = crate::copy::item_effects(dir, item);
    let k = choose|k: int| 0 <= k < effects.len() && effects[k] == effect;
    match item {
        CopyItem::Directory(_, items) if k > 0 => {
            let inner = crate::copy::items_effects(path, items);
            assert(inner[k - 1] == effect);
            let rest = copy_keeps_relative_paths(join, path, items, effect);
            let parts = seq![name] + rest;
            assert(parts.drop_first() =~= rest);
            parts
        },
        _ => single,
    }
}

/// Whether a tree holds `node` at a relative path.
pub open spec fn tree_at(
    entries: Seq<TreeEntry>,
    parts: Seq<Seq<char>>,
    node: DiskNode,
) -> bool
    decreases parts.len(), 1int,
{
    exists|i: int| 0 <= i < entries.len() && entry_at(#[trigger] entries[i], parts, node)
}

/// Whether a relative path leads through an entry to `node`.
pub open spec fn entry_at(entry: TreeEntry, parts: Seq<Seq<char>>, node: DiskNode) -> bool
    decreases parts.len(), 0int,
{
    &&& parts.len() > 0
    &&& entry_name(entry) == parts[0]
    &&& if parts.len() == 1 {
        node == entry_node(entry)
    } else {
        match entry {
            TreeEntry::File { .. } => false,
            TreeEntry::Directory { entries, .. } => tree_at(entries, parts.drop_first(), node),
        }
    }
}

/// Whether no part of a relative path is to be left out.
pub open spec fn all_kept(skip: spec_fn(Seq<char>) -> bool, parts: Seq<Seq<char>>) -> bool {
    forall|i: int| 0 <= i < parts.len() ==> !skip(#[trigger] parts[i])
}

/// An entry of the directory `dir`, as a copy meets it.
pub open spec fn tree_item(
    join: spec_fn(Seq<char>, Seq<char>) -> Seq<char>,
    skip: spec_fn(Seq<char>) -> bool,
    dir: CopyPath<Seq<char>>,
    entry: TreeEntry,
) -> CopyItem
    decreases entry,
{
    let path = child_path(join, dir, entry_name(entry));
    if skip(entry_name(entry)) {
        CopyItem::LeftOut(path)
    } else {
        match entry {
            TreeEntry::File { .. } => CopyItem::File(path, Ok(())),
            TreeEntry::Directory { entries, .. } => CopyItem::Directory(
                path,
                tree_items(join, skip, path, entries),
            ),
        }
    }
}

/// Entries of the directory `dir`, as a copy meets them.
pub open spec fn tree_items(
    join: spec_fn(Seq<char>, Seq<char>) -> Seq<char>,
    skip: spec_fn(Seq<char>) -> bool,
    dir: CopyPath<Seq<char>>,
    entries: Seq<TreeEntry>,
) -> Seq<CopyItem>
    decreases entries,
{
    if entries.len() == 0 {
        Seq::empty()
    } else {
        tree_items(join, skip, dir, entries.drop_last()).push(
            tree_item(join, skip, dir, entries.last()),
        )
    }
}

/// What a copy does for `node` at a path: a directory is created, a file is copied.
pub open spec fn effect_for(path: CopyPath<Seq<char>>, node: DiskNode) -> CopyEffect {
    match node {
        DiskNode::File(_) => CopyEffect::CopyFile(path),
        DiskNode::Directory => CopyEffect::MakeDir(path),
    }
}

/// Everything that a copy of the directory `dir` with the given entries does.
pub open spec fn tree_effects(
    join: spec_fn(Seq<char>, Seq<char>) -> Seq<char>,
    skip: spec_fn(Seq<char>) -> bool,
    dir: CopyPath<Seq<char>>,
    entries: Seq<TreeEntry>,
) -> Seq<CopyEffect> {
    seq![CopyEffect::MakeDir(dir)] + crate::copy::items_effects(
        dir,
        tree_items(join, skip, dir, entries),
    )
}

/// The copy of such a directory succeeds, and does just that.
pub proof fn copy_of_a_tree_succeeds(
    join: spec_fn(Seq<char>, Seq<char>) -> Seq<char>,
    skip: spec_fn(Seq<char>) -> bool,
    dir: CopyPath<Seq<char>>,
    entries: Seq<TreeEntry>,
)
    ensures
        ({
            let root = CopyItem::Directory(dir, tree_items(join, skip, dir, entries));
            let events = crate::copy::directory_events(root);
            &&& crate::copy::copy_after(crate::copy::copy_start(dir), events).stage
                == CopyStage::<Seq<char>>::Done(Ok(()))
            &&& crate::copy::copy_effects(crate::copy::copy_start(dir), events) == tree_effects(
                join,
                skip,
                dir,
                entries,
            )
        }),
{
    let root = CopyItem::Directory(dir, tree_items(join, skip, dir, entries));
    tree_items_have_no_error(join, skip, dir, entries);
    crate::copy::copy_does_what_is_to_be_done(dir, root);
}

proof fn tree_item_has_no_error(
    join: spec_fn(Seq<char>, Seq<char>) -> Seq<char>,
    skip: spec_fn(Seq<char>) -> bool,
    dir: CopyPath<Seq<char>>,
    entry: TreeEntry,
)
    ensures
        crate::copy::item_error(tree_item(join, skip, dir, entry)) is None,
    decreases entry,
{
    match entry {
        TreeEntry::File { .. } => {},
        TreeEntry::Directory { name, entries } => {
            tree_items_have_no_error(join, skip, child_path(join, dir, name), entries);
        },
    }
}

proof fn tree_items_have_no_error(
    join: spec_fn(Seq<char>, Seq<char>) -> Seq<char>,
    skip: spec_fn(Seq<char>) -> bool,
    dir: CopyPath<Seq<char>>,
    entries: Seq<TreeEntry>,
)
    ensures
        crate::copy::items_error(tree_items(join, skip, dir, entries)) is None,
    decreases entries,
{
    if entries.len() > 0 {
        let items = tree_items(join, skip, dir, entries);
        assert(items.drop_last() =~= tree_items(join, skip, dir, entries.drop_last()));
        tree_items_have_no_error(join, skip, dir, entries.drop_last());
        tree_item_has_no_error(join, skip, dir, entries.last());
    }
}

/// Whatever a copy does, it does for something that the tree holds at a relative path of which no part
/// is to be left out, and from the source to the target at that one relative path.
pub proof fn copy_does_nothing_else(
    join: spec_fn(Seq<char>, Seq<char>) -> Seq<char>,
    skip: spec_fn(Seq<char>) -> bool,
    dir: CopyPath<Seq<char>>,
    entries: Seq<TreeEntry>,
    effect: CopyEffect,
) -> (found: (Seq<Seq<char>>, DiskNode))
    requires
        crate::copy::items_effects(dir, tree_items(join, skip, dir, entries)).contains(effect),
    ensures
        tree_at(entries, found.0, found.1),
        all_kept(skip, found.0),
        effect == effect_for(path_at(join, dir, found.0), found.1),
{
    let effects = crate::copy::items_effects(dir, tree_items(join, skip, dir, entries));
    let k = choose|k: int| 0 <= k < effects.len() && effects[k] == effect;
    effect_is_explained(join, skip, dir, entries, k)
}

/// Whether the directory that a relative path inside `dir` leads into has been created by the first `k`
/// things that are done, or is `dir` itself.
spec fn parent_made(
    join: spec_fn(Seq<char>, Seq<char>) -> Seq<char>,
    dir: CopyPath<Seq<char>>,
    effects: Seq<CopyEffect>,
    k: int,
    parts: Seq<Seq<char>>,
) -> bool {
    parts.len() == 1 || exists|j: int|
        0 <= j < k && #[trigger] effects[j] == CopyEffect::MakeDir(
            path_at(join, dir, parts.drop_last()),
        )
}

/// Each thing that is done is done for something in the tree, and the directory around it comes first.
proof fn effect_is_explained(
    join: spec_fn(Seq<char>, Seq<char>) -> Seq<char>,
    skip: spec_fn(Seq<char>) -> bool,
    dir: CopyPath<Seq<char>>,
    entries: Seq<TreeEntry>,
    k: int,
) -> (found: (Seq<Seq<char>>, DiskNode))
    requires
        0 <= k < crate::copy::items_effects(dir, tree_items(join, skip, dir, entries)).len(),
    ensures
        ({
            let effects = crate::copy::items_effects(dir, tree_items(join, skip, dir, entries));
            &&& tree_at(entries, found.0, found.1)
            &&& all_kept(skip, found.0)
            &&& effects[k] == effect_for(path_at(join, dir, found.0), found.1)
            &&& parent_made(join, dir, effects, k, found.0)
        }),
    decreases entries,
{
    let items = tree_items(join, skip, dir, entries);
    let effects = crate::copy::items_effects(dir, items);
    assert(entries.len() > 0);
    let rest = entries.drop_last();
    assert(items.drop_last() =~= tree_items(join, skip, dir, rest));
    tree_items_have_no_error(join, skip, dir, rest);
    let front = crate::copy::items_effects(dir, items.drop_last());
    let back = crate::copy::item_effects(dir, items.last());
    assert(effects == front + back);
    if k < front.len() {
        let (parts, node) = effect_is_explained(join, skip, dir, rest, k);
        let i = choose|i: int| 0 <= i < rest.len() && entry_at(#[trigger] rest[i], parts, node);
        assert(entries[i] == rest[i]);
        if parts.len() != 1 {
            let made = CopyEffect::MakeDir(path_at(join, dir, parts.drop_last()));
            let j = choose|j: int| 0 <= j < k && #[trigger] front[j] == made;
            assert(effects[j] == made);
        }
        (parts, node)
    } else {
        let (parts, node) = entry_effect_is_explained(
            join,
            skip,
            dir,
            entries.last(),
            k - front.len(),
        );
        assert(entry_at(entries[entries.len() - 1], parts, node));
        if parts.len() != 1 {
            let made = CopyEffect::MakeDir(path_at(join, dir, parts.drop_last()));
            let j = choose|j: int| 0 <= j < k - front.len() && #[trigger] back[j] == made;
            assert(effects[front.len() + j] == made);
        }
        (parts, node)
    }
}

proof fn entry_effect_is_explained(
    join: spec_fn(Seq<char>, Seq<char>) -> Seq<char>,
    skip: spec_fn(Seq<char>) -> bool,
    dir: CopyPath<Seq<char>>,
    entry: TreeEntry,
    k: int,
) -> (found: (Seq<Seq<char>>, DiskNode))
    requires
        0 <= k < crate::copy::item_effects(dir, tree_item(join, skip, dir, entry)).len(),
    ensures
        ({
            let effects = crate::copy::item_effects(dir, tree_item(join, skip, dir, entry));
            &&& entry_at(entry, found.0, found.1)
            &&& all_kept(skip, found.0)
            &&& effects[k] == effect_for(path_at(join, dir, found.0), found.1)
            &&& parent_made(join, dir, effects, k, found.0)
        }),
    decreases entry,
{
    let name = entry_name(entry);
    let path = child_path(join, dir, name);
    let single = seq![name];
    assert(single.drop_first() =~= Seq::empty());
    reveal_with_fuel(path_at, 2);
    let effects = crate::copy::item_effects(dir, tree_item(join, skip, dir, entry));
    match entry {
        TreeEntry::File { bytes, .. } => (single, DiskNode::File(bytes)),
        TreeEntry::Directory { entries, .. } => {
            if k == 0 {
                (single, DiskNode::Directory)
            } else {
                let inner = crate::copy::items_effects(path, tree_items(join, skip, path, entries));
                assert(effects == seq![CopyEffect::MakeDir(path)] + inner);
                let (parts, node) = effect_is_explained(join, skip, path, entries, k - 1);
                let longer = seq![name] + parts;
                assert(longer.drop_first() =~= parts);
                assert(parts.len() > 0);
                assert forall|i: int| 0 <= i < longer.len() implies !skip(#[trigger] longer[i]) by {
                    if i > 0 {
                        assert(longer[i] == parts[i - 1]);
                    }
                }
                if parts.len() == 1 {
                    assert(longer.drop_last() =~= single);
                    assert(effects[0] == CopyEffect::MakeDir(path));
                } else {
                    assert(longer.drop_last().drop_first() =~= parts.drop_last());
                    let made = CopyEffect::MakeDir(path_at(join, path, parts.drop_last()));
                    let j = choose|j: int| 0 <= j < k - 1 && #[trigger] inner[j] == made;
                    assert(effects[j + 1] == made);
                }
                (longer, node)
            }
        },
    }
}

/// Whatever the tree holds at a relative path of which no part is to be left out, a copy creates or
/// copies, from the source to the target at that one relative path.
pub proof fn copy_misses_nothing(
    join: spec_fn(Seq<char>, Seq<char>) -> Seq<char>,
    skip: spec_fn(Seq<char>) -> bool,
    dir: CopyPath<Seq<char>>,
    entries: Seq<TreeEntry>,
    parts: Seq<Seq<char>>,
    node: DiskNode,
)
    requires
        tree_at(entries, parts, node),
        all_kept(skip, parts),
    ensures
        crate::copy::items_effects(dir, tree_items(join, skip, dir, entries)).contains(
            effect_for(path_at(join, dir, parts), node),
        ),
    decreases entries,
{
    let effect = effect_for(path_at(join, dir, parts), node);
    let items = tree_items(join, skip, dir, entries);
    let rest = entries.drop_last();
    assert(items.drop_last() =~= tree_items(join, skip, dir, rest));
    tree_items_have_no_error(join, skip, dir, rest);
    let front = crate::copy::items_effects(dir, items.drop_last());
    let back = crate::copy::item_effects(dir, items.last());
    let i = choose|i: int| 0 <= i < entries.len() && entry_at(#[trigger] entries[i], parts, node);
    if i < rest.len() {
        assert(entry_at(rest[i], parts, node));
        copy_misses_nothing(join, skip, dir, rest, parts, node);
        let k = choose|k: int| 0 <= k < front.len() && front[k] == effect;
        assert((front + back)[k] == effect);
    } else {
        entry_is_not_missed(join, skip, dir, entries.last(), parts, node);
        let k = choose|k: int| 0 <= k < back.len() && back[k] == effect;
        assert((front + back)[front.len() + k] == effect);
    }
}

proof fn entry_is_not_missed(
    join: spec_fn(Seq<char>, Seq<char>) -> Seq<char>,
    skip: spec_fn(Seq<char>) -> bool,
    dir: CopyPath<Seq<char>>,
    entry: TreeEntry,
    parts: Seq<Seq<char>>,
    node: DiskNode,
)
    requires
        entry_at(entry, parts, node),
        all_kept(skip, parts),
    ensures
        crate::copy::item_effects(dir, tree_item(join, skip, dir, entry)).contains(
            effect_for(path_at(join, dir, parts), node),
        ),
    decreases entry,
{
    let effect = effect_for(path_at(join, dir, parts), node);
    let path = child_path(join, dir, parts[0]);
    let effects = crate::copy::item_effects(dir, tree_item(join, skip, dir, entry));
    assert(!skip(parts[0]));
    reveal_with_fuel(path_at, 2);
    if parts.len() == 1 {
        assert(parts.drop_first() =~= Seq::empty());
        assert(effects[0] == effect);
    } else {
        let inner_parts = parts.drop_first();
        assert forall|i: int| 0 <= i < inner_parts.len() implies !skip(
            #[trigger] inner_parts[i],
        ) by {
            assert(inner_parts[i] == parts[i + 1]);
        }
        match entry {
            TreeEntry::File { .. } => {},
            TreeEntry::Directory { entries, .. } => {
                copy_misses_nothing(join, skip, path, entries, inner_parts, node);
                let inner = crate::copy::items_effects(path, tree_items(join, skip, path, entries));
                let k = choose|k: int| 0 <= k < inner.len() && inner[k] == effect;
                assert(effects[k + 1] == effect);
            },
        }
    }
}

/// Whether a place is a directory or is free.
pub open spec fn open_for_directory(disk: Map<Seq<char>, DiskNode>, place: Seq<char>) -> bool {
    disk.dom().contains(place) ==> disk[place] is Directory
}

/// What a disk holds after the directories that are missing among `places` were created.
pub open spec fn with_directories(
    disk: Map<Seq<char>, DiskNode>,
    places: Set<Seq<char>>,
) -> Map<Seq<char>, DiskNode> {
    Map::new(
        |place: Seq<char>| disk.dom().contains(place) || places.contains(place),
        |place: Seq<char>|
            if disk.dom().contains(place) {
                disk[place]
            } else {
                DiskNode::Directory
            },
    )
}

/// What a disk holds after one thing was done; `above` gives the places of the directories above a path.
/// A directory is created together with those above it, unless there is a file at one of these places.
/// A file is copied where the directories above it are there and it does not take the place of a
/// directory.
pub open spec fn disk_after_one(
    above: spec_fn(Seq<char>) -> Set<Seq<char>>,
    disk: Map<Seq<char>, DiskNode>,
    effect: CopyEffect,
) -> Map<Seq<char>, DiskNode> {
    match effect {
        CopyEffect::MakeDir(path) => if open_for_directory(disk, path.target) && (forall|
            place: Seq<char>,
        | #[trigger]
            above(path.target).contains(place) ==> open_for_directory(disk, place)) {
            with_directories(disk, above(path.target)).insert(path.target, DiskNode::Directory)
        } else {
            disk
        },
        CopyEffect::CopyFile(path) => if disk.dom().contains(path.source)
            && disk[path.source] is File && !disk.contains_pair(path.target, DiskNode::Directory)
            && (forall|place: Seq<char>| #[trigger]
            above(path.target).contains(place) ==> disk.contains_pair(place, DiskNode::Directory)) {
            disk.insert(path.target, disk[path.source])
        } else {
            disk
        },
        CopyEffect::Warn(_) => disk,
    }
}

/// What a disk holds after some things were done, one after the other.
pub open spec fn disk_after(
    above: spec_fn(Seq<char>) -> Set<Seq<char>>,
    disk: Map<Seq<char>, DiskNode>,
    effects: Seq<CopyEffect>,
) -> Map<Seq<char>, DiskNode>
    decreases effects.len(),
{
    if effects.len() == 0 {
        disk
    } else {
        disk_after_one(above, disk_after(above, disk, effects.drop_last()), effects.last())
    }
}

/// Whether a tree holds something at a relative path; the empty one leads to the directory itself.
pub open spec fn in_tree(entries: Seq<TreeEntry>, parts: Seq<Seq<char>>) -> bool {
    parts.len() == 0 || exists|node: DiskNode| tree_at(entries, parts, node)
}

/// Whether the disk holds the directory `dir` with the given entries as the source of a copy.
pub open spec fn disk_holds(
    disk: Map<Seq<char>, DiskNode>,
    join: spec_fn(Seq<char>, Seq<char>) -> Seq<char>,
    dir: CopyPath<Seq<char>>,
    entries: Seq<TreeEntry>,
) -> bool {
    &&& disk.contains_pair(dir.source, DiskNode::Directory)
    &&& forall|parts: Seq<Seq<char>>, node: DiskNode| #[trigger]
        tree_at(entries, parts, node) ==> disk.contains_pair(
            path_at(join, dir, parts).source,
            node,
        )
}

/// Whether source and target do not overlap, and different relative paths lead to different targets.
pub open spec fn well_apart(
    join: spec_fn(Seq<char>, Seq<char>) -> Seq<char>,
    dir: CopyPath<Seq<char>>,
    entries: Seq<TreeEntry>,
) -> bool {
    forall|p: Seq<Seq<char>>, q: Seq<Seq<char>>|
        #![trigger in_tree(entries, p), in_tree(entries, q)]
        in_tree(entries, p) && in_tree(entries, q) ==> path_at(join, dir, p).source != path_at(
            join,
            dir,
            q,
        ).target && (path_at(join, dir, p).target == path_at(join, dir, q).target ==> p == q)
}

/// Whether `above` gives the directories above the targets of a copy: above an entry lie its directory
/// and what is above that, and no target lies above the outermost one.
pub open spec fn gives_what_is_above(
    above: spec_fn(Seq<char>) -> Set<Seq<char>>,
    join: spec_fn(Seq<char>, Seq<char>) -> Seq<char>,
    dir: CopyPath<Seq<char>>,
    entries: Seq<TreeEntry>,
) -> bool {
    forall|p: Seq<Seq<char>>| #[trigger]
        in_tree(entries, p) ==> {
            let target = path_at(join, dir, p).target;
            let parent = path_at(join, dir, p.drop_last()).target;
            &&& p.len() > 0 ==> above(target) == above(parent).insert(parent)
            &&& !above(dir.target).contains(target)
        }
}

/// Whether nothing is in the way of a copy: where a directory is to stand there is no file, and where a
/// file is to stand there is no directory.
pub open spec fn nothing_in_the_way(
    disk: Map<Seq<char>, DiskNode>,
    above: spec_fn(Seq<char>) -> Set<Seq<char>>,
    join: spec_fn(Seq<char>, Seq<char>) -> Seq<char>,
    skip: spec_fn(Seq<char>) -> bool,
    dir: CopyPath<Seq<char>>,
    entries: Seq<TreeEntry>,
) -> bool {
    &&& open_for_directory(disk, dir.target)
    &&& forall|place: Seq<char>| #[trigger]
        above(dir.target).contains(place) ==> open_for_directory(disk, place)
    &&& forall|parts: Seq<Seq<char>>, node: DiskNode| #[trigger]
        tree_at(entries, parts, node) && all_kept(skip, parts) && disk.dom().contains(
            path_at(join, dir, parts).target,
        ) ==> (disk[path_at(join, dir, parts).target] is Directory <==> node is Directory)
}

/// Where a copy writes: the targets at the relative paths of which no part is to be left out.
pub open spec fn is_written(
    join: spec_fn(Seq<char>, Seq<char>) -> Seq<char>,
    skip: spec_fn(Seq<char>) -> bool,
    dir: CopyPath<Seq<char>>,
    entries: Seq<TreeEntry>,
    place: Seq<char>,
) -> bool {
    exists|parts: Seq<Seq<char>>| #[trigger]
        in_tree(entries, parts) && all_kept(skip, parts) && place == path_at(
            join,
            dir,
            parts,
        ).target
}

/// Whether something can be done on the disk: its source is there and of the right kind, and its target
/// is free or of the same kind.
spec fn can_be_done(disk: Map<Seq<char>, DiskNode>, effect: CopyEffect) -> bool {
    let path = effect_path(effect);
    &&& !(effect is Warn)
    &&& disk.dom().contains(path.source)
    &&& effect is MakeDir <==> disk[path.source] is Directory
    &&& disk.dom().contains(path.target) ==> (disk[path.target] is Directory
        <==> disk[path.source] is Directory)
}

/// Whether two things do not get in each other's way.
spec fn compatible(e: CopyEffect, f: CopyEffect) -> bool {
    &&& effect_path(e).source != effect_path(f).target
    &&& effect_path(e).target == effect_path(f).target ==> effect_path(e) == effect_path(f)
}

/// Whether the directory around the target of `effects[k]` is created before.
spec fn follows_parent(
    above: spec_fn(Seq<char>) -> Set<Seq<char>>,
    effects: Seq<CopyEffect>,
    k: int,
) -> bool {
    exists|j: int|
        0 <= j < k && (#[trigger] effects[j]) is MakeDir && above(effect_path(effects[k]).target)
            == above(effect_path(effects[j]).target).insert(effect_path(effects[j]).target)
}

/// Whether things can be done one after the other, the first of which creates the directory at `root`.
spec fn can_all_be_done(
    above: spec_fn(Seq<char>) -> Set<Seq<char>>,
    disk: Map<Seq<char>, DiskNode>,
    root: Seq<char>,
    effects: Seq<CopyEffect>,
) -> bool {
    &&& forall|place: Seq<char>| #[trigger]
        above(root).contains(place) ==> open_for_directory(disk, place)
    &&& forall|k: int|
        0 <= k < effects.len() ==> {
            &&& can_be_done(disk, #[trigger] effects[k])
            &&& !above(root).contains(effect_path(effects[k]).target)
            &&& if k == 0 {
                effects[k] is MakeDir && effect_path(effects[k]).target == root
            } else {
                follows_parent(above, effects, k)
            }
        }
    &&& forall|j: int, k: int|
        0 <= j < effects.len() && 0 <= k < effects.len() ==> compatible(
            #[trigger] effects[j],
            #[trigger] effects[k],
        )
}

/// Whether `after` is what the disk is to hold when things have been done: each target holds what its
/// source held at first, what is above the targets are directories, and nothing else has changed.
spec fn all_done(
    above: spec_fn(Seq<char>) -> Set<Seq<char>>,
    disk: Map<Seq<char>, DiskNode>,
    root: Seq<char>,
    effects: Seq<CopyEffect>,
    after: Map<Seq<char>, DiskNode>,
) -> bool {
    &&& forall|k: int|
        0 <= k < effects.len() ==> after.contains_pair(
            effect_path(#[trigger] effects[k]).target,
            disk[effect_path(effects[k]).source],
        )
    &&& forall|k: int, place: Seq<char>|
        #![trigger effects[k], after.dom().contains(place)]
        0 <= k < effects.len() && above(effect_path(effects[k]).target).contains(place)
            ==> after.contains_pair(place, DiskNode::Directory)
    &&& forall|place: Seq<char>| #[trigger]
        is_target(effects, place) || {
            &&& after.dom().contains(place) == (disk.dom().contains(place) || (effects.len() > 0
                && above(root).contains(place)))
            &&& disk.dom().contains(place) ==> after[place] == disk[place]
            &&& !disk.dom().contains(place) && after.dom().contains(place) ==> after[place]
                == DiskNode::Directory
        }
}

/// Whether a place is the target of something that is done.
spec fn is_target(effects: Seq<CopyEffect>, place: Seq<char>) -> bool {
    exists|k: int| 0 <= k < effects.len() && effect_path(#[trigger] effects[k]).target == place
}

proof fn disk_after_effects(
    above: spec_fn(Seq<char>) -> Set<Seq<char>>,
    disk: Map<Seq<char>, DiskNode>,
    root: Seq<char>,
    effects: Seq<CopyEffect>,
)
    requires
        can_all_be_done(above, disk, root, effects),
    ensures
        all_done(above, disk, root, effects, disk_after(above, disk, effects)),
    decreases effects.len(),
{
    if effects.len() > 0 {
        let rest = effects.drop_last();
        let last = effects.last();
        let n = effects.len() - 1;
        assert(effects[n] == last);
        assert forall|k: int| 0 <= k < rest.len() implies #[trigger] rest[k] == effects[k] by {}
        assert(can_all_be_done(above, disk, root, rest)) by {
            assert forall|k: int| 0 < k < rest.len() implies #[trigger] follows_parent(
                above,
                rest,
                k,
            ) by {
                assert(can_be_done(disk, effects[k]));
                assert(follows_parent(above, effects, k));
                let j = choose|j: int|
                    0 <= j < k && (#[trigger] effects[j]) is MakeDir && above(
                        effect_path(effects[k]).target,
                    ) == above(effect_path(effects[j]).target).insert(
                        effect_path(effects[j]).target,
                    );
                assert(rest[j] == effects[j]);
            }
        }
        disk_after_effects(above, disk, root, rest);
        one_more_done(above, disk, root, effects, disk_after(above, disk, rest));
    }
}

/// Before the last thing is done, its source is as it was at first, and its target is free or of the
/// right kind.
proof fn last_is_possible(
    above: spec_fn(Seq<char>) -> Set<Seq<char>>,
    disk: Map<Seq<char>, DiskNode>,
    root: Seq<char>,
    effects: Seq<CopyEffect>,
    before: Map<Seq<char>, DiskNode>,
)
    requires
        effects.len() > 0,
        can_all_be_done(above, disk, root, effects),
        all_done(above, disk, root, effects.drop_last(), before),
    ensures
        ({
            let path = effect_path(effects.last());
            &&& before.contains_pair(path.source, disk[path.source])
            &&& before.dom().contains(path.target) ==> (before[path.target] is Directory
                <==> disk[path.source] is Directory)
        }),
{
    let rest = effects.drop_last();
    let n = effects.len() - 1;
    let path = effect_path(effects[n]);
    assert(can_be_done(disk, effects[n]));
    if is_target(rest, path.source) {
        let k = choose|k: int|
            0 <= k < rest.len() && effect_path(#[trigger] rest[k]).target == path.source;
        assert(compatible(effects[n], effects[k]));
    }
    if is_target(rest, path.target) {
        let k = choose|k: int|
            0 <= k < rest.len() && effect_path(#[trigger] rest[k]).target == path.target;
        assert(compatible(effects[k], effects[n]));
        assert(rest[k] == effects[k]);
    }
}

/// What is above the target of the last thing is there before, unless that is the first thing too; then
/// there is no file at these places.
proof fn last_has_room(
    above: spec_fn(Seq<char>) -> Set<Seq<char>>,
    disk: Map<Seq<char>, DiskNode>,
    root: Seq<char>,
    effects: Seq<CopyEffect>,
    before: Map<Seq<char>, DiskNode>,
)
    requires
        effects.len() > 0,
        can_all_be_done(above, disk, root, effects),
        all_done(above, disk, root, effects.drop_last(), before),
    ensures
        forall|place: Seq<char>| #[trigger]
            above(effect_path(effects.last()).target).contains(place) ==> if effects.len() == 1 {
                open_for_directory(before, place)
            } else {
                before.contains_pair(place, DiskNode::Directory)
            },
{
    let rest = effects.drop_last();
    let n = effects.len() - 1;
    let path = effect_path(effects[n]);
    assert(can_be_done(disk, effects[n]));
    if n == 0 {
        assert forall|place: Seq<char>| #[trigger]
            above(path.target).contains(place) implies open_for_directory(before, place) by {
            assert(!is_target(rest, place));
            assert(open_for_directory(disk, place));
        }
    } else {
        assert(follows_parent(above, effects, n));
        let j = choose|j: int|
            0 <= j < n && (#[trigger] effects[j]) is MakeDir && above(path.target) == above(
                effect_path(effects[j]).target,
            ).insert(effect_path(effects[j]).target);
        assert(can_be_done(disk, effects[j]));
        assert(rest[j] == effects[j]);
        assert forall|place: Seq<char>| #[trigger]
            above(path.target).contains(place) implies before.contains_pair(
            place,
            DiskNode::Directory,
        ) by {
            assert(before.dom().contains(place));
        }
    }
}

/// The last thing is done.
proof fn last_is_done(
    above: spec_fn(Seq<char>) -> Set<Seq<char>>,
    disk: Map<Seq<char>, DiskNode>,
    root: Seq<char>,
    effects: Seq<CopyEffect>,
    before: Map<Seq<char>, DiskNode>,
)
    requires
        effects.len() > 0,
        can_all_be_done(above, disk, root, effects),
        all_done(above, disk, root, effects.drop_last(), before),
    ensures
        ({
            let path = effect_path(effects.last());
            let after = disk_after_one(above, before, effects.last());
            after == with_directories(before, above(path.target)).insert(
                path.target,
                disk[path.source],
            )
        }),
{
    let last = effects[effects.len() - 1];
    let path = effect_path(last);
    assert(can_be_done(disk, last));
    last_is_possible(above, disk, root, effects, before);
    last_has_room(above, disk, root, effects, before);
    if last is CopyFile {
        assert(with_directories(before, above(path.target)) =~= before);
    }
}

/// One more thing is done.
proof fn one_more_done(
    above: spec_fn(Seq<char>) -> Set<Seq<char>>,
    disk: Map<Seq<char>, DiskNode>,
    root: Seq<char>,
    effects: Seq<CopyEffect>,
    before: Map<Seq<char>, DiskNode>,
)
    requires
        effects.len() > 0,
        can_all_be_done(above, disk, root, effects),
        all_done(above, disk, root, effects.drop_last(), before),
    ensures
        all_done(above, disk, root, effects, disk_after_one(above, before, effects.last())),
{
    let rest = effects.drop_last();
    let n = effects.len() - 1;
    let path = effect_path(effects[n]);
    let after = disk_after_one(above, before, effects[n]);
    assert(can_be_done(disk, effects[n]));
    last_is_possible(above, disk, root, effects, before);
    last_has_room(above, disk, root, effects, before);
    last_is_done(above, disk, root, effects, before);

    assert forall|k: int| 0 <= k < effects.len() implies after.contains_pair(
        effect_path(#[trigger] effects[k]).target,
        disk[effect_path(effects[k]).source],
    ) by {
        if k < n {
            assert(rest[k] == effects[k]);
            assert(compatible(effects[k], effects[n]));
        }
    }
    assert forall|k: int, place: Seq<char>|
        #![trigger effects[k], after.dom().contains(place)]
        0 <= k < effects.len() && above(effect_path(effects[k]).target).contains(
            place,
        ) implies after.contains_pair(place, DiskNode::Directory) by {
        if k < n {
            assert(rest[k] == effects[k]);
            assert(before.dom().contains(place));
        } else if n == 0 {
            assert(open_for_directory(before, place));
        } else {
            assert(before.contains_pair(place, DiskNode::Directory));
        }
    }
    assert forall|place: Seq<char>| #[trigger] is_target(effects, place) || {
        &&& after.dom().contains(place) == (disk.dom().contains(place) || above(root).contains(
            place,
        ))
        &&& disk.dom().contains(place) ==> after[place] == disk[place]
        &&& !disk.dom().contains(place) && after.dom().contains(place) ==> after[place]
            == DiskNode::Directory
    } by {
        if !is_target(effects, place) {
            assert(effect_path(effects[n]).target != place);
            if is_target(rest, place) {
                let k = choose|k: int|
                    0 <= k < rest.len() && effect_path(#[trigger] rest[k]).target == place;
                assert(effect_path(effects[k]).target == place);
            }
        }
    }
}

/// A copy makes the target mirror the source. Whatever the source holds at a relative path of which no
/// part is to be left out stands, as it is, at the same relative path of the target afterwards. Nothing
/// is put where a part is to be left out. The directories above the target are there afterwards, those
/// that were missing too. The source, and everything else on the disk, stays as it was.
pub proof fn copy_mirrors_the_tree(
    disk: Map<Seq<char>, DiskNode>,
    above: spec_fn(Seq<char>) -> Set<Seq<char>>,
    join: spec_fn(Seq<char>, Seq<char>) -> Seq<char>,
    skip: spec_fn(Seq<char>) -> bool,
    dir: CopyPath<Seq<char>>,
    entries: Seq<TreeEntry>,
)
    requires
        disk_holds(disk, join, dir, entries),
        well_apart(join, dir, entries),
        gives_what_is_above(above, join, dir, entries),
        nothing_in_the_way(disk, above, join, skip, dir, entries),
    ensures
        ({
            let root = CopyItem::Directory(dir, tree_items(join, skip, dir, entries));
            let events = crate::copy::directory_events(root);
            let start = crate::copy::copy_start(dir);
            let after = disk_after(above, disk, crate::copy::copy_effects(start, events));
            &&& crate::copy::copy_after(start, events).stage == CopyStage::<Seq<char>>::Done(Ok(()))
            &&& after.contains_pair(dir.target, DiskNode::Directory)
            &&& forall|parts: Seq<Seq<char>>, node: DiskNode| #[trigger]
                tree_at(entries, parts, node) && all_kept(skip, parts) ==> after.contains_pair(
                    path_at(join, dir, parts).target,
                    node,
                )
            &&& forall|place: Seq<char>| #[trigger]
                above(dir.target).contains(place) ==> after.contains_pair(
                    place,
                    DiskNode::Directory,
                )
            &&& forall|place: Seq<char>|
                !is_written(join, skip, dir, entries, place) && !above(dir.target).contains(place)
                    ==> #[trigger] after.dom().contains(place) == disk.dom().contains(place) && (
                disk.dom().contains(place) ==> after[place] == disk[place])
            &&& forall|parts: Seq<Seq<char>>| #[trigger]
                in_tree(entries, parts) ==> after.contains_pair(
                    path_at(join, dir, parts).source,
                    disk[path_at(join, dir, parts).source],
                )
            &&& forall|parts: Seq<Seq<char>>| #[trigger]
                in_tree(entries, parts) && !all_kept(skip, parts) ==> !is_written(
                    join,
                    skip,
                    dir,
                    entries,
                    path_at(join, dir, parts).target,
                ) && !above(dir.target).contains(path_at(join, dir, parts).target)
        }),
{
    let effects = tree_effects(join, skip, dir, entries);
    let inner = crate::copy::items_effects(dir, tree_items(join, skip, dir, entries));
    copy_of_a_tree_succeeds(join, skip, dir, entries);
    let nothing = Seq::<Seq<char>>::empty();
    assert(in_tree(entries, nothing));
    assert(path_at(join, dir, nothing) == dir);
    assert(all_kept(skip, nothing));
    assert(effects[0] == CopyEffect::MakeDir(dir));

    tree_effects_can_be_done(disk, above, join, skip, dir, entries);
    disk_after_effects(above, disk, dir.target, effects);
    let after = disk_after(above, disk, effects);

    assert forall|parts: Seq<Seq<char>>, node: DiskNode| #[trigger]
        tree_at(entries, parts, node) && all_kept(skip, parts) implies after.contains_pair(
        path_at(join, dir, parts).target,
        node,
    ) by {
        let effect = effect_for(path_at(join, dir, parts), node);
        copy_misses_nothing(join, skip, dir, entries, parts, node);
        let k = choose|k: int| 0 <= k < inner.len() && inner[k] == effect;
        assert(effects[k + 1] == effect);
        assert(disk.contains_pair(path_at(join, dir, parts).source, node));
    }
    assert forall|place: Seq<char>| #[trigger]
        above(dir.target).contains(place) implies after.contains_pair(
        place,
        DiskNode::Directory,
    ) by {
        assert(above(effect_path(effects[0]).target).contains(place));
        assert(after.dom().contains(place));
    }
    assert forall|place: Seq<char>|
        !is_written(join, skip, dir, entries, place) implies !is_target(effects, place) by {
        targets_are_written(join, skip, dir, entries, place);
    }
    assert forall|place: Seq<char>|
        !is_written(join, skip, dir, entries, place) && !above(dir.target).contains(
            place,
        ) implies #[trigger] after.dom().contains(place) == disk.dom().contains(place) && (
    disk.dom().contains(place) ==> after[place] == disk[place]) by {
        assert(!is_target(effects, place));
    }
    assert forall|parts: Seq<Seq<char>>| #[trigger]
        in_tree(entries, parts) implies after.contains_pair(
        path_at(join, dir, parts).source,
        disk[path_at(join, dir, parts).source],
    ) by {
        let source = path_at(join, dir, parts).source;
        assert(!is_written(join, skip, dir, entries, source));
        assert(!is_target(effects, source));
        if parts.len() == 0 {
            assert(parts =~= nothing);
        } else {
            let node = choose|node: DiskNode| tree_at(entries, parts, node);
            assert(disk.contains_pair(source, node));
        }
    }
}

/// What is a target is written.
proof fn targets_are_written(
    join: spec_fn(Seq<char>, Seq<char>) -> Seq<char>,
    skip: spec_fn(Seq<char>) -> bool,
    dir: CopyPath<Seq<char>>,
    entries: Seq<TreeEntry>,
    place: Seq<char>,
)
    ensures
        is_target(tree_effects(join, skip, dir, entries), place) ==> is_written(
            join,
            skip,
            dir,
            entries,
            place,
        ),
{
    let effects = tree_effects(join, skip, dir, entries);
    let inner = crate::copy::items_effects(dir, tree_items(join, skip, dir, entries));
    if is_target(effects, place) {
        let k = choose|k: int|
            0 <= k < effects.len() && effect_path(#[trigger] effects[k]).target == place;
        if k == 0 {
            let nothing = Seq::<Seq<char>>::empty();
            assert(in_tree(entries, nothing));
            assert(path_at(join, dir, nothing) == dir);
        } else {
            assert(effects[k] == inner[k - 1]);
            let (parts, node) = effect_is_explained(join, skip, dir, entries, k - 1);
            assert(in_tree(entries, parts));
        }
    }
}

/// The relative path for which `tree_effects(..)[k]` is done.
proof fn tree_effect_is_explained(
    join: spec_fn(Seq<char>, Seq<char>) -> Seq<char>,
    skip: spec_fn(Seq<char>) -> bool,
    dir: CopyPath<Seq<char>>,
    entries: Seq<TreeEntry>,
    k: int,
) -> (parts: Seq<Seq<char>>)
    requires
        0 <= k < tree_effects(join, skip, dir, entries).len(),
    ensures
        in_tree(entries, parts),
        effect_path(tree_effects(join, skip, dir, entries)[k]) == path_at(join, dir, parts),
{
    if k == 0 {
        Seq::empty()
    } else {
        let (parts, node) = effect_is_explained(join, skip, dir, entries, k - 1);
        parts
    }
}

/// On a disk with nothing in the way, all that a copy does can be done.
proof fn tree_effects_can_be_done(
    disk: Map<Seq<char>, DiskNode>,
    above: spec_fn(Seq<char>) -> Set<Seq<char>>,
    join: spec_fn(Seq<char>, Seq<char>) -> Seq<char>,
    skip: spec_fn(Seq<char>) -> bool,
    dir: CopyPath<Seq<char>>,
    entries: Seq<TreeEntry>,
)
    requires
        disk_holds(disk, join, dir, entries),
        well_apart(join, dir, entries),
        gives_what_is_above(above, join, dir, entries),
        nothing_in_the_way(disk, above, join, skip, dir, entries),
    ensures
        can_all_be_done(above, disk, dir.target, tree_effects(join, skip, dir, entries)),
{
    let effects = tree_effects(join, skip, dir, entries);
    let inner = crate::copy::items_effects(dir, tree_items(join, skip, dir, entries));
    let nothing = Seq::<Seq<char>>::empty();
    assert(in_tree(entries, nothing));
    assert(path_at(join, dir, nothing) == dir);
    assert(effects[0] == CopyEffect::MakeDir(dir));
    assert forall|k: int| 0 <= k < effects.len() implies {
        &&& can_be_done(disk, #[trigger] effects[k])
        &&& !above(dir.target).contains(effect_path(effects[k]).target)
        &&& if k == 0 {
            effects[k] is MakeDir && effect_path(effects[k]).target == dir.target
        } else {
            follows_parent(above, effects, k)
        }
    } by {
        if k > 0 {
            assert(effects[k] == inner[k - 1]);
            let (parts, node) = effect_is_explained(join, skip, dir, entries, k - 1);
            assert(in_tree(entries, parts));
            assert(disk.contains_pair(path_at(join, dir, parts).source, node));
            if parts.len() == 1 {
                assert(parts.drop_last() =~= nothing);
                assert(effects[0] is MakeDir);
            } else {
                let made = CopyEffect::MakeDir(path_at(join, dir, parts.drop_last()));
                let j = choose|j: int| 0 <= j < k - 1 && #[trigger] inner[j] == made;
                assert(effects[j + 1] == made);
            }
        }
    }
    assert forall|j: int, k: int| 0 <= j < effects.len() && 0 <= k < effects.len() implies compatible(
        #[trigger] effects[j],
        #[trigger] effects[k],
    ) by {
        let p = tree_effect_is_explained(join, skip, dir, entries, j);
        let q = tree_effect_is_explained(join, skip, dir, entries, k);
    }
}

} // verus!
