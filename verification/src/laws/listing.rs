//! The list of saved seeds.

use crate::listing::{list_seeds, SeedEntry};
use crate::metadata::SeedMetadata;
use vstd::prelude::*;
use vstd::string::*;

verus! {

/// The four texts of a seed's metadata.
pub open spec fn fields(seed: SeedMetadata) -> (Seq<char>, Seq<char>, Seq<char>, Seq<char>) {
    (seed.name@, seed.profile_directory@, seed.source_profile@, seed.created_at@)
}

/// The metadata of every entry that is a directory whose metadata can be read, in the order of the
/// entries.
pub open spec fn readable(entries: Seq<SeedEntry>) -> Seq<SeedMetadata> {
    entries.filter(|entry: SeedEntry| entry is Directory && entry->Directory_0 is Some).map_values(
        |entry: SeedEntry| entry->Directory_0->Some_0,
    )
}

proof fn seeds_among_are_readable(entries: Seq<SeedEntry>)
    ensures
        crate::listing::seeds_among(entries) == crate::metadata::metadata_views(readable(entries)),
    decreases entries.len(),
{
    reveal(Seq::filter);
    if entries.len() == 0 {
        assert(readable(entries) =~= Seq::empty());
        assert(crate::metadata::metadata_views(readable(entries)) =~= Seq::empty());
    } else {
        let rest = entries.drop_last();
        seeds_among_are_readable(rest);
        match entries.last() {
            SeedEntry::Directory(Some(seed)) => {
                assert(readable(entries) =~= readable(rest).push(seed));
                assert(crate::metadata::metadata_views(readable(entries))
                    =~= crate::metadata::metadata_views(readable(rest)).push(seed@));
            },
            _ => {
                assert(readable(entries) =~= readable(rest));
            },
        }
    }
}

/// What a list of seeds is in terms of the entries it was made from.
proof fn list_and_readable(found: Vec<SeedEntry>, seeds: Vec<SeedMetadata>)
    requires
        call_ensures(list_seeds, (Some(found),), seeds),
    ensures
        crate::listing::stably_sorted(
            crate::metadata::metadata_views(readable(found@)),
            crate::metadata::metadata_views(seeds@),
        ),
        crate::metadata::metadata_views(seeds@).to_multiset() == crate::metadata::metadata_views(
            readable(found@),
        ).to_multiset(),
{
    seeds_among_are_readable(found@);
    crate::listing::list_holds_what_was_found(
        crate::metadata::metadata_views(readable(found@)),
        crate::metadata::metadata_views(seeds@),
    );
}

/// Every directory whose metadata can be read is listed, whatever the metadata holds.
pub proof fn every_readable_seed_is_listed(
    found: Vec<SeedEntry>,
    seeds: Vec<SeedMetadata>,
    i: int,
    seed: SeedMetadata,
) -> (place: int)
    requires
        call_ensures(list_seeds, (Some(found),), seeds),
        0 <= i < found@.len(),
        found@[i] == SeedEntry::Directory(Some(seed)),
    ensures
        0 <= place < seeds@.len(),
        fields(seeds@[place]) == fields(seed),
{
    broadcast use vstd::seq_lib::group_to_multiset_ensures;

    list_and_readable(found, seeds);
    let views = crate::metadata::metadata_views(seeds@);
    let all = crate::metadata::metadata_views(readable(found@));
    let k = readable_place(found@, i, seed);
    assert(all[k] == seed@);
    assert(all.contains(seed@));
    assert(views.to_multiset().contains(seed@));
    assert(views.contains(seed@));
    let place = choose|place: int| 0 <= place < views.len() && views[place] == seed@;
    assert(views[place] == seeds@[place]@);
    place
}

/// Where a readable directory stands among all of them.
proof fn readable_place(entries: Seq<SeedEntry>, i: int, seed: SeedMetadata) -> (place: int)
    requires
        0 <= i < entries.len(),
        entries[i] == SeedEntry::Directory(Some(seed)),
    ensures
        0 <= place < readable(entries).len(),
        readable(entries)[place] == seed,
    decreases entries.len(),
{
    reveal(Seq::filter);
    let rest = entries.drop_last();
    if i == rest.len() {
        assert(readable(entries) =~= readable(rest).push(seed));
        readable(rest).len() as int
    } else {
        let place = readable_place(rest, i, seed);
        match entries.last() {
            SeedEntry::Directory(Some(other)) => {
                assert(readable(entries) =~= readable(rest).push(other));
            },
            _ => {
                assert(readable(entries) =~= readable(rest));
            },
        }
        place
    }
}

/// What is readable is one of the entries.
proof fn readable_was_found(entries: Seq<SeedEntry>, k: int)
    requires
        0 <= k < readable(entries).len(),
    ensures
        entries.contains(SeedEntry::Directory(Some(readable(entries)[k]))),
    decreases entries.len(),
{
    reveal(Seq::filter);
    if entries.len() == 0 {
        assert(readable(entries) =~= Seq::empty());
    } else {
        let rest = entries.drop_last();
        let last = entries.last();
        assert(entries[entries.len() - 1] == last);
        match last {
            SeedEntry::Directory(Some(seed)) => {
                assert(readable(entries) =~= readable(rest).push(seed));
            },
            _ => {
                assert(readable(entries) =~= readable(rest));
            },
        }
        if k < readable(rest).len() {
            readable_was_found(rest, k);
            let wanted = SeedEntry::Directory(Some(readable(rest)[k]));
            let i = choose|i: int| 0 <= i < rest.len() && rest[i] == wanted;
            assert(entries[i] == wanted);
        }
    }
}

/// As many seeds are listed as there are directories whose metadata can be read.
pub proof fn as_many_are_listed_as_can_be_read(found: Vec<SeedEntry>, seeds: Vec<SeedMetadata>)
    requires
        call_ensures(list_seeds, (Some(found),), seeds),
    ensures
        seeds@.len() == found@.filter(
            |entry: SeedEntry| entry is Directory && entry->Directory_0 is Some,
        ).len(),
{
    broadcast use vstd::seq_lib::group_to_multiset_ensures;

    list_and_readable(found, seeds);
    let views = crate::metadata::metadata_views(seeds@);
    let all = crate::metadata::metadata_views(readable(found@));
    assert(views.len() == views.to_multiset().len());
    assert(all.len() == all.to_multiset().len());
}

/// Of each name, exactly the seeds with that name among the directories whose metadata can be read are
/// listed, as they are, and in the order in which they were found.
pub proof fn each_name_lists_its_seeds(
    found: Vec<SeedEntry>,
    seeds: Vec<SeedMetadata>,
    name: Seq<char>,
)
    requires
        call_ensures(list_seeds, (Some(found),), seeds),
    ensures
        seeds@.filter(|seed: SeedMetadata| seed.name@ == name).map_values(
            |seed: SeedMetadata| fields(seed),
        ) == readable(found@).filter(|seed: SeedMetadata| seed.name@ == name).map_values(
            |seed: SeedMetadata| fields(seed),
        ),
{
    list_and_readable(found, seeds);
    let pred = |seed: SeedMetadata| seed.name@ == name;
    named_views(seeds@, name);
    named_views(readable(found@), name);
    let listed = seeds@.filter(pred);
    let wanted = readable(found@).filter(pred);
    let listed_views = crate::metadata::metadata_views(listed);
    let wanted_views = crate::metadata::metadata_views(wanted);
    assert(crate::listing::with_name(crate::metadata::metadata_views(seeds@), name)
        == crate::listing::with_name(crate::metadata::metadata_views(readable(found@)), name));
    assert(listed_views == wanted_views);
    assert(listed_views.len() == listed.len() && wanted_views.len() == wanted.len());
    assert forall|k: int| 0 <= k < listed.len() implies fields(#[trigger] listed[k]) == fields(
        wanted[k],
    ) by {
        assert(listed_views[k] == listed[k]@);
        assert(wanted_views[k] == wanted[k]@);
    }
    assert(listed.map_values(|seed: SeedMetadata| fields(seed)) =~= wanted.map_values(
        |seed: SeedMetadata| fields(seed),
    ));
}

proof fn named_views(seeds: Seq<SeedMetadata>, name: Seq<char>)
    ensures
        crate::listing::with_name(crate::metadata::metadata_views(seeds), name)
            == crate::metadata::metadata_views(
            seeds.filter(|seed: SeedMetadata| seed.name@ == name),
        ),
    decreases seeds.len(),
{
    reveal(Seq::filter);
    let views = crate::metadata::metadata_views(seeds);
    let pred = |seed: SeedMetadata| seed.name@ == name;
    if seeds.len() == 0 {
        assert(crate::listing::with_name(views, name) =~= crate::metadata::metadata_views(
            seeds.filter(pred),
        ));
    } else {
        let rest = seeds.drop_last();
        named_views(rest, name);
        assert(views.drop_last() =~= crate::metadata::metadata_views(rest));
        assert(crate::listing::with_name(views, name) =~= crate::metadata::metadata_views(
            seeds.filter(pred),
        ));
    }
}

/// The list is ordered by name: of two seeds in it, the later one's name does not come before the earlier
/// one's, character by character.
pub proof fn the_list_is_ordered_by_name(
    found: Vec<SeedEntry>,
    seeds: Vec<SeedMetadata>,
    i: int,
    j: int,
    k: int,
)
    requires
        call_ensures(list_seeds, (Some(found),), seeds),
        0 <= i < j < seeds@.len(),
    ensures
        !crate::laws::texts::comes_first_at(seeds@[j].name@, seeds@[i].name@, k),
{
    let views = crate::metadata::metadata_views(seeds@);
    assert(views[i] == seeds@[i]@ && views[j] == seeds@[j]@);
    assert(!crate::text::lex_less(views[j].name, views[i].name));
    crate::laws::texts::lex_less_by_place(seeds@[j].name@, seeds@[i].name@);
}

/// Nothing is listed that was not found.
pub proof fn only_what_was_found_is_listed(
    found: Vec<SeedEntry>,
    seeds: Vec<SeedMetadata>,
    place: int,
) -> (seed: SeedMetadata)
    requires
        call_ensures(list_seeds, (Some(found),), seeds),
        0 <= place < seeds@.len(),
    ensures
        found@.contains(SeedEntry::Directory(Some(seed))),
        fields(seeds@[place]) == fields(seed),
{
    broadcast use vstd::seq_lib::group_to_multiset_ensures;

    list_and_readable(found, seeds);
    let views = crate::metadata::metadata_views(seeds@);
    let all = crate::metadata::metadata_views(readable(found@));
    assert(views[place] == seeds@[place]@);
    assert(views.contains(views[place]));
    assert(all.to_multiset().contains(views[place]));
    let k = choose|k: int| 0 <= k < all.len() && all[k] == views[place];
    readable_was_found(found@, k);
    assert(all[k] == readable(found@)[k]@);
    readable(found@)[k]
}

/// A directory of seeds that cannot be read lists nothing.
pub proof fn an_unreadable_directory_lists_nothing(seeds: Vec<SeedMetadata>)
    requires
        call_ensures(list_seeds, (None,), seeds),
    ensures
        seeds@.len() == 0,
{
}

} // verus!
