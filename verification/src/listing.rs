//! The list of saved seeds.

use crate::metadata::{SeedMetadata, SeedMetadataView};
use crate::text::str_less;
use vstd::prelude::*;
use vstd::string::*;

verus! {

/// An entry of the directory of all seeds.
pub enum SeedEntry {
    /// An entry that could not be read.
    Unreadable,
    /// Something other than a directory.
    Other,
    /// A directory, with the seed's metadata if it could be read.
    Directory(Option<SeedMetadata>),
}

/// The seeds among the entries of a directory, in the order of the entries: the directories whose
/// metadata could be read.
pub open spec fn seeds_among(entries: Seq<SeedEntry>) -> Seq<SeedMetadataView>
    decreases entries.len(),
{
    if entries.len() == 0 {
        Seq::empty()
    } else {
        let rest = seeds_among(entries.drop_last());
        match entries.last() {
            SeedEntry::Directory(Some(seed)) => rest.push(seed@),
            _ => rest,
        }
    }
}

/// Whether no seed comes before one with a lesser name.
pub open spec fn sorted_by_name(seeds: Seq<SeedMetadataView>) -> bool {
    forall|i: int, j: int|
        0 <= i < j < seeds.len() ==> !crate::text::lex_less(
            (#[trigger] seeds[j]).name,
            (#[trigger] seeds[i]).name,
        )
}

/// The seeds with one name, in their order.
pub open spec fn with_name(seeds: Seq<SeedMetadataView>, name: Seq<char>) -> Seq<SeedMetadataView> {
    seeds.filter(|seed: SeedMetadataView| seed.name == name)
}

/// Whether `output` holds the seeds of `input` in the order of their names, and those with the same
/// name in the order of `input`.
pub open spec fn stably_sorted(
    input: Seq<SeedMetadataView>,
    output: Seq<SeedMetadataView>,
) -> bool {
    &&& sorted_by_name(output)
    &&& forall|name: Seq<char>| #[trigger] with_name(output, name) == with_name(input, name)
}

/// Placing one more seed behind all that do not come after it keeps the order.
proof fn inserting_keeps_order(
    input: Seq<SeedMetadataView>,
    output: Seq<SeedMetadataView>,
    seed: SeedMetadataView,
    place: int,
)
    requires
        stably_sorted(input, output),
        0 <= place <= output.len(),
        forall|i: int|
            0 <= i < place ==> !crate::text::lex_less(seed.name, (#[trigger] output[i]).name),
        forall|i: int|
            place <= i < output.len() ==> crate::text::lex_less(
                seed.name,
                (#[trigger] output[i]).name,
            ),
    ensures
        stably_sorted(input.push(seed), output.insert(place, seed)),
{
    let placed = output.insert(place, seed);
    assert(sorted_by_name(placed)) by {
        assert forall|i: int, j: int| 0 <= i < j < placed.len() implies !crate::text::lex_less(
            (#[trigger] placed[j]).name,
            (#[trigger] placed[i]).name,
        ) by {
            let a = placed[i].name;
            let b = placed[j].name;
            crate::text::lex_less_is_total(a, b);
            if j < place {
                assert(placed[i] == output[i] && placed[j] == output[j]);
            } else if j == place {
                assert(placed[i] == output[i]);
            } else if i == place {
                assert(placed[j] == output[j - 1]);
            } else if i < place {
                assert(placed[i] == output[i] && placed[j] == output[j - 1]);
            } else {
                assert(placed[i] == output[i - 1] && placed[j] == output[j - 1]);
            }
        }
    }
    assert forall|name: Seq<char>| #[trigger]
        with_name(placed, name) == with_name(input.push(seed), name) by {
        let pred = |s: SeedMetadataView| s.name == name;
        let front = output.take(place);
        let back = output.skip(place);
        assert(placed =~= front.push(seed) + back);
        assert(output =~= front + back);
        Seq::filter_distributes_over_add(front, back, pred);
        Seq::filter_distributes_over_add(front.push(seed), back, pred);
        reveal(Seq::filter);
        assert(front.push(seed).drop_last() =~= front);
        assert(input.push(seed).drop_last() =~= input);
        assert(with_name(output, name) == with_name(input, name));
        if name == seed.name {
            assert forall|i: int| 0 <= i < back.len() implies !pred(#[trigger] back[i]) by {
                assert(back[i] == output[place + i]);
                crate::text::lex_less_is_total(seed.name, back[i].name);
            }
            back.lemma_all_neg_filter_empty(pred);
            assert(back.filter(pred) =~= Seq::empty());
            assert(front.push(seed).filter(pred) == front.filter(pred).push(seed));
            assert(front.filter(pred) + back.filter(pred) =~= front.filter(pred));
            assert(front.push(seed).filter(pred) + back.filter(pred) =~= front.filter(pred).push(
                seed,
            ));
        } else {
            assert(front.push(seed).filter(pred) == front.filter(pred));
        }
    }
}

/// Places `seed` in a sorted list, behind all that do not come after it.
fn insert_by_name(seeds: &mut Vec<SeedMetadata>, seed: SeedMetadata, Ghost(input): Ghost<
    Seq<SeedMetadataView>,
>)
    requires
        stably_sorted(input, crate::metadata::metadata_views(old(seeds)@)),
    ensures
        stably_sorted(input.push(seed@), crate::metadata::metadata_views(final(seeds)@)),
{
    let ghost before = crate::metadata::metadata_views(seeds@);
    let mut place: usize = seeds.len();
    while place > 0 && str_less(seed.name.as_str(), seeds[place - 1].name.as_str())
        invariant
            place <= seeds.len(),
            before == crate::metadata::metadata_views(seeds@),
            forall|i: int|
                place <= i < before.len() ==> crate::text::lex_less(
                    seed@.name,
                    (#[trigger] before[i]).name,
                ),
        decreases place,
    {
        place = place - 1;
    }
    proof {
        assert forall|i: int| 0 <= i < place implies !crate::text::lex_less(
            seed@.name,
            (#[trigger] before[i]).name,
        ) by {
            let last = before[place - 1].name;
            let name = before[i].name;
            if crate::text::lex_less(seed@.name, name) {
                if i < place - 1 {
                    crate::text::lex_less_is_total(name, last);
                    if name != last {
                        crate::text::lex_less_is_transitive(seed@.name, name, last);
                    }
                }
            }
        }
        inserting_keeps_order(input, before, seed@, place as int);
    }
    seeds.insert(place, seed);
    proof {
        assert(crate::metadata::metadata_views(seeds@) =~= before.insert(place as int, seed@));
    }
}

/// The saved seeds, ordered by their names, from the entries of the directory of all seeds; none
/// where that directory cannot be read.
pub fn list_seeds(entries: Option<Vec<SeedEntry>>) -> (seeds: Vec<SeedMetadata>)
    ensures
        entries matches Some(found) ==> stably_sorted(
            seeds_among(found@),
            crate::metadata::metadata_views(seeds@),
        ),
        entries is None ==> seeds@.len() == 0,
{
    let mut seeds: Vec<SeedMetadata> = Vec::new();
    let found = match entries {
        Some(found) => found,
        None => return seeds,
    };
    let ghost all = found@;
    proof {
        assert(crate::metadata::metadata_views(seeds@) =~= Seq::empty());
        assert(all.take(0) =~= Seq::empty());
    }
    for entry in it: found
        invariant
            it.seq() == all,
            stably_sorted(
                seeds_among(all.take(it.index() as int)),
                crate::metadata::metadata_views(seeds@),
            ),
    {
        let ghost i = it.index() as int;
        proof {
            assert(all.take(i + 1).drop_last() =~= all.take(i));
        }
        match entry {
            SeedEntry::Directory(Some(seed)) => {
                insert_by_name(&mut seeds, seed, Ghost(seeds_among(all.take(i))));
            },
            _ => {},
        }
    }
    proof {
        assert(all.take(all.len() as int) =~= all);
    }
    seeds
}

/// The order of the list is fixed: two lists that both hold the seeds of `input` by name, and in
/// the order of `input` within a name, are the same list.
pub proof fn list_order_is_unique(
    input: Seq<SeedMetadataView>,
    x: Seq<SeedMetadataView>,
    y: Seq<SeedMetadataView>,
)
    requires
        stably_sorted(input, x),
        stably_sorted(input, y),
    ensures
        x == y,
{
    assert forall|name: Seq<char>| #[trigger] with_name(x, name) == with_name(y, name) by {
        assert(with_name(x, name) == with_name(input, name));
        assert(with_name(y, name) == with_name(input, name));
    }
    same_names_same_list(x, y);
}

/// Two sorted lists that agree on the seeds with each name are the same list.
proof fn same_names_same_list(x: Seq<SeedMetadataView>, y: Seq<SeedMetadataView>)
    requires
        sorted_by_name(x),
        sorted_by_name(y),
        forall|name: Seq<char>| #[trigger] with_name(x, name) == with_name(y, name),
    ensures
        x == y,
    decreases x.len(),
{
    reveal(Seq::filter);
    if x.len() == 0 {
        if y.len() > 0 {
            assert(with_name(y, y.last().name).len() > 0);
            assert(with_name(x, y.last().name).len() == 0);
        }
        assert(x =~= y);
    } else {
        let name = x.last().name;
        assert(with_name(x, name).len() > 0);
        assert(with_name(x, name) == with_name(y, name));
        let place = name_occurs(y, name);
        let other = y.last().name;
        assert(with_name(x, other) == with_name(y, other));
        let other_place = name_occurs(x, other);
        crate::text::lex_less_is_total(name, other);
        assert(!crate::text::lex_less(other, name)) by {
            if place < y.len() - 1 {
                assert(!crate::text::lex_less(y[y.len() - 1].name, y[place].name));
            }
        }
        assert(!crate::text::lex_less(name, other)) by {
            if other_place < x.len() - 1 {
                assert(!crate::text::lex_less(x[x.len() - 1].name, x[other_place].name));
            }
        }
        assert(name == other);
        assert(with_name(x, name).last() == x.last());
        assert(with_name(y, name).last() == y.last());
        let x2 = x.drop_last();
        let y2 = y.drop_last();
        assert forall|n: Seq<char>| #[trigger] with_name(x2, n) == with_name(y2, n) by {
            assert(with_name(x, n) == with_name(y, n));
            if n == name {
                assert(with_name(x2, n) =~= with_name(x, n).drop_last());
                assert(with_name(y2, n) =~= with_name(y, n).drop_last());
            }
        }
        same_names_same_list(x2, y2);
        assert(x =~= x2.push(x.last()));
        assert(y =~= y2.push(y.last()));
    }
}

/// Where some seed has a name.
proof fn name_occurs(seeds: Seq<SeedMetadataView>, name: Seq<char>) -> (place: int)
    requires
        with_name(seeds, name).len() > 0,
    ensures
        0 <= place < seeds.len(),
        seeds[place].name == name,
    decreases seeds.len(),
{
    reveal(Seq::filter);
    if seeds.last().name == name {
        seeds.len() - 1
    } else {
        name_occurs(seeds.drop_last(), name)
    }
}

/// A seed occurs in a list as often as among those with its name.
proof fn count_with_name(seeds: Seq<SeedMetadataView>, seed: SeedMetadataView, name: Seq<char>)
    ensures
        with_name(seeds, name).to_multiset().count(seed) == (if seed.name == name {
            seeds.to_multiset().count(seed)
        } else {
            0
        }),
    decreases seeds.len(),
{
    broadcast use vstd::seq_lib::group_to_multiset_ensures;

    reveal(Seq::filter);
    if seeds.len() == 0 {
        assert(with_name(seeds, name) =~= seeds);
    } else {
        let rest = seeds.drop_last();
        count_with_name(rest, seed, name);
        assert(seeds =~= rest.push(seeds.last()));
        assert(seeds.to_multiset() == rest.to_multiset().insert(seeds.last()));
        if seeds.last().name == name {
            assert(with_name(seeds, name).to_multiset() == with_name(
                rest,
                name,
            ).to_multiset().insert(seeds.last()));
        }
    }
}

/// The list holds every seed that was found, as often as it was found, and no other.
pub proof fn list_holds_what_was_found(
    input: Seq<SeedMetadataView>,
    output: Seq<SeedMetadataView>,
)
    requires
        stably_sorted(input, output),
    ensures
        output.to_multiset() == input.to_multiset(),
{
    assert forall|seed: SeedMetadataView|
        output.to_multiset().count(seed) == input.to_multiset().count(seed) by {
        count_with_name(output, seed, seed.name);
        count_with_name(input, seed, seed.name);
        assert(with_name(output, seed.name) == with_name(input, seed.name));
    }
    assert(output.to_multiset() =~= input.to_multiset());
}

/// Whether no two seeds have the same name.
pub open spec fn distinct_names(seeds: Seq<SeedMetadataView>) -> bool {
    forall|i: int, j: int|
        0 <= i < j < seeds.len() ==> (#[trigger] seeds[i]).name != (#[trigger] seeds[j]).name
}

/// Where no two seeds have the same name, there is at most one with a given name.
proof fn at_most_one_with_name(seeds: Seq<SeedMetadataView>, name: Seq<char>)
    requires
        distinct_names(seeds),
    ensures
        with_name(seeds, name).len() <= 1,
    decreases seeds.len(),
{
    reveal(Seq::filter);
    if seeds.len() > 0 {
        let rest = seeds.drop_last();
        at_most_one_with_name(rest, name);
        if seeds.last().name == name && with_name(rest, name).len() > 0 {
            let place = name_occurs(rest, name);
            assert(seeds[place] == rest[place]);
            assert(seeds[seeds.len() - 1].name == name);
        }
    }
}

/// The list does not depend on the order in which the directory is walked, as long as no two seeds
/// have the same name.
pub proof fn list_ignores_directory_order(
    input1: Seq<SeedMetadataView>,
    input2: Seq<SeedMetadataView>,
    list1: Seq<SeedMetadataView>,
    list2: Seq<SeedMetadataView>,
)
    requires
        input1.to_multiset() == input2.to_multiset(),
        distinct_names(input1),
        stably_sorted(input1, list1),
        stably_sorted(input2, list2),
    ensures
        list1 == list2,
{
    broadcast use vstd::seq_lib::group_to_multiset_ensures;

    assert forall|name: Seq<char>| #[trigger] with_name(list2, name) == with_name(input1, name) by {
        let a = with_name(input1, name);
        let b = with_name(input2, name);
        assert(with_name(list2, name) == b);
        at_most_one_with_name(input1, name);
        assert forall|seed: SeedMetadataView| a.to_multiset().count(seed) == b.to_multiset().count(
            seed,
        ) by {
            count_with_name(input1, seed, name);
            count_with_name(input2, seed, name);
        }
        assert(a.to_multiset() =~= b.to_multiset());
        assert(a.len() == a.to_multiset().len());
        assert(b.len() == b.to_multiset().len());
        if a.len() == 1 {
            assert(a.to_multiset().contains(a[0]));
            assert(b.contains(a[0]));
        }
        assert(a =~= b);
    }
    list_order_is_unique(input1, list1, list2);
}

} // verus!
