//! Where seeds are kept.

use crate::paths::{seed_path, seed_path_in, seeds_dir, seeds_dir_in, SeedPath};
use std::path::PathBuf;
use vstd::prelude::*;
use vstd::string::*;

verus! {

/// Whether a path has exactly the given components.
pub open spec fn leads_by(path: SeedPath, parts: Seq<Seq<char>>) -> bool {
    &&& path.components@.len() == parts.len()
    &&& forall|i: int| 0 <= i < parts.len() ==> (#[trigger] path.components@[i])@ == parts[i]
}

/// Joining adds one component at the end.
pub proof fn joining_adds_one_component(path: SeedPath, component: &str, joined: SeedPath)
    requires
        call_ensures(SeedPath::join, (path, component), joined),
    ensures
        joined.base == path.base,
        joined.components@.len() == path.components@.len() + 1,
        joined.components@.last()@ == component@,
        forall|i: int|
            0 <= i < path.components@.len() ==> (#[trigger] joined.components@[i])@
                == path.components@[i]@,
{
    let before = path.parts();
    let after = joined.parts();
    assert(after == before.push(component@));
    assert(after.len() == joined.components@.len());
    assert(before.len() == path.components@.len());
    assert(after.last() == joined.components@.last()@);
    assert forall|i: int| 0 <= i < path.components@.len() implies (#[trigger] joined.components@[i])@
        == path.components@[i]@ by {
        assert(after[i] == joined.components@[i]@);
        assert(before[i] == path.components@[i]@);
        assert(after[i] == before[i]);
    }
}

/// Seeds are kept in `.agent-browser/seeds` below the home directory, or below the one for temporary
/// files where there is no home directory.
pub proof fn seeds_are_kept_below_the_home_directory(
    home: Option<PathBuf>,
    temp_dir: PathBuf,
    dir: SeedPath,
)
    requires
        call_ensures(seeds_dir_in, (home, temp_dir), dir),
    ensures
        home matches Some(found) ==> dir.base == found,
        home is None ==> dir.base == temp_dir,
        leads_by(dir, seq![".agent-browser"@, "seeds"@]),
{
    components_are_parts(dir);
}

proof fn components_are_parts(path: SeedPath)
    ensures
        path.parts().len() == path.components@.len(),
        forall|i: int|
            0 <= i < path.components@.len() ==> (#[trigger] path.components@[i])@ == path.parts()[i],
{
}

/// A seed is kept in the directory of all seeds, under its own name.
pub proof fn a_seed_is_kept_under_its_name(
    home: Option<PathBuf>,
    temp_dir: PathBuf,
    name: &str,
    path: SeedPath,
)
    requires
        call_ensures(seed_path_in, (home, temp_dir, name), path),
    ensures
        home matches Some(found) ==> path.base == found,
        home is None ==> path.base == temp_dir,
        leads_by(path, seq![".agent-browser"@, "seeds"@, name@]),
{
    components_are_parts(path);
    assert(path.parts() =~= seq![".agent-browser"@, "seeds"@, name@]);
}

/// The current user's seeds are kept below the home directory that is found, or else below the directory
/// for temporary files.
pub proof fn the_current_users_seeds(temp_dir: PathBuf, dir: SeedPath, name: &str, path: SeedPath)
    requires
        call_ensures(seeds_dir, (temp_dir,), dir),
        call_ensures(seed_path, (name, temp_dir), path),
    ensures
        exists|home: Option<PathBuf>| #[trigger]
            call_ensures(dirs::home_dir, (), home) && dir.base == (match home {
                Some(found) => found,
                None => temp_dir,
            }),
        exists|home: Option<PathBuf>| #[trigger]
            call_ensures(dirs::home_dir, (), home) && path.base == (match home {
                Some(found) => found,
                None => temp_dir,
            }),
        leads_by(dir, seq![".agent-browser"@, "seeds"@]),
        leads_by(path, seq![".agent-browser"@, "seeds"@, name@]),
{
    components_are_parts(dir);
    components_are_parts(path);
    assert(path.parts() =~= seq![".agent-browser"@, "seeds"@, name@]);
}

} // verus!
