//! Where seeds are kept.

use std::path::PathBuf;
use vstd::prelude::*;
use vstd::string::*;

verus! {

/// Declares `std::path::PathBuf`. Nothing is said of what one holds.
#[verifier::external_type_specification]
#[verifier::external_body]
pub struct ExPathBuf(std::path::PathBuf);

/// `dirs::home_dir`: the user's home directory. It comes from the environment or the user database,
/// and may be missing; nothing is claimed of it.
pub assume_specification[ dirs::home_dir ]() -> (home: Option<PathBuf>)
;

/// A path, as a directory and the components that are joined to it, one after the other.
pub struct SeedPath {
    pub base: PathBuf,
    pub components: Vec<String>,
}

impl SeedPath {
    /// The text of the components.
    pub open spec fn parts(self) -> Seq<Seq<char>> {
        self.components@.map_values(|component: String| component@)
    }

    /// The path with one more component.
    pub fn join(self, component: &str) -> (path: SeedPath)
        ensures
            path.base == self.base,
            path.parts() == self.parts().push(component@),
    {
        let mut components = self.components;
        components.push(component.to_string());
        let path = SeedPath { base: self.base, components };
        proof {
            assert(path.parts() =~= self.parts().push(component@));
        }
        path
    }
}

/// The directory that seeds are kept under: the home directory, or the temporary one for a user
/// without a home directory.
pub open spec fn home_or_temp(home: Option<PathBuf>, temp_dir: PathBuf) -> PathBuf {
    match home {
        Some(dir) => dir,
        None => temp_dir,
    }
}

/// The components that lead from there to the directory of all seeds.
pub open spec fn seeds_parts() -> Seq<Seq<char>> {
    seq![".agent-browser"@, "seeds"@]
}

/// The directory that holds the seeds of a user with the given home directory.
pub fn seeds_dir_in(home: Option<PathBuf>, temp_dir: PathBuf) -> (dir: SeedPath)
    ensures
        dir.base == home_or_temp(home, temp_dir),
        dir.parts() == seeds_parts(),
{
    let base = match home {
        Some(dir) => dir,
        None => temp_dir,
    };
    let root = SeedPath { base, components: Vec::new() };
    proof {
        assert(root.parts() =~= Seq::<Seq<char>>::empty());
        assert(root.parts().push(".agent-browser"@).push("seeds"@) =~= seeds_parts());
    }
    root.join(".agent-browser").join("seeds")
}

/// The directory that holds the current user's seeds. It lies in the home directory, or in
/// `temp_dir` where there is none.
pub fn seeds_dir(temp_dir: PathBuf) -> (dir: SeedPath)
    ensures
        exists|home: Option<PathBuf>|
            #[trigger] call_ensures(dirs::home_dir, (), home) && dir.base == home_or_temp(
                home,
                temp_dir,
            ),
        dir.parts() == seeds_parts(),
{
    seeds_dir_in(dirs::home_dir(), temp_dir)
}

/// The directory of the seed `name` among the seeds of a user with the given home directory.
pub fn seed_path_in(home: Option<PathBuf>, temp_dir: PathBuf, name: &str) -> (path: SeedPath)
    ensures
        path.base == home_or_temp(home, temp_dir),
        path.parts() == seeds_parts().push(name@),
{
    seeds_dir_in(home, temp_dir).join(name)
}

/// The directory of the current user's seed `name`.
pub fn seed_path(name: &str, temp_dir: PathBuf) -> (path: SeedPath)
    ensures
        exists|home: Option<PathBuf>|
            #[trigger] call_ensures(dirs::home_dir, (), home) && path.base == home_or_temp(
                home,
                temp_dir,
            ),
        path.parts() == seeds_parts().push(name@),
{
    seeds_dir(temp_dir).join(name)
}

/// Seeds with different names have different directories, and each of them lies directly inside
/// the directory of all seeds. That is so of valid names, each of which is one component of a path.
pub proof fn seed_directories_are_distinct(name1: Seq<char>, name2: Seq<char>)
    requires
        crate::name::valid_session_name(name1),
        crate::name::valid_session_name(name2),
    ensures
        seeds_parts().push(name1) == seeds_parts().push(name2) <==> name1 == name2,
        seeds_parts().push(name1).drop_last() == seeds_parts(),
        !name1.contains('/') && !name1.contains('\\') && !name1.contains('.'),
{
    assert(seeds_parts().push(name1).last() == name1);
    assert(seeds_parts().push(name2).last() == name2);
    assert(seeds_parts().push(name1).drop_last() =~= seeds_parts());
}

} // verus!
