//! Names of sessions and seeds.

use crate::text::chars_of;
use vstd::prelude::*;
use vstd::string::*;

verus! {

/// The characters that a name may hold.
pub open spec fn name_char(c: char) -> bool {
    ||| 'a' <= c <= 'z'
    ||| 'A' <= c <= 'Z'
    ||| '0' <= c <= '9'
    ||| c == '-'
    ||| c == '_'
}

/// A name is not empty and holds nothing but alphanumeric characters, hyphens and underscores.
pub open spec fn valid_session_name(name: Seq<char>) -> bool {
    name.len() > 0 && forall|i: int| 0 <= i < name.len() ==> name_char(#[trigger] name[i])
}

/// What an invalid seed name is answered.
pub open spec fn seed_name_error(name: Seq<char>) -> Seq<char> {
    "Invalid seed name '"@ + name
        + "'. Only alphanumeric characters, hyphens, and underscores are allowed."@
}

fn is_name_char(c: char) -> (yes: bool)
    ensures
        yes == name_char(c),
{
    ('a' <= c && c <= 'z') || ('A' <= c && c <= 'Z') || ('0' <= c && c <= '9') || c == '-' || c == '_'
}

/// Whether `name` can name a session.
pub fn is_valid_session_name(name: &str) -> (valid: bool)
    ensures
        valid == valid_session_name(name@),
{
    let chars = chars_of(name);
    if chars.len() == 0 {
        return false;
    }
    for i in 0..chars.len()
        invariant
            chars@ == name@,
            forall|j: int| 0 <= j < i ==> name_char(#[trigger] name@[j]),
    {
        if !is_name_char(chars[i]) {
            return false;
        }
    }
    true
}

/// Accepts the names that can name a seed, and answers any other with an error.
pub fn validate_seed_name(name: &str) -> (result: Result<(), String>)
    ensures
        result is Ok <==> valid_session_name(name@),
        result matches Err(error) ==> error@ == seed_name_error(name@),
{
    if is_valid_session_name(name) {
        Ok(())
    } else {
        Err(
            "Invalid seed name '".to_string().concat(name).concat(
                "'. Only alphanumeric characters, hyphens, and underscores are allowed.",
            ),
        )
    }
}

/// A valid name stays within one directory: it holds neither a path separator nor a dot, so it is
/// no path of several components, no absolute path and neither `.` nor `..`.
pub proof fn valid_name_is_one_component(name: Seq<char>)
    requires
        valid_session_name(name),
    ensures
        !name.contains('/'),
        !name.contains('\\'),
        !name.contains('.'),
        !name.contains(':'),
        name.len() > 0,
{
}

} // verus!
