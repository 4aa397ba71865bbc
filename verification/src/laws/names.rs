//! Which names are accepted.

use crate::name::{is_valid_session_name, validate_seed_name};
use vstd::prelude::*;

verus! {

/// Whether a text is not empty and holds nothing but letters and digits of ASCII, hyphens and
/// underscores.
pub open spec fn is_name(text: Seq<char>) -> bool {
    &&& text.len() > 0
    &&& forall|i: int|
        0 <= i < text.len() ==> {
            let c = #[trigger] text[i];
            'a' <= c <= 'z' || 'A' <= c <= 'Z' || '0' <= c <= '9' || c == '-' || c == '_'
        }
}

/// A name is valid if and only if it is not empty and every one of its characters is a letter or a digit
/// of ASCII, a hyphen or an underscore.
pub proof fn a_name_is_valid_by_its_characters(name: &str, valid: bool)
    requires
        call_ensures(is_valid_session_name, (name,), valid),
    ensures
        valid <==> is_name(name@),
{
}

/// A seed can have exactly the names that are valid, and the answer to any other name quotes it.
pub proof fn a_seed_name_is_judged_as_a_name(
    name: &str,
    valid: bool,
    result: Result<(), String>,
)
    requires
        call_ensures(is_valid_session_name, (name,), valid),
        call_ensures(validate_seed_name, (name,), result),
    ensures
        result is Ok <==> valid,
        result matches Err(error) ==> error@ == "Invalid seed name '"@ + name@
            + "'. Only alphanumeric characters, hyphens, and underscores are allowed."@,
{
}

/// A part of a valid name is valid too, unless it is empty, and two valid names make one.
pub proof fn valid_names_can_be_taken_apart_and_put_together(
    first: &str,
    second: &str,
    both: &str,
    first_valid: bool,
    second_valid: bool,
    both_valid: bool,
)
    requires
        both@ == first@ + second@,
        first@.len() > 0,
        second@.len() > 0,
        call_ensures(is_valid_session_name, (first,), first_valid),
        call_ensures(is_valid_session_name, (second,), second_valid),
        call_ensures(is_valid_session_name, (both,), both_valid),
    ensures
        both_valid <==> first_valid && second_valid,
{
    if both_valid {
        assert forall|i: int| 0 <= i < first@.len() implies crate::name::name_char(
            #[trigger] first@[i],
        ) by {
            assert(both@[i] == first@[i]);
        }
        assert forall|i: int| 0 <= i < second@.len() implies crate::name::name_char(
            #[trigger] second@[i],
        ) by {
            assert(both@[first@.len() + i] == second@[i]);
        }
    }
}

} // verus!
