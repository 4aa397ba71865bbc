//! Choosing between a seed and a profile.

use crate::selection::{conflict_error, source_label};
use vstd::prelude::*;
use vstd::string::*;

verus! {

/// Where one side is not set, or is empty, there is no conflict, whichever of the two is explicit.
pub proof fn one_side_alone_is_no_conflict(
    seed: Option<Seq<char>>,
    profile: Option<Seq<char>>,
    seed_explicit: bool,
    profile_explicit: bool,
)
    requires
        seed is None || seed->0.len() == 0 || profile is None || profile->0.len() == 0,
    ensures
        !crate::selection::in_conflict(seed, profile, seed_explicit, profile_explicit),
{
}

/// Where both sides are set to some text, there is a conflict if and only if both are explicit or
/// neither is.
pub proof fn equals_are_in_conflict(
    seed: Seq<char>,
    profile: Seq<char>,
    seed_explicit: bool,
    profile_explicit: bool,
)
    requires
        seed.len() > 0,
        profile.len() > 0,
    ensures
        crate::selection::in_conflict(Some(seed), Some(profile), seed_explicit, profile_explicit)
            <==> seed_explicit == profile_explicit,
{
}

/// An empty side is dropped, a side that is not set stays so, and a side is never given another text.
pub proof fn nothing_is_made_up(
    own: Option<Seq<char>>,
    other: Option<Seq<char>>,
    own_explicit: bool,
    other_explicit: bool,
)
    ensures
        own is None || own->0.len() == 0 ==> crate::selection::kept(
            own,
            other,
            own_explicit,
            other_explicit,
        ) is None,
        crate::selection::kept(own, other, own_explicit, other_explicit) is Some
            ==> crate::selection::kept(own, other, own_explicit, other_explicit) == own,
{
}

/// A side that is set to some text stays, unless the other one is set to some text too, explicitly, and
/// this one is not explicit.
pub proof fn a_side_gives_way_only_to_an_explicit_one(
    own: Seq<char>,
    other: Option<Seq<char>>,
    own_explicit: bool,
    other_explicit: bool,
)
    requires
        own.len() > 0,
    ensures
        crate::selection::kept(Some(own), other, own_explicit, other_explicit) == (if other is Some
            && other->0.len() > 0 && other_explicit && !own_explicit {
            None
        } else {
            Some(own)
        }),
{
}

/// The two sides are treated alike: with the sides exchanged, so is what stays, and a conflict is one.
pub proof fn the_sides_are_treated_alike(
    seed: Option<Seq<char>>,
    profile: Option<Seq<char>>,
    seed_explicit: bool,
    profile_explicit: bool,
)
    ensures
        crate::selection::in_conflict(seed, profile, seed_explicit, profile_explicit)
            == crate::selection::in_conflict(profile, seed, profile_explicit, seed_explicit),
{
}

/// A label names the flag or the variable that a value comes from, and the value; where there is none
/// it says so.
pub proof fn a_label_names_source_and_value(
    value: Option<&str>,
    explicit: bool,
    env_name: &str,
    flag: &str,
    label: String,
)
    requires
        call_ensures(source_label, (value, explicit, env_name, flag), label),
    ensures
        value is None ==> label@ == "unset"@,
        value matches Some(v) ==> label@ == (if explicit {
            "CLI "@ + flag@ + " "@ + v@
        } else {
            "env "@ + env_name@ + "="@ + v@
        }),
{
}

/// The message for a conflict names both sides by their labels, the seed first.
pub proof fn the_message_names_both_sides(
    seed: Option<&str>,
    profile: Option<&str>,
    seed_explicit: bool,
    profile_explicit: bool,
    message: String,
    seed_label: String,
    profile_label: String,
)
    requires
        call_ensures(conflict_error, (seed, profile, seed_explicit, profile_explicit), message),
        call_ensures(
            source_label,
            (seed, seed_explicit, "AGENT_BROWSER_SEED", "--seed"),
            seed_label,
        ),
        call_ensures(
            source_label,
            (profile, profile_explicit, "AGENT_BROWSER_PROFILE", "--profile"),
            profile_label,
        ),
    ensures
        message@ == "Cannot use --seed with --profile.\n  seed: "@ + seed_label@ + "\n  profile: "@
            + profile_label@
            + "\nOmit --profile to clone the seed, or pass --no-seed to use --profile."@,
{
}

} // verus!
