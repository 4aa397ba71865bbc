//! Choosing between a seed and a profile.
//!
//! A session starts from a clone of a seed or from a Chrome profile, not from both. Each of the
//! two can be named on the command line (explicitly) or by the environment or a configuration
//! file.

use vstd::prelude::*;
use vstd::string::*;

verus! {

/// An empty value counts as no value.
pub open spec fn set_value(value: Option<Seq<char>>) -> Option<Seq<char>> {
    match value {
        Some(text) if text.len() > 0 => Some(text),
        _ => None,
    }
}

/// Whether both sides are set, and neither takes precedence.
pub open spec fn in_conflict(
    seed: Option<Seq<char>>,
    profile: Option<Seq<char>>,
    seed_explicit: bool,
    profile_explicit: bool,
) -> bool {
    &&& set_value(seed) is Some
    &&& set_value(profile) is Some
    &&& seed_explicit == profile_explicit
}

/// What stays of one side: its value if that is set, unless the other side is set too, explicitly,
/// and this one is not explicit.
pub open spec fn kept(
    own: Option<Seq<char>>,
    other: Option<Seq<char>>,
    own_explicit: bool,
    other_explicit: bool,
) -> Option<Seq<char>> {
    if set_value(other) is Some && other_explicit && !own_explicit {
        None
    } else {
        set_value(own)
    }
}

/// Where a value comes from, as an error message names it.
pub open spec fn label_text(
    value: Option<Seq<char>>,
    explicit: bool,
    env_name: Seq<char>,
    flag: Seq<char>,
) -> Seq<char> {
    match value {
        None => "unset"@,
        Some(v) => if explicit {
            "CLI "@ + flag + " "@ + v
        } else {
            "env "@ + env_name + "="@ + v
        },
    }
}

/// The message for a seed and a profile that exclude each other.
pub open spec fn conflict_text(
    seed: Option<Seq<char>>,
    profile: Option<Seq<char>>,
    seed_explicit: bool,
    profile_explicit: bool,
) -> Seq<char> {
    "Cannot use --seed with --profile.\n  seed: "@ + label_text(
        seed,
        seed_explicit,
        "AGENT_BROWSER_SEED"@,
        "--seed"@,
    ) + "\n  profile: "@ + label_text(
        profile,
        profile_explicit,
        "AGENT_BROWSER_PROFILE"@,
        "--profile"@,
    ) + "\nOmit --profile to clone the seed, or pass --no-seed to use --profile."@
}

/// Drops the side that is not explicit when a seed and a profile are both set. Answers with an
/// error when neither can be dropped: both are explicit, or neither is.
pub fn resolve_seed_and_profile(
    seed: &mut Option<String>,
    profile: &mut Option<String>,
    seed_explicit: bool,
    profile_explicit: bool,
) -> (result: Result<(), String>)
    ensures
        result is Err <==> in_conflict(
            old(seed).deep_view(),
            old(profile).deep_view(),
            seed_explicit,
            profile_explicit,
        ),
        result matches Err(error) ==> error@ == conflict_text(
            old(seed).deep_view(),
            old(profile).deep_view(),
            seed_explicit,
            profile_explicit,
        ),
        final(seed).deep_view() == kept(
            old(seed).deep_view(),
            old(profile).deep_view(),
            seed_explicit,
            profile_explicit,
        ),
        final(profile).deep_view() == kept(
            old(profile).deep_view(),
            old(seed).deep_view(),
            profile_explicit,
            seed_explicit,
        ),
        ({
            let seed_before = old(seed).deep_view();
            let profile_before = old(profile).deep_view();
            let seed_after = final(seed).deep_view();
            let profile_after = final(profile).deep_view();
            let no_seed = seed_before is None || seed_before->0.len() == 0;
            let no_profile = profile_before is None || profile_before->0.len() == 0;
            &&& no_seed || no_profile ==> result is Ok
            &&& !no_seed && !no_profile ==> (result is Ok <==> seed_explicit != profile_explicit)
            &&& no_seed ==> seed_after is None
            &&& no_profile ==> profile_after is None
            &&& !no_seed ==> seed_after == (if !no_profile && profile_explicit && !seed_explicit {
                None
            } else {
                seed_before
            })
            &&& !no_profile ==> profile_after == (if !no_seed && seed_explicit && !profile_explicit {
                None
            } else {
                profile_before
            })
        }),
{
    if is_blank(seed) {
        *seed = None;
    }
    if is_blank(profile) {
        *profile = None;
    }
    if seed.is_none() || profile.is_none() {
        return Ok(());
    }
    if seed_explicit && !profile_explicit {
        *profile = None;
        return Ok(());
    }
    if profile_explicit && !seed_explicit {
        *seed = None;
        return Ok(());
    }
    Err(conflict_error(as_str(seed), as_str(profile), seed_explicit, profile_explicit))
}

/// Whether `value` is present and empty.
fn is_blank(value: &Option<String>) -> (blank: bool)
    ensures
        blank == (value is Some && set_value(value.deep_view()) is None),
{
    match value {
        Some(text) => text.as_str().is_empty(),
        None => false,
    }
}

/// The text of an optional string.
pub(crate) fn as_str(value: &Option<String>) -> (text: Option<&str>)
    ensures
        text.deep_view() == value.deep_view(),
{
    match value {
        Some(text) => Some(text.as_str()),
        None => None,
    }
}

/// Writes the message for a seed and a profile that exclude each other.
pub fn conflict_error(
    seed: Option<&str>,
    profile: Option<&str>,
    seed_explicit: bool,
    profile_explicit: bool,
) -> (message: String)
    ensures
        message@ == conflict_text(
            seed.deep_view(),
            profile.deep_view(),
            seed_explicit,
            profile_explicit,
        ),
{
    let seed_label = source_label(seed, seed_explicit, "AGENT_BROWSER_SEED", "--seed");
    let profile_label = source_label(
        profile,
        profile_explicit,
        "AGENT_BROWSER_PROFILE",
        "--profile",
    );
    "Cannot use --seed with --profile.\n  seed: ".to_string().concat(seed_label.as_str()).concat(
        "\n  profile: ",
    ).concat(profile_label.as_str()).concat(
        "\nOmit --profile to clone the seed, or pass --no-seed to use --profile.",
    )
}

/// Names where a value comes from: a flag of the command line or a variable of the environment.
pub fn source_label(value: Option<&str>, explicit: bool, env_name: &str, flag: &str) -> (label:
    String)
    ensures
        label@ == label_text(value.deep_view(), explicit, env_name@, flag@),
{
    match value {
        None => "unset".to_string(),
        Some(v) => if explicit {
            "CLI ".to_string().concat(flag).concat(" ").concat(v)
        } else {
            "env ".to_string().concat(env_name).concat("=").concat(v)
        },
    }
}

/// Where there is no conflict, at most one of the two stays set.
pub proof fn at_most_one_stays(
    seed: Option<Seq<char>>,
    profile: Option<Seq<char>>,
    seed_explicit: bool,
    profile_explicit: bool,
)
    requires
        !in_conflict(seed, profile, seed_explicit, profile_explicit),
    ensures
        kept(seed, profile, seed_explicit, profile_explicit) is None || kept(
            profile,
            seed,
            profile_explicit,
            seed_explicit,
        ) is None,
{
}

/// An explicit choice is never dropped, and a choice that meets no explicit rival is not either:
/// whatever is dropped was not explicit, and makes way for something that is.
pub proof fn only_the_implicit_is_dropped(
    own: Option<Seq<char>>,
    other: Option<Seq<char>>,
    own_explicit: bool,
    other_explicit: bool,
)
    requires
        set_value(own) is Some,
    ensures
        kept(own, other, own_explicit, other_explicit) == set_value(own) || kept(
            own,
            other,
            own_explicit,
            other_explicit,
        ) is None,
        own_explicit ==> kept(own, other, own_explicit, other_explicit) == set_value(own),
        kept(own, other, own_explicit, other_explicit) is None ==> !own_explicit && other_explicit
            && kept(other, own, other_explicit, own_explicit) == set_value(other) && set_value(
            other,
        ) is Some,
{
}

/// Where something is set, something stays set.
pub proof fn one_of_the_set_stays(
    seed: Option<Seq<char>>,
    profile: Option<Seq<char>>,
    seed_explicit: bool,
    profile_explicit: bool,
)
    requires
        set_value(seed) is Some || set_value(profile) is Some,
    ensures
        kept(seed, profile, seed_explicit, profile_explicit) is Some || kept(
            profile,
            seed,
            profile_explicit,
            seed_explicit,
        ) is Some,
{
}

/// What has been resolved stays as it is when it is resolved again, and a conflict leaves both
/// sides as they were.
pub proof fn resolving_again_changes_nothing(
    seed: Option<Seq<char>>,
    profile: Option<Seq<char>>,
    seed_explicit: bool,
    profile_explicit: bool,
)
    ensures
        ({
            let seed2 = kept(seed, profile, seed_explicit, profile_explicit);
            let profile2 = kept(profile, seed, profile_explicit, seed_explicit);
            &&& in_conflict(seed2, profile2, seed_explicit, profile_explicit) == in_conflict(
                seed,
                profile,
                seed_explicit,
                profile_explicit,
            )
            &&& kept(seed2, profile2, seed_explicit, profile_explicit) == seed2
            &&& kept(profile2, seed2, profile_explicit, seed_explicit) == profile2
            &&& in_conflict(seed, profile, seed_explicit, profile_explicit) ==> seed2 == seed
                && profile2 == profile
        }),
{
}

} // verus!
