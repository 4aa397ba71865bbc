//! The defaults that the environment sets.

use crate::defaults::{
    default_seed, defaults_value, env_truthy, mcp_defaults, mcp_defaults_instructions, McpDefaults,
    McpEnvironment, SeedStatus,
};
use crate::json::JsonDoc;
use crate::metadata::SeedMetadata;
use serde_json::Value;
use vstd::prelude::*;
use vstd::string::*;

verus! {

/// Whether a text is one of the words that switch something on.
pub open spec fn is_on_word(word: Seq<char>) -> bool {
    word == "1"@ || word == "true"@ || word == "TRUE"@ || word == "yes"@ || word == "YES"@
}

/// Whether a text is `word` with white space around it, or without.
pub open spec fn is_word_in_white_space(
    text: Seq<char>,
    before: Seq<char>,
    word: Seq<char>,
    after: Seq<char>,
) -> bool {
    &&& text == before + word + after
    &&& forall|i: int| 0 <= i < before.len() ==> crate::text::white_space(#[trigger] before[i])
    &&& forall|i: int| 0 <= i < after.len() ==> crate::text::white_space(#[trigger] after[i])
}

/// A variable switches something on if and only if it is set to one of five words, with or without white
/// space around it.
pub proof fn five_words_switch_on(value: Option<&str>, on: bool)
    requires
        call_ensures(env_truthy, (value,), on),
    ensures
        on <==> exists|before: Seq<char>, word: Seq<char>, after: Seq<char>|
            value is Some && is_on_word(word) && #[trigger] is_word_in_white_space(
                value->0@,
                before,
                word,
                after,
            ),
{
    if on {
        let (before, after) = crate::laws::texts::trimmed_sides(value->0@);
        assert(is_word_in_white_space(
            value->0@,
            before,
            crate::text::trimmed(value->0@),
            after,
        ));
        assert(is_on_word(crate::text::trimmed(value->0@)));
    }
    assert forall|before: Seq<char>, word: Seq<char>, after: Seq<char>|
        value is Some && is_on_word(word) && #[trigger] is_word_in_white_space(
            value->0@,
            before,
            word,
            after,
        ) implies on by {
        crate::text::surrounding_white_space_is_ignored(before, word, after);
        on_words_need_no_trimming(word);
    }
}

proof fn on_words_need_no_trimming(word: Seq<char>)
    requires
        is_on_word(word),
    ensures
        crate::text::trimmed(word) == word,
{
    reveal_strlit("1");
    reveal_strlit("true");
    reveal_strlit("TRUE");
    reveal_strlit("yes");
    reveal_strlit("YES");
    assert(word.len() > 0);
    assert(!crate::text::white_space(word[0]));
    assert(!crate::text::white_space(word.last()));
}

/// The session is the one that its variable names, whatever the other variables are, and `default` where
/// that is not set or empty.
pub proof fn the_session_is_the_one_that_is_named(
    env: McpEnvironment,
    metadata: Option<SeedMetadata>,
    defaults: McpDefaults,
)
    requires
        call_ensures(mcp_defaults, (env, metadata), defaults),
    ensures
        env.session matches Some(name) ==> name@.len() > 0 ==> defaults.session@ == name@,
        env.session is None || env.session->0@.len() == 0 ==> defaults.session@ == "default"@,
{
}

/// Whether `value` is what a variable is set to, where an empty text counts as nothing.
pub open spec fn is_what_is_set(value: Option<String>, variable: Option<String>) -> bool {
    if variable is None || variable->0@.len() == 0 {
        value is None
    } else {
        value is Some && value->0@ == variable->0@
    }
}

/// Namespace, seed, profile and what to restore are what their variables are set to.
pub proof fn variables_are_taken_as_they_are(
    env: McpEnvironment,
    metadata: Option<SeedMetadata>,
    defaults: McpDefaults,
)
    requires
        call_ensures(mcp_defaults, (env, metadata), defaults),
    ensures
        is_what_is_set(defaults.namespace, env.namespace),
        is_what_is_set(defaults.seed, env.seed),
        is_what_is_set(defaults.profile, env.profile),
        is_what_is_set(defaults.restore, env.restore),
{
    let view = defaults@;
    assert(view == crate::defaults::defaults_from(
        env@,
        crate::defaults::optional_metadata(metadata),
    ));
}

/// Sessions are headed if and only if the variable for that switches it on.
pub proof fn headed_is_what_its_variable_says(
    env: McpEnvironment,
    metadata: Option<SeedMetadata>,
    defaults: McpDefaults,
    value: Option<&str>,
    on: bool,
)
    requires
        call_ensures(mcp_defaults, (env, metadata), defaults),
        call_ensures(env_truthy, (value,), on),
        value is Some <==> env.headed is Some,
        value is Some ==> value->0@ == env.headed->0@,
    ensures
        defaults.headed == on,
{
}

/// The state of the default seed: it is saved if and only if its metadata can be read, and then the
/// source profile is the recorded one. Without a seed there is no state and no source profile.
pub proof fn the_seed_is_saved_where_its_metadata_can_be_read(
    env: McpEnvironment,
    metadata: Option<SeedMetadata>,
    defaults: McpDefaults,
)
    requires
        call_ensures(mcp_defaults, (env, metadata), defaults),
    ensures
        env.seed is None || env.seed->0@.len() == 0 ==> defaults.seed_status is None
            && defaults.source_profile is None,
        env.seed is Some && env.seed->0@.len() > 0 && metadata is Some ==> defaults.seed_status
            == Some(SeedStatus::Saved) && defaults.source_profile is Some
            && defaults.source_profile->0@ == metadata->0.source_profile@,
        env.seed is Some && env.seed->0@.len() > 0 && metadata is None ==> defaults.seed_status
            == Some(SeedStatus::Missing) && defaults.source_profile is None,
{
    let view = defaults@;
    assert(view == crate::defaults::defaults_from(
        env@,
        crate::defaults::optional_metadata(metadata),
    ));
}

/// Whether two variables are set alike.
pub open spec fn set_alike(one: Option<String>, other: Option<String>) -> bool {
    (one is Some <==> other is Some) && (one is Some ==> one->0@ == other->0@)
}

/// Each default depends on its own variable alone: two environments that agree on one give the same.
pub proof fn each_default_has_its_own_variable(
    env1: McpEnvironment,
    metadata1: Option<SeedMetadata>,
    defaults1: McpDefaults,
    env2: McpEnvironment,
    metadata2: Option<SeedMetadata>,
    defaults2: McpDefaults,
)
    requires
        call_ensures(mcp_defaults, (env1, metadata1), defaults1),
        call_ensures(mcp_defaults, (env2, metadata2), defaults2),
    ensures
        set_alike(env1.session, env2.session) ==> defaults1.session@ == defaults2.session@,
        set_alike(env1.namespace, env2.namespace) ==> set_alike(
            defaults1.namespace,
            defaults2.namespace,
        ),
        set_alike(env1.seed, env2.seed) ==> set_alike(defaults1.seed, defaults2.seed),
        set_alike(env1.profile, env2.profile) ==> set_alike(defaults1.profile, defaults2.profile),
        set_alike(env1.headed, env2.headed) ==> defaults1.headed == defaults2.headed,
        set_alike(env1.restore, env2.restore) ==> set_alike(defaults1.restore, defaults2.restore),
        set_alike(env1.seed, env2.seed) && (metadata1 is Some <==> metadata2 is Some)
            ==> defaults1.seed_status == defaults2.seed_status,
{
    variables_are_taken_as_they_are(env1, metadata1, defaults1);
    variables_are_taken_as_they_are(env2, metadata2, defaults2);
    the_seed_is_saved_where_its_metadata_can_be_read(env1, metadata1, defaults1);
    the_seed_is_saved_where_its_metadata_can_be_read(env2, metadata2, defaults2);
    the_session_is_the_one_that_is_named(env1, metadata1, defaults1);
    the_session_is_the_one_that_is_named(env2, metadata2, defaults2);
}

/// The seed whose metadata is needed is the one that the defaults name.
pub proof fn the_needed_seed_is_the_default_one(
    env: McpEnvironment,
    metadata: Option<SeedMetadata>,
    defaults: McpDefaults,
    needed: Option<&str>,
)
    requires
        call_ensures(mcp_defaults, (env, metadata), defaults),
        call_ensures(default_seed, (&env,), needed),
    ensures
        needed is Some <==> defaults.seed is Some,
        needed is Some ==> needed->0@ == defaults.seed->0@,
        needed is Some <==> env.seed is Some && env.seed->0@.len() > 0,
        needed is Some ==> needed->0@ == env.seed->0@,
{
    variables_are_taken_as_they_are(env, metadata, defaults);
}

/// Whether a member of a document is an optional text.
pub open spec fn is_optional_text(doc: JsonDoc, value: Option<String>) -> bool {
    match value {
        Some(text) => doc == JsonDoc::Text(text@),
        None => doc is Null,
    }
}

/// The document of the defaults has eight members, each under its own key.
pub proof fn the_document_of_the_defaults(d: McpDefaults, value: Value)
    requires
        call_ensures(defaults_value, (&d,), value),
    ensures
        crate::json::json_of(value) matches JsonDoc::Object(members) && {
            &&& members.dom() == set![
                "session"@,
                "namespace"@,
                "seed"@,
                "seedStatus"@,
                "sourceProfile"@,
                "profile"@,
                "headed"@,
                "restore"@,
            ]
            &&& members["session"@] == JsonDoc::Text(d.session@)
            &&& is_optional_text(members["namespace"@], d.namespace)
            &&& is_optional_text(members["seed"@], d.seed)
            &&& d.seed_status == Some(SeedStatus::Saved) ==> members["seedStatus"@]
                == JsonDoc::Text("ok"@)
            &&& d.seed_status == Some(SeedStatus::Missing) ==> members["seedStatus"@]
                == JsonDoc::Text("missing"@)
            &&& d.seed_status is None ==> members["seedStatus"@] is Null
            &&& is_optional_text(members["sourceProfile"@], d.source_profile)
            &&& is_optional_text(members["profile"@], d.profile)
            &&& members["headed"@] == JsonDoc::Bool(d.headed)
            &&& is_optional_text(members["restore"@], d.restore)
        },
{
    reveal_strlit("session");
    reveal_strlit("namespace");
    reveal_strlit("seed");
    reveal_strlit("seedStatus");
    reveal_strlit("sourceProfile");
    reveal_strlit("profile");
    reveal_strlit("headed");
    reveal_strlit("restore");
    assert("namespace"@.len() == 9 && "seed"@.len() == 4 && "seedStatus"@.len() == 10);
    assert("sourceProfile"@.len() == 13 && "headed"@.len() == 6);
    assert("session"@.len() == 7 && "profile"@.len() == 7 && "restore"@.len() == 7);
    assert("session"@[0] == 's' && "profile"@[0] == 'p' && "restore"@[0] == 'r');
    let doc = crate::defaults::defaults_doc(d@);
    assert(crate::json::json_of(value) == doc);
    assert(doc->Object_0.dom() =~= set![
        "session"@,
        "namespace"@,
        "seed"@,
        "seedStatus"@,
        "sourceProfile"@,
        "profile"@,
        "headed"@,
        "restore"@,
    ]);
}

/// A part of the description that is there only if there is a value.
pub open spec fn told(key: Seq<char>, value: Option<String>) -> Seq<char> {
    match value {
        Some(text) => key + text@,
        None => Seq::empty(),
    }
}

/// The description tells every default that is set, in a fixed order, and then what follows for the
/// flags to pass.
pub proof fn the_description_tells_every_default(d: McpDefaults, text: String)
    requires
        call_ensures(mcp_defaults_instructions, (&d,), text),
    ensures
        text@ == "Defaults: "@ + ("session="@ + d.session@ + told(" namespace="@, d.namespace) + (
        match d.seed {
            Some(seed) => " seed="@ + seed@ + " ("@ + (if d.seed_status == Some(
                SeedStatus::Saved,
            ) {
                match d.source_profile {
                    Some(source) => "ok, from profile "@ + source@,
                    None => "ok"@,
                }
            } else {
                "MISSING — run: agent-browser seed save "@ + seed@
                    + " --profile <chrome-profile>"@
            }) + ")"@,
            None => Seq::empty(),
        }) + told(" profile="@, d.profile) + (if d.headed {
            " headed"@
        } else {
            Seq::empty()
        }) + told(" restore="@, d.restore)) + "."@ + (if d.seed is Some && d.seed_status == Some(
            SeedStatus::Saved,
        ) {
            " Do not pass --profile; each session clones this seed. Override with tool seed/profile or extraArgs --no-seed."@
        } else if d.profile is Some {
            " Using --profile (exclusive; prefer --seed for parallel logged-in sessions)."@
        } else if d.seed is None {
            " No login seed/profile."@
        } else {
            Seq::empty()
        }),
{
    assert(told(" namespace="@, d.namespace) == crate::defaults::part_text(
        " namespace="@,
        d@.namespace,
    ));
    assert(told(" profile="@, d.profile) == crate::defaults::part_text(" profile="@, d@.profile));
    assert(told(" restore="@, d.restore) == crate::defaults::part_text(" restore="@, d@.restore));
}

} // verus!
