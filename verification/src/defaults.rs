//! The defaults that sessions start with, and how they are described to an agent.

use crate::json::{bool_value, object_value, optional_text_value, text_value, JsonDoc};
use crate::metadata::{SeedMetadata, SeedMetadataView};
use crate::selection::as_str;
use crate::text::{str_eq, trim};
use serde_json::Value;
use vstd::prelude::*;
use vstd::string::*;

verus! {

/// What the environment sets, each by its variable.
pub struct McpEnvironment {
    /// `AGENT_BROWSER_SESSION`
    pub session: Option<String>,
    /// `AGENT_BROWSER_NAMESPACE`
    pub namespace: Option<String>,
    /// `AGENT_BROWSER_SEED`
    pub seed: Option<String>,
    /// `AGENT_BROWSER_PROFILE`
    pub profile: Option<String>,
    /// `AGENT_BROWSER_HEADED`
    pub headed: Option<String>,
    /// `AGENT_BROWSER_RESTORE`
    pub restore: Option<String>,
}

/// The text held in a [`McpEnvironment`].
pub struct McpEnvironmentView {
    pub session: Option<Seq<char>>,
    pub namespace: Option<Seq<char>>,
    pub seed: Option<Seq<char>>,
    pub profile: Option<Seq<char>>,
    pub headed: Option<Seq<char>>,
    pub restore: Option<Seq<char>>,
}

impl View for McpEnvironment {
    type V = McpEnvironmentView;

    open spec fn view(&self) -> McpEnvironmentView {
        McpEnvironmentView {
            session: self.session.deep_view(),
            namespace: self.namespace.deep_view(),
            seed: self.seed.deep_view(),
            profile: self.profile.deep_view(),
            headed: self.headed.deep_view(),
            restore: self.restore.deep_view(),
        }
    }
}

/// Whether the default seed has been saved.
#[derive(Debug, Clone, Copy, PartialEq, Eq, Structural)]
pub enum SeedStatus {
    Saved,
    Missing,
}

/// The defaults that sessions start with.
pub struct McpDefaults {
    pub session: String,
    pub namespace: Option<String>,
    pub seed: Option<String>,
    pub seed_status: Option<SeedStatus>,
    pub source_profile: Option<String>,
    pub profile: Option<String>,
    pub headed: bool,
    pub restore: Option<String>,
}

/// The text held in a [`McpDefaults`].
pub struct McpDefaultsView {
    pub session: Seq<char>,
    pub namespace: Option<Seq<char>>,
    pub seed: Option<Seq<char>>,
    pub seed_status: Option<SeedStatus>,
    pub source_profile: Option<Seq<char>>,
    pub profile: Option<Seq<char>>,
    pub headed: bool,
    pub restore: Option<Seq<char>>,
}

impl View for McpDefaults {
    type V = McpDefaultsView;

    open spec fn view(&self) -> McpDefaultsView {
        McpDefaultsView {
            session: self.session@,
            namespace: self.namespace.deep_view(),
            seed: self.seed.deep_view(),
            seed_status: self.seed_status,
            source_profile: self.source_profile.deep_view(),
            profile: self.profile.deep_view(),
            headed: self.headed,
            restore: self.restore.deep_view(),
        }
    }
}

/// Whether a value, if there is one, holds some text.
pub open spec fn not_blank(value: Option<Seq<char>>) -> bool {
    value matches Some(text) ==> text.len() > 0
}

impl McpDefaultsView {
    /// Nothing is set to the empty text; a seed, and nothing else, has a status; a seed that has
    /// been saved, and no other, has a source profile.
    pub open spec fn well_formed(self) -> bool {
        &&& self.session.len() > 0
        &&& not_blank(self.namespace)
        &&& not_blank(self.seed)
        &&& not_blank(self.profile)
        &&& not_blank(self.restore)
        &&& self.seed_status is Some <==> self.seed is Some
        &&& self.source_profile is Some <==> self.seed_status == Some(SeedStatus::Saved)
    }
}

/// Whether the value of a variable switches something on.
pub open spec fn truthy(value: Option<Seq<char>>) -> bool {
    match value {
        Some(text) => {
            let word = crate::text::trimmed(text);
            word == "1"@ || word == "true"@ || word == "TRUE"@ || word == "yes"@ || word == "YES"@
        },
        None => false,
    }
}

/// Whether the value of a variable switches something on.
pub fn env_truthy(value: Option<&str>) -> (on: bool)
    ensures
        on == truthy(value.deep_view()),
{
    match value {
        Some(text) => {
            let word = trim(text);
            str_eq(word, "1") || str_eq(word, "true") || str_eq(word, "TRUE") || str_eq(word, "yes")
                || str_eq(word, "YES")
        },
        None => false,
    }
}

/// The value of a variable, unless it is empty.
fn set_text(value: Option<String>) -> (set: Option<String>)
    ensures
        set.deep_view() == crate::selection::set_value(value.deep_view()),
{
    match value {
        Some(text) => if text.as_str().is_empty() {
            None
        } else {
            Some(text)
        },
        None => None,
    }
}

/// The defaults that the environment sets; `metadata` is the metadata of the default seed, if it can
/// be read.
pub open spec fn defaults_from(
    env: McpEnvironmentView,
    metadata: Option<SeedMetadataView>,
) -> McpDefaultsView {
    let seed = crate::selection::set_value(env.seed);
    McpDefaultsView {
        session: match crate::selection::set_value(env.session) {
            Some(name) => name,
            None => "default"@,
        },
        namespace: crate::selection::set_value(env.namespace),
        seed,
        seed_status: match (seed, metadata) {
            (Some(_), Some(_)) => Some(SeedStatus::Saved),
            (Some(_), None) => Some(SeedStatus::Missing),
            (None, _) => None,
        },
        source_profile: match (seed, metadata) {
            (Some(_), Some(found)) => Some(found.source_profile),
            _ => None,
        },
        profile: crate::selection::set_value(env.profile),
        headed: truthy(env.headed),
        restore: crate::selection::set_value(env.restore),
    }
}

/// The metadata of a seed, if it can be read.
pub open spec fn optional_metadata(metadata: Option<SeedMetadata>) -> Option<SeedMetadataView> {
    match metadata {
        Some(seed) => Some(seed@),
        None => None,
    }
}

/// The seed whose metadata [`mcp_defaults`] needs, if any.
pub fn default_seed(env: &McpEnvironment) -> (seed: Option<&str>)
    ensures
        seed.deep_view() == crate::selection::set_value(env@.seed),
{
    match &env.seed {
        Some(text) => if text.as_str().is_empty() {
            None
        } else {
            Some(text.as_str())
        },
        None => None,
    }
}

/// The defaults that the environment sets; `metadata` is the metadata of the seed that
/// [`default_seed`] names, if it can be read.
pub fn mcp_defaults(env: McpEnvironment, metadata: Option<SeedMetadata>) -> (defaults: McpDefaults)
    ensures
        defaults@ == defaults_from(env@, optional_metadata(metadata)),
        defaults@.well_formed(),
{
    let headed = env_truthy(as_str(&env.headed));
    let session = match set_text(env.session) {
        Some(name) => name,
        None => "default".to_string(),
    };
    let seed = set_text(env.seed);
    let (seed_status, source_profile) = if seed.is_none() {
        (None, None)
    } else {
        match metadata {
            Some(found) => (Some(SeedStatus::Saved), Some(found.source_profile)),
            None => (Some(SeedStatus::Missing), None),
        }
    };
    proof {
        reveal_strlit("default");
    }
    McpDefaults {
        session,
        namespace: set_text(env.namespace),
        seed,
        seed_status,
        source_profile,
        profile: set_text(env.profile),
        headed,
        restore: set_text(env.restore),
    }
}

/// The JSON document of the defaults.
pub open spec fn defaults_doc(d: McpDefaultsView) -> JsonDoc {
    JsonDoc::Object(
        map![
            "session"@ => JsonDoc::Text(d.session),
            "namespace"@ => crate::json::optional_doc(d.namespace),
            "seed"@ => crate::json::optional_doc(d.seed),
            "seedStatus"@ => match d.seed_status {
                Some(SeedStatus::Saved) => JsonDoc::Text("ok"@),
                Some(SeedStatus::Missing) => JsonDoc::Text("missing"@),
                None => JsonDoc::Null,
            },
            "sourceProfile"@ => crate::json::optional_doc(d.source_profile),
            "profile"@ => crate::json::optional_doc(d.profile),
            "headed"@ => JsonDoc::Bool(d.headed),
            "restore"@ => crate::json::optional_doc(d.restore),
        ],
    )
}

/// The JSON of the defaults.
pub fn defaults_value(d: &McpDefaults) -> (value: Value)
    ensures
        crate::json::json_of(value) == defaults_doc(d@),
{
    let status = match d.seed_status {
        Some(SeedStatus::Saved) => Some("ok"),
        Some(SeedStatus::Missing) => Some("missing"),
        None => None,
    };
    let members: Vec<(String, Value)> = vec![
        ("session".to_string(), text_value(d.session.as_str())),
        ("namespace".to_string(), optional_text_value(as_str(&d.namespace))),
        ("seed".to_string(), optional_text_value(as_str(&d.seed))),
        ("seedStatus".to_string(), optional_text_value(status)),
        ("sourceProfile".to_string(), optional_text_value(as_str(&d.source_profile))),
        ("profile".to_string(), optional_text_value(as_str(&d.profile))),
        ("headed".to_string(), bool_value(d.headed)),
        ("restore".to_string(), optional_text_value(as_str(&d.restore))),
    ];
    proof {
        let docs = seq![
            ("session"@, JsonDoc::Text(d@.session)),
            ("namespace"@, crate::json::optional_doc(d@.namespace)),
            ("seed"@, crate::json::optional_doc(d@.seed)),
            ("seedStatus"@, crate::json::optional_doc(status.deep_view())),
            ("sourceProfile"@, crate::json::optional_doc(d@.source_profile)),
            ("profile"@, crate::json::optional_doc(d@.profile)),
            ("headed"@, JsonDoc::Bool(d@.headed)),
            ("restore"@, crate::json::optional_doc(d@.restore)),
        ];
        assert(crate::json::member_docs(members@) =~= docs);
        reveal_strlit("session");
        reveal_strlit("namespace");
        reveal_strlit("seed");
        reveal_strlit("seedStatus");
        reveal_strlit("sourceProfile");
        reveal_strlit("profile");
        reveal_strlit("headed");
        reveal_strlit("restore");
        assert("namespace"@.len() == 9 && "seed"@.len() == 4 && "seedStatus"@.len() == 10);
        assert("sourceProfile"@.len() == 13 && "headed"@.len() == 6);
        assert("session"@.len() == 7 && "profile"@.len() == 7 && "restore"@.len() == 7);
        assert("session"@[0] == 's' && "profile"@[0] == 'p' && "restore"@[0] == 'r');
        assert(docs.drop_last() =~= docs.take(7));
        assert(docs.take(7).drop_last() =~= docs.take(6));
        assert(docs.take(6).drop_last() =~= docs.take(5));
        assert(docs.take(5).drop_last() =~= docs.take(4));
        assert(docs.take(4).drop_last() =~= docs.take(3));
        assert(docs.take(3).drop_last() =~= docs.take(2));
        assert(docs.take(2).drop_last() =~= docs.take(1));
        assert(docs.take(1).drop_last() =~= docs.take(0));
        reveal_with_fuel(crate::json::object_of, 9);
    }
    object_value(members)
}

/// An optional part of the description.
pub open spec fn part_text(prefix: Seq<char>, value: Option<Seq<char>>) -> Seq<char> {
    match value {
        Some(text) => prefix + text,
        None => Seq::empty(),
    }
}

/// How the state of the default seed is described.
pub open spec fn status_text(
    seed: Seq<char>,
    status: Option<SeedStatus>,
    source_profile: Option<Seq<char>>,
) -> Seq<char> {
    if status == Some(SeedStatus::Saved) {
        match source_profile {
            Some(source) => "ok, from profile "@ + source,
            None => "ok"@,
        }
    } else {
        "MISSING — run: agent-browser seed save "@ + seed + " --profile <chrome-profile>"@
    }
}

/// How the default seed is described.
pub open spec fn seed_text(d: McpDefaultsView) -> Seq<char> {
    match d.seed {
        Some(seed) => " seed="@ + seed + " ("@ + status_text(seed, d.seed_status, d.source_profile)
            + ")"@,
        None => Seq::empty(),
    }
}

/// Whether sessions start from a clone of the default seed.
pub open spec fn clones_seed(d: McpDefaultsView) -> bool {
    d.seed is Some && d.seed_status == Some(SeedStatus::Saved)
}

/// What the description advises.
pub open spec fn advice_text(d: McpDefaultsView) -> Seq<char> {
    if clones_seed(d) {
        " Do not pass --profile; each session clones this seed. Override with tool seed/profile or extraArgs --no-seed."@
    } else if d.profile is Some {
        " Using --profile (exclusive; prefer --seed for parallel logged-in sessions)."@
    } else if d.seed is None {
        " No login seed/profile."@
    } else {
        Seq::empty()
    }
}

/// The list of what the defaults set.
pub open spec fn settings_text(d: McpDefaultsView) -> Seq<char> {
    "session="@ + d.session + part_text(" namespace="@, d.namespace) + seed_text(d) + part_text(
        " profile="@,
        d.profile,
    ) + (if d.headed {
        " headed"@
    } else {
        Seq::empty()
    }) + part_text(" restore="@, d.restore)
}

/// The description of the defaults.
pub open spec fn instructions_text(d: McpDefaultsView) -> Seq<char> {
    "Defaults: "@ + settings_text(d) + "."@ + advice_text(d)
}

/// An optional part of the description.
fn part(prefix: &str, value: &Option<String>) -> (text: String)
    ensures
        text@ == part_text(prefix@, value.deep_view()),
{
    match value {
        Some(v) => prefix.to_string().concat(v.as_str()),
        None => String::new(),
    }
}

/// Describes the default seed.
fn seed_part(d: &McpDefaults) -> (text: String)
    ensures
        text@ == seed_text(d@),
{
    match &d.seed {
        None => String::new(),
        Some(seed) => {
            let status = match d.seed_status {
                Some(SeedStatus::Saved) => match &d.source_profile {
                    Some(source) => "ok, from profile ".to_string().concat(source.as_str()),
                    None => "ok".to_string(),
                },
                _ => "MISSING — run: agent-browser seed save ".to_string().concat(
                    seed.as_str(),
                ).concat(" --profile <chrome-profile>"),
            };
            " seed=".to_string().concat(seed.as_str()).concat(" (").concat(status.as_str()).concat(
                ")",
            )
        },
    }
}

/// Advises on what to pass, given the defaults.
fn advice(d: &McpDefaults) -> (text: &'static str)
    ensures
        text@ == advice_text(d@),
{
    let saved = match d.seed_status {
        Some(SeedStatus::Saved) => true,
        _ => false,
    };
    if d.seed.is_some() && saved {
        " Do not pass --profile; each session clones this seed. Override with tool seed/profile or extraArgs --no-seed."
    } else if d.profile.is_some() {
        " Using --profile (exclusive; prefer --seed for parallel logged-in sessions)."
    } else if d.seed.is_none() {
        " No login seed/profile."
    } else {
        proof {
            reveal_strlit("");
            assert(""@ =~= Seq::<char>::empty());
        }
        ""
    }
}

/// Describes the defaults to an agent: what they set, and what follows for the flags to pass.
pub fn mcp_defaults_instructions(d: &McpDefaults) -> (text: String)
    ensures
        text@ == instructions_text(d@),
{
    let settings = "session=".to_string().concat(d.session.as_str()).concat(
        part(" namespace=", &d.namespace).as_str(),
    ).concat(seed_part(d).as_str()).concat(part(" profile=", &d.profile).as_str());
    proof {
        reveal_strlit("");
        assert(""@ =~= Seq::<char>::empty());
    }
    let settings = settings.concat(
        if d.headed {
            " headed"
        } else {
            ""
        },
    ).concat(part(" restore=", &d.restore).as_str());
    "Defaults: ".to_string().concat(settings.as_str()).concat(".").concat(advice(d))
}

/// The description always opens with the session.
pub proof fn description_opens_with_session(d: McpDefaultsView)
    ensures
        crate::text::starts_with(instructions_text(d), "Defaults: session="@ + d.session),
{
    reveal_strlit("Defaults: ");
    reveal_strlit("session=");
    reveal_strlit("Defaults: session=");
    let opening = "Defaults: session="@ + d.session;
    assert(instructions_text(d).take(opening.len() as int) =~= opening);
}

/// Of defaults that the environment sets, the description says one of four things about logging
/// in: that sessions clone the seed, that they use the profile, that there is neither, or, where
/// the seed has not been saved and no profile is set, only that the seed is missing.
pub proof fn advice_fits_the_defaults(d: McpDefaultsView)
    requires
        d.well_formed(),
    ensures
        d.seed_status == Some(SeedStatus::Saved) ==> advice_text(d)
            == " Do not pass --profile; each session clones this seed. Override with tool seed/profile or extraArgs --no-seed."@,
        d.seed_status != Some(SeedStatus::Saved) && d.profile is Some ==> advice_text(d)
            == " Using --profile (exclusive; prefer --seed for parallel logged-in sessions)."@,
        d.seed is None && d.profile is None ==> advice_text(d) == " No login seed/profile."@,
        advice_text(d).len() == 0 <==> d.seed_status == Some(SeedStatus::Missing) && d.profile is None,
        d.seed_status == Some(SeedStatus::Missing) ==> seed_text(d) == " seed="@ + d.seed->0
            + " (MISSING — run: agent-browser seed save "@ + d.seed->0
            + " --profile <chrome-profile>)"@,
        d.seed_status == Some(SeedStatus::Saved) ==> seed_text(d) == " seed="@ + d.seed->0
            + " (ok, from profile "@ + d.source_profile->0 + ")"@,
{
    reveal_strlit(
        " Do not pass --profile; each session clones this seed. Override with tool seed/profile or extraArgs --no-seed.",
    );
    reveal_strlit(" Using --profile (exclusive; prefer --seed for parallel logged-in sessions).");
    reveal_strlit(" No login seed/profile.");
    assert(" Do not pass --profile; each session clones this seed. Override with tool seed/profile or extraArgs --no-seed."@.len()
        > 0);
    assert(" Using --profile (exclusive; prefer --seed for parallel logged-in sessions)."@.len() > 0);
    assert(" No login seed/profile."@.len() > 0);
    match d.seed_status {
        Some(SeedStatus::Saved) => {},
        Some(SeedStatus::Missing) => {},
        None => {},
    }
    reveal_strlit(" (MISSING — run: agent-browser seed save ");
    reveal_strlit("MISSING — run: agent-browser seed save ");
    reveal_strlit(" (");
    reveal_strlit(" --profile <chrome-profile>)");
    reveal_strlit(" --profile <chrome-profile>");
    reveal_strlit(")");
    reveal_strlit(" (ok, from profile ");
    reveal_strlit("ok, from profile ");
    if d.seed_status == Some(SeedStatus::Missing) {
        assert(seed_text(d) =~= " seed="@ + d.seed->0
            + " (MISSING — run: agent-browser seed save "@ + d.seed->0
            + " --profile <chrome-profile>)"@);
    }
    if d.seed_status == Some(SeedStatus::Saved) {
        assert(seed_text(d) =~= " seed="@ + d.seed->0 + " (ok, from profile "@
            + d.source_profile->0 + ")"@);
    }
}

} // verus!
