//! Names, the choice between seed and profile, and the description of the defaults.

use agent_browser_seed::defaults::{
    default_seed, defaults_value, env_truthy, mcp_defaults, mcp_defaults_instructions, McpDefaults,
    McpEnvironment, SeedStatus,
};
use agent_browser_seed::metadata::SeedMetadata;
use agent_browser_seed::name::{is_valid_session_name, validate_seed_name};
use agent_browser_seed::selection::{conflict_error, resolve_seed_and_profile, source_label};

fn environment(
    session: Option<&str>,
    namespace: Option<&str>,
    seed: Option<&str>,
    profile: Option<&str>,
    headed: Option<&str>,
    restore: Option<&str>,
) -> McpEnvironment {
    McpEnvironment {
        session: session.map(str::to_string),
        namespace: namespace.map(str::to_string),
        seed: seed.map(str::to_string),
        profile: profile.map(str::to_string),
        headed: headed.map(str::to_string),
        restore: restore.map(str::to_string),
    }
}

fn metadata(name: &str) -> SeedMetadata {
    SeedMetadata {
        name: name.to_string(),
        profile_directory: "Profile 49".to_string(),
        source_profile: "Work".to_string(),
        created_at: "1700000000".to_string(),
    }
}

#[test]
fn test_validate_seed_name() {
    assert!(validate_seed_name("work").is_ok());
    assert!(validate_seed_name("work-login_1").is_ok());
    assert!(validate_seed_name("bad name").is_err());
    assert!(validate_seed_name("").is_err());
}

#[test]
fn test_cli_profile_overrides_env_seed() {
    let mut seed = Some("work".to_string());
    let mut profile = Some("Default".to_string());
    resolve_seed_and_profile(&mut seed, &mut profile, false, true).unwrap();
    assert!(seed.is_none());
    assert_eq!(profile.as_deref(), Some("Default"));
}

#[test]
fn test_cli_seed_overrides_env_profile() {
    let mut seed = Some("work".to_string());
    let mut profile = Some("Default".to_string());
    resolve_seed_and_profile(&mut seed, &mut profile, true, false).unwrap();
    assert_eq!(seed.as_deref(), Some("work"));
    assert!(profile.is_none());
}

#[test]
fn test_both_cli_seed_and_profile_error() {
    let mut seed = Some("work".to_string());
    let mut profile = Some("Default".to_string());
    let err = resolve_seed_and_profile(&mut seed, &mut profile, true, true).unwrap_err();
    assert!(err.contains("Cannot use --seed with --profile"));
    assert!(err.contains("CLI --seed work"));
    assert!(err.contains("CLI --profile Default"));
    assert!(err.contains("--no-seed"));
    assert_eq!(seed.as_deref(), Some("work"));
    assert_eq!(profile.as_deref(), Some("Default"));
}

#[test]
fn test_both_env_seed_and_profile_error() {
    let mut seed = Some("work".to_string());
    let mut profile = Some("Default".to_string());
    let err = resolve_seed_and_profile(&mut seed, &mut profile, false, false).unwrap_err();
    assert!(err.contains("env AGENT_BROWSER_SEED=work"));
    assert!(err.contains("env AGENT_BROWSER_PROFILE=Default"));
}

#[test]
fn test_mcp_defaults_instructions_include_seed() {
    for found in [None, Some(metadata("work"))] {
        let env = environment(Some("work"), Some("work"), Some("work"), None, None, None);
        let text = mcp_defaults_instructions(&mcp_defaults(env, found));
        assert!(text.contains("session=work"), "{text}");
        assert!(text.contains("namespace=work"), "{text}");
        assert!(text.contains("seed=work"), "{text}");
        assert!(
            text.contains("MISSING") || text.contains("Do not pass --profile"),
            "{text}"
        );
    }
}

#[test]
fn invalid_seed_name_is_quoted_in_the_error() {
    assert_eq!(
        validate_seed_name("../x").unwrap_err(),
        "Invalid seed name '../x'. Only alphanumeric characters, hyphens, and underscores are allowed."
    );
}

#[test]
fn session_names_hold_no_path() {
    for name in ["a/b", "a\\b", ".", "..", "c:", "a b", "tab\t", "é", ""] {
        assert!(!is_valid_session_name(name), "{name}");
    }
    for name in ["a", "Z", "0", "-", "_", "az-AZ_09"] {
        assert!(is_valid_session_name(name), "{name}");
    }
}

#[test]
fn empty_values_count_as_unset() {
    let mut seed = Some(String::new());
    let mut profile = Some("Default".to_string());
    assert!(resolve_seed_and_profile(&mut seed, &mut profile, true, true).is_ok());
    assert_eq!(seed, None);
    assert_eq!(profile.as_deref(), Some("Default"));

    let mut seed = Some("work".to_string());
    let mut profile = Some(String::new());
    assert!(resolve_seed_and_profile(&mut seed, &mut profile, false, true).is_ok());
    assert_eq!(seed.as_deref(), Some("work"));
    assert_eq!(profile, None);
}

#[test]
fn resolving_twice_changes_nothing_more() {
    for (seed_explicit, profile_explicit) in [(true, false), (false, true)] {
        let mut seed = Some("work".to_string());
        let mut profile = Some("Default".to_string());
        resolve_seed_and_profile(&mut seed, &mut profile, seed_explicit, profile_explicit).unwrap();
        let once = (seed.clone(), profile.clone());
        resolve_seed_and_profile(&mut seed, &mut profile, seed_explicit, profile_explicit).unwrap();
        assert_eq!((seed, profile), once);
    }
}

#[test]
fn one_side_alone_always_stays() {
    for explicit in [true, false] {
        let mut seed = Some("work".to_string());
        let mut profile = None;
        resolve_seed_and_profile(&mut seed, &mut profile, explicit, !explicit).unwrap();
        assert_eq!(seed.as_deref(), Some("work"));
        let mut seed = None;
        let mut profile = Some("Default".to_string());
        resolve_seed_and_profile(&mut seed, &mut profile, explicit, !explicit).unwrap();
        assert_eq!(profile.as_deref(), Some("Default"));
    }
}

#[test]
fn conflict_message_is_exact() {
    assert_eq!(
        conflict_error(Some("work"), Some("Default"), true, false),
        "Cannot use --seed with --profile.\n  seed: CLI --seed work\n  profile: env AGENT_BROWSER_PROFILE=Default\nOmit --profile to clone the seed, or pass --no-seed to use --profile."
    );
    assert_eq!(
        conflict_error(None, None, true, true),
        "Cannot use --seed with --profile.\n  seed: unset\n  profile: unset\nOmit --profile to clone the seed, or pass --no-seed to use --profile."
    );
}

#[test]
fn labels_name_the_source() {
    assert_eq!(source_label(None, true, "VAR", "--flag"), "unset");
    assert_eq!(source_label(Some("v"), true, "VAR", "--flag"), "CLI --flag v");
    assert_eq!(source_label(Some("v"), false, "VAR", "--flag"), "env VAR=v");
}

#[test]
fn truthy_values() {
    for value in ["1", "true", "TRUE", "yes", "YES", " 1", "\tyes\n", "\u{3000}true\u{a0}"] {
        assert!(env_truthy(Some(value)), "{value:?}");
    }
    for value in ["", "0", "True", "Yes", "on", "1 1", "  ", "\u{200b}1"] {
        assert!(!env_truthy(Some(value)), "{value:?}");
    }
    assert!(!env_truthy(None));
}

#[test]
fn defaults_of_an_empty_environment() {
    let d = mcp_defaults(
        environment(Some(""), Some(""), Some(""), Some(""), Some(""), Some("")),
        Some(metadata("ignored")),
    );
    assert_eq!(d.session, "default");
    assert_eq!(d.namespace, None);
    assert_eq!(d.seed, None);
    assert_eq!(d.seed_status, None);
    assert_eq!(d.source_profile, None);
    assert_eq!(d.profile, None);
    assert!(!d.headed);
    assert_eq!(d.restore, None);
    assert_eq!(
        mcp_defaults_instructions(&d),
        "Defaults: session=default. No login seed/profile."
    );
    assert_eq!(
        defaults_value(&d).to_string(),
        r#"{"headed":false,"namespace":null,"profile":null,"restore":null,"seed":null,"seedStatus":null,"session":"default","sourceProfile":null}"#
    );
}

#[test]
fn default_seed_is_looked_up_only_if_set() {
    let env = environment(None, None, Some("work"), None, None, None);
    assert_eq!(default_seed(&env), Some("work"));
    let env = environment(None, None, Some(""), None, None, None);
    assert_eq!(default_seed(&env), None);
    let env = environment(None, None, None, None, None, None);
    assert_eq!(default_seed(&env), None);
}

#[test]
fn defaults_with_a_saved_seed() {
    let env = environment(
        Some("s"),
        Some("n"),
        Some("work"),
        Some("Default"),
        Some(" yes "),
        Some("tabs"),
    );
    let d = mcp_defaults(env, Some(metadata("work")));
    assert_eq!(d.seed_status, Some(SeedStatus::Saved));
    assert_eq!(d.source_profile.as_deref(), Some("Work"));
    assert_eq!(
        mcp_defaults_instructions(&d),
        "Defaults: session=s namespace=n seed=work (ok, from profile Work) profile=Default headed restore=tabs. Do not pass --profile; each session clones this seed. Override with tool seed/profile or extraArgs --no-seed."
    );
    assert_eq!(
        defaults_value(&d).to_string(),
        r#"{"headed":true,"namespace":"n","profile":"Default","restore":"tabs","seed":"work","seedStatus":"ok","session":"s","sourceProfile":"Work"}"#
    );
}

#[test]
fn defaults_with_a_missing_seed() {
    let d = mcp_defaults(environment(None, None, Some("work"), None, None, None), None);
    assert_eq!(d.seed_status, Some(SeedStatus::Missing));
    assert_eq!(
        mcp_defaults_instructions(&d),
        "Defaults: session=default seed=work (MISSING — run: agent-browser seed save work --profile <chrome-profile>)."
    );
    assert_eq!(
        defaults_value(&d).to_string(),
        r#"{"headed":false,"namespace":null,"profile":null,"restore":null,"seed":"work","seedStatus":"missing","session":"default","sourceProfile":null}"#
    );
}

#[test]
fn defaults_with_a_profile() {
    let advice = " Using --profile (exclusive; prefer --seed for parallel logged-in sessions).";
    let d = mcp_defaults(environment(None, None, None, Some("Default"), None, None), None);
    assert_eq!(
        mcp_defaults_instructions(&d),
        format!("Defaults: session=default profile=Default.{advice}")
    );
    let env = environment(None, None, Some("work"), Some("Default"), None, None);
    assert!(mcp_defaults_instructions(&mcp_defaults(env, None)).ends_with(advice));
}

#[test]
fn saved_seed_without_a_source_profile() {
    let d = McpDefaults {
        session: "s".to_string(),
        namespace: None,
        seed: Some("work".to_string()),
        seed_status: Some(SeedStatus::Saved),
        source_profile: None,
        profile: None,
        headed: false,
        restore: None,
    };
    assert!(mcp_defaults_instructions(&d).starts_with("Defaults: session=s seed=work (ok). Do not"));
}
