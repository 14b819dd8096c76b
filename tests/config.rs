use freedom_config::{url_as_str, AtlasEnv, Config, ConfigBuilder, Error, Prod, Test};

#[test]
fn build_with_all_fields_succeeds() {
    let config = Config::builder()
        .environment(Test)
        .key("my_key")
        .secret("my_secret")
        .build()
        .unwrap();
    assert_eq!(config.environment_str(), "test");
    assert_eq!(config.key(), "my_key");
    assert_eq!(config.expose_secret(), "my_secret");
    assert!(config == Config::new(Test, "my_key", "my_secret"));
}

#[test]
fn build_without_environment_fails() {
    let result = Config::builder().key("k").secret("s").build();
    assert_eq!(result.err(), Some(Error::MissingEnvironment));
}

#[test]
fn build_without_key_fails() {
    let result = Config::builder().environment(Test).secret("s").build();
    assert_eq!(result.err(), Some(Error::MissingKey));
}

#[test]
fn build_without_secret_fails() {
    let result = Config::builder().environment(Prod).key("k").build();
    assert_eq!(result.err(), Some(Error::MissingSecret));
}

#[test]
fn build_on_empty_builder_reports_environment_first() {
    let mut builder = ConfigBuilder::new();
    assert_eq!(builder.build().err(), Some(Error::MissingEnvironment));
    let mut builder = ConfigBuilder::default();
    assert_eq!(builder.build().err(), Some(Error::MissingEnvironment));
}

#[test]
fn build_takes_the_fields() {
    let mut builder = Config::builder();
    builder.environment(Test).key("k").secret("s");
    assert!(builder.build().is_ok());
    assert_eq!(builder.build().err(), Some(Error::MissingEnvironment));
    builder.environment(Prod);
    assert_eq!(builder.build().err(), Some(Error::MissingKey));
}

#[test]
fn failed_build_clears_all_fields() {
    let mut builder = Config::builder();
    builder.environment(Test).secret("s");
    assert_eq!(builder.build().err(), Some(Error::MissingKey));
    builder.environment(Test).key("k");
    assert_eq!(builder.build().err(), Some(Error::MissingSecret));
    builder.key("k");
    assert_eq!(builder.build().err(), Some(Error::MissingEnvironment));
}

#[test]
fn config_keeps_the_variant_entrypoint() {
    let config = Config::new(Prod, "k", "s");
    let url = config.environment().freedom_entrypoint();
    assert_eq!(url_as_str(&url), "https://api.atlasground.com/api");
    assert_eq!(url, Prod.freedom_entrypoint());
}

#[test]
fn later_setters_overwrite_earlier_ones() {
    let config = Config::builder()
        .environment(Test)
        .environment(Prod)
        .key("a")
        .key("b")
        .secret("x")
        .secret("y")
        .build()
        .unwrap();
    assert!(config == Config::new(Prod, "b", "y"));
}

#[test]
fn from_env_with_all_variables_matches_direct_construction() {
    let config = Config::from_env(Some("prod"), Some("k1"), Some("s1")).unwrap();
    assert!(config == Config::new(Prod, "k1", "s1"));
    assert_eq!(config.environment_str(), "prod");
    assert_eq!(config.environment().fps_host(), "fps.atlasground.com");
}

#[test]
fn from_env_without_environment_is_parse_error() {
    let result = Config::from_env(None, Some("k1"), Some("s1"));
    assert_eq!(result.err(), Some(Error::ParseEnvironment));
}

#[test]
fn from_env_with_unknown_environment_is_parse_error() {
    let result = Config::from_env(Some("staging"), Some("k1"), Some("s1"));
    assert_eq!(result.err(), Some(Error::ParseEnvironment));
}

#[test]
fn from_env_without_key_or_secret_is_parse_error() {
    assert_eq!(
        Config::from_env(Some("test"), None, Some("s1")).err(),
        Some(Error::ParseEnvironment)
    );
    assert_eq!(
        Config::from_env(Some("test"), Some("k1"), None).err(),
        Some(Error::ParseEnvironment)
    );
}

#[test]
fn from_env_ignores_case_of_environment() {
    let config = Config::from_env(Some("TEST"), Some("k"), Some("s")).unwrap();
    assert_eq!(config.environment_str(), "test");
}

#[test]
fn environment_loader_resolves_test_then_prod() {
    let mut builder = Config::builder();
    builder.environment_from_env(Some("Prod")).unwrap().key("k").secret("s");
    assert_eq!(builder.build().unwrap().environment_str(), "prod");
    let mut builder = Config::builder();
    builder.environment_from_env(Some("test")).unwrap().key("k").secret("s");
    assert_eq!(builder.build().unwrap().environment_str(), "test");
}

#[test]
fn failed_environment_loader_leaves_builder_unchanged() {
    let mut builder = Config::builder();
    builder.environment(Test).key("k").secret("s");
    assert_eq!(builder.environment_from_env(Some("nowhere")).err(), Some(Error::ParseEnvironment));
    assert_eq!(builder.environment_from_env(None).err(), Some(Error::ParseEnvironment));
    assert_eq!(builder.key_from_env(None).err(), Some(Error::ParseEnvironment));
    assert_eq!(builder.secret_from_env(None).err(), Some(Error::ParseEnvironment));
    assert!(builder.build().unwrap() == Config::new(Test, "k", "s"));
}

#[test]
fn key_and_secret_loaders_take_values_verbatim() {
    let mut builder = Config::builder();
    builder
        .environment(Test)
        .key_from_env(Some(" Key With Spaces "))
        .unwrap()
        .secret_from_env(Some(""))
        .unwrap();
    let config = builder.build().unwrap();
    assert_eq!(config.key(), " Key With Spaces ");
    assert_eq!(config.expose_secret(), "");
}

#[test]
fn configs_differing_only_in_secret_are_unequal() {
    let a = Config::new(Test, "k", "s1");
    let b = Config::new(Test, "k", "s2");
    assert!(a != b);
}

#[test]
fn set_secret_flips_equality_and_exposes_new_value() {
    let before = Config::new(Test, "k", "old");
    let mut after = before.clone();
    assert!(before == after);
    after.set_secret("new");
    assert!(before != after);
    assert_eq!(after.expose_secret(), "new");
    after.set_secret("old");
    assert!(before == after);
}

#[test]
fn set_key_and_set_environment_replace_fields() {
    let mut config = Config::new(Test, "key", "password");
    config.set_key("top secret");
    assert_eq!(config.key(), "top secret");
    config.set_environment(Prod);
    assert_eq!(config.environment_str(), "prod");
    assert_eq!(config.environment().freedom_entrypoint().as_str(), "https://api.atlasground.com/api");
    assert!(config == Config::new(Prod, "top secret", "password"));
}

#[test]
fn configs_in_different_environments_are_unequal() {
    assert!(Config::new(Test, "k", "s") != Config::new(Prod, "k", "s"));
    assert!(Config::new(Test, "k", "s") != Config::new(Test, "k2", "s"));
}

#[test]
fn variable_names() {
    assert_eq!(Config::ATLAS_ENV_VAR, "ATLAS_ENV");
    assert_eq!(Config::ATLAS_KEY_VAR, "ATLAS_KEY");
    assert_eq!(Config::ATLAS_SECRET_VAR, "ATLAS_SECRET");
}

#[test]
fn error_text_is_kind_name() {
    assert_eq!(Error::ParseEnvironment.to_string(), "ParseEnvironment");
    assert_eq!(Error::MissingSecret.to_string(), "MissingSecret");
    assert_eq!(Error::MissingKey.to_string(), "MissingKey");
    assert_eq!(Error::MissingEnvironment.to_string(), "MissingEnvironment");
}
