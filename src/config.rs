use std::sync::Arc;
use vstd::prelude::*;

use crate::environment::{ascii_lowercase, env_view_of, AtlasEnv, Environment, EnvironmentView, Prod, Test};
use crate::secret::Secret;

verus! {

/// Why a configuration could not be made.
#[non_exhaustive]
#[derive(Debug, Clone, Copy, PartialEq, Eq, Hash, PartialOrd, Ord, Structural)]
pub enum Error {
    /// The environment variable is unset, or names no known environment.
    ParseEnvironment,
    /// The builder holds no secret.
    MissingSecret,
    /// The builder holds no key.
    MissingKey,
    /// The builder holds no environment.
    MissingEnvironment,
}

/// The name of each error kind, which is also its textual form.
pub open spec fn error_name(e: Error) -> Seq<char> {
    match e {
        Error::ParseEnvironment => "ParseEnvironment"@,
        Error::MissingSecret => "MissingSecret"@,
        Error::MissingKey => "MissingKey"@,
        Error::MissingEnvironment => "MissingEnvironment"@,
    }
}

impl Error {
    /// The textual form of the error: the name of its kind.
    pub fn to_string(&self) -> (r: String)
        ensures
            r@ == error_name(*self),
    {
        match self {
            Error::ParseEnvironment => String::from_str("ParseEnvironment"),
            Error::MissingSecret => String::from_str("MissingSecret"),
            Error::MissingKey => String::from_str("MissingKey"),
            Error::MissingEnvironment => String::from_str("MissingEnvironment"),
        }
    }
}

/// What a configuration holds: its environment, its key and its secret.
pub struct ConfigView {
    pub environment: EnvironmentView,
    pub key: Seq<char>,
    pub secret: Seq<char>,
}

/// Two configurations are equal when their environment tags, their keys and
/// their secrets are; nothing else of the environment is compared.
pub open spec fn config_eq(a: ConfigView, b: ConfigView) -> bool {
    &&& a.environment.tag == b.environment.tag
    &&& a.key == b.key
    &&& a.secret == b.secret
}

/// Configurations that agree on environment tag and key are equal exactly
/// when their secrets are equal.
pub proof fn lemma_secret_decides_equality(a: ConfigView, b: ConfigView)
    requires
        a.environment.tag == b.environment.tag,
        a.key == b.key,
    ensures
        config_eq(a, b) <==> a.secret == b.secret,
{
}

/// Replacing the secret of a configuration with `s` leaves one that equals the
/// earlier state exactly when `s` was already the secret, and whose secret is
/// `s`.
pub proof fn lemma_set_secret_equality(before: ConfigView, s: Seq<char>)
    ensures
        config_eq(before, ConfigView { secret: s, ..before }) <==> before.secret == s,
        (ConfigView { secret: s, ..before }).secret == s,
{
}

/// The configuration of an API client: an environment, a key and a secret.
#[derive(Clone)]
pub struct Config {
    environment: Arc<Environment>,
    key: String,
    secret: Secret<String>,
}

impl View for Config {
    type V = ConfigView;

    closed spec fn view(&self) -> ConfigView {
        ConfigView { environment: (*self.environment)@, key: self.key@, secret: self.secret.0@ }
    }
}

impl PartialEq for Config {
    fn eq(&self, other: &Config) -> (r: bool)
        ensures
            r == config_eq(self@, other@),
    {
        let same_env = String::from_str(self.environment_str()) == String::from_str(
            other.environment_str(),
        );
        same_env && self.key == other.key && self.secret.0 == other.secret.0
    }
}

impl vstd::std_specs::cmp::PartialEqSpecImpl for Config {
    open spec fn obeys_eq_spec() -> bool {
        true
    }

    open spec fn eq_spec(&self, other: &Config) -> bool {
        config_eq(self@, other@)
    }
}

impl Config {
    /// The name of the variable that holds the environment tag.
    pub const ATLAS_ENV_VAR: &'static str = "ATLAS_ENV";

    /// The name of the variable that holds the key.
    pub const ATLAS_KEY_VAR: &'static str = "ATLAS_KEY";

    /// The name of the variable that holds the secret.
    pub const ATLAS_SECRET_VAR: &'static str = "ATLAS_SECRET";

    /// Makes a configuration from an environment variant, a key and a secret.
    pub fn new<E: AtlasEnv>(environment: E, key: &str, secret: &str) -> (r: Self)
        ensures
            r@ == (ConfigView { environment: env_view_of::<E>(), key: key@, secret: secret@ }),
    {
        Config {
            environment: Arc::new(Environment::of(environment)),
            key: String::from_str(key),
            secret: Secret(String::from_str(secret)),
        }
    }

    /// A builder with no field set.
    pub fn builder() -> (r: ConfigBuilder)
        ensures
            r@ == empty_builder(),
    {
        ConfigBuilder::new()
    }

    /// Makes a configuration from the values of the three environment
    /// variables (`None` for one that is unset): the environment, the key and
    /// the secret are loaded in that order, then built.
    ///
    /// Fails with `ParseEnvironment` exactly when a variable is unset or the
    /// environment tag names no known environment.
    pub fn from_env(env: Option<&str>, key: Option<&str>, secret: Option<&str>) -> (r: Result<
        Self,
        Error,
    >)
        ensures
            r is Ok <==> {
                &&& env is Some
                &&& resolve_environment(env->Some_0@) is Some
                &&& key is Some
                &&& secret is Some
            },
            r is Err ==> r->Err_0 == Error::ParseEnvironment,
            r is Ok ==> r->Ok_0@ == (ConfigView {
                environment: resolve_environment(env->Some_0@)->Some_0,
                key: key->Some_0@,
                secret: secret->Some_0@,
            }),
    {
        let mut builder = Self::builder();
        builder.environment_from_env(env)?.key_from_env(key)?.secret_from_env(secret)?.build()
    }

    /// Replaces the environment.
    pub fn set_environment<E: AtlasEnv>(&mut self, environment: E)
        ensures
            final(self)@ == (ConfigView { environment: env_view_of::<E>(), ..old(self)@ }),
    {
        self.environment = Arc::new(Environment::of(environment));
    }

    /// The environment.
    pub fn environment(&self) -> (r: &Environment)
        ensures
            r@ == self@.environment,
    {
        &self.environment
    }

    /// The tag of the environment.
    pub fn environment_str(&self) -> (r: &str)
        ensures
            r@ == self@.environment.tag,
    {
        self.environment.tag()
    }

    /// Reveals the secret. Handle the result with care: it is the one place
    /// where the secret leaves its wrapper.
    pub fn expose_secret(&self) -> (r: &str)
        ensures
            r@ == self@.secret,
    {
        self.secret.expose().as_str()
    }

    /// The key.
    pub fn key(&self) -> (r: &str)
        ensures
            r@ == self@.key,
    {
        self.key.as_str()
    }

    /// Replaces the key.
    pub fn set_key(&mut self, key: &str)
        ensures
            final(self)@ == (ConfigView { key: key@, ..old(self)@ }),
    {
        self.key = String::from_str(key);
    }

    /// Replaces the secret.
    pub fn set_secret(&mut self, secret: &str)
        ensures
            final(self)@ == (ConfigView { secret: secret@, ..old(self)@ }),
    {
        self.secret = Secret(String::from_str(secret));
    }
}

/// What a builder holds: each field, if it was set.
pub struct BuilderView {
    pub environment: Option<EnvironmentView>,
    pub key: Option<Seq<char>>,
    pub secret: Option<Seq<char>>,
}

/// An accumulator of the fields of a configuration, checked by `build`.
pub struct ConfigBuilder {
    environment: Option<Arc<Environment>>,
    key: Option<String>,
    secret: Option<Secret<String>>,
}

impl View for ConfigBuilder {
    type V = BuilderView;

    closed spec fn view(&self) -> BuilderView {
        BuilderView {
            environment: match self.environment {
                Some(e) => Some((*e)@),
                None => None,
            },
            key: match self.key {
                Some(k) => Some(k@),
                None => None,
            },
            secret: match self.secret {
                Some(s) => Some(s.0@),
                None => None,
            },
        }
    }
}

/// The builder view with no field set.
pub open spec fn empty_builder() -> BuilderView {
    BuilderView { environment: None, key: None, secret: None }
}

/// The known environment whose tag `v` names, ignoring ASCII case; the test
/// environment is tried first, then production.
pub open spec fn resolve_environment(v: Seq<char>) -> Option<EnvironmentView> {
    if ascii_lowercase(v) == Test::spec_tag() {
        Some(env_view_of::<Test>())
    } else if ascii_lowercase(v) == Prod::spec_tag() {
        Some(env_view_of::<Prod>())
    } else {
        None
    }
}

/// The test parser matches exactly the strings whose ASCII lowercasing is
/// "test", the production parser exactly those whose lowercasing is "prod";
/// resolution picks the one that matches, and any other string matches
/// neither.
pub proof fn lemma_resolution_partition(v: Seq<char>)
    ensures
        resolve_environment(v) == Some(env_view_of::<Test>()) <==> ascii_lowercase(v) == "test"@,
        resolve_environment(v) == Some(env_view_of::<Prod>()) <==> ascii_lowercase(v) == "prod"@,
        resolve_environment(v) is None <==> (ascii_lowercase(v) != "test"@ && ascii_lowercase(v)
            != "prod"@),
{
    reveal_strlit("test");
    reveal_strlit("prod");
    reveal_strlit("fps.test.atlasground.com");
    reveal_strlit("fps.atlasground.com");
    assert("test"@ != "prod"@) by {
        assert("test"@[0] != "prod"@[0]);
    }
    assert(env_view_of::<Test>() != env_view_of::<Prod>()) by {
        assert(env_view_of::<Test>().fps_host.len() != env_view_of::<Prod>().fps_host.len());
    }
}

impl Default for ConfigBuilder {
    fn default() -> (r: Self)
        ensures
            r@ == empty_builder(),
    {
        ConfigBuilder::new()
    }
}

impl ConfigBuilder {
    /// A builder with no field set.
    pub fn new() -> (r: Self)
        ensures
            r@ == empty_builder(),
    {
        ConfigBuilder { environment: None, key: None, secret: None }
    }

    /// Sets the environment, replacing any earlier one.
    pub fn environment<E: AtlasEnv>(&mut self, environment: E) -> (r: &mut Self)
        ensures
            r@ == (BuilderView { environment: Some(env_view_of::<E>()), ..old(self)@ }),
            *final(self) == *final(r),
    {
        self.environment = Some(Arc::new(Environment::of(environment)));
        self
    }

    /// Sets the secret, replacing any earlier one.
    pub fn secret(&mut self, secret: &str) -> (r: &mut Self)
        ensures
            r@ == (BuilderView { secret: Some(secret@), ..old(self)@ }),
            *final(self) == *final(r),
    {
        self.secret = Some(Secret(String::from_str(secret)));
        self
    }

    /// Sets the key, replacing any earlier one.
    pub fn key(&mut self, key: &str) -> (r: &mut Self)
        ensures
            r@ == (BuilderView { key: Some(key@), ..old(self)@ }),
            *final(self) == *final(r),
    {
        self.key = Some(String::from_str(key));
        self
    }

    /// Sets the environment from `var`, the value of the environment variable
    /// named by `Config::ATLAS_ENV_VAR` (`None` when it is unset).
    ///
    /// Fails with `ParseEnvironment`, leaving the builder as it was, when the
    /// variable is unset or names no known environment.
    pub fn environment_from_env(&mut self, var: Option<&str>) -> (r: Result<&mut Self, Error>)
        ensures
            match r {
                Ok(b) => {
                    &&& var is Some
                    &&& resolve_environment(var->Some_0@) is Some
                    &&& b@ == (BuilderView {
                        environment: resolve_environment(var->Some_0@),
                        ..old(self)@
                    })
                    &&& *final(self) == *final(b)
                },
                Err(e) => {
                    &&& e == Error::ParseEnvironment
                    &&& (var is None || resolve_environment(var->Some_0@) is None)
                    &&& *final(self) == *old(self)
                },
            },
    {
        let v = match var {
            Some(v) => v,
            None => return Err(Error::ParseEnvironment),
        };
        if let Some(env) = Test::from_str(v) {
            return Ok(self.environment(env));
        }
        if let Some(env) = Prod::from_str(v) {
            return Ok(self.environment(env));
        }
        Err(Error::ParseEnvironment)
    }

    /// Sets the secret from `var`, the value of the environment variable named
    /// by `Config::ATLAS_SECRET_VAR` (`None` when it is unset); fails with
    /// `ParseEnvironment`, leaving the builder as it was, when it is unset.
    pub fn secret_from_env(&mut self, var: Option<&str>) -> (r: Result<&mut Self, Error>)
        ensures
            match r {
                Ok(b) => {
                    &&& var is Some
                    &&& b@ == (BuilderView { secret: Some(var->Some_0@), ..old(self)@ })
                    &&& *final(self) == *final(b)
                },
                Err(e) => {
                    &&& e == Error::ParseEnvironment
                    &&& var is None
                    &&& *final(self) == *old(self)
                },
            },
    {
        match var {
            Some(v) => Ok(self.secret(v)),
            None => Err(Error::ParseEnvironment),
        }
    }

    /// Sets the key from `var`, the value of the environment variable named by
    /// `Config::ATLAS_KEY_VAR` (`None` when it is unset); fails with
    /// `ParseEnvironment`, leaving the builder as it was, when it is unset.
    pub fn key_from_env(&mut self, var: Option<&str>) -> (r: Result<&mut Self, Error>)
        ensures
            match r {
                Ok(b) => {
                    &&& var is Some
                    &&& b@ == (BuilderView { key: Some(var->Some_0@), ..old(self)@ })
                    &&& *final(self) == *final(b)
                },
                Err(e) => {
                    &&& e == Error::ParseEnvironment
                    &&& var is None
                    &&& *final(self) == *old(self)
                },
            },
    {
        match var {
            Some(v) => Ok(self.key(v)),
            None => Err(Error::ParseEnvironment),
        }
    }

    /// Takes the fields out of the builder and makes a configuration of them.
    ///
    /// All three fields are taken together, so the builder is empty afterwards
    /// whatever the outcome. The first missing one, in the order environment,
    /// key, secret, gives its error.
    pub fn build(&mut self) -> (r: Result<Config, Error>)
        ensures
            final(self)@ == empty_builder(),
            match (old(self)@.environment, old(self)@.key, old(self)@.secret) {
                (Some(e), Some(k), Some(s)) => {
                    &&& r is Ok
                    &&& r->Ok_0@ == (ConfigView { environment: e, key: k, secret: s })
                },
                (None, _, _) => r == Err::<Config, Error>(Error::MissingEnvironment),
                (Some(_), None, _) => r == Err::<Config, Error>(Error::MissingKey),
                (Some(_), Some(_), None) => r == Err::<Config, Error>(Error::MissingSecret),
            },
    {
        let environment = self.environment.take();
        let key = self.key.take();
        let secret = self.secret.take();
        match (environment, key, secret) {
            (None, _, _) => Err(Error::MissingEnvironment),
            (Some(_), None, _) => Err(Error::MissingKey),
            (Some(_), Some(_), None) => Err(Error::MissingSecret),
            (Some(environment), Some(key), Some(secret)) => Ok(Config { environment, key, secret }),
        }
    }
}

} // verus!
