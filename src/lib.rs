//! Validated, environment-aware configuration for a credentialed API client.
//!
//! A client key and secret are held so that the secret never shows through
//! formatting; the deployment environment is a typed capability that yields its
//! endpoints; a builder checks that every field is present before it yields a
//! configuration.

pub mod config;
pub mod environment;
pub mod secret;

pub use config::{Config, ConfigBuilder, Error};
pub use environment::{url_as_str, AtlasEnv, Environment, Prod, Test};
pub use secret::Secret;
