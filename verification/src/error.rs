//! Errors surfaced by handle construction.

use vstd::prelude::*;

verus! {

/// Why a store handle could not be built.  Every variant carries a
/// human-readable message; the input-validation variants name the exact
/// configuration key or environment variable to set.
#[derive(Debug, PartialEq, Eq)]
pub enum ConfigError {
    /// The location has no host, so no bucket name is available.
    MissingBucket(String),
    /// No endpoint was supplied by any configuration source.
    MissingEndpoint(String),
    /// No provider is registered for the location's scheme.
    UnsupportedScheme(String),
    /// The transport collaborator rejected the resolved configuration.
    BackendConstructionFailed(String),
}

impl ConfigError {
    pub open spec fn spec_message(&self) -> Seq<char> {
        match self {
            ConfigError::MissingBucket(m) => m@,
            ConfigError::MissingEndpoint(m) => m@,
            ConfigError::UnsupportedScheme(m) => m@,
            ConfigError::BackendConstructionFailed(m) => m@,
        }
    }

    pub fn message(&self) -> (r: &String)
        ensures
            r@ == self.spec_message(),
    {
        match self {
            ConfigError::MissingBucket(m) => m,
            ConfigError::MissingEndpoint(m) => m,
            ConfigError::UnsupportedScheme(m) => m,
            ConfigError::BackendConstructionFailed(m) => m,
        }
    }
}

} // verus!
