//! Scheme-based provider dispatch.

use vstd::prelude::*;
use crate::error::ConfigError;
use crate::location::StoreLocation;
use crate::options::ObjectStoreParams;
use crate::provider::{new_store_post, CosStoreProvider};
use crate::store::ObjectStore;
use crate::strutil::{lower_seq, str_eq, to_lower};

verus! {

/// Maps a location's scheme to the provider responsible for it.  Scheme
/// comparison is case-insensitive; registration is fixed, so an unknown
/// scheme fails clearly.
#[derive(Default, Debug)]
pub struct ObjectStoreRegistry;

impl ObjectStoreRegistry {
    pub fn new() -> (r: Self) {
        ObjectStoreRegistry
    }

    /// Selects the provider registered for the scheme, or fails with an
    /// `UnsupportedScheme` error carrying the offending scheme.
    pub fn resolve(&self, scheme: &str) -> (r: Result<CosStoreProvider, ConfigError>)
        ensures
            (lower_seq(scheme@) == "cos"@) <==> r is Ok,
            r matches Err(e) ==> e matches ConfigError::UnsupportedScheme(m) && m@ == scheme@,
    {
        let lowered = to_lower(scheme);
        if str_eq(lowered.as_str(), "cos") {
            Ok(CosStoreProvider)
        } else {
            Err(ConfigError::UnsupportedScheme(scheme.to_owned()))
        }
    }

    /// Dispatches handle construction to the provider registered for the
    /// location's scheme.
    pub fn build_store(
        &self,
        location: &StoreLocation,
        params: &ObjectStoreParams,
        env: &Vec<(String, String)>,
    ) -> (r: Result<ObjectStore, ConfigError>)
        ensures
            lower_seq(location.scheme@) != "cos"@ ==> (r matches Err(e) && e matches ConfigError::UnsupportedScheme(m) && m@ == location.scheme@),
            lower_seq(location.scheme@) == "cos"@ ==> new_store_post(r, *location, *params, env@),
    {
        match self.resolve(location.scheme.as_str()) {
            Ok(provider) => provider.new_store(location, params, env),
            Err(e) => Err(e),
        }
    }
}

} // verus!
