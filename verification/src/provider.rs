//! The COS provider: turns a location and options into a store handle.

use vstd::prelude::*;
use vstd::string::*;
use crate::config::ConfigMap;
use crate::error::ConfigError;
use crate::location::{spec_normalized_path, StoreLocation};
use crate::options::{spec_params_options, spec_retry_count, ObjectStoreParams, StorageOptions};
use crate::resolve::{resolve_config, spec_resolved_config};
use crate::store::{
    ObjectStore, DEFAULT_CLOUD_BLOCK_SIZE, DEFAULT_CLOUD_IO_PARALLELISM, DEFAULT_MAX_IOP_SIZE,
};
use crate::strutil::trimmed;
use crate::transport::{cos_factory_accepts, cos_operator_from, opendal_error_text, opendal_store_new};

verus! {

/// The provider for the COS backend family.
#[derive(Default, Debug)]
pub struct CosStoreProvider;

/// The remediation text for a location with no host.
pub open spec fn missing_bucket_message() -> Seq<char> {
    "COS URL must contain bucket name"@
}

/// The remediation text when no source supplies an endpoint.
pub open spec fn missing_endpoint_message() -> Seq<char> {
    "COS endpoint is required. Please provide 'cos_endpoint' in storage options or set COS_ENDPOINT environment variable"@
}

/// The fixed prefix of the message that carries the transport collaborator's
/// diagnostic when it rejects the configuration.
pub open spec fn backend_failure_prefix() -> Seq<char> {
    "Failed to create COS operator: "@
}

/// How the fields of a freshly built handle relate to the request.
pub open spec fn store_matches(
    s: ObjectStore,
    location: StoreLocation,
    params: ObjectStoreParams,
    opts: Map<Seq<char>, Seq<char>>,
) -> bool {
    &&& s.scheme@ == "cos"@
    &&& s.block_size == (match params.block_size {
        Some(b) => b,
        None => DEFAULT_CLOUD_BLOCK_SIZE,
    })
    &&& s.max_iop_size == DEFAULT_MAX_IOP_SIZE
    &&& s.use_constant_size_upload_parts == params.use_constant_size_upload_parts
    &&& s.list_is_lexically_ordered == (match params.list_is_lexically_ordered {
        Some(b) => b,
        None => true,
    })
    &&& s.io_parallelism == DEFAULT_CLOUD_IO_PARALLELISM
    &&& s.download_retry_count == spec_retry_count(opts)
    &&& s.store_prefix@ == trimmed(spec_normalized_path(location.path@))
}

/// The contract of handle construction.  Validation errors come exactly on
/// the inputs that miss a required value; when the merged configuration is
/// complete, the result is a handle with the resolved tuning parameters,
/// unless the transport collaborator rejects the configuration.
pub open spec fn new_store_post(
    r: Result<ObjectStore, ConfigError>,
    location: StoreLocation,
    params: ObjectStoreParams,
    env: Seq<(String, String)>,
) -> bool {
    let opts = spec_params_options(params);
    let resolved = spec_resolved_config(env, location.host@, location.path@, opts);
    let host_ok = location.host@.len() > 0;
    let endpoint_ok = resolved.contains_key("endpoint"@);
    &&& (!host_ok <==> r matches Err(ConfigError::MissingBucket(_)))
    &&& ((host_ok && !endpoint_ok) <==> r matches Err(ConfigError::MissingEndpoint(_)))
    &&& (r matches Err(ConfigError::MissingBucket(m)) ==> m@ == missing_bucket_message())
    &&& (r matches Err(ConfigError::MissingEndpoint(m)) ==> m@ == missing_endpoint_message())
    &&& ((host_ok && endpoint_ok && cos_factory_accepts(resolved)) <==> r matches Ok(_))
    &&& ((host_ok && endpoint_ok && !cos_factory_accepts(resolved)) <==> r matches Err(
        ConfigError::BackendConstructionFailed(_),
    ))
    &&& (r matches Err(ConfigError::BackendConstructionFailed(m)) ==> m@.len()
        >= backend_failure_prefix().len() && m@.subrange(
        0,
        backend_failure_prefix().len() as int,
    ) == backend_failure_prefix())
    &&& (r matches Ok(s) ==> host_ok && endpoint_ok && store_matches(s, location, params, opts))
}

impl CosStoreProvider {
    /// Builds a store handle for the location, or fails with a precise
    /// validation error.  `env` is the caller's snapshot of the process
    /// environment, taken once per call.
    pub fn new_store(
        &self,
        location: &StoreLocation,
        params: &ObjectStoreParams,
        env: &Vec<(String, String)>,
    ) -> (r: Result<ObjectStore, ConfigError>)
        ensures
            new_store_post(r, *location, *params, env@),
    {
        let block_size = match params.block_size {
            Some(b) => b,
            None => DEFAULT_CLOUD_BLOCK_SIZE,
        };
        let empty_options = StorageOptions::new();
        let storage_options = match &params.storage_options {
            Some(o) => o,
            None => &empty_options,
        };
        if location.host.as_str().is_empty() {
            return Err(
                ConfigError::MissingBucket(String::from_str("COS URL must contain bucket name")),
            );
        }
        let cfg = resolve_config(env, &location.host, location.path.as_str(), storage_options);
        if !cfg.contains_key("endpoint") {
            return Err(
                ConfigError::MissingEndpoint(
                    String::from_str(
                        "COS endpoint is required. Please provide 'cos_endpoint' in storage options or set COS_ENDPOINT environment variable",
                    ),
                ),
            );
        }
        let operator = match cos_operator_from(&cfg) {
            Ok(op) => op,
            Err(e) => {
                let text = String::from_str("Failed to create COS operator: ").concat(
                    opendal_error_text(&e).as_str(),
                );
                proof {
                    assert(text@.subrange(0, backend_failure_prefix().len() as int)
                        =~= backend_failure_prefix());
                }
                return Err(ConfigError::BackendConstructionFailed(text));
            },
        };
        let store = opendal_store_new(operator);
        let normalized = location.normalized();
        let store_prefix = normalized.extract_path();
        Ok(
            ObjectStore {
                scheme: String::from_str("cos"),
                inner: store,
                block_size,
                max_iop_size: DEFAULT_MAX_IOP_SIZE,
                use_constant_size_upload_parts: params.use_constant_size_upload_parts,
                list_is_lexically_ordered: match params.list_is_lexically_ordered {
                    Some(b) => b,
                    None => true,
                },
                io_parallelism: DEFAULT_CLOUD_IO_PARALLELISM,
                download_retry_count: storage_options.download_retry_count(),
                store_prefix,
            },
        )
    }
}

} // verus!
