//! Construction of ready-to-use handles for a cloud object-storage backend.
//!
//! A storage location (`scheme`, `host`, `path`) together with caller-supplied
//! options is resolved into a configuration map by merging, in increasing
//! precedence: process-environment entries, the bucket taken from the host, a
//! root marker derived from the path, and explicit caller options.  The merged
//! configuration is validated and handed to the transport collaborator, which
//! yields the operator wrapped by the final store handle.

mod config;
mod error;
mod location;
mod options;
mod provider;
mod registry;
mod resolve;
mod store;
mod strutil;
mod transport;

pub use config::ConfigMap;
pub use error::ConfigError;
pub use location::lemma_normalized_path_idempotent;
pub use location::spec_normalized_path;
pub use location::StoreLocation;
pub use options::spec_params_options;
pub use options::spec_retry_count;
pub use options::ObjectStoreParams;
pub use options::StorageOptions;
pub use options::DEFAULT_DOWNLOAD_RETRY_COUNT;
pub use provider::backend_failure_prefix;
pub use provider::missing_bucket_message;
pub use provider::missing_endpoint_message;
pub use provider::new_store_post;
pub use provider::store_matches;
pub use provider::CosStoreProvider;
pub use registry::ObjectStoreRegistry;
pub use resolve::derived_key;
pub use resolve::env_config;
pub use resolve::lemma_bucket_from_host;
pub use resolve::lemma_options_override_environment;
pub use resolve::lemma_root_tracks_path;
pub use resolve::resolve_config;
pub use resolve::spec_derived_key;
pub use resolve::spec_env_config;
pub use resolve::spec_resolved_config;
pub use store::ObjectStore;
pub use transport::cos_factory_accepts;
pub use store::DEFAULT_CLOUD_BLOCK_SIZE;
pub use store::DEFAULT_CLOUD_IO_PARALLELISM;
pub use store::DEFAULT_MAX_IOP_SIZE;
pub use strutil::all_digits;
pub use strutil::dec_val;
pub use strutil::lower_seq;
pub use strutil::parse_usize;
pub use strutil::spec_lower_char;
pub use strutil::spec_parse_usize;
pub use strutil::str_eq;
pub use strutil::to_lower;
pub use strutil::trim_leading_slashes;
pub use strutil::trimmed;
