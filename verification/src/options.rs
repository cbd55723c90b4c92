//! Caller-supplied construction options.

use vstd::prelude::*;
use crate::config::ConfigMap;
use crate::strutil::{parse_usize, spec_parse_usize};

verus! {

/// The fallback download retry budget when the caller supplies none, or an
/// unreadable one.
pub const DEFAULT_DOWNLOAD_RETRY_COUNT: usize = 3;

/// Explicit caller-supplied storage options, mapped key-by-key onto the
/// resolved configuration with the highest precedence.
pub struct StorageOptions(pub ConfigMap);

/// The retry budget recorded in the handle: the `download_retry_count`
/// option read as a decimal number, or the default when the option is absent
/// or unreadable.
pub open spec fn spec_retry_count(opts: Map<Seq<char>, Seq<char>>) -> usize {
    if opts.contains_key("download_retry_count"@) {
        match spec_parse_usize(opts["download_retry_count"@]) {
            Some(n) => n,
            None => DEFAULT_DOWNLOAD_RETRY_COUNT,
        }
    } else {
        DEFAULT_DOWNLOAD_RETRY_COUNT
    }
}

impl StorageOptions {
    pub fn new() -> (r: Self)
        ensures
            r.0@ == Map::<Seq<char>, Seq<char>>::empty(),
    {
        StorageOptions(ConfigMap::new())
    }

    /// The download retry budget carried by these options.
    pub fn download_retry_count(&self) -> (r: usize)
        ensures
            r == spec_retry_count(self.0@),
    {
        match self.0.get("download_retry_count") {
            Some(v) => match parse_usize(v.as_str()) {
                Some(n) => n,
                None => DEFAULT_DOWNLOAD_RETRY_COUNT,
            },
            None => DEFAULT_DOWNLOAD_RETRY_COUNT,
        }
    }
}

/// The options handed to a provider when a handle is requested.
pub struct ObjectStoreParams {
    /// Bytes per I/O unit; a backend default applies when absent.
    pub block_size: Option<usize>,
    /// Explicit configuration overrides, highest precedence.
    pub storage_options: Option<StorageOptions>,
    /// Whether uploads use constant-size parts.
    pub use_constant_size_upload_parts: bool,
    /// Whether listings are guaranteed lexically ordered; defaults to true.
    pub list_is_lexically_ordered: Option<bool>,
}

/// The storage-option map carried by the params: the explicit options when
/// present, otherwise empty.
pub open spec fn spec_params_options(params: ObjectStoreParams) -> Map<Seq<char>, Seq<char>> {
    match params.storage_options {
        Some(o) => o.0@,
        None => Map::<Seq<char>, Seq<char>>::empty(),
    }
}

impl ObjectStoreParams {
    /// Options with every field left to its default.
    pub fn new() -> (r: Self)
        ensures
            r.block_size is None,
            r.storage_options is None,
            r.use_constant_size_upload_parts == false,
            r.list_is_lexically_ordered is None,
    {
        ObjectStoreParams {
            block_size: None,
            storage_options: None,
            use_constant_size_upload_parts: false,
            list_is_lexically_ordered: None,
        }
    }
}

} // verus!
