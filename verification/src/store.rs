//! The immutable store handle and the backend tuning defaults.

use vstd::prelude::*;

verus! {

/// Bytes per I/O unit when the caller does not choose one.
pub const DEFAULT_CLOUD_BLOCK_SIZE: usize = 64 * 1024;

/// Number of concurrent I/O operations for a cloud backend.
pub const DEFAULT_CLOUD_IO_PARALLELISM: usize = 64;

/// Upper bound in bytes for a single I/O operation.
pub const DEFAULT_MAX_IOP_SIZE: u64 = 16 * 1024 * 1024;

/// A ready-to-use handle for a remote object-storage backend: the transport
/// operator together with the resolved tuning parameters.  A handle is
/// created once per request and never mutated; a new option set requires a
/// new handle.
pub struct ObjectStore {
    /// The scheme of the backend family that built this handle.
    pub scheme: String,
    /// The transport operator performing reads, writes and listings.
    pub inner: object_store_opendal::OpendalStore,
    /// Bytes per I/O unit.
    pub block_size: usize,
    /// Upper bound in bytes for a single operation.
    pub max_iop_size: u64,
    /// Whether uploads use constant-size parts.
    pub use_constant_size_upload_parts: bool,
    /// Whether listings are guaranteed lexically ordered.
    pub list_is_lexically_ordered: bool,
    /// Number of concurrent I/O operations.
    pub io_parallelism: usize,
    /// Retry budget for downloads, recorded for the I/O layer.
    pub download_retry_count: usize,
    /// Normalized object-key prefix for downstream path resolution.
    pub store_prefix: String,
}

} // verus!
