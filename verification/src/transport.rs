//! The boundary to the transport collaborator.
//!
//! The operator that performs the actual byte-range I/O is built by the
//! `opendal` crate and wrapped for the downstream interface by
//! `object_store_opendal`.  Both types are opaque here: the library builds
//! and carries them but claims nothing about what is inside.

use vstd::prelude::*;
use crate::config::ConfigMap;

verus! {

#[verifier::external_type_specification]
#[verifier::external_body]
pub struct ExOperator(opendal::Operator);

#[verifier::external_type_specification]
#[verifier::external_body]
pub struct ExOpendalError(opendal::Error);

#[verifier::external_type_specification]
#[verifier::external_body]
pub struct ExOpendalStore(object_store_opendal::OpendalStore);

/// Whether the transport factory accepts a resolved configuration map.
pub uninterp spec fn cos_factory_accepts(cfg: Map<Seq<char>, Seq<char>>) -> bool;

/// Relies on `opendal::Operator::from_iter` with the COS service: parses the
/// configuration entries and builds the transport operator, or reports why
/// the configuration was rejected.  The verdict is a function of the
/// configuration map alone: the entries collapse into a key-to-value map (on
/// a duplicate key the later entry wins, as in the view of `ConfigMap`), and
/// what follows — deserialization, the bucket and endpoint checks, endpoint
/// parsing and composition — is deterministic; credential providers are
/// assembled lazily, with no environment read at build time.
#[verifier::external_body]
pub(crate) fn cos_operator_from(cfg: &ConfigMap) -> (r: Result<
    opendal::Operator,
    opendal::Error,
>)
    ensures
        r is Ok <==> cos_factory_accepts(cfg@),
{
    opendal::Operator::from_iter::<opendal::services::Cos>(cfg.entries.iter().cloned())
}

/// Relies on `object_store_opendal::OpendalStore::new`: wraps the operator
/// behind the downstream I/O interface.
#[verifier::external_body]
pub(crate) fn opendal_store_new(op: opendal::Operator) -> object_store_opendal::OpendalStore {
    object_store_opendal::OpendalStore::new(op)
}

/// Relies on the `Debug` rendering of `opendal::Error` to surface the
/// collaborator's diagnostic.
#[verifier::external_body]
pub(crate) fn opendal_error_text(e: &opendal::Error) -> String {
    format!("{:?}", e)
}

} // verus!
