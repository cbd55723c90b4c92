//! Store locations: scheme, host (bucket) and path prefix.

use vstd::prelude::*;
use crate::strutil::{trimmed, trim_leading_slashes, ends_with_slash, push_char};

verus! {

/// A URL-shaped storage location.  The `host` is read as the bucket name and
/// the `path` as an object-key prefix; `path` keeps the URL convention of a
/// leading separator.
pub struct StoreLocation {
    pub scheme: String,
    pub host: String,
    pub path: String,
}

/// The path rewritten so that it always ends with a separator.
pub open spec fn spec_normalized_path(p: Seq<char>) -> Seq<char> {
    if p.len() > 0 && p.last() == '/' {
        p
    } else {
        p.push('/')
    }
}

/// Normalization changes nothing on a path that already ends with a
/// separator, so applying it twice is the same as applying it once.
pub proof fn lemma_normalized_path_idempotent(p: Seq<char>)
    ensures
        spec_normalized_path(spec_normalized_path(p)) == spec_normalized_path(p),
{
    if !(p.len() > 0 && p.last() == '/') {
        assert(p.push('/').last() == '/');
    }
}

impl StoreLocation {
    /// The object-key prefix of this location: the path with every leading
    /// separator removed.
    pub fn extract_path(&self) -> (r: String)
        ensures
            r@ == trimmed(self.path@),
    {
        trim_leading_slashes(self.path.as_str())
    }

    /// The same location with the path rewritten so that it ends with a
    /// separator, guaranteeing consistent prefix-join semantics downstream.
    pub fn normalized(&self) -> (r: StoreLocation)
        ensures
            r.scheme@ == self.scheme@,
            r.host@ == self.host@,
            r.path@ == spec_normalized_path(self.path@),
    {
        let mut p = self.path.clone();
        if !ends_with_slash(self.path.as_str()) {
            push_char(&mut p, '/');
        }
        StoreLocation { scheme: self.scheme.clone(), host: self.host.clone(), path: p }
    }
}

} // verus!
