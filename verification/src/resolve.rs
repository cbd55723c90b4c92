//! Deterministic, order-sensitive resolution of the configuration map.
//!
//! Four sources are merged in increasing precedence: entries derived from the
//! process-environment snapshot, the bucket taken from the location's host, a
//! root marker set when the location's path has a non-empty prefix, and the
//! explicit caller options.  Last, a backend-safety flag is forced so that
//! the transport may keep reading credentials from its environment.

use vstd::prelude::*;
use vstd::string::*;
use crate::config::ConfigMap;
use crate::options::StorageOptions;
use crate::strutil::{
    lower_seq, starts_with_str, suffix_from, to_lower, trim_leading_slashes, trimmed,
};

verus! {

/// The configuration key derived from an environment-variable name: for a
/// name carrying one of the two recognized prefixes, the name with that
/// prefix stripped and the remainder lowercased; for any other name, none.
pub open spec fn spec_derived_key(k: Seq<char>) -> Option<Seq<char>> {
    if k.len() >= "COS_"@.len() && k.subrange(0, "COS_"@.len() as int) == "COS_"@ {
        Some(lower_seq(k.skip("COS_"@.len() as int)))
    } else if k.len() >= "TENCENTCLOUD_"@.len() && k.subrange(
        0,
        "TENCENTCLOUD_"@.len() as int,
    ) == "TENCENTCLOUD_"@ {
        Some(lower_seq(k.skip("TENCENTCLOUD_"@.len() as int)))
    } else {
        None
    }
}

pub fn derived_key(k: &str) -> (r: Option<String>)
    ensures
        match r {
            Some(d) => spec_derived_key(k@) == Some(d@),
            None => spec_derived_key(k@) is None,
        },
{
    if starts_with_str(k, "COS_") {
        proof {
            reveal_strlit("COS_");
        }
        let rest = suffix_from(k, 4);
        Some(to_lower(rest.as_str()))
    } else if starts_with_str(k, "TENCENTCLOUD_") {
        proof {
            reveal_strlit("TENCENTCLOUD_");
        }
        let rest = suffix_from(k, 13);
        Some(to_lower(rest.as_str()))
    } else {
        None
    }
}

/// The entries derived from the environment snapshot, in iteration order, so
/// that on a duplicate derived key the later variable wins.
pub open spec fn spec_env_config(env: Seq<(String, String)>) -> Map<Seq<char>, Seq<char>>
    decreases env.len(),
{
    if env.len() == 0 {
        Map::empty()
    } else {
        let m = spec_env_config(env.drop_last());
        match spec_derived_key(env.last().0@) {
            Some(k) => m.insert(k, env.last().1@),
            None => m,
        }
    }
}

pub fn env_config(env: &Vec<(String, String)>) -> (c: ConfigMap)
    ensures
        c@ == spec_env_config(env@),
{
    let mut c = ConfigMap::new();
    let mut i: usize = 0;
    proof {
        assert(env@.take(0) =~= Seq::<(String, String)>::empty());
    }
    while i < env.len()
        invariant
            i <= env@.len(),
            c@ == spec_env_config(env@.take(i as int)),
        decreases env@.len() - i,
    {
        proof {
            assert(env@.take(i + 1).drop_last() =~= env@.take(i as int));
            assert(env@.take(i + 1).last() == env@[i as int]);
        }
        match derived_key(env[i].0.as_str()) {
            Some(k) => {
                c.insert(k, env[i].1.clone());
            },
            None => {},
        }
        i += 1;
    }
    proof {
        assert(env@.take(env@.len() as int) =~= env@);
    }
    c
}

/// The fully resolved configuration map, later sources overriding earlier
/// ones on a key collision.
pub open spec fn spec_resolved_config(
    env: Seq<(String, String)>,
    host: Seq<char>,
    path: Seq<char>,
    opts: Map<Seq<char>, Seq<char>>,
) -> Map<Seq<char>, Seq<char>> {
    let with_bucket = spec_env_config(env).insert("bucket"@, host);
    let with_root = if trimmed(path).len() > 0 {
        with_bucket.insert("root"@, "/"@)
    } else {
        with_bucket
    };
    let with_endpoint = if opts.contains_key("cos_endpoint"@) {
        with_root.insert("endpoint"@, opts["cos_endpoint"@])
    } else {
        with_root
    };
    let with_id = if opts.contains_key("cos_secret_id"@) {
        with_endpoint.insert("secret_id"@, opts["cos_secret_id"@])
    } else {
        with_endpoint
    };
    let with_key = if opts.contains_key("cos_secret_key"@) {
        with_id.insert("secret_key"@, opts["cos_secret_key"@])
    } else {
        with_id
    };
    let with_versioning = if opts.contains_key("cos_enable_versioning"@) {
        with_key.insert("enable_versioning"@, opts["cos_enable_versioning"@])
    } else {
        with_key
    };
    with_versioning.insert("disable_config_load"@, "false"@)
}

proof fn lemma_resolved_keys_distinct()
    ensures
        "bucket"@ != "root"@,
        "bucket"@ != "endpoint"@,
        "bucket"@ != "secret_id"@,
        "bucket"@ != "secret_key"@,
        "bucket"@ != "enable_versioning"@,
        "bucket"@ != "disable_config_load"@,
        "root"@ != "endpoint"@,
        "root"@ != "secret_id"@,
        "root"@ != "secret_key"@,
        "root"@ != "enable_versioning"@,
        "root"@ != "disable_config_load"@,
        "endpoint"@ != "secret_id"@,
        "endpoint"@ != "secret_key"@,
        "endpoint"@ != "enable_versioning"@,
        "endpoint"@ != "disable_config_load"@,
        "secret_id"@ != "secret_key"@,
        "secret_id"@ != "enable_versioning"@,
        "secret_id"@ != "disable_config_load"@,
        "secret_key"@ != "enable_versioning"@,
        "secret_key"@ != "disable_config_load"@,
        "enable_versioning"@ != "disable_config_load"@,
{
    reveal_strlit("bucket");
    reveal_strlit("root");
    reveal_strlit("endpoint");
    reveal_strlit("secret_id");
    reveal_strlit("secret_key");
    reveal_strlit("enable_versioning");
    reveal_strlit("disable_config_load");
    assert("bucket"@.len() == 6);
    assert("root"@.len() == 4);
    assert("endpoint"@.len() == 8);
    assert("secret_id"@.len() == 9);
    assert("secret_key"@.len() == 10);
    assert("enable_versioning"@.len() == 17);
    assert("disable_config_load"@.len() == 19);
}

/// Resolves the four configuration sources into one map.  The resolved map
/// always carries the bucket taken from the host, and always carries the
/// forced backend-safety flag allowing implicit credential loading.
pub fn resolve_config(
    env: &Vec<(String, String)>,
    host: &String,
    path: &str,
    opts: &StorageOptions,
) -> (c: ConfigMap)
    ensures
        c@ == spec_resolved_config(env@, host@, path@, opts.0@),
        c@.contains_key("bucket"@) && c@["bucket"@] == host@,
        c@.contains_key("disable_config_load"@) && c@["disable_config_load"@] == "false"@,
{
    let mut c = env_config(env);
    c.insert(String::from_str("bucket"), host.clone());
    let prefix = trim_leading_slashes(path);
    if !prefix.as_str().is_empty() {
        c.insert(String::from_str("root"), String::from_str("/"));
    }
    match opts.0.get("cos_endpoint") {
        Some(v) => {
            c.insert(String::from_str("endpoint"), v.clone());
        },
        None => {},
    }
    match opts.0.get("cos_secret_id") {
        Some(v) => {
            c.insert(String::from_str("secret_id"), v.clone());
        },
        None => {},
    }
    match opts.0.get("cos_secret_key") {
        Some(v) => {
            c.insert(String::from_str("secret_key"), v.clone());
        },
        None => {},
    }
    match opts.0.get("cos_enable_versioning") {
        Some(v) => {
            c.insert(String::from_str("enable_versioning"), v.clone());
        },
        None => {},
    }
    c.insert(String::from_str("disable_config_load"), String::from_str("false"));
    proof {
        lemma_resolved_keys_distinct();
    }
    c
}

/// The resolved configuration always carries a `bucket` entry equal to the
/// location's host, whatever the other sources hold.
pub proof fn lemma_bucket_from_host(
    env: Seq<(String, String)>,
    host: Seq<char>,
    path: Seq<char>,
    opts: Map<Seq<char>, Seq<char>>,
)
    ensures
        spec_resolved_config(env, host, path, opts).contains_key("bucket"@),
        spec_resolved_config(env, host, path, opts)["bucket"@] == host,
{
    lemma_resolved_keys_distinct();
}

/// The resolved configuration carries a `root` entry exactly when the
/// location's path has a non-empty prefix, and then the entry is the generic
/// root marker — provided the environment itself sets no root entry.
pub proof fn lemma_root_tracks_path(
    env: Seq<(String, String)>,
    host: Seq<char>,
    path: Seq<char>,
    opts: Map<Seq<char>, Seq<char>>,
)
    requires
        !spec_env_config(env).contains_key("root"@),
    ensures
        trimmed(path).len() == 0 ==> !spec_resolved_config(env, host, path, opts).contains_key(
            "root"@,
        ),
        trimmed(path).len() > 0 ==> spec_resolved_config(env, host, path, opts).contains_key(
            "root"@,
        ) && spec_resolved_config(env, host, path, opts)["root"@] == "/"@,
{
    lemma_resolved_keys_distinct();
}

/// Explicit caller options take the highest precedence: for each recognized
/// option key that the caller supplies, the resolved entry holds the
/// caller's value, whatever the environment set for that entry.
pub proof fn lemma_options_override_environment(
    env: Seq<(String, String)>,
    host: Seq<char>,
    path: Seq<char>,
    opts: Map<Seq<char>, Seq<char>>,
)
    ensures
        opts.contains_key("cos_endpoint"@) ==> spec_resolved_config(env, host, path, opts).contains_key("endpoint"@) && spec_resolved_config(env, host, path, opts)["endpoint"@] == opts["cos_endpoint"@],
        opts.contains_key("cos_secret_id"@) ==> spec_resolved_config(env, host, path, opts).contains_key("secret_id"@) && spec_resolved_config(env, host, path, opts)["secret_id"@] == opts["cos_secret_id"@],
        opts.contains_key("cos_secret_key"@) ==> spec_resolved_config(env, host, path, opts).contains_key("secret_key"@) && spec_resolved_config(env, host, path, opts)["secret_key"@] == opts["cos_secret_key"@],
        opts.contains_key("cos_enable_versioning"@) ==> spec_resolved_config(env, host, path, opts).contains_key("enable_versioning"@) && spec_resolved_config(env, host, path, opts)["enable_versioning"@] == opts["cos_enable_versioning"@],
{
    lemma_resolved_keys_distinct();
}

} // verus!
