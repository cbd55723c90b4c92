use cos_store::{env_config, parse_usize, resolve_config, str_eq, to_lower, trim_leading_slashes};
use cos_store::{ConfigMap, StorageOptions};

fn pairs(entries: &[(&str, &str)]) -> Vec<(String, String)> {
    entries.iter().map(|(k, v)| (k.to_string(), v.to_string())).collect()
}

fn options(entries: &[(&str, &str)]) -> StorageOptions {
    let mut m = ConfigMap::new();
    for (k, v) in entries {
        m.insert(k.to_string(), v.to_string());
    }
    StorageOptions(m)
}

#[test]
fn lowercases_ascii_only() {
    assert_eq!(to_lower("CoS"), "cos");
    assert_eq!(to_lower("TENCENTCLOUD_SECRET_ID"), "tencentcloud_secret_id");
    assert_eq!(to_lower("already-lower_09"), "already-lower_09");
}

#[test]
fn string_equality_by_contents() {
    assert!(str_eq("endpoint", "endpoint"));
    assert!(!str_eq("endpoint", "endpoints"));
    assert!(!str_eq("a", "b"));
    assert!(str_eq("", ""));
}

#[test]
fn trims_every_leading_separator() {
    assert_eq!(trim_leading_slashes("/path/to/file"), "path/to/file");
    assert_eq!(trim_leading_slashes("///a/b"), "a/b");
    assert_eq!(trim_leading_slashes(""), "");
    assert_eq!(trim_leading_slashes("no-slash"), "no-slash");
}

#[test]
fn parses_decimal_counts() {
    assert_eq!(parse_usize("42"), Some(42));
    assert_eq!(parse_usize("+7"), Some(7));
    assert_eq!(parse_usize("007"), Some(7));
    assert_eq!(parse_usize("0"), Some(0));
    assert_eq!(parse_usize(""), None);
    assert_eq!(parse_usize("+"), None);
    assert_eq!(parse_usize("-1"), None);
    assert_eq!(parse_usize("4 2"), None);
    assert_eq!(parse_usize("99999999999999999999999999"), None);
}

#[test]
fn config_map_later_insert_wins() {
    let mut m = ConfigMap::new();
    m.insert("k".to_string(), "v1".to_string());
    m.insert("k".to_string(), "v2".to_string());
    assert_eq!(m.get("k"), Some(&"v2".to_string()));
    assert_eq!(m.get("absent"), None);
    assert!(m.contains_key("k"));
    assert!(!m.contains_key("absent"));
}

#[test]
fn environment_prefixes_are_stripped_and_lowercased() {
    let env = pairs(&[
        ("COS_SECRET_ID", "sid"),
        ("TENCENTCLOUD_SECRET_KEY", "sk"),
        ("HOME", "/root"),
        ("COS_ENDPOINT", "https://env.example"),
    ]);
    let c = env_config(&env);
    assert_eq!(c.get("secret_id"), Some(&"sid".to_string()));
    assert_eq!(c.get("secret_key"), Some(&"sk".to_string()));
    assert_eq!(c.get("endpoint"), Some(&"https://env.example".to_string()));
    assert_eq!(c.get("home"), None);
    assert_eq!(c.get("HOME"), None);
}

#[test]
fn later_environment_variable_wins_on_duplicate_key() {
    let env = pairs(&[("COS_REGION", "a"), ("TENCENTCLOUD_REGION", "b")]);
    let c = env_config(&env);
    assert_eq!(c.get("region"), Some(&"b".to_string()));
}

#[test]
fn resolved_bucket_always_equals_host() {
    let env = pairs(&[("COS_BUCKET", "from-env")]);
    let opts = options(&[]);
    let c = resolve_config(&env, &"my-bucket".to_string(), "/p", &opts);
    assert_eq!(c.get("bucket"), Some(&"my-bucket".to_string()));
}

#[test]
fn root_marker_follows_path_prefix() {
    let opts = options(&[]);
    let with_path = resolve_config(&Vec::new(), &"b".to_string(), "/x", &opts);
    assert_eq!(with_path.get("root"), Some(&"/".to_string()));
    let opts2 = options(&[]);
    let empty_path = resolve_config(&Vec::new(), &"b".to_string(), "", &opts2);
    assert_eq!(empty_path.get("root"), None);
    let opts3 = options(&[]);
    let only_slashes = resolve_config(&Vec::new(), &"b".to_string(), "///", &opts3);
    assert_eq!(only_slashes.get("root"), None);
}

#[test]
fn explicit_option_overrides_environment() {
    let env = pairs(&[("COS_ENDPOINT", "https://env.example")]);
    let opts = options(&[("cos_endpoint", "https://opt.example")]);
    let c = resolve_config(&env, &"b".to_string(), "", &opts);
    assert_eq!(c.get("endpoint"), Some(&"https://opt.example".to_string()));
}

#[test]
fn recognized_options_are_mapped_key_by_key() {
    let opts = options(&[
        ("cos_endpoint", "https://x.example"),
        ("cos_secret_id", "sid"),
        ("cos_secret_key", "sk"),
        ("cos_enable_versioning", "true"),
        ("cos_unknown", "dropped"),
    ]);
    let c = resolve_config(&Vec::new(), &"b".to_string(), "", &opts);
    assert_eq!(c.get("endpoint"), Some(&"https://x.example".to_string()));
    assert_eq!(c.get("secret_id"), Some(&"sid".to_string()));
    assert_eq!(c.get("secret_key"), Some(&"sk".to_string()));
    assert_eq!(c.get("enable_versioning"), Some(&"true".to_string()));
    assert_eq!(c.get("cos_unknown"), None);
    assert_eq!(c.get("unknown"), None);
}

#[test]
fn credential_loading_flag_is_forced() {
    let env = pairs(&[("COS_DISABLE_CONFIG_LOAD", "true")]);
    let opts = options(&[]);
    let c = resolve_config(&env, &"b".to_string(), "", &opts);
    assert_eq!(c.get("disable_config_load"), Some(&"false".to_string()));
}

#[test]
fn retry_count_reads_the_option() {
    assert_eq!(options(&[("download_retry_count", "5")]).download_retry_count(), 5);
    assert_eq!(options(&[("download_retry_count", "+7")]).download_retry_count(), 7);
    assert_eq!(options(&[("download_retry_count", "abc")]).download_retry_count(), 3);
    assert_eq!(options(&[("download_retry_count", "")]).download_retry_count(), 3);
    assert_eq!(
        options(&[("download_retry_count", "99999999999999999999999999")]).download_retry_count(),
        3
    );
    assert_eq!(options(&[]).download_retry_count(), 3);
}

#[test]
fn derived_key_recognizes_both_prefixes() {
    assert_eq!(cos_store::derived_key("COS_ENDPOINT"), Some("endpoint".to_string()));
    assert_eq!(
        cos_store::derived_key("TENCENTCLOUD_SECURITY_TOKEN"),
        Some("security_token".to_string())
    );
    assert_eq!(cos_store::derived_key("PATH"), None);
    assert_eq!(cos_store::derived_key("cos_endpoint"), None);
}
