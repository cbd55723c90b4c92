use cos_store::{ConfigError, ConfigMap, CosStoreProvider, ObjectStoreParams, ObjectStoreRegistry, StorageOptions, StoreLocation};
use url::Url;

fn location(scheme: &str, host: &str, path: &str) -> StoreLocation {
    StoreLocation { scheme: scheme.to_string(), host: host.to_string(), path: path.to_string() }
}

fn location_of(url: &Url) -> StoreLocation {
    StoreLocation {
        scheme: url.scheme().to_string(),
        host: url.host_str().unwrap_or("").to_string(),
        path: url.path().to_string(),
    }
}

fn options(entries: &[(&str, &str)]) -> StorageOptions {
    let mut m = ConfigMap::new();
    for (k, v) in entries {
        m.insert(k.to_string(), v.to_string());
    }
    StorageOptions(m)
}

fn params_with(entries: &[(&str, &str)]) -> ObjectStoreParams {
    let mut p = ObjectStoreParams::new();
    p.storage_options = Some(options(entries));
    p
}

#[test]
fn test_cos_store_path() {
    let url = Url::parse("cos://bucket/path/to/file").unwrap();
    let path = location_of(&url).extract_path();
    let expected_path = "path/to/file";
    assert_eq!(path, expected_path);
}

#[test]
fn construction_without_endpoint_names_the_missing_option() {
    let provider = CosStoreProvider;
    let loc = location("cos", "my-bucket", "/path/to/file");
    let params = ObjectStoreParams::new();
    let err = provider.new_store(&loc, &params, &Vec::new()).err().unwrap();
    match &err {
        ConfigError::MissingEndpoint(m) => {
            assert!(m.contains("cos_endpoint"));
            assert!(m.contains("COS_ENDPOINT"));
        }
        other => panic!("expected MissingEndpoint, got {:?}", other),
    }
}

#[test]
fn construction_succeeds_with_an_explicit_endpoint() {
    let provider = CosStoreProvider;
    let loc = location("cos", "my-bucket", "/path/to/file");
    let params = params_with(&[("cos_endpoint", "https://x.example")]);
    let store = provider.new_store(&loc, &params, &Vec::new()).unwrap();
    assert_eq!(store.scheme, "cos");
    assert_eq!(store.block_size, 64 * 1024);
    assert_eq!(store.max_iop_size, 16 * 1024 * 1024);
    assert_eq!(store.io_parallelism, 64);
    assert_eq!(store.download_retry_count, 3);
    assert!(store.list_is_lexically_ordered);
    assert!(!store.use_constant_size_upload_parts);
    assert_eq!(store.store_prefix, "path/to/file/");

    let resolved = cos_store::resolve_config(
        &Vec::new(),
        &"my-bucket".to_string(),
        "/path/to/file",
        &options(&[("cos_endpoint", "https://x.example")]),
    );
    assert_eq!(resolved.get("bucket"), Some(&"my-bucket".to_string()));
    assert_eq!(resolved.get("root"), Some(&"/".to_string()));
}

#[test]
fn environment_endpoint_also_satisfies_construction() {
    let provider = CosStoreProvider;
    let loc = location("cos", "my-bucket", "/p");
    let params = ObjectStoreParams::new();
    let env = vec![("COS_ENDPOINT".to_string(), "https://env.example".to_string())];
    assert!(provider.new_store(&loc, &params, &env).is_ok());
}

#[test]
fn caller_tuning_is_recorded_in_the_handle() {
    let provider = CosStoreProvider;
    let loc = location("cos", "my-bucket", "/p");
    let mut params = params_with(&[
        ("cos_endpoint", "https://x.example"),
        ("download_retry_count", "9"),
    ]);
    params.block_size = Some(1234);
    params.use_constant_size_upload_parts = true;
    params.list_is_lexically_ordered = Some(false);
    let store = provider.new_store(&loc, &params, &Vec::new()).unwrap();
    assert_eq!(store.block_size, 1234);
    assert!(store.use_constant_size_upload_parts);
    assert!(!store.list_is_lexically_ordered);
    assert_eq!(store.download_retry_count, 9);
}

#[test]
fn missing_host_is_a_missing_bucket() {
    let provider = CosStoreProvider;
    let loc = location("cos", "", "/p");
    let params = params_with(&[("cos_endpoint", "https://x.example")]);
    let err = provider.new_store(&loc, &params, &Vec::new()).err().unwrap();
    assert!(matches!(err, ConfigError::MissingBucket(_)));
    assert!(err.message().contains("bucket"));
}

#[test]
fn rejected_backend_configuration_is_surfaced() {
    let provider = CosStoreProvider;
    let loc = location("cos", "my-bucket", "/p");
    let params = params_with(&[("cos_endpoint", "::not a valid endpoint::")]);
    let err = provider.new_store(&loc, &params, &Vec::new()).err().unwrap();
    match &err {
        ConfigError::BackendConstructionFailed(m) => {
            assert!(m.contains("Failed to create COS operator"));
        }
        other => panic!("expected BackendConstructionFailed, got {:?}", other),
    }
}

#[test]
fn unknown_scheme_is_unsupported() {
    let registry = ObjectStoreRegistry::new();
    let loc = location("foo", "bucket", "/x");
    let params = ObjectStoreParams::new();
    let err = registry.build_store(&loc, &params, &Vec::new()).err().unwrap();
    match &err {
        ConfigError::UnsupportedScheme(m) => assert_eq!(m, "foo"),
        other => panic!("expected UnsupportedScheme, got {:?}", other),
    }
}

#[test]
fn scheme_comparison_is_case_insensitive() {
    let registry = ObjectStoreRegistry::new();
    assert!(registry.resolve("cos").is_ok());
    assert!(registry.resolve("COS").is_ok());
    assert!(registry.resolve("CoS").is_ok());
    assert!(registry.resolve("s3").is_err());
    assert!(registry.resolve("").is_err());
}

#[test]
fn registry_dispatches_to_the_cos_provider() {
    let registry = ObjectStoreRegistry::new();
    let loc = location("COS", "my-bucket", "/p");
    let params = params_with(&[("cos_endpoint", "https://x.example")]);
    let store = registry.build_store(&loc, &params, &Vec::new()).unwrap();
    assert_eq!(store.scheme, "cos");
}

#[test]
fn normalized_path_ends_with_separator_and_is_idempotent() {
    let once = location("cos", "b", "/x").normalized();
    assert_eq!(once.path, "/x/");
    let twice = once.normalized();
    assert_eq!(twice.path, "/x/");
    assert_eq!(location("cos", "b", "").normalized().path, "/");
    assert_eq!(location("cos", "b", "/x/").normalized().path, "/x/");
}

#[test]
fn extract_path_drops_leading_separators_only() {
    assert_eq!(location("cos", "b", "///a/b").extract_path(), "a/b");
    assert_eq!(location("cos", "b", "").extract_path(), "");
    assert_eq!(location("cos", "b", "/a/").extract_path(), "a/");
}
