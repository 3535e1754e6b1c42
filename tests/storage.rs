use fly::storage::{GlobalSettings, build_storage_settings};

fn settings(certs: Option<&str>, notifier: Option<&str>, writer: Option<&str>) -> GlobalSettings {
    GlobalSettings {
        cockroach_host: "postgres://db:26257".to_string(),
        cockroach_certs_path: certs.map(|s| s.to_string()),
        redis_url: "redis://main".to_string(),
        redis_cache_url: "redis://cache".to_string(),
        redis_cache_notifier_url: notifier.map(|s| s.to_string()),
        redis_cache_notifier_writer_url: writer.map(|s| s.to_string()),
    }
}

#[test]
fn storage_is_derived_from_the_app_id() {
    let g = settings(Some("/certs"), Some("redis://notify"), None);
    let s = build_storage_settings("foo", &g);
    assert_eq!(s.data_store.url, "postgres://db:26257");
    assert_eq!(s.data_store.database.as_deref(), Some("objectstore_foo"));
    assert_eq!(s.data_store.tls_ca_crt.as_deref(), Some("/certs/ca.crt"));
    assert_eq!(s.data_store.tls_client_crt.as_deref(), Some("/certs/client.root.crt"));
    assert_eq!(s.data_store.tls_client_key.as_deref(), Some("/certs/client.root.key"));
    assert_eq!(s.cache_store.url, "redis://cache");
    assert_eq!(s.cache_store.namespace.as_deref(), Some("foo"));
    let n = s.cache_store_notifier.expect("notifier configured");
    assert_eq!(n.reader_url, "redis://notify");
    assert_eq!(n.writer_url, "redis://notify");
    assert_eq!(s.fs_store.url, "redis://main");
    assert_eq!(s.fs_store.namespace.as_deref(), Some("app:foo:release:latest:file:"));
    assert_eq!(s.acme_store.url, "redis://main");
    assert_eq!(s.acme_store.namespace, None);
}

#[test]
fn storage_without_tls_or_notifier() {
    let g = settings(None, None, Some("redis://ignored"));
    let s = build_storage_settings("bar", &g);
    assert_eq!(s.data_store.database.as_deref(), Some("objectstore_bar"));
    assert_eq!(s.data_store.tls_ca_crt, None);
    assert_eq!(s.data_store.tls_client_crt, None);
    assert_eq!(s.data_store.tls_client_key, None);
    assert!(s.cache_store_notifier.is_none());
}

#[test]
fn notifier_writer_url_is_used_when_given() {
    let g = settings(None, Some("redis://read"), Some("redis://write"));
    let s = build_storage_settings("foo", &g);
    let n = s.cache_store_notifier.expect("notifier configured");
    assert_eq!(n.reader_url, "redis://read");
    assert_eq!(n.writer_url, "redis://write");
}

#[test]
fn storage_for_an_empty_app_id() {
    let g = settings(None, None, None);
    let s = build_storage_settings("", &g);
    assert_eq!(s.data_store.database.as_deref(), Some("objectstore_"));
    assert_eq!(s.cache_store.namespace.as_deref(), Some(""));
    assert_eq!(s.fs_store.namespace.as_deref(), Some("app::release:latest:file:"));
}
