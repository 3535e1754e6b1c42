//! Per-tenant storage configuration, derived from the tenant's app id and the
//! process-wide settings.
use vstd::prelude::*;
use vstd::string::*;

verus! {

/// The view of an optional string.
pub open spec fn opt_view(o: Option<String>) -> Option<Seq<char>> {
    match o {
        Some(s) => Some(s@),
        None => None,
    }
}

/// Process-wide settings that every tenant's storage is derived from.
pub struct GlobalSettings {
    pub cockroach_host: String,
    /// Directory holding the database's TLS files, if it uses TLS.
    pub cockroach_certs_path: Option<String>,
    pub redis_url: String,
    pub redis_cache_url: String,
    pub redis_cache_notifier_url: Option<String>,
    /// Writer side of the cache notifier; the reader's URL when absent.
    pub redis_cache_notifier_writer_url: Option<String>,
}

/// Failure reported by an ACME-challenge store.
#[derive(Debug, PartialEq, Eq)]
pub enum AcmeError {
    Unknown,
    Failure(String),
}

/// Where a tenant's object store lives.
pub struct PostgresStoreConfig {
    pub url: String,
    pub database: Option<String>,
    pub tls_ca_crt: Option<String>,
    pub tls_client_crt: Option<String>,
    pub tls_client_key: Option<String>,
}

/// A Redis-backed store, optionally confined to a key namespace.
pub struct RedisStoreConfig {
    pub url: String,
    pub namespace: Option<String>,
}

/// The pair of connections that carry cache invalidations.
pub struct RedisCacheNotifierConfig {
    pub reader_url: String,
    pub writer_url: String,
}

/// Everything a tenant's runtime needs to reach its stores.
pub struct StorageSettings {
    pub data_store: PostgresStoreConfig,
    pub cache_store: RedisStoreConfig,
    pub cache_store_notifier: Option<RedisCacheNotifierConfig>,
    pub fs_store: RedisStoreConfig,
    pub acme_store: RedisStoreConfig,
}

/// Name of the object-store database of app `app_id`.
pub open spec fn database_name(app_id: Seq<char>) -> Seq<char> {
    "objectstore_"@ + app_id
}

/// Path of the file `file` in the directory `dir`.
pub open spec fn file_in(dir: Seq<char>, file: Seq<char>) -> Seq<char> {
    dir + "/"@ + file
}

/// The TLS file `file` under the optional certificate directory.
pub open spec fn tls_file(certs: Option<Seq<char>>, file: Seq<char>) -> Option<Seq<char>> {
    match certs {
        Some(dir) => Some(file_in(dir, file)),
        None => None,
    }
}

/// Key namespace of the files of app `app_id`.
pub open spec fn fs_namespace(app_id: Seq<char>) -> Seq<char> {
    "app:"@ + app_id + ":release:latest:file:"@
}

/// The storage settings of app `app_id` are the ones derived from `g`.
pub open spec fn derived_from(r: StorageSettings, app_id: Seq<char>, g: GlobalSettings) -> bool {
    let certs = opt_view(g.cockroach_certs_path);
    &&& r.data_store.url@ == g.cockroach_host@
    &&& opt_view(r.data_store.database) == Some(database_name(app_id))
    &&& opt_view(r.data_store.tls_ca_crt) == tls_file(certs, "ca.crt"@)
    &&& opt_view(r.data_store.tls_client_crt) == tls_file(certs, "client.root.crt"@)
    &&& opt_view(r.data_store.tls_client_key) == tls_file(certs, "client.root.key"@)
    &&& r.cache_store.url@ == g.redis_cache_url@
    &&& opt_view(r.cache_store.namespace) == Some(app_id)
    &&& match g.redis_cache_notifier_url {
        None => r.cache_store_notifier is None,
        Some(reader) => match r.cache_store_notifier {
            None => false,
            Some(n) => {
                &&& n.reader_url@ == reader@
                &&& n.writer_url@ == match g.redis_cache_notifier_writer_url {
                    Some(w) => w@,
                    None => reader@,
                }
            },
        },
    }
    &&& r.fs_store.url@ == g.redis_url@
    &&& opt_view(r.fs_store.namespace) == Some(fs_namespace(app_id))
    &&& r.acme_store.url@ == g.redis_url@
    &&& r.acme_store.namespace is None
}

fn concat3(a: &str, b: &str, c: &str) -> (r: String)
    ensures
        r@ == a@ + b@ + c@,
{
    let mut r = String::from_str(a);
    r.append(b);
    r.append(c);
    r
}

fn tls_path(certs: &Option<String>, file: &str) -> (r: Option<String>)
    ensures
        opt_view(r) == tls_file(opt_view(*certs), file@),
{
    match certs {
        Some(dir) => Some(concat3(dir.as_str(), "/", file)),
        None => None,
    }
}

/// Builds the storage settings of app `app_id` from the process-wide settings.
pub fn build_storage_settings(app_id: &str, g: &GlobalSettings) -> (r: StorageSettings)
    ensures
        derived_from(r, app_id@, *g),
{
    let mut database = String::from_str("objectstore_");
    database.append(app_id);
    let cache_store_notifier = match &g.redis_cache_notifier_url {
        Some(reader) => {
            let writer = match &g.redis_cache_notifier_writer_url {
                Some(w) => w.clone(),
                None => reader.clone(),
            };
            Some(RedisCacheNotifierConfig { reader_url: reader.clone(), writer_url: writer })
        },
        None => None,
    };
    StorageSettings {
        data_store: PostgresStoreConfig {
            url: g.cockroach_host.clone(),
            database: Some(database),
            tls_ca_crt: tls_path(&g.cockroach_certs_path, "ca.crt"),
            tls_client_crt: tls_path(&g.cockroach_certs_path, "client.root.crt"),
            tls_client_key: tls_path(&g.cockroach_certs_path, "client.root.key"),
        },
        cache_store: RedisStoreConfig {
            url: g.redis_cache_url.clone(),
            namespace: Some(String::from_str(app_id)),
        },
        cache_store_notifier,
        fs_store: RedisStoreConfig {
            url: g.redis_url.clone(),
            namespace: Some(concat3("app:", app_id, ":release:latest:file:")),
        },
        acme_store: RedisStoreConfig { url: g.redis_url.clone(), namespace: None },
    }
}

} // verus!
