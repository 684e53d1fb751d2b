use std::collections::HashMap;

use docbox::cache::TenantKey;
use docbox::pool::DatabasePoolCache;
use docbox::tenant::{
    get_tenant_env, parse_tenant_id, tenant_key_from_headers, tenant_or_not_found,
    ExtractTenantError, HeaderText, StorageLayerFactory, SearchIndexFactory,
    EventPublisherFactory, Tenant, TenantCache,
};

const TENANT_UUID: &str = "67e55044-10b1-426f-9247-bb680e5fe0c8";

fn tenant(env: &str, id: u128, bucket: &str) -> Tenant {
    Tenant {
        id,
        name: "acme".to_string(),
        env: env.to_string(),
        db_name: "acme_db".to_string(),
        db_secret_name: "acme/db".to_string(),
        s3_name: bucket.to_string(),
        os_index_name: "acme-index".to_string(),
        event_queue_url: Some("https://queue/acme".to_string()),
    }
}

/// A directory that counts the queries it answers.
struct FakeDirectory {
    rows: HashMap<(String, u128), Tenant>,
    queries: usize,
}

impl FakeDirectory {
    fn find(&mut self, env: &str, id: u128) -> Option<Tenant> {
        self.queries += 1;
        self.rows.get(&(env.to_string(), id)).map(|t| tenant(&t.env, t.id, &t.s3_name))
    }
}

/// One cache-aside resolution; returns the bucket of the resolved tenant.
fn resolve(cache: &mut TenantCache, dir: &mut FakeDirectory, env: &str, id: u128) -> Option<String> {
    if let Some(t) = cache.get_tenant(env, id) {
        return Some(t.s3_name.clone());
    }
    let found = dir.find(env, id);
    cache.record_lookup(env, id, found);
    cache.get_tenant(env, id).map(|t| t.s3_name.clone())
}

fn directory() -> FakeDirectory {
    let mut rows = HashMap::new();
    rows.insert(("prod".to_string(), 1), tenant("prod", 1, "bucket-1"));
    FakeDirectory { rows, queries: 0 }
}

#[test]
fn repeated_resolutions_hit_the_cache() {
    let mut cache = TenantCache::new();
    let mut dir = directory();
    for _ in 0..5 {
        assert_eq!(resolve(&mut cache, &mut dir, "prod", 1), Some("bucket-1".to_string()));
    }
    assert_eq!(dir.queries, 1);
}

#[test]
fn flush_forces_exactly_one_requery() {
    let mut cache = TenantCache::new();
    let mut dir = directory();
    resolve(&mut cache, &mut dir, "prod", 1);
    assert_eq!(dir.queries, 1);
    cache.flush();
    assert!(cache.get_tenant("prod", 1).is_none());
    for _ in 0..3 {
        assert_eq!(resolve(&mut cache, &mut dir, "prod", 1), Some("bucket-1".to_string()));
    }
    assert_eq!(dir.queries, 2);
}

#[test]
fn missing_tenant_is_not_cached() {
    let mut cache = TenantCache::new();
    let mut dir = directory();
    assert_eq!(resolve(&mut cache, &mut dir, "prod", 2), None);
    assert_eq!(resolve(&mut cache, &mut dir, "prod", 2), None);
    assert_eq!(dir.queries, 2);
    // Provisioned later: seen at once.
    dir.rows.insert(("prod".to_string(), 2), tenant("prod", 2, "bucket-2"));
    assert_eq!(resolve(&mut cache, &mut dir, "prod", 2), Some("bucket-2".to_string()));
    // Same id in another environment is another tenant.
    assert_eq!(resolve(&mut cache, &mut dir, "dev", 1), None);
}

#[test]
fn later_record_replaces_earlier() {
    let mut cache = TenantCache::new();
    cache.record_lookup("prod", 1, Some(tenant("prod", 1, "old")));
    cache.record_lookup("prod", 1, Some(tenant("prod", 1, "new")));
    assert_eq!(cache.get_tenant("prod", 1).unwrap().s3_name, "new");
    cache.record_lookup("prod", 1, None);
    assert_eq!(cache.get_tenant("prod", 1).unwrap().s3_name, "new");
}

#[test]
fn tenant_headers() {
    let id = HeaderText::Text(TENANT_UUID.to_string());
    let env = HeaderText::Text("prod".to_string());
    let expected = u128::from_str_radix("67e5504410b1426f9247bb680e5fe0c8", 16).unwrap();
    assert_eq!(parse_tenant_id(&id), Ok(expected));
    let key: TenantKey = tenant_key_from_headers(&id, &env).unwrap();
    assert_eq!(key.env, "prod");
    assert_eq!(key.id, expected);

    assert_eq!(
        tenant_key_from_headers(&HeaderText::Absent, &env).unwrap_err(),
        ExtractTenantError::MissingTenantId
    );
    assert_eq!(
        tenant_key_from_headers(&HeaderText::Invalid, &env).unwrap_err(),
        ExtractTenantError::InvalidTenantId
    );
    assert_eq!(
        tenant_key_from_headers(&HeaderText::Text("not-a-uuid".to_string()), &env).unwrap_err(),
        ExtractTenantError::InvalidTenantId
    );
    assert_eq!(
        tenant_key_from_headers(&id, &HeaderText::Absent).unwrap_err(),
        ExtractTenantError::MissingTenantEnv
    );
    assert_eq!(
        tenant_key_from_headers(&id, &HeaderText::Invalid).unwrap_err(),
        ExtractTenantError::InvalidTenantEnv
    );
    assert_eq!(get_tenant_env(&env), Ok("prod".to_string()));
    assert_eq!(tenant_or_not_found(None).unwrap_err(), ExtractTenantError::TenantNotFound);
    assert_eq!(tenant_or_not_found(Some(tenant("prod", 1, "b"))).unwrap().id, 1);
}

#[test]
fn pool_cache_keeps_pools_until_flush() {
    let t = tenant("prod", 1, "b");
    let mut pools: DatabasePoolCache<std::sync::Arc<u32>> = DatabasePoolCache::new();
    assert!(pools.get_root_pool().is_none());
    assert!(pools.get_tenant_pool(&t).is_none());
    let target = DatabasePoolCache::<std::sync::Arc<u32>>::pool_target(&t);
    assert_eq!(target.db_name, "acme_db");
    assert_eq!(target.secret_name, "acme/db");
    pools.store_root_pool(std::sync::Arc::new(0));
    let pool = std::sync::Arc::new(7);
    pools.store_tenant_pool(&t, pool.clone());
    assert_eq!(**pools.get_tenant_pool(&t).unwrap(), 7);
    let in_flight = pools.get_tenant_pool(&t).unwrap().clone();
    pools.flush();
    assert!(pools.get_root_pool().is_none());
    assert!(pools.get_tenant_pool(&t).is_none());
    // A user of a discarded pool keeps it.
    assert_eq!(*in_flight, 7);
}

#[test]
fn factories_scope_handles_to_the_tenant() {
    let t = tenant("prod", 1, "bucket-1");
    let storage = StorageLayerFactory { client: "s3" };
    assert_eq!(storage.create_storage_layer(&t).bucket_name, "bucket-1");
    let search = SearchIndexFactory { client: "os" };
    assert_eq!(search.create_search_index(&t).index_name, "acme-index");
    let events = EventPublisherFactory { client: "sqs" };
    assert_eq!(
        events.create_event_publisher(&t).queue_url,
        Some("https://queue/acme".to_string())
    );
}
