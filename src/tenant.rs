//! Tenants, the headers that name one, the tenant cache and the factories
//! that derive tenant-scoped handles.
use vstd::prelude::*;
use crate::cache::{KeyModel, KeyedCache, TenantKey};

verus! {

/// A tenant's directory record. Immutable once loaded.
#[derive(Debug)]
pub struct Tenant {
    pub id: u128,
    pub name: String,
    /// Environment the tenant belongs to.
    pub env: String,
    /// Name of the tenant's database.
    pub db_name: String,
    /// Name of the secret holding the database credentials.
    pub db_secret_name: String,
    /// Name of the tenant's storage bucket.
    pub s3_name: String,
    /// Name of the tenant's search index.
    pub os_index_name: String,
    /// Queue that receives the tenant's events, if any.
    pub event_queue_url: Option<String>,
}

/// A header value as a request carries it.
#[derive(Debug)]
pub enum HeaderText {
    /// The header is not present.
    Absent,
    /// The header is present but is not visible ASCII text.
    Invalid,
    /// The header's text.
    Text(String),
}

/// Why no tenant could be taken from a request.
#[derive(Debug, PartialEq, Eq, Structural)]
pub enum ExtractTenantError {
    MissingTenantId,
    InvalidTenantId,
    MissingTenantEnv,
    InvalidTenantEnv,
    TenantNotFound,
}

/// What `uuid` parses out of a string, as a 128-bit value.
pub uninterp spec fn parsed_uuid(s: Seq<char>) -> Option<u128>;

/// Relies on `uuid::Uuid`'s `FromStr` (`Uuid::parse_str`): the result depends
/// on the text alone, and an empty text is no identifier.
#[verifier::external_body]
fn parse_uuid(s: &str) -> (r: Option<u128>)
    ensures
        r == parsed_uuid(s@),
        s@.len() == 0 ==> r is None,
{
    s.parse::<uuid::Uuid>().ok().map(|u| u.as_u128())
}

/// The tenant identifier that an identifier header names.
pub open spec fn tenant_id_spec(header: HeaderText) -> Result<u128, ExtractTenantError> {
    match header {
        HeaderText::Absent => Err(ExtractTenantError::MissingTenantId),
        HeaderText::Invalid => Err(ExtractTenantError::InvalidTenantId),
        HeaderText::Text(s) => match parsed_uuid(s@) {
            Some(id) => Ok(id),
            None => Err(ExtractTenantError::InvalidTenantId),
        },
    }
}

/// The environment that an environment header names.
pub open spec fn tenant_env_spec(header: HeaderText) -> Result<Seq<char>, ExtractTenantError> {
    match header {
        HeaderText::Absent => Err(ExtractTenantError::MissingTenantEnv),
        HeaderText::Invalid => Err(ExtractTenantError::InvalidTenantEnv),
        HeaderText::Text(s) => Ok(s@),
    }
}

/// Reads the tenant identifier header.
pub fn parse_tenant_id(header: &HeaderText) -> (r: Result<u128, ExtractTenantError>)
    ensures
        r == tenant_id_spec(*header),
{
    match header {
        HeaderText::Absent => Err(ExtractTenantError::MissingTenantId),
        HeaderText::Invalid => Err(ExtractTenantError::InvalidTenantId),
        HeaderText::Text(s) => match parse_uuid(s.as_str()) {
            Some(id) => Ok(id),
            None => Err(ExtractTenantError::InvalidTenantId),
        },
    }
}

/// Reads the tenant environment header.
pub fn get_tenant_env(header: &HeaderText) -> (r: Result<String, ExtractTenantError>)
    ensures
        r matches Ok(env) ==> tenant_env_spec(*header) == Ok::<Seq<char>, ExtractTenantError>(env@),
        r matches Err(e) ==> tenant_env_spec(*header) == Err::<Seq<char>, ExtractTenantError>(e),
{
    match header {
        HeaderText::Absent => Err(ExtractTenantError::MissingTenantEnv),
        HeaderText::Invalid => Err(ExtractTenantError::InvalidTenantEnv),
        HeaderText::Text(s) => Ok(s.clone()),
    }
}

/// The tenant identity named by an identifier, already read from its
/// header, and an environment header. The identifier is judged first.
pub fn tenant_key_from_id(id: Result<u128, ExtractTenantError>, env_header: &HeaderText) -> (r: Result<
    TenantKey,
    ExtractTenantError,
>)
    ensures
        id matches Err(e) ==> r == Err::<TenantKey, ExtractTenantError>(e),
        id matches Ok(i) ==> match tenant_env_spec(*env_header) {
            Ok(env) => r matches Ok(k) && k@ == (env, i),
            Err(e) => r == Err::<TenantKey, ExtractTenantError>(e),
        },
{
    let id = match id {
        Ok(i) => i,
        Err(e) => return Err(e),
    };
    let env = match get_tenant_env(env_header) {
        Ok(env) => env,
        Err(e) => return Err(e),
    };
    Ok(TenantKey { env, id })
}

/// The tenant identity that a request's identifier and environment headers
/// name.
pub fn tenant_key_from_headers(id_header: &HeaderText, env_header: &HeaderText) -> (r: Result<
    TenantKey,
    ExtractTenantError,
>)
    ensures
        tenant_id_spec(*id_header) matches Err(e) ==> r == Err::<TenantKey, ExtractTenantError>(e),
        tenant_id_spec(*id_header) matches Ok(i) ==> match tenant_env_spec(*env_header) {
            Ok(env) => r matches Ok(k) && k@ == (env, i),
            Err(e) => r == Err::<TenantKey, ExtractTenantError>(e),
        },
{
    tenant_key_from_id(parse_tenant_id(id_header), env_header)
}

/// In-memory cache of directory records, keyed by (environment, id).
///
/// A lookup is cache-aside: [`TenantCache::get_tenant`] answers from the
/// cache; on a miss the caller queries the directory and hands the answer to
/// [`TenantCache::record_lookup`], which caches a found tenant and never an
/// absence, so a tenant provisioned later is seen at once.
pub struct TenantCache {
    tenants: KeyedCache<Tenant>,
}

impl View for TenantCache {
    type V = Map<KeyModel, Tenant>;

    closed spec fn view(&self) -> Map<KeyModel, Tenant> {
        self.tenants@
    }
}

impl TenantCache {
    pub closed spec fn wf(&self) -> bool {
        self.tenants.wf()
    }

    /// An empty cache.
    pub fn new() -> (r: TenantCache)
        ensures
            r.wf(),
            r@ == Map::<KeyModel, Tenant>::empty(),
    {
        TenantCache { tenants: KeyedCache::new() }
    }

    /// The cached tenant for `(env, id)`; `None` means the directory must be
    /// asked.
    pub fn get_tenant(&self, env: &str, id: u128) -> (r: Option<&Tenant>)
        requires
            self.wf(),
        ensures
            r matches Some(t) ==> self@.contains_key((env@, id)) && *t == self@[(env@, id)],
            r is None ==> !self@.contains_key((env@, id)),
    {
        self.tenants.get(env, id)
    }

    /// Records the directory's answer for `(env, id)`: a found tenant is
    /// cached, replacing any earlier entry; an absence is not.
    pub fn record_lookup(&mut self, env: &str, id: u128, found: Option<Tenant>)
        requires
            old(self).wf(),
        ensures
            final(self).wf(),
            final(self)@ == resolve_step(old(self)@, found, (env@, id)),
    {
        match found {
            Some(t) => self.tenants.insert(env, id, t),
            None => {},
        }
    }

    /// Forgets every cached tenant.
    pub fn flush(&mut self)
        ensures
            final(self).wf(),
            final(self)@ == Map::<KeyModel, Tenant>::empty(),
    {
        self.tenants.clear();
    }
}

/// The cache after recording a directory answer for `k`.
pub open spec fn resolve_step(cache: Map<KeyModel, Tenant>, found: Option<Tenant>, k: KeyModel) -> Map<
    KeyModel,
    Tenant,
> {
    match found {
        Some(t) => cache.insert(k, t),
        None => cache,
    }
}

/// The cache after one resolution of `k` against `directory`: a hit leaves
/// it as it is; a miss asks the directory and records the answer.
pub open spec fn resolve(cache: Map<KeyModel, Tenant>, directory: Map<KeyModel, Tenant>, k: KeyModel) -> Map<
    KeyModel,
    Tenant,
> {
    if cache.contains_key(k) {
        cache
    } else if directory.contains_key(k) {
        resolve_step(cache, Some(directory[k]), k)
    } else {
        resolve_step(cache, None, k)
    }
}

/// How many of the resolutions of `keys`, in order, ask the directory.
pub open spec fn directory_queries(
    cache: Map<KeyModel, Tenant>,
    directory: Map<KeyModel, Tenant>,
    keys: Seq<KeyModel>,
) -> nat
    decreases keys.len(),
{
    if keys.len() == 0 {
        0
    } else {
        (if cache.contains_key(keys[0]) {
            0nat
        } else {
            1nat
        }) + directory_queries(resolve(cache, directory, keys[0]), directory, keys.drop_first())
    }
}

/// Resolving a key that the cache holds asks the directory no more, however
/// often it is repeated.
proof fn lemma_cached_key_never_queried(
    cache: Map<KeyModel, Tenant>,
    directory: Map<KeyModel, Tenant>,
    k: KeyModel,
    n: nat,
)
    requires
        cache.contains_key(k),
    ensures
        directory_queries(cache, directory, Seq::new(n, |i: int| k)) == 0,
    decreases n,
{
    if n > 0 {
        assert(Seq::new(n, |i: int| k).drop_first() =~= Seq::new((n - 1) as nat, |i: int| k));
        lemma_cached_key_never_queried(cache, directory, k, (n - 1) as nat);
    }
}

/// Once a tenant has been found, repeated resolutions of its identity are
/// served by the cache: `n` resolutions of a tenant that the directory holds
/// ask the directory at most once, and not at all when the cache already
/// holds it.
pub proof fn lemma_repeated_resolve_hits_cache(
    cache: Map<KeyModel, Tenant>,
    directory: Map<KeyModel, Tenant>,
    k: KeyModel,
    n: nat,
)
    requires
        directory.contains_key(k),
    ensures
        directory_queries(cache, directory, Seq::new(n, |i: int| k)) <= 1,
        cache.contains_key(k) ==> directory_queries(cache, directory, Seq::new(n, |i: int| k)) == 0,
        resolve(cache, directory, k).contains_key(k),
{
    if cache.contains_key(k) {
        lemma_cached_key_never_queried(cache, directory, k, n);
    } else if n > 0 {
        let after = resolve(cache, directory, k);
        assert(Seq::new(n, |i: int| k).drop_first() =~= Seq::new((n - 1) as nat, |i: int| k));
        lemma_cached_key_never_queried(after, directory, k, (n - 1) as nat);
    }
}

/// After a flush, the next resolution of a tenant that the directory holds
/// asks the directory, and the ones after it do not: `n` resolutions ask
/// exactly once.
pub proof fn lemma_flush_forces_one_query(directory: Map<KeyModel, Tenant>, k: KeyModel, n: nat)
    requires
        directory.contains_key(k),
        n > 0,
    ensures
        directory_queries(Map::empty(), directory, Seq::new(n, |i: int| k)) == 1,
{
    let after = resolve(Map::empty(), directory, k);
    assert(Seq::new(n, |i: int| k).drop_first() =~= Seq::new((n - 1) as nat, |i: int| k));
    lemma_cached_key_never_queried(after, directory, k, (n - 1) as nat);
}

/// An identity that the directory lacks is never cached: every resolution
/// of it asks the directory again.
pub proof fn lemma_absent_tenant_not_cached(
    cache: Map<KeyModel, Tenant>,
    directory: Map<KeyModel, Tenant>,
    k: KeyModel,
    n: nat,
)
    requires
        !cache.contains_key(k),
        !directory.contains_key(k),
    ensures
        directory_queries(cache, directory, Seq::new(n, |i: int| k)) == n,
    decreases n,
{
    if n > 0 {
        assert(Seq::new(n, |i: int| k).drop_first() =~= Seq::new((n - 1) as nat, |i: int| k));
        lemma_absent_tenant_not_cached(cache, directory, k, (n - 1) as nat);
    }
}

/// Settles a completed tenant resolution: an absent tenant is
/// `TenantNotFound`.
pub fn tenant_or_not_found(found: Option<Tenant>) -> (r: Result<Tenant, ExtractTenantError>)
    ensures
        found matches Some(t) ==> r == Ok::<Tenant, ExtractTenantError>(t),
        found is None ==> r == Err::<Tenant, ExtractTenantError>(ExtractTenantError::TenantNotFound),
{
    match found {
        Some(t) => Ok(t),
        None => Err(ExtractTenantError::TenantNotFound),
    }
}

/// A tenant's storage handle: the shared client and the tenant's bucket.
pub struct TenantStorageLayer<'a, C> {
    pub client: &'a C,
    pub bucket_name: String,
}

/// A tenant's search handle: the shared client and the tenant's index.
pub struct TenantSearchIndex<'a, C> {
    pub client: &'a C,
    pub index_name: String,
}

/// A tenant's event handle: the shared client and the tenant's queue, if
/// it has one.
pub struct TenantEventPublisher<'a, C> {
    pub client: &'a C,
    pub queue_url: Option<String>,
}

/// Builds storage handles from one shared client.
pub struct StorageLayerFactory<C> {
    pub client: C,
}

/// Builds search handles from one shared client.
pub struct SearchIndexFactory<C> {
    pub client: C,
}

/// Builds event handles from one shared client.
pub struct EventPublisherFactory<C> {
    pub client: C,
}

impl<C> StorageLayerFactory<C> {
    /// The storage handle scoped to `tenant`'s bucket.
    pub fn create_storage_layer<'a>(&'a self, tenant: &Tenant) -> (r: TenantStorageLayer<'a, C>)
        ensures
            r.client == &self.client,
            r.bucket_name@ == tenant.s3_name@,
    {
        TenantStorageLayer { client: &self.client, bucket_name: tenant.s3_name.clone() }
    }
}

impl<C> SearchIndexFactory<C> {
    /// The search handle scoped to `tenant`'s index.
    pub fn create_search_index<'a>(&'a self, tenant: &Tenant) -> (r: TenantSearchIndex<'a, C>)
        ensures
            r.client == &self.client,
            r.index_name@ == tenant.os_index_name@,
    {
        TenantSearchIndex { client: &self.client, index_name: tenant.os_index_name.clone() }
    }
}

impl<C> EventPublisherFactory<C> {
    /// The event handle scoped to `tenant`'s queue.
    pub fn create_event_publisher<'a>(&'a self, tenant: &Tenant) -> (r: TenantEventPublisher<'a, C>)
        ensures
            r.client == &self.client,
            r.queue_url matches Some(q) ==> tenant.event_queue_url matches Some(t) && q@ == t@,
            r.queue_url is None ==> tenant.event_queue_url is None,
    {
        let queue_url = match &tenant.event_queue_url {
            Some(q) => Some(q.clone()),
            None => None,
        };
        TenantEventPublisher { client: &self.client, queue_url }
    }
}

} // verus!
