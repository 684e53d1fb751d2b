//! The database pool cache: one pool per tenant, plus the root pool that
//! reaches the tenant directory.
use vstd::prelude::*;
use crate::cache::{KeyModel, KeyedCache};
use crate::tenant::Tenant;

verus! {

/// What a new pool for a tenant is built from: the database to reach and
/// the secret that holds its credentials.
#[derive(Debug)]
pub struct PoolTarget {
    pub db_name: String,
    pub secret_name: String,
}

/// Pools created on first use and kept for the life of the process, until
/// an explicit flush.
///
/// On a miss the caller fetches the credentials named by
/// [`DatabasePoolCache::pool_target`], builds the pool and stores it. A
/// flush only drops the cache's own handles: with a shared handle type (an
/// `Arc`) the users of a dropped pool keep it.
pub struct DatabasePoolCache<P> {
    root: Option<P>,
    tenants: KeyedCache<P>,
}

impl<P> DatabasePoolCache<P> {
    pub closed spec fn wf(&self) -> bool {
        self.tenants.wf()
    }

    /// The cached root pool.
    pub closed spec fn root_view(&self) -> Option<P> {
        self.root
    }

    /// The cached tenant pools, keyed by tenant identity.
    pub closed spec fn pools_view(&self) -> Map<KeyModel, P> {
        self.tenants@
    }

    /// An empty cache.
    pub fn new() -> (r: Self)
        ensures
            r.wf(),
            r.root_view() is None,
            r.pools_view() == Map::<KeyModel, P>::empty(),
    {
        DatabasePoolCache { root: None, tenants: KeyedCache::new() }
    }

    /// The cached root pool; `None` means it must be built.
    pub fn get_root_pool(&self) -> (r: Option<&P>)
        ensures
            r matches Some(p) ==> self.root_view() == Some(*p),
            r is None ==> self.root_view() is None,
    {
        match &self.root {
            Some(p) => Some(p),
            None => None,
        }
    }

    /// Caches the root pool.
    pub fn store_root_pool(&mut self, pool: P)
        requires
            old(self).wf(),
        ensures
            final(self).wf(),
            final(self).root_view() == Some(pool),
            final(self).pools_view() == old(self).pools_view(),
    {
        self.root = Some(pool);
    }

    /// The cached pool of `tenant`; `None` means it must be built.
    pub fn get_tenant_pool(&self, tenant: &Tenant) -> (r: Option<&P>)
        requires
            self.wf(),
        ensures
            r matches Some(p) ==> self.pools_view().contains_key((tenant.env@, tenant.id)) && *p
                == self.pools_view()[(tenant.env@, tenant.id)],
            r is None ==> !self.pools_view().contains_key((tenant.env@, tenant.id)),
    {
        self.tenants.get(tenant.env.as_str(), tenant.id)
    }

    /// Caches the pool of `tenant`.
    pub fn store_tenant_pool(&mut self, tenant: &Tenant, pool: P)
        requires
            old(self).wf(),
        ensures
            final(self).wf(),
            final(self).root_view() == old(self).root_view(),
            final(self).pools_view() == old(self).pools_view().insert((tenant.env@, tenant.id), pool),
    {
        self.tenants.insert(tenant.env.as_str(), tenant.id, pool);
    }

    /// What a pool for `tenant` is built from.
    pub fn pool_target(tenant: &Tenant) -> (r: PoolTarget)
        ensures
            r.db_name@ == tenant.db_name@,
            r.secret_name@ == tenant.db_secret_name@,
    {
        PoolTarget { db_name: tenant.db_name.clone(), secret_name: tenant.db_secret_name.clone() }
    }

    /// Drops every cached pool, the root pool included; later requests
    /// build fresh ones.
    pub fn flush(&mut self)
        ensures
            final(self).wf(),
            final(self).root_view() is None,
            final(self).pools_view() == Map::<KeyModel, P>::empty(),
    {
        self.root = None;
        self.tenants.clear();
    }
}

} // verus!
