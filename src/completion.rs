//! The background side of the lifecycle: routing storage notifications to
//! the completion handler, and the scheduled sweep.
use vstd::prelude::*;
use crate::presigned::{opt_view, UploadTasks};
use crate::tenant::Tenant;

verus! {

/// One record of a storage notification.
#[derive(Debug)]
pub struct NotificationRecord {
    pub bucket_name: Option<String>,
    pub object_key: Option<String>,
}

/// The bucket and object key of a notification: those of its first record,
/// when that record carries both.
pub fn get_object_parts(records: &Vec<NotificationRecord>) -> (r: Option<(String, String)>)
    ensures
        records@.len() == 0 ==> r is None,
        records@.len() > 0 ==> match (records@[0].bucket_name, records@[0].object_key) {
            (Some(b), Some(k)) => r matches Some((rb, rk)) && rb@ == b@ && rk@ == k@,
            _ => r is None,
        },
{
    if records.len() == 0 {
        return None;
    }
    let record = &records[0];
    match (&record.bucket_name, &record.object_key) {
        (Some(b), Some(k)) => Some((b.clone(), k.clone())),
        _ => None,
    }
}

/// What `urlencoding` decodes a percent-encoded text to, if the decoded
/// bytes are UTF-8.
pub uninterp spec fn url_decoded(s: Seq<char>) -> Option<Seq<char>>;

/// Relies on `urlencoding::decode`: the result depends on the text alone,
/// and a text without `%` comes back as it is.
#[verifier::external_body]
fn url_decode(s: &str) -> (r: Option<String>)
    ensures
        opt_view(r) == url_decoded(s@),
        !s@.contains('%') ==> opt_view(r) == Some(s@),
{
    urlencoding::decode(s).ok().map(|d| d.into_owned())
}

/// Why a notification is dropped without error.
#[derive(Debug, PartialEq, Eq, Structural)]
pub enum IgnoreReason {
    /// No tenant owns the bucket: the write is not this service's.
    UnknownBucket,
    /// The object key does not decode.
    InvalidObjectKey,
}

/// Where a notification goes.
#[derive(Debug)]
pub enum NotificationRoute {
    Ignore(IgnoreReason),
    /// Complete the upload of the tenant's object with this decoded key.
    Complete { tenant: Tenant, object_key: String },
}

/// Routes a notification once its bucket was looked up and its key decoded.
pub fn route_decoded(tenant: Option<Tenant>, decoded_key: Option<String>) -> (r: NotificationRoute)
    ensures
        tenant is None ==> r == NotificationRoute::Ignore(IgnoreReason::UnknownBucket),
        tenant is Some && decoded_key is None ==> r == NotificationRoute::Ignore(
            IgnoreReason::InvalidObjectKey,
        ),
        tenant matches Some(t) ==> (decoded_key matches Some(k) ==> r == (NotificationRoute::Complete {
            tenant: t,
            object_key: k,
        })),
{
    match tenant {
        None => NotificationRoute::Ignore(IgnoreReason::UnknownBucket),
        Some(t) => match decoded_key {
            None => NotificationRoute::Ignore(IgnoreReason::InvalidObjectKey),
            Some(k) => NotificationRoute::Complete { tenant: t, object_key: k },
        },
    }
}

/// Routes a notification for `object_key` whose bucket belongs to `tenant`:
/// an unknown bucket or an undecodable key is dropped; otherwise the
/// tenant's upload is completed under the decoded key.
pub fn route_notification(tenant: Option<Tenant>, object_key: &str) -> (r: NotificationRoute)
    ensures
        tenant is None ==> r == NotificationRoute::Ignore(IgnoreReason::UnknownBucket),
        tenant is Some && url_decoded(object_key@) is None ==> r == NotificationRoute::Ignore(
            IgnoreReason::InvalidObjectKey,
        ),
        tenant matches Some(t) ==> (url_decoded(object_key@) matches Some(k) ==> (
        r matches NotificationRoute::Complete { tenant: rt, object_key: rk } && rt == t && rk@
            == k)),
{
    match tenant {
        None => NotificationRoute::Ignore(IgnoreReason::UnknownBucket),
        Some(t) => route_decoded(Some(t), url_decode(object_key)),
    }
}

/// Why a sweep over all tenants could not start.
#[derive(Debug, PartialEq, Eq, Structural)]
pub enum PurgeExpiredPresignedError {
    ConnectDatabase,
    QueryTenants,
}

impl PurgeExpiredPresignedError {
    pub fn message(&self) -> (r: &'static str)
        ensures
            *self == PurgeExpiredPresignedError::ConnectDatabase ==> r@
                == "failed to connect to database"@,
            *self == PurgeExpiredPresignedError::QueryTenants ==> r@
                == "failed to query available tenants"@,
    {
        match self {
            PurgeExpiredPresignedError::ConnectDatabase => "failed to connect to database",
            PurgeExpiredPresignedError::QueryTenants => "failed to query available tenants",
        }
    }
}

/// Relies on `chrono::Utc::now`: the current time in whole seconds since
/// the Unix epoch. Nothing is known of its value.
#[verifier::external_body]
fn now_timestamp() -> (r: i64) {
    chrono::Utc::now().timestamp()
}

impl UploadTasks {
    /// Sweeps at the current time; see [`UploadTasks::purge_expired`].
    pub fn purge_expired_now(&mut self) -> (deleted: Vec<String>)
        requires
            old(self)@.wf(),
        ensures
            final(self)@.wf(),
            exists|now: i64|
                final(self)@ == old(self)@.purge(now) && deleted@.map_values(|k: String| k@)
                    == old(self)@.purge_deletions(now),
    {
        let now = now_timestamp();
        self.purge_expired(now)
    }
}

/// Sweeps every tenant's table at `now`, each on its own: the result holds,
/// tenant by tenant, the storage objects to delete.
pub fn purge_expired_presigned_tasks(tables: &mut Vec<UploadTasks>, now: i64) -> (deleted: Vec<
    Vec<String>,
>)
    requires
        forall|i: int| 0 <= i < old(tables)@.len() ==> (#[trigger] old(tables)@[i])@.wf(),
    ensures
        final(tables)@.len() == old(tables)@.len(),
        deleted@.len() == old(tables)@.len(),
        forall|i: int|
            0 <= i < old(tables)@.len() ==> {
                &&& (#[trigger] final(tables)@[i])@ == old(tables)@[i]@.purge(now)
                &&& final(tables)@[i]@.wf()
                &&& deleted@[i]@.map_values(|k: String| k@) == old(tables)@[i]@.purge_deletions(now)
            },
{
    let ghost pre = tables@;
    let mut pending: Vec<UploadTasks> = Vec::new();
    std::mem::swap(tables, &mut pending);
    let mut deleted: Vec<Vec<String>> = Vec::new();
    for table in it: pending.into_iter()
        invariant
            it.seq() == pre,
            tables@.len() == it.index(),
            deleted@.len() == it.index(),
            forall|i: int| 0 <= i < pre.len() ==> (#[trigger] pre[i])@.wf(),
            forall|i: int|
                0 <= i < it.index() ==> {
                    &&& (#[trigger] tables@[i])@ == pre[i]@.purge(now)
                    &&& tables@[i]@.wf()
                    &&& deleted@[i]@.map_values(|k: String| k@) == pre[i]@.purge_deletions(now)
                },
    {
        let mut table = table;
        let gone = table.purge_expired(now);
        tables.push(table);
        deleted.push(gone);
    }
    deleted
}

} // verus!
