//! Tenant resolution and the presigned upload lifecycle of a multi-tenant
//! document service.
//!
//! - [`presigned`]: the task table and its three operations (issue a grant,
//!   finalise it once on a storage notification, sweep expired grants), with
//!   the laws that tie them together.
//! - [`tenant`] and [`pool`]: the tenant cache, the database pool cache and
//!   the factories of tenant-scoped handles; [`cache`] is their store.
//! - [`upload`], [`completion`], [`http`], [`raw`]: the decisions of the
//!   request handlers, the notification handler and the scheduled sweep,
//!   taken on plain values.
//! - [`error`], [`models`], [`scope`], [`text`]: errors as responses,
//!   request and response shapes, scopes, string building.
pub mod cache;
pub mod completion;
pub mod error;
pub mod http;
pub mod models;
pub mod pool;
pub mod presigned;
pub mod raw;
pub mod scope;
pub mod tenant;
pub mod text;
pub mod upload;
