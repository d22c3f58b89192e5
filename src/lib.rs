//! Verified building blocks for web services built on poem and poem-openapi:
//! partial-update values, merging of documented responses that share a status
//! code, the commit/rollback decisions of a per-request database transaction,
//! and the fixed error responses that go with them.

pub mod auth;
pub mod db;
pub mod panic_handler;
pub mod patch_value;
pub mod responses;
