//! Read-only client logic for the REST interface of a Bugzilla instance:
//! building the query for a set of bug IDs and decoding the reply into
//! typed records.
//!
//! The library performs no I/O. A caller asks a [`BzInstance`] for the
//! path and query of a request and for the `Authorization` header, sends
//! the request by whatever means it has, and hands the reply back to
//! [`BzInstance::bugs`] or [`BzInstance::bug`].

pub mod access;
pub mod bug_model;
pub mod error;
pub mod json;
pub mod schema;
pub mod text;

pub use access::{first_bug, Auth, BzInstance, Pagination, Request};
pub use bug_model::{Bug, BugzillaError, Flag, Response, User};
pub use error::{DecodeError, QueryError};
pub use json::{find_member, Json, Number};
