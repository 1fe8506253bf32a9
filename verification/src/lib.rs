//! A typed client for the Zotero web API.
//!
//! The crate models the API's polymorphic record schema as native types,
//! builds well-formed HTTP requests against the REST endpoint, and decodes
//! heterogeneous JSON payloads — including paginated responses — into those
//! types.  All request construction and all decoding is pure: the actual
//! transport is left to the caller, which hands responses back as
//! [`json::JsonValue`] trees.

pub mod client;
pub mod collection;
pub mod date;
pub mod error;
pub mod item;
pub mod json;
pub mod pagination;
pub mod record;
pub mod shared_fields;
pub mod urlencode;
pub mod variants;
