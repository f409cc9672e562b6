//! Client-side access layer for a remote mail-routing HTTP API.
//!
//! The crate builds the requests that a transport sends (URL resolution,
//! basic authentication, form bodies, pagination), decodes the JSON
//! responses that come back, and applies a dry-run gate uniformly to every
//! mutating operation.  The transport itself (the actual network send) is
//! left to the caller: every operation hands out a fully described
//! [`request::ApiRequest`] and interprets the outcome the caller hands back.

pub mod client;
pub mod json;
pub mod request;
pub mod response;
pub mod routes;
pub mod secret;
pub mod text;
