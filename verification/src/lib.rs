//! Client library for a remote television-metadata web service.
//!
//! The library resolves a series name (or an external identifier) to a
//! provider-assigned series id, then retrieves episode and series-listing
//! details for that id.  It supports two generations of the remote API: a
//! current JSON/token-based one and a legacy XML one.  All network traffic
//! goes through a pluggable transport capability, so the request/response
//! mapping layer here is independent of any concrete HTTP stack.

pub mod coerce;
pub mod data;
pub mod error;
pub mod json;
pub mod legacy;
pub mod mapping;
pub mod parse;
pub mod raw;
pub mod urls;
pub mod xml;

pub use data::EpisodeId;
pub use error::{TvdbError, TvdbResult};
pub use raw::{RequestClient, Tvdb};
