//! A verified core for per-request data sharing in a request-processing
//! pipeline.
//!
//! The crate provides four pieces:
//!
//! * [`store`] — a per-request extension store: a map from a type-identity
//!   key to one erased value per key, with last-write-wins insertion;
//! * [`request`] — the request carrying its own extension store;
//! * [`endpoint`] — the `Endpoint` abstraction (a handler turning a request
//!   into a result) together with a few terminal endpoints;
//! * [`middleware`] — the `Middleware` abstraction and the `AddData`
//!   middleware, which installs one configured value into every request's
//!   store before delegating to the endpoint it wraps.

pub mod endpoint;
pub mod middleware;
pub mod request;
pub mod store;
