//! A uniform response contract for an HTTP API.
//!
//! Every outcome of a handler, success or failure, becomes one [`Response`]
//! with a JSON body, and every failure, whether a handler declared it or the
//! hosting framework detected it, is described by the same [`ApiError`]
//! envelope.
//!
//! The library reads two things of a request, its verb and its path
//! ([`RequestInfo`]), and gives back plain values: a status, a content type
//! and a body. Reading those two off a live request, serializing a payload
//! and handing the response to the framework are left to the caller.
//!
//! Three things are taken from `rocket` and believed, not proved: the
//! reason phrase of a status code, the JSON literal of a string, and the
//! header value that announces JSON. Each stands behind one function that
//! is private to the crate, and whose comment says what is claimed.
//! Everything else is proved:
//! the numeral of the status, the framing of the envelope, which envelope
//! each fallback gives, and which response each outcome gets.

pub mod catchers;
pub mod envelope;
pub mod json;
pub mod method;
pub mod render;
pub mod request;
pub mod response;

pub use catchers::{
    bad_request, forbidden, internal_error, not_found, unauthorized, unprocessable_entity,
};
pub use envelope::ApiError;
pub use method::Method;
pub use render::{ApiResult, Payload};
pub use request::RequestInfo;
pub use response::Response;
