//! The fallback handlers: what is answered when the hosting framework itself
//! ends a request, before or in place of a handler.
//!
//! Each of them reads the verb and the path of the request and nothing else,
//! accepts every request, and answers with the same envelope that a handler's
//! own failure gets.

use vstd::prelude::*;

use crate::envelope::{ApiError, Envelope};
use crate::request::RequestInfo;

verus! {

/// The message of [`bad_request`].
pub const BAD_REQUEST_MESSAGE: &'static str = "invalid request";

/// The message of [`unauthorized`].
pub const UNAUTHORIZED_MESSAGE: &'static str = "user must be logged in to execute this request";

/// The message of [`forbidden`].
pub const FORBIDDEN_MESSAGE: &'static str = "this request is not allowed";

/// The message of [`not_found`].
pub const NOT_FOUND_MESSAGE: &'static str = "requested resource does not exist";

/// The message of [`unprocessable_entity`].
pub const UNPROCESSABLE_ENTITY_MESSAGE: &'static str =
    "the request cannot be processed because the payload is ill-formed";

/// The message of [`internal_error`].
pub const INTERNAL_ERROR_MESSAGE: &'static str = "Ooooooops.... Looks like we messed up, sorry :)";

/// The message of [`default`].
pub const DEFAULT_MESSAGE: &'static str = "unexepected error";

/// Answers a failure that has no handler of its own: the envelope carries
/// the status that the framework found, whatever it is, and a generic
/// message.
pub fn default(status: u16, request: &RequestInfo) -> (envelope: ApiError)
    ensures
        envelope@ == Envelope::describing(status, DEFAULT_MESSAGE@, request@),
        envelope@.well_formed(),
{
    ApiError::new(status, DEFAULT_MESSAGE, request.method, request.path.as_str())
}

/// Answers a request whose body could not be read as what the route expects:
/// status 400.
pub fn bad_request(request: &RequestInfo) -> (envelope: ApiError)
    ensures
        envelope@ == Envelope::describing(400, BAD_REQUEST_MESSAGE@, request@),
        envelope@.well_formed(),
{
    ApiError::new(400, BAD_REQUEST_MESSAGE, request.method, request.path.as_str())
}

/// Answers a request that needs a logged-in user and has none: status 401.
pub fn unauthorized(request: &RequestInfo) -> (envelope: ApiError)
    ensures
        envelope@ == Envelope::describing(401, UNAUTHORIZED_MESSAGE@, request@),
        envelope@.well_formed(),
{
    ApiError::new(401, UNAUTHORIZED_MESSAGE, request.method, request.path.as_str())
}

/// Answers a request that a guard of its route turned away: status 403.
pub fn forbidden(request: &RequestInfo) -> (envelope: ApiError)
    ensures
        envelope@ == Envelope::describing(403, FORBIDDEN_MESSAGE@, request@),
        envelope@.well_formed(),
{
    ApiError::new(403, FORBIDDEN_MESSAGE, request.method, request.path.as_str())
}

/// Answers a request that no route matches: status 404.
pub fn not_found(request: &RequestInfo) -> (envelope: ApiError)
    ensures
        envelope@ == Envelope::describing(404, NOT_FOUND_MESSAGE@, request@),
        envelope@.well_formed(),
{
    ApiError::new(404, NOT_FOUND_MESSAGE, request.method, request.path.as_str())
}

/// Answers a request whose body was read but does not make sense: status 422.
pub fn unprocessable_entity(request: &RequestInfo) -> (envelope: ApiError)
    ensures
        envelope@ == Envelope::describing(422, UNPROCESSABLE_ENTITY_MESSAGE@, request@),
        envelope@.well_formed(),
{
    ApiError::new(422, UNPROCESSABLE_ENTITY_MESSAGE, request.method, request.path.as_str())
}

/// Answers a request whose handler broke down: status 500.
pub fn internal_error(request: &RequestInfo) -> (envelope: ApiError)
    ensures
        envelope@ == Envelope::describing(500, INTERNAL_ERROR_MESSAGE@, request@),
        envelope@.well_formed(),
{
    ApiError::new(500, INTERNAL_ERROR_MESSAGE, request.method, request.path.as_str())
}

} // verus!
