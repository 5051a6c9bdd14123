//! The outcome of a handler and its rendering as a response.

use vstd::prelude::*;

use crate::catchers::{internal_error, INTERNAL_ERROR_MESSAGE};
use crate::envelope::{reason_phrase, ApiError, Envelope};
use crate::request::{RequestInfo, RequestView};
use crate::response::{Response, ResponseView, JSON_CONTENT_TYPE};

verus! {

/// What the serializer made of the value that a handler wants to return.
#[derive(Clone, Debug, PartialEq, Eq)]
pub enum Payload {
    /// The JSON text of the value.
    Json(String),
    /// The serializer refused the value.
    Unserializable,
}

impl View for Payload {
    type V = Option<Seq<char>>;

    open spec fn view(&self) -> Option<Seq<char>> {
        match self {
            Payload::Json(text) => Some(text@),
            Payload::Unserializable => None,
        }
    }
}

impl Payload {
    /// Takes what a fallible serializer returned: its text, or the fact that
    /// it failed. The error itself is dropped.
    pub fn from_outcome<E>(outcome: Result<String, E>) -> (payload: Payload)
        ensures
            payload@ == (match outcome {
                Ok(text) => Some(text@),
                Err(_) => None,
            }),
    {
        match outcome {
            Ok(text) => Payload::Json(text),
            Err(_) => Payload::Unserializable,
        }
    }
}

/// The outcome of a handler: what it returns in place of a response of its
/// own making.
#[derive(Clone, Debug, PartialEq, Eq)]
pub enum ApiResult {
    /// The handler succeeded: `status` is the status it chose, which need
    /// not be 200, and `payload` the value it returns.
    Success { status: u16, payload: Payload },
    /// The handler failed with `status`; `message` says why.
    Failure { status: u16, message: String },
}

/// An [`ApiResult`] with its texts as sequences of characters.
#[verifier::ext_equal]
pub enum ApiResultView {
    Success { status: u16, payload: Option<Seq<char>> },
    Failure { status: u16, message: Seq<char> },
}

impl View for ApiResult {
    type V = ApiResultView;

    open spec fn view(&self) -> ApiResultView {
        match self {
            ApiResult::Success { status, payload } => ApiResultView::Success {
                status: *status,
                payload: payload@,
            },
            ApiResult::Failure { status, message } => ApiResultView::Failure {
                status: *status,
                message: message@,
            },
        }
    }
}

/// The response to a failure with `status` and `message`: the envelope that
/// describes it for `request`, under the same status.
pub open spec fn failure_response(status: u16, message: Seq<char>, request: RequestView)
    -> ResponseView {
    Envelope::describing(status, message, request).response()
}

/// The response to a success with `status`. A payload that was serialized is
/// the whole body. One that the serializer refused is answered as
/// [`internal_error`] answers: with status 500 and its envelope.
pub open spec fn success_response(status: u16, payload: Option<Seq<char>>, request: RequestView)
    -> ResponseView {
    match payload {
        Some(text) => ResponseView::json(status, text),
        None => failure_response(500, INTERNAL_ERROR_MESSAGE@, request),
    }
}

/// The response to `result` for `request`.
pub open spec fn rendering(result: ApiResultView, request: RequestView) -> ResponseView {
    match result {
        ApiResultView::Success { status, payload } => success_response(status, payload, request),
        ApiResultView::Failure { status, message } => failure_response(status, message, request),
    }
}

/// Renders a success. The body is the payload's JSON text with nothing
/// around it. If the payload could not be serialized, the response is the
/// one of an internal error instead: this is the only case in which the
/// status is not the one given.
pub fn build_success_response(status: u16, payload: Payload, request: &RequestInfo) -> (response:
    Response)
    ensures
        response@ == success_response(status, payload@, request@),
{
    match payload {
        Payload::Json(text) => Response::json(status, text),
        Payload::Unserializable => internal_error(request).to_response(),
    }
}

/// Renders a failure: the body is the envelope made of `status`, `message`
/// and the verb and path of `request`.
pub fn build_failure_response(status: u16, message: &str, request: &RequestInfo) -> (response:
    Response)
    ensures
        response@ == failure_response(status, message@, request@),
{
    ApiError::new(status, message, request.method, request.path.as_str()).to_response()
}

impl ApiResult {
    /// The outcome of a handler that succeeded with `status` and returns
    /// `payload`.
    pub fn success(status: u16, payload: Payload) -> (result: ApiResult)
        ensures
            result@ == (ApiResultView::Success { status, payload: payload@ }),
    {
        ApiResult::Success { status, payload }
    }

    /// The outcome of a handler that failed with `status`, for the reason
    /// that `message` gives. Any text is a message.
    pub fn failure(status: u16, message: &str) -> (result: ApiResult)
        ensures
            result@ == (ApiResultView::Failure { status, message: message@ }),
    {
        ApiResult::Failure { status, message: message.to_owned() }
    }

    /// Renders the outcome as the response to `request`. Every outcome has a
    /// response, for every request.
    pub fn respond_to(self, request: &RequestInfo) -> (response: Response)
        ensures
            response@ == rendering(self@, request@),
    {
        match self {
            ApiResult::Success { status, payload } => build_success_response(
                status,
                payload,
                request,
            ),
            ApiResult::Failure { status, message } => build_failure_response(
                status,
                message.as_str(),
                request,
            ),
        }
    }
}

/// A success whose payload was serialized is answered with the status it
/// carries, whatever that is, as JSON, and with the payload's text as the
/// whole body.
pub proof fn success_is_rendered_verbatim(status: u16, text: Seq<char>, request: RequestView)
    ensures
        rendering(ApiResultView::Success { status, payload: Some(text) }, request) == (
        ResponseView { status, content_type: JSON_CONTENT_TYPE@, body: text }),
{
}

/// A failure is answered with its own status, as JSON, and with the text of
/// a well-formed envelope: its status is the one of the failure, its name
/// the reason phrase of that status, its message the one given, and its
/// verb and path those of the request.
pub proof fn failure_is_rendered_as_envelope(status: u16, message: Seq<char>, request: RequestView)
    ensures
        ({
            let response = rendering(ApiResultView::Failure { status, message }, request);
            let envelope = Envelope {
                status,
                error: reason_phrase(status),
                message,
                method: request.method,
                path: request.path,
            };
            &&& response.status == status
            &&& response.content_type == JSON_CONTENT_TYPE@
            &&& response.body == envelope.json()
            &&& envelope.well_formed()
        }),
{
}

/// Rendering depends on the outcome and the request alone: two responses to
/// one outcome for one request have the same status, the same content type
/// and the same body, character by character.
pub proof fn rendering_is_repeatable(
    result: ApiResultView,
    request: RequestView,
    first: ResponseView,
    second: ResponseView,
)
    requires
        first == rendering(result, request),
        second == rendering(result, request),
    ensures
        first.status == second.status,
        first.content_type == second.content_type,
        first.body == second.body,
{
}

/// Every response is JSON. Its status is the one that the outcome carries,
/// with one exception: a success whose payload could not be serialized is
/// answered with 500, and with the same response for whatever status the
/// handler had chosen.
pub proof fn rendering_keeps_status(result: ApiResultView, request: RequestView)
    ensures
        rendering(result, request).content_type == JSON_CONTENT_TYPE@,
        match result {
            ApiResultView::Success { status, payload: Some(_) } => rendering(
                result,
                request,
            ).status == status,
            ApiResultView::Success { status, payload: None } => rendering(result, request)
                == failure_response(500, INTERNAL_ERROR_MESSAGE@, request),
            ApiResultView::Failure { status, .. } => rendering(result, request).status == status,
        },
{
}

} // verus!
