//! The finished response that is handed to the hosting framework.

use vstd::prelude::*;

use rocket::http::ContentType;

verus! {

/// The value of the `Content-Type` header of every response: JSON.
pub const JSON_CONTENT_TYPE: &'static str = "application/json";

/// A finished response: the hosting framework writes it to the wire as it
/// is.
#[derive(Clone, Debug, PartialEq, Eq)]
pub struct Response {
    /// The HTTP status code.
    pub status: u16,
    /// The value of the `Content-Type` header.
    pub content_type: String,
    /// The body.
    pub body: String,
}

/// A [`Response`] with its texts as sequences of characters.
#[verifier::ext_equal]
pub struct ResponseView {
    pub status: u16,
    pub content_type: Seq<char>,
    pub body: Seq<char>,
}

impl View for Response {
    type V = ResponseView;

    open spec fn view(&self) -> ResponseView {
        ResponseView { status: self.status, content_type: self.content_type@, body: self.body@ }
    }
}

impl ResponseView {
    /// The response with `status` and the JSON text `body`.
    pub open spec fn json(status: u16, body: Seq<char>) -> ResponseView {
        ResponseView { status, content_type: JSON_CONTENT_TYPE@, body }
    }
}

/// Gives the header value that announces a JSON body.
///
/// Trusted: the call prints `rocket::http::ContentType::JSON`. The contract
/// claims that this gives `application/json`, with no parameter.
#[verifier::external_body]
fn json_content_type() -> (value: String)
    ensures
        value@ == JSON_CONTENT_TYPE@,
{
    ContentType::JSON.to_string()
}

impl Response {
    /// Makes the response with `status` whose body is the JSON text `body`.
    /// The body is taken as it is.
    pub fn json(status: u16, body: String) -> (response: Response)
        ensures
            response@ == ResponseView::json(status, body@),
    {
        Response { status, content_type: json_content_type(), body }
    }
}

} // verus!
