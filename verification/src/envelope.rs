//! The error envelope: the one shape in which every failure is reported.

use vstd::prelude::*;
use vstd::string::*;

use rocket::http::Status;

use crate::json::{decimal, decimal_string, json_string, quote};
use crate::method::Method;
use crate::request::RequestView;
use crate::response::{Response, ResponseView};

verus! {

/// The canonical reason phrase of the HTTP status code `status`, such as
/// `Not Found` for 404. A code that the HTTP standard does not define has a
/// phrase too, one that names its class.
pub uninterp spec fn reason_phrase(status: u16) -> Seq<char>;

/// Looks up the reason phrase of `status`.
///
/// Trusted: the call is `rocket::http::Status::reason_lossy` on the status
/// made by `Status::new`. The contract claims only that the phrase is
/// determined by the code.
#[verifier::external_body]
fn reason_of(status: u16) -> (phrase: String)
    ensures
        phrase@ == reason_phrase(status),
{
    Status::new(status).reason_lossy().to_string()
}

/// The content of an [`ApiError`].
#[verifier::ext_equal]
pub struct Envelope {
    /// The HTTP status code.
    pub status: u16,
    /// The short name of the status.
    pub error: Seq<char>,
    /// What went wrong, for a human reader.
    pub message: Seq<char>,
    /// The verb of the request that failed.
    pub method: Method,
    /// The path of the request that failed.
    pub path: Seq<char>,
}

impl Envelope {
    /// The envelope that reports `status` with `message` for `request`.
    pub open spec fn describing(status: u16, message: Seq<char>, request: RequestView) -> Envelope {
        Envelope {
            status,
            error: reason_phrase(status),
            message,
            method: request.method,
            path: request.path,
        }
    }

    /// The status and its name agree: the name is the reason phrase of the
    /// status.
    pub open spec fn well_formed(self) -> bool {
        self.error == reason_phrase(self.status)
    }

    /// The body that reports this envelope: a JSON object with the five
    /// fields in the order of their declaration and no white space.
    pub open spec fn json(self) -> Seq<char> {
        object_text(
            decimal(self.status as nat),
            json_string(self.error),
            json_string(self.message),
            json_string(self.method.name()),
            json_string(self.path),
        )
    }

    /// The response that reports this envelope: its status and its JSON
    /// text.
    pub open spec fn response(self) -> ResponseView {
        ResponseView::json(self.status, self.json())
    }
}

/// The JSON object whose members `status`, `error`, `message`, `method` and
/// `path` have the given JSON texts as their values.
pub open spec fn object_text(
    status: Seq<char>,
    error: Seq<char>,
    message: Seq<char>,
    method: Seq<char>,
    path: Seq<char>,
) -> Seq<char> {
    "{\"status\":"@ + status + ",\"error\":"@ + error + ",\"message\":"@ + message
        + ",\"method\":"@ + method + ",\"path\":"@ + path + "}"@
}

/// Frames five JSON values as the object of an error envelope. Each
/// argument is the JSON text of one member's value and is copied as it is.
pub fn frame_envelope(status: &str, error: &str, message: &str, method: &str, path: &str) -> (text:
    String)
    ensures
        text@ == object_text(status@, error@, message@, method@, path@),
{
    let mut text = String::from_str("{\"status\":");
    text.append(status);
    text.append(",\"error\":");
    text.append(error);
    text.append(",\"message\":");
    text.append(message);
    text.append(",\"method\":");
    text.append(method);
    text.append(",\"path\":");
    text.append(path);
    text.append("}");
    text
}

/// A failure, in the shape in which every failure is reported. It is made
/// for one response and never changes.
#[derive(Debug, PartialEq, Eq)]
pub struct ApiError {
    status: u16,
    error: String,
    message: String,
    method: Method,
    path: String,
}

impl View for ApiError {
    type V = Envelope;

    closed spec fn view(&self) -> Envelope {
        Envelope {
            status: self.status,
            error: self.error@,
            message: self.message@,
            method: self.method,
            path: self.path@,
        }
    }
}

impl ApiError {
    /// What every envelope keeps: the name it carries is the reason phrase of
    /// its status.
    #[verifier::type_invariant]
    spec fn consistent(&self) -> bool {
        self.error@ == reason_phrase(self.status)
    }

    /// Makes the envelope that reports `status` with `message` for a request
    /// of `path` with `method`. The name of the status is looked up, so it
    /// always agrees with the code. No status and no text is refused.
    pub fn new(status: u16, message: &str, method: Method, path: &str) -> (envelope: ApiError)
        ensures
            envelope@ == (Envelope {
                status,
                error: reason_phrase(status),
                message: message@,
                method,
                path: path@,
            }),
            envelope@.well_formed(),
    {
        let error = reason_of(status);
        ApiError { status, error, message: message.to_owned(), method, path: path.to_owned() }
    }

    /// The HTTP status code.
    pub fn status(&self) -> (status: u16)
        ensures
            status == self@.status,
    {
        self.status
    }

    /// The short name of the status: always its reason phrase.
    pub fn error(&self) -> (error: &str)
        ensures
            error@ == self@.error,
            error@ == reason_phrase(self@.status),
    {
        proof {
            use_type_invariant(self);
        }
        self.error.as_str()
    }

    /// What went wrong, for a human reader.
    pub fn message(&self) -> (message: &str)
        ensures
            message@ == self@.message,
    {
        self.message.as_str()
    }

    /// The verb of the request that failed.
    pub fn method(&self) -> (method: Method)
        ensures
            method == self@.method,
    {
        self.method
    }

    /// The path of the request that failed.
    pub fn path(&self) -> (path: &str)
        ensures
            path@ == self@.path,
    {
        self.path.as_str()
    }

    /// Writes the envelope as the JSON body of a response. The envelope is
    /// well formed, as every envelope is.
    pub fn to_json(&self) -> (text: String)
        ensures
            text@ == self@.json(),
            self@.well_formed(),
    {
        proof {
            use_type_invariant(self);
        }
        let status = decimal_string(self.status);
        let error = quote(self.error.as_str());
        let message = quote(self.message.as_str());
        let method = quote(self.method.as_str());
        let path = quote(self.path.as_str());
        frame_envelope(
            status.as_str(),
            error.as_str(),
            message.as_str(),
            method.as_str(),
            path.as_str(),
        )
    }

    /// Makes the response that reports this envelope: the status of the
    /// envelope, and the envelope as the JSON body.
    pub fn to_response(&self) -> (response: Response)
        ensures
            response@ == self@.response(),
            self@.well_formed(),
    {
        Response::json(self.status, self.to_json())
    }
}

} // verus!
