//! What a response needs to know of the request it answers.

use vstd::prelude::*;

use crate::method::Method;

verus! {

/// The two parts of a request that a response may repeat: its verb and the
/// path of its URL. Nothing else of a request is ever read.
#[derive(Clone, Debug, PartialEq, Eq)]
pub struct RequestInfo {
    pub method: Method,
    pub path: String,
}

/// A [`RequestInfo`] with its path as a sequence of characters.
#[verifier::ext_equal]
pub struct RequestView {
    pub method: Method,
    pub path: Seq<char>,
}

impl View for RequestInfo {
    type V = RequestView;

    open spec fn view(&self) -> RequestView {
        RequestView { method: self.method, path: self.path@ }
    }
}

impl RequestInfo {
    /// Describes a request for `path` made with `method`. Any path is taken,
    /// the empty one too.
    pub fn new(method: Method, path: &str) -> (request: RequestInfo)
        ensures
            request@ == (RequestView { method, path: path@ }),
    {
        RequestInfo { method, path: path.to_owned() }
    }
}

} // verus!
