//! HTTP responses, as far as this crate decides them.

use vstd::prelude::*;

verus! {

/// The status of a response that carries metrics.
pub const STATUS_OK: u16 = 200;

/// The status of a response to a request whose target gave no reading.
pub const STATUS_BAD_REQUEST: u16 = 400;

/// The content type of the text exposition format.
pub open spec fn spec_exposition_type() -> Seq<char> {
    "text/plain; version=0.0.4; charset=utf-8"@
}

/// The content type of a diagnostic.
pub open spec fn spec_plain_type() -> Seq<char> {
    "text/plain; charset=utf-8"@
}

/// What is sent back: the status, the content type and the body.
#[derive(Debug, PartialEq, Eq)]
pub struct Response {
    pub status: u16,
    pub content_type: String,
    pub body: String,
}

impl Response {
    /// The response that carries `text`, which is in the exposition format.
    pub fn metrics(text: String) -> (response: Response)
        ensures
            response.status == STATUS_OK,
            response.content_type@ == spec_exposition_type(),
            response.body@ == text@,
    {
        Response {
            status: STATUS_OK,
            content_type: "text/plain; version=0.0.4; charset=utf-8".to_owned(),
            body: text,
        }
    }

    /// The response that refuses a request with `text` as the diagnostic.
    pub fn bad_request(text: String) -> (response: Response)
        ensures
            response.status == STATUS_BAD_REQUEST,
            response.content_type@ == spec_plain_type(),
            response.body@ == text@,
    {
        Response {
            status: STATUS_BAD_REQUEST,
            content_type: "text/plain; charset=utf-8".to_owned(),
            body: text,
        }
    }
}

} // verus!
