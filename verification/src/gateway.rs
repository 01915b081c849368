//! The on-demand endpoint: one query, one response.
//!
//! A response is a function of the target and of the outcome of its query.
//! Nothing is kept between requests.

use crate::buffer::TextBuffer;
use crate::error::ExportError;
use crate::exposition::{device_text, lemma_exposition_of_device, render};
use crate::model::Reading;
use crate::observation::observe;
use crate::response::{
    spec_exposition_type, spec_plain_type, Response, STATUS_BAD_REQUEST, STATUS_OK,
};
use vstd::prelude::*;

verus! {

/// The diagnostic for a target that gave no reading.
pub open spec fn spec_failure_text(target: Seq<char>) -> Seq<char> {
    "failed to connect "@ + target
}

/// The response to a request for `target`, given how the query of that
/// device ended. A reading is answered with its three gauges; a failure of
/// either kind with a diagnostic that names the target.
pub fn respond(target: &str, outcome: &Result<Reading, ExportError>) -> (response: Response)
    ensures
        match outcome {
            Ok(reading) => {
                &&& response.status == STATUS_OK
                &&& response.content_type@ == spec_exposition_type()
                &&& response.body@ == device_text(reading.identity@, reading.storage@)
            },
            Err(_) => {
                &&& response.status == STATUS_BAD_REQUEST
                &&& response.content_type@ == spec_plain_type()
                &&& response.body@ == spec_failure_text(target@)
            },
        },
{
    match outcome {
        Ok(reading) => {
            proof {
                lemma_exposition_of_device(reading.identity@, reading.storage@);
            }
            Response::metrics(render(&observe(&reading.identity, &reading.storage)))
        },
        Err(_) => {
            let text = TextBuffer::new().push_str("failed to connect ").push_str(target).finish();
            assert(text@ =~= spec_failure_text(target@));
            Response::bad_request(text)
        },
    }
}

} // verus!
