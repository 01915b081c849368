//! One query of one device, as a sequence of decisions.
//!
//! A query fetches the device-name document and then the disk document. The
//! fetching itself is left to the caller: [`begin`] and [`advance`] say what
//! to fetch next, and take what came back. The first failure ends the query;
//! there is no retry, and an identity without its storage status is never
//! handed out.

use crate::decode::{decode_identity, decode_storage, decoded_identity, decoded_storage};
use crate::endpoint::{identity_url, spec_identity_path, spec_storage_path, spec_url, storage_url};
use crate::error::ExportError;
use crate::model::{DeviceIdentity, Reading, ReadingView};
use vstd::prelude::*;

verus! {

/// How a fetch ended.
#[derive(Debug, PartialEq, Eq)]
pub enum Fetched {
    /// The response body, as text.
    Body(String),
    /// No connection, a timeout, or a body that is no text.
    Failed,
}

/// Where a query stands.
#[derive(Debug, PartialEq, Eq)]
pub enum Probe {
    /// The device-name document has been asked for.
    AwaitingIdentity,
    /// The disk document has been asked for; the identity is known.
    AwaitingStorage(DeviceIdentity),
}

/// What is to be done next.
#[derive(Debug, PartialEq, Eq)]
pub enum Step {
    /// Fetch `url`, then call [`advance`] with `state` and the outcome.
    Fetch { url: String, state: Probe },
    /// The query is over.
    Done(Result<Reading, ExportError>),
}

/// Starts a query of the device at `address`.
pub fn begin(address: &str) -> (step: Step)
    ensures
        step matches Step::Fetch { url, state: Probe::AwaitingIdentity } && url@ == spec_url(
            address@,
            spec_identity_path(),
        ),
{
    Step::Fetch { url: identity_url(address), state: Probe::AwaitingIdentity }
}

/// Takes the outcome of the fetch that the last step asked for.
pub fn advance(address: &str, state: Probe, fetched: Fetched) -> (step: Step)
    ensures
        fetched is Failed ==> step == Step::Done(Err(ExportError::Transport)),
        fetched matches Fetched::Body(body) ==> match state {
            Probe::AwaitingIdentity => match decoded_identity(body@) {
                Some(identity) => step matches Step::Fetch {
                    url,
                    state: Probe::AwaitingStorage(known),
                } && url@ == spec_url(address@, spec_storage_path()) && known@ == identity,
                None => step == Step::Done(Err(ExportError::Decode)),
            },
            Probe::AwaitingStorage(identity) => match decoded_storage(body@) {
                Some(storage) => step matches Step::Done(Ok(reading)) && reading@ == (ReadingView {
                    identity: identity@,
                    storage,
                }),
                None => step == Step::Done(Err(ExportError::Decode)),
            },
        },
{
    let body = match fetched {
        Fetched::Body(body) => body,
        Fetched::Failed => return Step::Done(Err(ExportError::Transport)),
    };
    match state {
        Probe::AwaitingIdentity => match decode_identity(body.as_str()) {
            Ok(identity) => Step::Fetch {
                url: storage_url(address),
                state: Probe::AwaitingStorage(identity),
            },
            Err(e) => Step::Done(Err(e)),
        },
        Probe::AwaitingStorage(identity) => match decode_storage(body.as_str()) {
            Ok(storage) => Step::Done(Ok(Reading { identity, storage })),
            Err(e) => Step::Done(Err(e)),
        },
    }
}

} // verus!
