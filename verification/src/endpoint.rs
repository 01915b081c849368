//! Where a device answers.
//!
//! Every device serves its status over plain HTTP on one fixed port; the two
//! documents that are read have fixed paths.

use crate::buffer::TextBuffer;
use crate::exposition::{decimal, write_decimal};
use vstd::prelude::*;

verus! {

/// The port of the status service.
pub const STATUS_PORT: u16 = 64210;

/// The address of a document: `http://<address>:<port><path>`, with the
/// port of the status service in decimal.
pub open spec fn spec_url(address: Seq<char>, path: Seq<char>) -> Seq<char> {
    "http://"@ + address + ":"@ + decimal(STATUS_PORT as nat) + path
}

/// The path of the device-name document.
pub open spec fn spec_identity_path() -> Seq<char> {
    "/status/boxNameGet"@
}

/// The path of the disk document.
pub open spec fn spec_storage_path() -> Seq<char> {
    "/status/HDDInfoGet?id=0"@
}

/// The address of the document at `path` on the device at `address`.
pub fn url(address: &str, path: &str) -> (url: String)
    ensures
        url@ == spec_url(address@, path@),
{
    let host = TextBuffer::new().push_str("http://").push_str(address).push_str(":");
    let url = write_decimal(host, STATUS_PORT as u64).push_str(path).finish();
    assert(url@ =~= spec_url(address@, path@));
    url
}

/// The address of the device-name document.
pub fn identity_url(address: &str) -> (url: String)
    ensures
        url@ == spec_url(address@, spec_identity_path()),
{
    url(address, "/status/boxNameGet")
}

/// The address of the disk document.
pub fn storage_url(address: &str) -> (url: String)
    ensures
        url@ == spec_url(address@, spec_storage_path()),
{
    url(address, "/status/HDDInfoGet?id=0")
}

} // verus!
