//! From a response body to the typed answers.
//!
//! A body is accepted when it is a JSON object that has every field of the
//! answer, each of the right kind and, for numbers, within the range of the
//! field's type. The error code is any integer that fits 64 bits with sign;
//! the members of the disk are unsigned, of 64 or of 32 bits. Members that
//! the answer does not name are ignored. Of a member that the body gives more
//! than once, the document holds one value: the one that `serde_json` kept.

use crate::error::ExportError;
use crate::json::{json_view, member, parse, parsed, signed, text, unsigned, JsonModel};
use crate::model::{
    DeviceIdentity, DeviceIdentityView, HddInfo, HddInfoView, StorageStatus, StorageStatusView,
};
use vstd::prelude::*;

verus! {

/// The member `key` of `doc` as a `u64`.
pub open spec fn u64_field(doc: JsonModel, key: Seq<char>) -> Option<u64> {
    match doc.member(key) {
        Some(value) => value.unsigned(),
        None => None,
    }
}

/// The member `key` of `doc` as an `i64`.
pub open spec fn i64_field(doc: JsonModel, key: Seq<char>) -> Option<i64> {
    match doc.member(key) {
        Some(value) => value.signed(),
        None => None,
    }
}

/// The member `key` of `doc` as a `u32`.
pub open spec fn u32_field(doc: JsonModel, key: Seq<char>) -> Option<u32> {
    match u64_field(doc, key) {
        Some(n) => if n <= u32::MAX {
            Some(n as u32)
        } else {
            None
        },
        None => None,
    }
}

/// The member `key` of `doc` as a string.
pub open spec fn text_field(doc: JsonModel, key: Seq<char>) -> Option<Seq<char>> {
    match doc.member(key) {
        Some(value) => value.text(),
        None => None,
    }
}

/// The identity that a document describes, if it has the shape of one.
pub open spec fn identity_of(doc: JsonModel) -> Option<DeviceIdentityView> {
    if i64_field(doc, "errorcode"@) is Some && text_field(doc, "name"@) is Some {
        Some(
            DeviceIdentityView {
                error_code: i64_field(doc, "errorcode"@)->0,
                name: text_field(doc, "name"@)->0,
            },
        )
    } else {
        None
    }
}

/// Whether a document has every field of a disk description.
pub open spec fn is_hdd(doc: JsonModel) -> bool {
    &&& u64_field(doc, "totalVolumeSize"@) is Some
    &&& u64_field(doc, "freeVolumeSize"@) is Some
    &&& u64_field(doc, "usedVolumeSize"@) is Some
    &&& text_field(doc, "serialNumber"@) is Some
    &&& u32_field(doc, "id"@) is Some
    &&& u32_field(doc, "internalFlag"@) is Some
    &&& u32_field(doc, "mountStatus"@) is Some
    &&& u32_field(doc, "registerFlag"@) is Some
    &&& text_field(doc, "format"@) is Some
    &&& text_field(doc, "name"@) is Some
    &&& text_field(doc, "vendorID"@) is Some
    &&& text_field(doc, "productID"@) is Some
}

/// The disk description that a document holds, if it has the shape of one.
pub open spec fn hdd_of(doc: JsonModel) -> Option<HddInfoView> {
    if is_hdd(doc) {
        Some(
            HddInfoView {
                total_volume_size: u64_field(doc, "totalVolumeSize"@)->0,
                free_volume_size: u64_field(doc, "freeVolumeSize"@)->0,
                used_volume_size: u64_field(doc, "usedVolumeSize"@)->0,
                serial_number: text_field(doc, "serialNumber"@)->0,
                id: u32_field(doc, "id"@)->0,
                internal_flag: u32_field(doc, "internalFlag"@)->0,
                mount_status: u32_field(doc, "mountStatus"@)->0,
                register_flag: u32_field(doc, "registerFlag"@)->0,
                format: text_field(doc, "format"@)->0,
                name: text_field(doc, "name"@)->0,
                vendor_id: text_field(doc, "vendorID"@)->0,
                product_id: text_field(doc, "productID"@)->0,
            },
        )
    } else {
        None
    }
}

/// The storage status that a document describes, if it has the shape of one.
pub open spec fn storage_of(doc: JsonModel) -> Option<StorageStatusView> {
    if i64_field(doc, "errorcode"@) is Some && doc.member("HDD"@) is Some && hdd_of(
        doc.member("HDD"@)->0,
    ) is Some {
        Some(
            StorageStatusView {
                error_code: i64_field(doc, "errorcode"@)->0,
                hdd: hdd_of(doc.member("HDD"@)->0)->0,
            },
        )
    } else {
        None
    }
}

/// The identity that a response body describes: the body has to parse, and
/// the document has to have the shape.
pub open spec fn decoded_identity(body: Seq<char>) -> Option<DeviceIdentityView> {
    match parsed(body) {
        Some(doc) => identity_of(doc),
        None => None,
    }
}

/// The storage status that a response body describes.
pub open spec fn decoded_storage(body: Seq<char>) -> Option<StorageStatusView> {
    match parsed(body) {
        Some(doc) => storage_of(doc),
        None => None,
    }
}

/// A document describes an identity exactly when it is an object with an
/// integer `errorcode`, of whatever sign, and a string `name`; the identity
/// is then that integer and that string, unchanged.
pub proof fn lemma_identity_shape(doc: JsonModel)
    ensures
        identity_of(doc) is Some <==> {
            &&& doc.member("errorcode"@) is Some
            &&& (doc.member("errorcode"@)->0).signed() is Some
            &&& doc.member("name"@) is Some
            &&& (doc.member("name"@)->0).text() is Some
        },
        identity_of(doc) is Some ==> identity_of(doc)->0 == (DeviceIdentityView {
            error_code: (doc.member("errorcode"@)->0).signed()->0,
            name: (doc.member("name"@)->0).text()->0,
        }),
{
}

/// A document describes a storage status exactly when it is an object with
/// an integer `errorcode`, of whatever sign, and a member `HDD` that is a
/// disk description; the status is then that integer and that description.
pub proof fn lemma_storage_shape(doc: JsonModel)
    ensures
        storage_of(doc) is Some <==> {
            &&& doc.member("errorcode"@) is Some
            &&& (doc.member("errorcode"@)->0).signed() is Some
            &&& doc.member("HDD"@) is Some
            &&& is_hdd(doc.member("HDD"@)->0)
        },
        storage_of(doc) is Some ==> storage_of(doc)->0 == (StorageStatusView {
            error_code: (doc.member("errorcode"@)->0).signed()->0,
            hdd: hdd_of(doc.member("HDD"@)->0)->0,
        }),
{
}

/// The members that a disk description must have.
pub open spec fn hdd_fields() -> Set<Seq<char>> {
    set![
        "totalVolumeSize"@,
        "freeVolumeSize"@,
        "usedVolumeSize"@,
        "serialNumber"@,
        "id"@,
        "internalFlag"@,
        "mountStatus"@,
        "registerFlag"@,
        "format"@,
        "name"@,
        "vendorID"@,
        "productID"@,
    ]
}

/// A document that lacks `errorcode` or `name` describes no identity.
pub proof fn lemma_identity_needs_fields(doc: JsonModel)
    requires
        doc.member("errorcode"@) is None || doc.member("name"@) is None,
    ensures
        identity_of(doc) is None,
{
}

/// A document that lacks one of the members of a disk description describes
/// none.
pub proof fn lemma_hdd_needs_fields(doc: JsonModel, field: Seq<char>)
    requires
        hdd_fields().contains(field),
        doc.member(field) is None,
    ensures
        hdd_of(doc) is None,
{
}

/// A document that lacks `errorcode` or `HDD`, or whose `HDD` lacks one of
/// the members of a disk description, describes no storage status.
pub proof fn lemma_storage_needs_fields(doc: JsonModel, field: Seq<char>)
    requires
        hdd_fields().contains(field),
        ({
            ||| doc.member("errorcode"@) is None
            ||| doc.member("HDD"@) is None
            ||| (doc.member("HDD"@)->0).member(field) is None
        }),
    ensures
        storage_of(doc) is None,
{
    if doc.member("HDD"@) is Some {
        if (doc.member("HDD"@)->0).member(field) is None {
            lemma_hdd_needs_fields(doc.member("HDD"@)->0, field);
        }
    }
}

fn read_u64(doc: &serde_json::Value, key: &str) -> (r: Option<u64>)
    ensures
        r == u64_field(json_view(*doc), key@),
{
    match member(doc, key) {
        Some(value) => unsigned(value),
        None => None,
    }
}

fn read_i64(doc: &serde_json::Value, key: &str) -> (r: Option<i64>)
    ensures
        r == i64_field(json_view(*doc), key@),
{
    match member(doc, key) {
        Some(value) => signed(value),
        None => None,
    }
}

fn read_u32(doc: &serde_json::Value, key: &str) -> (r: Option<u32>)
    ensures
        r == u32_field(json_view(*doc), key@),
{
    match read_u64(doc, key) {
        Some(n) => if n <= u32::MAX as u64 {
            Some(n as u32)
        } else {
            None
        },
        None => None,
    }
}

fn read_text(doc: &serde_json::Value, key: &str) -> (r: Option<String>)
    ensures
        match r {
            Some(s) => text_field(json_view(*doc), key@) == Some(s@),
            None => text_field(json_view(*doc), key@) is None,
        },
{
    match member(doc, key) {
        Some(value) => match text(value) {
            Some(s) => Some(s.to_owned()),
            None => None,
        },
        None => None,
    }
}

/// Reads a device identity out of a parsed document.
pub fn identity_from_json(doc: &serde_json::Value) -> (r: Result<DeviceIdentity, ExportError>)
    ensures
        match r {
            Ok(identity) => identity_of(json_view(*doc)) == Some(identity@),
            Err(e) => e == ExportError::Decode && identity_of(json_view(*doc)) is None,
        },
{
    let error_code = match read_i64(doc, "errorcode") {
        Some(n) => n,
        None => return Err(ExportError::Decode),
    };
    let name = match read_text(doc, "name") {
        Some(s) => s,
        None => return Err(ExportError::Decode),
    };
    Ok(DeviceIdentity { error_code, name })
}

/// Reads a disk description out of a parsed document.
pub fn hdd_from_json(doc: &serde_json::Value) -> (r: Result<HddInfo, ExportError>)
    ensures
        match r {
            Ok(hdd) => hdd_of(json_view(*doc)) == Some(hdd@),
            Err(e) => e == ExportError::Decode && hdd_of(json_view(*doc)) is None,
        },
{
    let total_volume_size = match read_u64(doc, "totalVolumeSize") {
        Some(n) => n,
        None => return Err(ExportError::Decode),
    };
    let free_volume_size = match read_u64(doc, "freeVolumeSize") {
        Some(n) => n,
        None => return Err(ExportError::Decode),
    };
    let used_volume_size = match read_u64(doc, "usedVolumeSize") {
        Some(n) => n,
        None => return Err(ExportError::Decode),
    };
    let serial_number = match read_text(doc, "serialNumber") {
        Some(s) => s,
        None => return Err(ExportError::Decode),
    };
    let id = match read_u32(doc, "id") {
        Some(n) => n,
        None => return Err(ExportError::Decode),
    };
    let internal_flag = match read_u32(doc, "internalFlag") {
        Some(n) => n,
        None => return Err(ExportError::Decode),
    };
    let mount_status = match read_u32(doc, "mountStatus") {
        Some(n) => n,
        None => return Err(ExportError::Decode),
    };
    let register_flag = match read_u32(doc, "registerFlag") {
        Some(n) => n,
        None => return Err(ExportError::Decode),
    };
    let format = match read_text(doc, "format") {
        Some(s) => s,
        None => return Err(ExportError::Decode),
    };
    let name = match read_text(doc, "name") {
        Some(s) => s,
        None => return Err(ExportError::Decode),
    };
    let vendor_id = match read_text(doc, "vendorID") {
        Some(s) => s,
        None => return Err(ExportError::Decode),
    };
    let product_id = match read_text(doc, "productID") {
        Some(s) => s,
        None => return Err(ExportError::Decode),
    };
    Ok(
        HddInfo {
            total_volume_size,
            free_volume_size,
            used_volume_size,
            serial_number,
            id,
            internal_flag,
            mount_status,
            register_flag,
            format,
            name,
            vendor_id,
            product_id,
        },
    )
}

/// Reads a storage status out of a parsed document.
pub fn storage_from_json(doc: &serde_json::Value) -> (r: Result<StorageStatus, ExportError>)
    ensures
        match r {
            Ok(storage) => storage_of(json_view(*doc)) == Some(storage@),
            Err(e) => e == ExportError::Decode && storage_of(json_view(*doc)) is None,
        },
{
    let error_code = match read_i64(doc, "errorcode") {
        Some(n) => n,
        None => return Err(ExportError::Decode),
    };
    let hdd = match member(doc, "HDD") {
        Some(inner) => match hdd_from_json(inner) {
            Ok(hdd) => hdd,
            Err(e) => return Err(e),
        },
        None => return Err(ExportError::Decode),
    };
    Ok(StorageStatus { error_code, hdd })
}

/// Decodes the body of the device-name answer.
pub fn decode_identity(body: &str) -> (r: Result<DeviceIdentity, ExportError>)
    ensures
        match r {
            Ok(identity) => decoded_identity(body@) == Some(identity@),
            Err(e) => e == ExportError::Decode && decoded_identity(body@) is None,
        },
{
    match parse(body) {
        Ok(doc) => identity_from_json(&doc),
        Err(_) => Err(ExportError::Decode),
    }
}

/// Decodes the body of the disk answer.
pub fn decode_storage(body: &str) -> (r: Result<StorageStatus, ExportError>)
    ensures
        match r {
            Ok(storage) => decoded_storage(body@) == Some(storage@),
            Err(e) => e == ExportError::Decode && decoded_storage(body@) is None,
        },
{
    match parse(body) {
        Ok(doc) => storage_from_json(&doc),
        Err(_) => Err(ExportError::Decode),
    }
}

} // verus!
