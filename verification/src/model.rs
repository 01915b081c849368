//! What a device reports about itself.
//!
//! Each executable type has a view that replaces its strings by sequences of
//! characters; contracts are stated over the views.

use vstd::prelude::*;

verus! {

/// The answer to the device-name query.
#[derive(Debug, PartialEq, Eq)]
pub struct DeviceIdentity {
    /// The device's own code for how the query went; any integer.
    pub error_code: i64,
    /// The name its owner gave the device.
    pub name: String,
}

/// A [`DeviceIdentity`] as a mathematical value.
pub struct DeviceIdentityView {
    pub error_code: i64,
    pub name: Seq<char>,
}

impl View for DeviceIdentity {
    type V = DeviceIdentityView;

    open spec fn view(&self) -> DeviceIdentityView {
        DeviceIdentityView { error_code: self.error_code, name: self.name@ }
    }
}

/// The description of the device's disk. Sizes are in bytes.
#[derive(Debug, PartialEq, Eq)]
pub struct HddInfo {
    pub total_volume_size: u64,
    pub free_volume_size: u64,
    pub used_volume_size: u64,
    pub serial_number: String,
    pub id: u32,
    pub internal_flag: u32,
    pub mount_status: u32,
    pub register_flag: u32,
    pub format: String,
    pub name: String,
    pub vendor_id: String,
    pub product_id: String,
}

/// An [`HddInfo`] as a mathematical value.
pub struct HddInfoView {
    pub total_volume_size: u64,
    pub free_volume_size: u64,
    pub used_volume_size: u64,
    pub serial_number: Seq<char>,
    pub id: u32,
    pub internal_flag: u32,
    pub mount_status: u32,
    pub register_flag: u32,
    pub format: Seq<char>,
    pub name: Seq<char>,
    pub vendor_id: Seq<char>,
    pub product_id: Seq<char>,
}

impl View for HddInfo {
    type V = HddInfoView;

    open spec fn view(&self) -> HddInfoView {
        HddInfoView {
            total_volume_size: self.total_volume_size,
            free_volume_size: self.free_volume_size,
            used_volume_size: self.used_volume_size,
            serial_number: self.serial_number@,
            id: self.id,
            internal_flag: self.internal_flag,
            mount_status: self.mount_status,
            register_flag: self.register_flag,
            format: self.format@,
            name: self.name@,
            vendor_id: self.vendor_id@,
            product_id: self.product_id@,
        }
    }
}

/// The answer to the disk query.
#[derive(Debug, PartialEq, Eq)]
pub struct StorageStatus {
    /// The device's own code for how the query went; any integer.
    pub error_code: i64,
    pub hdd: HddInfo,
}

/// A [`StorageStatus`] as a mathematical value.
pub struct StorageStatusView {
    pub error_code: i64,
    pub hdd: HddInfoView,
}

impl View for StorageStatus {
    type V = StorageStatusView;

    open spec fn view(&self) -> StorageStatusView {
        StorageStatusView { error_code: self.error_code, hdd: self.hdd@ }
    }
}

/// Both answers of one device, taken in the same round.
#[derive(Debug, PartialEq, Eq)]
pub struct Reading {
    pub identity: DeviceIdentity,
    pub storage: StorageStatus,
}

/// A [`Reading`] as a mathematical value.
pub struct ReadingView {
    pub identity: DeviceIdentityView,
    pub storage: StorageStatusView,
}

impl View for Reading {
    type V = ReadingView;

    open spec fn view(&self) -> ReadingView {
        ReadingView { identity: self.identity@, storage: self.storage@ }
    }
}

impl Clone for DeviceIdentity {
    fn clone(&self) -> (copy: Self)
        ensures
            copy@ == self@,
    {
        DeviceIdentity { error_code: self.error_code, name: self.name.clone() }
    }
}

impl Clone for HddInfo {
    fn clone(&self) -> (copy: Self)
        ensures
            copy@ == self@,
    {
        HddInfo {
            total_volume_size: self.total_volume_size,
            free_volume_size: self.free_volume_size,
            used_volume_size: self.used_volume_size,
            serial_number: self.serial_number.clone(),
            id: self.id,
            internal_flag: self.internal_flag,
            mount_status: self.mount_status,
            register_flag: self.register_flag,
            format: self.format.clone(),
            name: self.name.clone(),
            vendor_id: self.vendor_id.clone(),
            product_id: self.product_id.clone(),
        }
    }
}

impl Clone for StorageStatus {
    fn clone(&self) -> (copy: Self)
        ensures
            copy@ == self@,
    {
        StorageStatus { error_code: self.error_code, hdd: self.hdd.clone() }
    }
}

impl Clone for Reading {
    fn clone(&self) -> (copy: Self)
        ensures
            copy@ == self@,
    {
        Reading { identity: self.identity.clone(), storage: self.storage.clone() }
    }
}

} // verus!
