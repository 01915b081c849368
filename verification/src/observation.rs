//! Gauge observations: what a reading says, metric by metric.

use crate::decode::{identity_of, storage_of, text_field, u64_field};
use crate::json::JsonModel;
use crate::model::{DeviceIdentity, DeviceIdentityView, StorageStatus, StorageStatusView};
use vstd::prelude::*;

verus! {

/// The three gauges that are published for a device.
#[derive(Clone, Copy, Debug, PartialEq, Eq, Structural)]
pub enum Metric {
    TotalVolumeSize,
    FreeVolumeSize,
    UsedVolumeSize,
}

impl Metric {
    /// The name under which the gauge is published.
    pub open spec fn spec_name(self) -> Seq<char> {
        match self {
            Metric::TotalVolumeSize => "nasne_total_volume_size"@,
            Metric::FreeVolumeSize => "nasne_free_volume_size"@,
            Metric::UsedVolumeSize => "nasne_used_volume_size"@,
        }
    }

    /// The name under which the gauge is published.
    pub fn name(self) -> (name: &'static str)
        ensures
            name@ == self.spec_name(),
    {
        match self {
            Metric::TotalVolumeSize => "nasne_total_volume_size",
            Metric::FreeVolumeSize => "nasne_free_volume_size",
            Metric::UsedVolumeSize => "nasne_used_volume_size",
        }
    }
}

/// One value of one gauge, labelled with the device's name.
#[derive(Debug, PartialEq, Eq)]
pub struct Observation {
    pub metric: Metric,
    /// The value of the `name` label, as the device reports it.
    pub name: String,
    pub value: u64,
}

/// An [`Observation`] as a mathematical value.
pub struct Sample {
    pub metric: Metric,
    pub name: Seq<char>,
    pub value: u64,
}

impl View for Observation {
    type V = Sample;

    open spec fn view(&self) -> Sample {
        Sample { metric: self.metric, name: self.name@, value: self.value }
    }
}

impl Clone for Observation {
    fn clone(&self) -> (copy: Self)
        ensures
            copy@ == self@,
    {
        Observation { metric: self.metric, name: self.name.clone(), value: self.value }
    }
}

/// The views of a sequence of observations, in the same order.
pub open spec fn samples_of(observations: Seq<Observation>) -> Seq<Sample> {
    observations.map_values(|o: Observation| o@)
}

/// The observations that the two answers of a device give: the total, the
/// free and the used volume size, in this order, each under the device's name.
pub open spec fn observed(identity: DeviceIdentityView, storage: StorageStatusView) -> Seq<Sample> {
    seq![
        Sample {
            metric: Metric::TotalVolumeSize,
            name: identity.name,
            value: storage.hdd.total_volume_size,
        },
        Sample {
            metric: Metric::FreeVolumeSize,
            name: identity.name,
            value: storage.hdd.free_volume_size,
        },
        Sample {
            metric: Metric::UsedVolumeSize,
            name: identity.name,
            value: storage.hdd.used_volume_size,
        },
    ]
}

/// Maps the two answers of a device to its observations.
pub fn observe(identity: &DeviceIdentity, storage: &StorageStatus) -> (observations: Vec<
    Observation,
>)
    ensures
        samples_of(observations@) == observed(identity@, storage@),
{
    let mut observations: Vec<Observation> = Vec::new();
    observations.push(
        Observation {
            metric: Metric::TotalVolumeSize,
            name: identity.name.clone(),
            value: storage.hdd.total_volume_size,
        },
    );
    observations.push(
        Observation {
            metric: Metric::FreeVolumeSize,
            name: identity.name.clone(),
            value: storage.hdd.free_volume_size,
        },
    );
    observations.push(
        Observation {
            metric: Metric::UsedVolumeSize,
            name: identity.name.clone(),
            value: storage.hdd.used_volume_size,
        },
    );
    assert(samples_of(observations@) =~= observed(identity@, storage@));
    observations
}

/// Whatever two documents of the right shape hold: the observations are
/// three, for the total, the free and the used volume size in this order;
/// each has the value of the member of the disk description that it is named
/// after, and each is labelled with the name from the identity document.
pub proof fn lemma_observed_from_documents(identity_doc: JsonModel, storage_doc: JsonModel)
    requires
        identity_of(identity_doc) is Some,
        storage_of(storage_doc) is Some,
    ensures
        ({
            let observations = observed(identity_of(identity_doc)->0, storage_of(storage_doc)->0);
            let name = text_field(identity_doc, "name"@)->0;
            let hdd = storage_doc.member("HDD"@)->0;
            &&& observations.len() == 3
            &&& observations[0] == (Sample {
                metric: Metric::TotalVolumeSize,
                name,
                value: u64_field(hdd, "totalVolumeSize"@)->0,
            })
            &&& observations[1] == (Sample {
                metric: Metric::FreeVolumeSize,
                name,
                value: u64_field(hdd, "freeVolumeSize"@)->0,
            })
            &&& observations[2] == (Sample {
                metric: Metric::UsedVolumeSize,
                name,
                value: u64_field(hdd, "usedVolumeSize"@)->0,
            })
        }),
{
}

} // verus!
