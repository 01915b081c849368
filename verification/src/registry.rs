//! The gauges that are kept between polls.
//!
//! A registry holds one value for each pair of metric and device name that
//! was ever recorded: the last one. Nothing expires; a device that is no
//! longer polled keeps its last values until the registry is dropped.

use crate::exposition::{exposition, lemma_exposition_holds, occurs_in, render, sample_line};
use crate::model::{DeviceIdentityView, StorageStatusView};
use crate::observation::{observed, samples_of, Metric, Observation, Sample};
use crate::response::{spec_exposition_type, Response, STATUS_OK};
use vstd::prelude::*;

verus! {

/// Whether two samples belong to the same series: same metric, same name.
pub open spec fn same_series(a: Sample, b: Sample) -> bool {
    a.metric == b.metric && a.name == b.name
}

/// Whether no two samples belong to the same series.
pub open spec fn distinct_series(samples: Seq<Sample>) -> bool {
    forall|i: int, j: int|
        0 <= i < j < samples.len() ==> !same_series(#[trigger] samples[i], #[trigger] samples[j])
}

/// The index of the first sample of the series of `sample`, or the length of
/// `samples` where there is none.
pub open spec fn position(samples: Seq<Sample>, sample: Sample) -> int
    decreases samples.len(),
{
    if samples.len() == 0 {
        0
    } else if same_series(samples.first(), sample) {
        0
    } else {
        1 + position(samples.drop_first(), sample)
    }
}

/// The samples after `sample` has been recorded: it takes the place of the
/// sample of its series, or comes last where its series is new.
pub open spec fn recorded(samples: Seq<Sample>, sample: Sample) -> Seq<Sample> {
    if position(samples, sample) < samples.len() {
        samples.update(position(samples, sample), sample)
    } else {
        samples.push(sample)
    }
}

/// The samples after each sample of `batch` has been recorded, in order.
pub open spec fn recorded_all(samples: Seq<Sample>, batch: Seq<Sample>) -> Seq<Sample>
    decreases batch.len(),
{
    if batch.len() == 0 {
        samples
    } else {
        recorded(recorded_all(samples, batch.drop_last()), batch.last())
    }
}

/// The value held for a series, if there is one.
pub open spec fn held(samples: Seq<Sample>, metric: Metric, name: Seq<char>) -> Option<u64> {
    let key = Sample { metric, name, value: 0 };
    if position(samples, key) < samples.len() {
        Some(samples[position(samples, key)].value)
    } else {
        None
    }
}

/// `position` is the least index of a sample of the series.
pub proof fn lemma_position(samples: Seq<Sample>, sample: Sample)
    ensures
        0 <= position(samples, sample) <= samples.len(),
        position(samples, sample) < samples.len() ==> same_series(
            samples[position(samples, sample)],
            sample,
        ),
        forall|j: int|
            0 <= j < position(samples, sample) ==> !same_series(#[trigger] samples[j], sample),
    decreases samples.len(),
{
    if samples.len() > 0 && !same_series(samples.first(), sample) {
        let tail = samples.drop_first();
        lemma_position(tail, sample);
        assert forall|j: int| 0 <= j < position(samples, sample) implies !same_series(
            #[trigger] samples[j],
            sample,
        ) by {
            if j > 0 {
                assert(samples[j] == tail[j - 1]);
            }
        }
    }
}

/// An index that is the first of the series is the position.
pub proof fn lemma_position_is(samples: Seq<Sample>, sample: Sample, at: int)
    requires
        0 <= at <= samples.len(),
        at < samples.len() ==> same_series(samples[at], sample),
        forall|j: int| 0 <= j < at ==> !same_series(#[trigger] samples[j], sample),
    ensures
        position(samples, sample) == at,
{
    lemma_position(samples, sample);
    let p = position(samples, sample);
    if p < at {
        assert(!same_series(samples[p], sample));
    } else if at < p {
        assert(!same_series(samples[at], sample));
    }
}

/// The position depends on the series alone, not on the value.
pub proof fn lemma_position_of_series(samples: Seq<Sample>, a: Sample, b: Sample)
    requires
        same_series(a, b),
    ensures
        position(samples, a) == position(samples, b),
    decreases samples.len(),
{
    if samples.len() > 0 && !same_series(samples.first(), a) {
        lemma_position_of_series(samples.drop_first(), a, b);
    }
}

/// Recording keeps the series apart.
pub proof fn lemma_recorded_distinct(samples: Seq<Sample>, sample: Sample)
    requires
        distinct_series(samples),
    ensures
        distinct_series(recorded(samples, sample)),
{
    lemma_position(samples, sample);
    let p = position(samples, sample);
    let after = recorded(samples, sample);
    assert forall|i: int, j: int| 0 <= i < j < after.len() implies !same_series(
        #[trigger] after[i],
        #[trigger] after[j],
    ) by {
        if p < samples.len() {
            if i == p {
                assert(!same_series(samples[p], samples[j]));
            } else if j == p {
                assert(!same_series(samples[i], samples[p]));
            } else {
                assert(!same_series(samples[i], samples[j]));
            }
        } else {
            if j < samples.len() {
                assert(!same_series(samples[i], samples[j]));
            } else {
                assert(!same_series(samples[i], sample));
            }
        }
    }
}

/// Once a sample is recorded, its value is the one held for its series, and
/// every other series holds what it held before.
pub proof fn lemma_recorded_held(
    samples: Seq<Sample>,
    sample: Sample,
    metric: Metric,
    name: Seq<char>,
)
    requires
        distinct_series(samples),
    ensures
        held(recorded(samples, sample), metric, name) == if metric == sample.metric && name
            == sample.name {
            Some(sample.value)
        } else {
            held(samples, metric, name)
        },
{
    let key = Sample { metric, name, value: 0 };
    let after = recorded(samples, sample);
    lemma_position(samples, sample);
    lemma_position(samples, key);
    let p = position(samples, sample);
    let q = position(samples, key);
    if same_series(key, sample) {
        assert forall|j: int| 0 <= j < p implies !same_series(#[trigger] after[j], key) by {
            assert(!same_series(samples[j], sample));
        }
        lemma_position_is(after, key, p);
    } else {
        assert forall|j: int| 0 <= j < q implies !same_series(#[trigger] after[j], key) by {
            assert(!same_series(samples[j], key));
        }
        if q < samples.len() {
            lemma_position_is(after, key, q);
        } else {
            lemma_position_is(after, key, after.len() as int);
        }
    }
}

/// Whatever a registry holds: once the observations of a device are
/// recorded, it holds the device's three sizes under the device's name, its
/// exposition has the line of each of them, and its series are still apart.
pub proof fn lemma_reading_is_exposed(
    samples: Seq<Sample>,
    identity: DeviceIdentityView,
    storage: StorageStatusView,
)
    requires
        distinct_series(samples),
    ensures
        ({
            let after = recorded_all(samples, observed(identity, storage));
            &&& distinct_series(after)
            &&& held(after, Metric::TotalVolumeSize, identity.name) == Some(
                storage.hdd.total_volume_size,
            )
            &&& held(after, Metric::FreeVolumeSize, identity.name) == Some(
                storage.hdd.free_volume_size,
            )
            &&& held(after, Metric::UsedVolumeSize, identity.name) == Some(
                storage.hdd.used_volume_size,
            )
            &&& forall|i: int|
                0 <= i < 3 ==> occurs_in(
                    sample_line(#[trigger] observed(identity, storage)[i]),
                    exposition(after),
                )
        }),
{
    let batch = observed(identity, storage);
    let name = identity.name;
    let two = batch.drop_last();
    let one = two.drop_last();
    assert(one.drop_last() =~= Seq::<Sample>::empty());
    assert(two.last() == batch[1]);
    assert(one.last() == batch[0]);
    reveal_with_fuel(recorded_all, 4);
    let first = recorded(samples, batch[0]);
    let second = recorded(first, batch[1]);
    let third = recorded(second, batch[2]);
    assert(recorded_all(samples, batch) == third);
    lemma_recorded_distinct(samples, batch[0]);
    lemma_recorded_distinct(first, batch[1]);
    lemma_recorded_distinct(second, batch[2]);
    lemma_recorded_held(samples, batch[0], Metric::TotalVolumeSize, name);
    lemma_recorded_held(first, batch[1], Metric::TotalVolumeSize, name);
    lemma_recorded_held(second, batch[2], Metric::TotalVolumeSize, name);
    lemma_recorded_held(first, batch[1], Metric::FreeVolumeSize, name);
    lemma_recorded_held(second, batch[2], Metric::FreeVolumeSize, name);
    lemma_recorded_held(second, batch[2], Metric::UsedVolumeSize, name);
    assert forall|i: int| 0 <= i < 3 implies occurs_in(
        sample_line(#[trigger] batch[i]),
        exposition(third),
    ) by {
        let key = Sample { metric: batch[i].metric, name, value: 0 };
        lemma_position(third, key);
        lemma_position_of_series(third, key, batch[i]);
        let at = position(third, key);
        assert(held(third, batch[i].metric, name) == Some(batch[i].value));
        assert(third[at] == batch[i]);
        lemma_exposition_holds(third, at);
    }
}

/// Recorded into a registry without series, the observations of one device
/// are exactly its series, in their order.
pub proof fn lemma_recorded_first_reading(identity: DeviceIdentityView, storage: StorageStatusView)
    ensures
        recorded_all(Seq::empty(), observed(identity, storage)) == observed(identity, storage),
{
    let samples = observed(identity, storage);
    let two = samples.drop_last();
    let one = two.drop_last();
    assert(one.drop_last() =~= Seq::<Sample>::empty());
    reveal_with_fuel(recorded_all, 4);
    reveal_with_fuel(position, 4);
    let first = recorded_all(Seq::empty(), one);
    assert(first =~= seq![samples[0]]);
    let second = recorded_all(Seq::empty(), two);
    assert(first.drop_first() =~= Seq::<Sample>::empty());
    assert(second =~= seq![samples[0], samples[1]]);
    assert(second.drop_first() =~= seq![samples[1]]);
    assert(second.drop_first().drop_first() =~= Seq::<Sample>::empty());
    assert(recorded_all(Seq::empty(), samples) =~= samples);
}

/// The gauges of all devices.
pub struct Registry {
    series: Vec<Observation>,
}

impl View for Registry {
    type V = Seq<Sample>;

    closed spec fn view(&self) -> Seq<Sample> {
        samples_of(self.series@)
    }
}

impl Registry {
    /// No series occurs twice. This holds of a new registry, and recording
    /// keeps it.
    pub open spec fn wf(&self) -> bool {
        distinct_series(self@)
    }

    /// A registry without series.
    pub fn new() -> (registry: Registry)
        ensures
            registry.wf(),
            registry@ == Seq::<Sample>::empty(),
    {
        let registry = Registry { series: Vec::new() };
        assert(registry@ =~= Seq::<Sample>::empty());
        registry
    }

    /// The number of series.
    pub fn len(&self) -> (n: usize)
        ensures
            n == self@.len(),
    {
        self.series.len()
    }

    /// Records an observation: the series takes the new value, and a series
    /// that was not there yet is added behind the others.
    pub fn record(&mut self, observation: Observation)
        ensures
            final(self)@ == recorded(old(self)@, observation@),
            old(self).wf() ==> final(self).wf(),
    {
        let ghost before = self@;
        let ghost sample = observation@;
        let at = self.find(observation.metric, &observation.name);
        proof {
            lemma_position_of_series(
                before,
                sample,
                Sample { metric: sample.metric, name: sample.name, value: 0 },
            );
            if distinct_series(before) {
                lemma_recorded_distinct(before, sample);
            }
        }
        let i = at;
        if i < self.series.len() {
            self.series.set(i, observation);
        } else {
            self.series.push(observation);
        }
        assert(self@ =~= recorded(before, sample));
    }

    /// Records every observation of `batch`, in order.
    pub fn record_all(&mut self, batch: &Vec<Observation>)
        ensures
            final(self)@ == recorded_all(old(self)@, samples_of(batch@)),
            old(self).wf() ==> final(self).wf(),
    {
        let ghost samples = samples_of(batch@);
        let mut i: usize = 0;
        assert(samples.subrange(0, 0) =~= Seq::<Sample>::empty());
        while i < batch.len()
            invariant
                old(self).wf() ==> self.wf(),
                i <= batch.len(),
                samples == samples_of(batch@),
                self@ == recorded_all(old(self)@, samples.subrange(0, i as int)),
            decreases batch.len() - i,
        {
            proof {
                assert(samples.subrange(0, i + 1).drop_last() =~= samples.subrange(0, i as int));
                assert(samples.subrange(0, i + 1).last() == batch@[i as int]@);
            }
            self.record(batch[i].clone());
            i = i + 1;
        }
        assert(samples.subrange(0, i as int) =~= samples);
    }

    /// The value held for a series, if there is one.
    pub fn value(&self, metric: Metric, name: &str) -> (value: Option<u64>)
        ensures
            value == held(self@, metric, name@),
    {
        let at = self.find(metric, &name.to_owned());
        if at < self.series.len() {
            assert(self@[at as int] == self.series@[at as int]@);
            Some(self.series[at].value)
        } else {
            None
        }
    }

    /// The index of the series of `metric` and `name`, or the number of
    /// series where there is none.
    fn find(&self, metric: Metric, name: &String) -> (at: usize)
        ensures
            at == position(self@, Sample { metric, name: name@, value: 0 }),
            at <= self@.len(),
    {
        let ghost key = Sample { metric, name: name@, value: 0 };
        let mut i: usize = 0;
        while i < self.series.len() && !(self.series[i].metric == metric && self.series[i].name
            == *name)
            invariant
                i <= self.series.len(),
                key == (Sample { metric, name: name@, value: 0 }),
                forall|j: int| 0 <= j < i ==> !same_series(#[trigger] self@[j], key),
            decreases self.series.len() - i,
        {
            assert(self@[i as int] == self.series@[i as int]@);
            i = i + 1;
        }
        proof {
            if i < self.series.len() {
                assert(self@[i as int] == self.series@[i as int]@);
            }
            lemma_position_is(self@, key, i as int);
        }
        i
    }

    /// All series in the text exposition format.
    pub fn exposition(&self) -> (text: String)
        ensures
            text@ == exposition(self@),
    {
        render(&self.series)
    }

    /// The response to a scrape: all series, whatever was asked for.
    pub fn scrape(&self) -> (response: Response)
        ensures
            response.status == STATUS_OK,
            response.content_type@ == spec_exposition_type(),
            response.body@ == exposition(self@),
    {
        Response::metrics(self.exposition())
    }
}

} // verus!
