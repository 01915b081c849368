//! The continuous mode: all devices, one after the other, then a pause.
//!
//! The poller decides; the caller acts. [`Poller::action`] says what is to be
//! done, and [`Poller::advance`] takes what happened: the outcome of a query,
//! or the end of a pause. A device whose query failed is passed over for this
//! round, with nothing recorded for it, and the round goes on with the next
//! device.

use crate::error::ExportError;
use crate::model::Reading;
use crate::observation::{observe, observed};
use crate::registry::{recorded_all, Registry};
use vstd::prelude::*;

verus! {

/// The pause between two rounds, in seconds.
pub const POLL_INTERVAL_SECONDS: u64 = 10;

/// What the caller is to do next.
#[derive(Debug, PartialEq, Eq)]
pub enum Action {
    /// Query the device at `address`, then report the outcome.
    Query { address: String },
    /// Wait for `seconds`, then report that the pause is over.
    Sleep { seconds: u64 },
}

/// What the caller reports.
#[derive(Debug, PartialEq, Eq)]
pub enum Event {
    /// The query that was asked for has ended.
    Probed(Result<Reading, ExportError>),
    /// The pause that was asked for is over.
    Woke,
}

/// The addresses as sequences of characters.
pub open spec fn addresses_of(devices: Seq<String>) -> Seq<Seq<char>> {
    devices.map_values(|address: String| address@)
}

/// The state of the polling loop: the devices, and how far the round has
/// come.
pub struct Poller {
    devices: Vec<String>,
    cursor: usize,
}

impl Poller {
    #[verifier::type_invariant]
    closed spec fn well_formed(&self) -> bool {
        0 < self.devices@.len() && self.cursor <= self.devices@.len()
    }

    /// The addresses of the devices, in the order in which they are polled.
    pub closed spec fn devices(&self) -> Seq<Seq<char>> {
        addresses_of(self.devices@)
    }

    /// The number of devices that this round has dealt with.
    pub closed spec fn cursor(&self) -> int {
        self.cursor as int
    }

    /// Whether a device is left in this round. Otherwise the poller pauses.
    pub open spec fn polling(&self) -> bool {
        self.cursor() < self.devices().len()
    }

    /// Whether `action` is what this state asks for: the query of the next
    /// device of the round, or the pause behind the last one.
    pub open spec fn asks(&self, action: Action) -> bool {
        if self.polling() {
            action matches Action::Query { address } && address@ == self.devices()[self.cursor()]
        } else {
            action == (Action::Sleep { seconds: POLL_INTERVAL_SECONDS })
        }
    }

    /// A poller at the start of its first round. A list without devices is
    /// refused.
    pub fn new(devices: Vec<String>) -> (r: Result<Poller, ExportError>)
        ensures
            match r {
                Ok(poller) => {
                    &&& devices@.len() > 0
                    &&& poller.devices() == addresses_of(devices@)
                    &&& poller.cursor() == 0
                },
                Err(e) => e == ExportError::Config && devices@.len() == 0,
            },
    {
        if devices.len() == 0 {
            Err(ExportError::Config)
        } else {
            Ok(Poller { devices, cursor: 0 })
        }
    }

    /// What is to be done in this state.
    pub fn action(&self) -> (action: Action)
        ensures
            self.asks(action),
            0 <= self.cursor() <= self.devices().len(),
    {
        proof {
            use_type_invariant(self);
        }
        if self.cursor < self.devices.len() {
            Action::Query { address: self.devices[self.cursor].clone() }
        } else {
            Action::Sleep { seconds: POLL_INTERVAL_SECONDS }
        }
    }

    /// Takes an event and says what is to be done next.
    ///
    /// The outcome of a query moves the round on by one device, whether the
    /// query gave a reading or failed; a reading is recorded with all three
    /// gauges, a failure leaves the registry as it is. The end of a pause
    /// starts the next round. An event that the state did not ask for changes
    /// nothing.
    pub fn advance(&mut self, event: Event, registry: &mut Registry) -> (action: Action)
        ensures
            final(self).devices() == old(self).devices(),
            final(self).cursor() == match event {
                Event::Probed(_) => if old(self).polling() {
                    old(self).cursor() + 1
                } else {
                    old(self).cursor()
                },
                Event::Woke => if old(self).polling() {
                    old(self).cursor()
                } else {
                    0
                },
            },
            final(registry)@ == match event {
                Event::Probed(Ok(reading)) => if old(self).polling() {
                    recorded_all(old(registry)@, observed(reading.identity@, reading.storage@))
                } else {
                    old(registry)@
                },
                _ => old(registry)@,
            },
            old(registry).wf() ==> final(registry).wf(),
            final(self).asks(action),
            0 <= final(self).cursor() <= final(self).devices().len(),
    {
        proof {
            use_type_invariant(&*self);
        }
        let polling = self.cursor < self.devices.len();
        match event {
            Event::Probed(outcome) => {
                if polling {
                    match outcome {
                        Ok(reading) => {
                            let observations = observe(&reading.identity, &reading.storage);
                            registry.record_all(&observations);
                        },
                        Err(_) => {},
                    }
                    self.cursor = self.cursor + 1;
                }
            },
            Event::Woke => {
                if !polling {
                    self.cursor = 0;
                }
            },
        }
        self.action()
    }
}

} // verus!
