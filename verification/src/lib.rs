//! Core logic of a microcontroller control node: it reconstructs an unbounded
//! rotary-encoder position from a bounded hardware pulse counter, turns
//! debounced position deltas and pin presses into discrete device actions,
//! keeps an ordered registry of controllable devices, and answers a small
//! network command surface over that registry.
//!
//! Hardware access (pulse counters, PWM channels, pins, Wi-Fi, the HTTP
//! server) stays outside this crate; the functions here take plain readings
//! (counter values, pin levels, timestamps in milliseconds) and return the
//! decisions and payloads the hardware side must carry out.
use vstd::prelude::*;

pub mod commands;
pub mod device;
pub mod rotary;
pub mod strings;
pub mod updaters;

use crate::device::{Device, Devices};
use crate::updaters::min2;

verus! {

/// One output-synchronization pass over the registry, paired positionally
/// with the PWM channels.
pub trait DevicesDutyCycles {
    /// The ordered device records this collection holds.
    spec fn duty_device_seq(&self) -> Seq<Device>;

    /// For every dirty device, compute the hardware duty register value
    /// (`duty_cycle * max_duty / 100`, truncating) and clear the dirty
    /// flag; clean devices and slots beyond the shorter of registry and
    /// `max_duty_cycles` are untouched and get no write. The caller
    /// issues each returned value to the channel of the same index.
    fn update_duty_cycles(&mut self, max_duty_cycles: &Vec<u32>) -> (writes: Vec<Option<u32>>)
        requires
            forall|i: int|
                0 <= i < old(self).duty_device_seq().len() ==> (#[trigger] old(
                    self,
                ).duty_device_seq()[i]).wf(),
        ensures
            update_duty_cycles_ensures(
                old(self).duty_device_seq(),
                final(self).duty_device_seq(),
                max_duty_cycles@,
                writes@,
            ),
    ;
}

/// What one output-synchronization pass does, slot by slot.
pub open spec fn update_duty_cycles_ensures(
    before: Seq<Device>,
    after: Seq<Device>,
    max_duties: Seq<u32>,
    writes: Seq<Option<u32>>,
) -> bool {
    let n = min2(before.len(), max_duties.len());
    &&& after.len() == before.len()
    &&& writes.len() == n
    &&& forall|i: int|
        0 <= i < n ==> (#[trigger] after[i], writes[i]) == (if before[i].updated {
            (
                Device { updated: false, ..before[i] },
                Some((before[i].duty_cycle * max_duties[i] / 100) as u32),
            )
        } else {
            (before[i], None::<u32>)
        })
    &&& forall|i: int| n <= i < before.len() ==> #[trigger] after[i] == before[i]
}

impl DevicesDutyCycles for Devices {
    open spec fn duty_device_seq(&self) -> Seq<Device> {
        self.devices@
    }

    fn update_duty_cycles(&mut self, max_duty_cycles: &Vec<u32>) -> (writes: Vec<Option<u32>>) {
        proof {
            assert forall|j: int|
                0 <= j < old(self).devices@.len() implies (#[trigger] old(
                self,
            ).devices@[j]).wf() by {
                assert(old(self).devices@[j] == old(self).duty_device_seq()[j]);
            }
        }
        let mut n: usize = self.devices.len();
        if max_duty_cycles.len() < n {
            n = max_duty_cycles.len();
        }
        let mut writes: Vec<Option<u32>> = Vec::new();
        for i in 0..n
            invariant
                n == min2(old(self).devices@.len(), max_duty_cycles@.len()),
                n <= self.devices@.len(),
                n <= max_duty_cycles@.len(),
                self.devices@.len() == old(self).devices@.len(),
                forall|j: int|
                    0 <= j < old(self).devices@.len() ==> (#[trigger] old(
                        self,
                    ).devices@[j]).wf(),
                writes@.len() == i,
                forall|j: int|
                    0 <= j < i ==> (#[trigger] self.devices@[j], writes@[j]) == (if old(
                        self,
                    ).devices@[j].updated {
                        (
                            Device { updated: false, ..old(self).devices@[j] },
                            Some(
                                (old(self).devices@[j].duty_cycle * max_duty_cycles@[j]
                                    / 100) as u32,
                            ),
                        )
                    } else {
                        (old(self).devices@[j], None::<u32>)
                    }),
                forall|j: int|
                    i <= j < self.devices@.len() ==> #[trigger] self.devices@[j] == old(
                        self,
                    ).devices@[j],
        {
            if self.devices[i].needs_hardware_duty_cycle_update() {
                let duty = self.devices[i].get_and_update_duty_cycle(&max_duty_cycles[i]);
                writes.push(Some(duty));
            } else {
                writes.push(None);
            }
        }
        writes
    }
}

/// Wi-Fi station credentials for the node, filled in by the caller before
/// bring-up. Connectivity itself is handled outside this crate.
pub struct Node {
    pub ssid: String,
    pub password: String,
}

impl Default for Node {
    fn default() -> (r: Self)
        ensures
            r.ssid@ == Seq::<char>::empty(),
            r.password@ == Seq::<char>::empty(),
    {
        Self { ssid: String::new(), password: String::new() }
    }
}

/// The PWM frequency of every device, in registry order. The hardware side
/// builds one timer per entry from these values.
pub fn get_frequencies(devices: &Devices) -> (r: Vec<u32>)
    ensures
        r@ == devices.devices@.map_values(|d: crate::device::Device| d.freq_hz),
{
    let mut r: Vec<u32> = Vec::new();
    let n = devices.devices.len();
    for i in 0..n
        invariant
            n == devices.devices@.len(),
            r@ == devices.devices@.take(i as int).map_values(
                |d: crate::device::Device| d.freq_hz,
            ),
    {
        r.push(devices.devices[i].freq_hz);
        assert(devices.devices@.take(i + 1) == devices.devices@.take(i as int).push(
            devices.devices@[i as int],
        ));
    }
    assert(devices.devices@.take(n as int) == devices.devices@);
    r
}

} // verus!
