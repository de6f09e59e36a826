//! Debounced translation of encoder position deltas and reverse-pin
//! transitions into device actions. The polling loops on the hardware side
//! read the encoders, pins and clock, then hand the plain readings to the
//! per-tick functions here; the decisions and state transitions are all
//! made in this module.
use vstd::prelude::*;

use crate::device::{spec_take_action, Action, Behavior, Device, Devices};

verus! {

/// Minimum time between accepted encoder actions, and the minimum hold
/// time of the reverse pin, in milliseconds.
pub const DEBOUNCE_THRESHOLD_MS: u64 = 100;

/// The action an encoder observation produces: none if the position is
/// unchanged or the debounce window is still open, otherwise `Up` or
/// `Down` by the direction of the change.
pub open spec fn spec_encoder_action(
    last_value: int,
    value: int,
    last_time: int,
    now: int,
) -> Option<Action> {
    if value == last_value {
        None
    } else if now - last_time > DEBOUNCE_THRESHOLD_MS {
        if value > last_value {
            Some(Action::Up(None))
        } else {
            Some(Action::Down(None))
        }
    } else {
        None
    }
}

/// One encoder observation: the device after the action (if any), the new
/// last-action time, and the new last-seen position. The position is
/// recorded even when the debounce window absorbs the change.
pub open spec fn spec_encoder_update(
    d: Device,
    value: int,
    last_time: int,
    last_value: int,
    now: int,
) -> (Device, int, int) {
    match spec_encoder_action(last_value, value, last_time, now) {
        Some(a) => (spec_take_action(d, a), now, value),
        None => (d, last_time, value),
    }
}

/// Whether a reverse-pin observation fires a `Reverse` action: only while
/// the pin reads high and it has been held since more than the debounce
/// threshold ago.
pub open spec fn spec_reverse_fires(last_click: Option<u64>, pin_is_high: bool, now: int) -> bool {
    pin_is_high && match last_click {
        Some(t) => now - t > DEBOUNCE_THRESHOLD_MS,
        None => false,
    }
}

/// The hold tracker after a reverse-pin observation: armed on the rising
/// edge, kept while the pin stays high, cleared on release.
pub open spec fn spec_click_update(
    last_click: Option<u64>,
    pin_is_high: bool,
    now: u64,
) -> Option<u64> {
    if pin_is_high {
        if last_click is None {
            Some(now)
        } else {
            last_click
        }
    } else {
        None
    }
}

/// Translate one encoder reading into at most one device action.
///
/// If the position is unchanged nothing happens. If it changed and more
/// than the debounce threshold has passed since the last accepted action,
/// the device takes `Up` or `Down` by the direction of the change and the
/// action time resets; a change inside the window is absorbed, not queued.
/// Either way the reading becomes the new last-seen position.
pub fn update_device_from_encoder(
    device: &mut Device,
    encoder_value: i64,
    last_encoder_time_ms: &mut u64,
    last_encoder_value: &mut i64,
    now_ms: u64,
)
    requires
        *old(last_encoder_time_ms) <= now_ms,
    ensures
        (*final(device), *final(last_encoder_time_ms) as int, *final(last_encoder_value) as int)
            == spec_encoder_update(
            *old(device),
            encoder_value as int,
            *old(last_encoder_time_ms) as int,
            *old(last_encoder_value) as int,
            now_ms as int,
        ),
        old(device).wf() ==> final(device).wf(),
{
    if encoder_value != *last_encoder_value {
        let elapsed: u64 = now_ms - *last_encoder_time_ms;
        if elapsed > DEBOUNCE_THRESHOLD_MS {
            if encoder_value > *last_encoder_value {
                device.take_action(Action::Up(None));
            } else {
                device.take_action(Action::Down(None));
            }
            *last_encoder_time_ms = now_ms;
        }
        *last_encoder_value = encoder_value;
    }
}

/// Translate one reverse-pin reading into at most one `Reverse` action.
///
/// A rising edge arms the hold tracker; while the pin stays high past the
/// debounce threshold the device takes `Reverse` — on every further tick
/// of the sustained press, not once per press (observed behavior kept as
/// is; callers wanting single-fire semantics must latch it themselves).
/// A low reading clears the tracker, re-arming the detector.
pub fn update_reversable_device_from_pin_click(
    device: &mut Device,
    last_click_time_ms: &mut Option<u64>,
    pin_is_high: bool,
    now_ms: u64,
)
    requires
        (*old(last_click_time_ms)) matches Some(t) ==> t <= now_ms,
    ensures
        *final(device) == (if spec_reverse_fires(*old(last_click_time_ms), pin_is_high, now_ms as int) {
            spec_take_action(*old(device), Action::Reverse)
        } else {
            *old(device)
        }),
        *final(last_click_time_ms) == spec_click_update(
            *old(last_click_time_ms),
            pin_is_high,
            now_ms,
        ),
        old(device).wf() ==> final(device).wf(),
{
    if pin_is_high {
        match *last_click_time_ms {
            None => {
                *last_click_time_ms = Some(now_ms);
            },
            Some(t) => {
                if now_ms - t > DEBOUNCE_THRESHOLD_MS {
                    device.take_action(Action::Reverse);
                }
            },
        }
    } else {
        if last_click_time_ms.is_some() {
            *last_click_time_ms = None;
        }
    }
}

/// Two position changes observed less than the debounce threshold apart,
/// the first with the window already clear: the first fires by its own
/// direction, the second is absorbed — exactly one action — yet the
/// second change still becomes the recorded position.
pub proof fn lemma_debounce_absorbs_second(
    d: Device,
    last_value: int,
    last_time: int,
    v1: int,
    t1: int,
    v2: int,
    t2: int,
)
    requires
        v1 != last_value,
        v2 != v1,
        t1 - last_time > DEBOUNCE_THRESHOLD_MS,
        t1 <= t2,
        t2 - t1 < DEBOUNCE_THRESHOLD_MS,
    ensures
        ({
            let (d1, lt1, lv1) = spec_encoder_update(d, v1, last_time, last_value, t1);
            let (d2, lt2, lv2) = spec_encoder_update(d1, v2, lt1, lv1, t2);
            d1 == spec_take_action(
                d,
                if v1 > last_value {
                    Action::Up(None)
                } else {
                    Action::Down(None)
                },
            ) && d2 == d1 && lv2 == v2 && lt2 == t1
        }),
{
}

/// Two position changes observed less than the debounce threshold apart,
/// the first inside the window of an earlier action and the second past
/// it: the first is absorbed, the second fires — exactly one action —
/// and its direction is that of the later change relative to the position
/// recorded before the window expired.
pub proof fn lemma_debounce_acts_on_latest(
    d: Device,
    last_value: int,
    last_time: int,
    v1: int,
    t1: int,
    v2: int,
    t2: int,
)
    requires
        v1 != last_value,
        v2 != v1,
        t1 - last_time <= DEBOUNCE_THRESHOLD_MS,
        t1 <= t2,
        t2 - t1 < DEBOUNCE_THRESHOLD_MS,
        t2 - last_time > DEBOUNCE_THRESHOLD_MS,
    ensures
        ({
            let (d1, lt1, lv1) = spec_encoder_update(d, v1, last_time, last_value, t1);
            let (d2, lt2, lv2) = spec_encoder_update(d1, v2, lt1, lv1, t2);
            d1 == d && d2 == spec_take_action(
                d,
                if v2 > v1 {
                    Action::Up(None)
                } else {
                    Action::Down(None)
                },
            ) && lv2 == v2 && lt2 == t2
        }),
{
}

/// A `Reverse` fires only while the pin reads high and the hold began
/// more than the debounce threshold ago.
pub proof fn lemma_reverse_fires_only_after_hold(last_click: Option<u64>, pin_is_high: bool, now: int)
    ensures
        spec_reverse_fires(last_click, pin_is_high, now) ==> (pin_is_high && (last_click matches Some(
            t,
        ) && now - t > DEBOUNCE_THRESHOLD_MS)),
{
}

/// Releasing the pin clears the hold tracker at once, so the tick after a
/// release can never fire, whatever the clock says.
pub proof fn lemma_release_stops_firing(last_click: Option<u64>, now1: u64, pin2: bool, now2: int)
    ensures
        spec_click_update(last_click, false, now1) is None,
        !spec_reverse_fires(spec_click_update(last_click, false, now1), pin2, now2),
{
}

/// Per-tick dispatch over the whole registry, paired positionally with
/// the hardware peripherals: encoder readings (and for reversible
/// devices, reverse-pin levels) come in index for index with the devices
/// they belong to.
pub trait EncoderDevices {
    /// The ordered device records this collection holds.
    spec fn device_seq(&self) -> Seq<Device>;

    /// One dispatch tick for plain slider devices: every `Slider` device
    /// takes the debounced action of its encoder reading; every other
    /// device and every slot beyond the shortest input is untouched.
    fn take_actions_slider_encoder(
        &mut self,
        encoder_values: &Vec<i64>,
        last_encoder_times_ms: &mut Vec<u64>,
        last_encoder_values: &mut Vec<i64>,
        now_ms: u64,
    )
        requires
            forall|i: int|
                0 <= i < old(last_encoder_times_ms)@.len() ==> #[trigger] old(
                    last_encoder_times_ms,
                )@[i] <= now_ms,
        ensures
            take_actions_slider_ensures(
                old(self).device_seq(),
                final(self).device_seq(),
                encoder_values@,
                old(last_encoder_times_ms)@,
                final(last_encoder_times_ms)@,
                old(last_encoder_values)@,
                final(last_encoder_values)@,
                now_ms,
            ),
    ;

    /// One dispatch tick for reversible slider devices: every
    /// `ReversableSlider` device first takes the reverse-pin decision,
    /// then the debounced action of its encoder reading; every other
    /// device and every slot beyond the shortest input is untouched.
    fn take_actions_reversible_slider_encoder(
        &mut self,
        encoder_values: &Vec<i64>,
        reverse_pins_high: &Vec<bool>,
        last_encoder_times_ms: &mut Vec<u64>,
        last_encoder_values: &mut Vec<i64>,
        last_click_times_ms: &mut Vec<Option<u64>>,
        now_ms: u64,
    )
        requires
            forall|i: int|
                0 <= i < old(last_encoder_times_ms)@.len() ==> #[trigger] old(
                    last_encoder_times_ms,
                )@[i] <= now_ms,
            forall|i: int|
                0 <= i < old(last_click_times_ms)@.len() ==> (#[trigger] old(
                    last_click_times_ms,
                )@[i] matches Some(t) ==> t <= now_ms),
        ensures
            take_actions_reversible_ensures(
                old(self).device_seq(),
                final(self).device_seq(),
                encoder_values@,
                reverse_pins_high@,
                old(last_encoder_times_ms)@,
                final(last_encoder_times_ms)@,
                old(last_encoder_values)@,
                final(last_encoder_values)@,
                old(last_click_times_ms)@,
                final(last_click_times_ms)@,
                now_ms,
            ),
    ;
}

/// What one slider dispatch tick does, slot by slot.
pub open spec fn take_actions_slider_ensures(
    before: Seq<Device>,
    after: Seq<Device>,
    values: Seq<i64>,
    times0: Seq<u64>,
    times1: Seq<u64>,
    lasts0: Seq<i64>,
    lasts1: Seq<i64>,
    now: u64,
) -> bool {
    let n = min4(before.len(), values.len(), times0.len(), lasts0.len());
    &&& after.len() == before.len()
    &&& times1.len() == times0.len()
    &&& lasts1.len() == lasts0.len()
    &&& forall|i: int|
        0 <= i < n ==> (#[trigger] after[i], times1[i] as int, lasts1[i] as int) == (
        if before[i].behavior is Slider {
            spec_encoder_update(
                before[i],
                values[i] as int,
                times0[i] as int,
                lasts0[i] as int,
                now as int,
            )
        } else {
            (before[i], times0[i] as int, lasts0[i] as int)
        })
    &&& forall|i: int| n <= i < before.len() ==> #[trigger] after[i] == before[i]
    &&& forall|i: int| n <= i < times0.len() ==> #[trigger] times1[i] == times0[i]
    &&& forall|i: int| n <= i < lasts0.len() ==> #[trigger] lasts1[i] == lasts0[i]
}

/// What one reversible-slider dispatch tick does, slot by slot.
pub open spec fn take_actions_reversible_ensures(
    before: Seq<Device>,
    after: Seq<Device>,
    values: Seq<i64>,
    pins: Seq<bool>,
    times0: Seq<u64>,
    times1: Seq<u64>,
    lasts0: Seq<i64>,
    lasts1: Seq<i64>,
    clicks0: Seq<Option<u64>>,
    clicks1: Seq<Option<u64>>,
    now: u64,
) -> bool {
    let n = min4(
        min4(before.len(), pins.len(), clicks0.len(), values.len()),
        values.len(),
        times0.len(),
        lasts0.len(),
    );
    &&& after.len() == before.len()
    &&& times1.len() == times0.len()
    &&& lasts1.len() == lasts0.len()
    &&& clicks1.len() == clicks0.len()
    &&& forall|i: int|
        0 <= i < n ==> ({
            let reversed_once = if spec_reverse_fires(clicks0[i], pins[i], now as int) {
                spec_take_action(before[i], Action::Reverse)
            } else {
                before[i]
            };
            (
                #[trigger] after[i],
                clicks1[i],
                times1[i] as int,
                lasts1[i] as int,
            ) == (if before[i].behavior is ReversableSlider {
                let (d2, t2, v2) = spec_encoder_update(
                    reversed_once,
                    values[i] as int,
                    times0[i] as int,
                    lasts0[i] as int,
                    now as int,
                );
                (d2, spec_click_update(clicks0[i], pins[i], now), t2, v2)
            } else {
                (before[i], clicks0[i], times0[i] as int, lasts0[i] as int)
            })
        })
    &&& forall|i: int| n <= i < before.len() ==> #[trigger] after[i] == before[i]
    &&& forall|i: int| n <= i < times0.len() ==> #[trigger] times1[i] == times0[i]
    &&& forall|i: int| n <= i < lasts0.len() ==> #[trigger] lasts1[i] == lasts0[i]
    &&& forall|i: int| n <= i < clicks0.len() ==> #[trigger] clicks1[i] == clicks0[i]
}

/// The least of four lengths: positional pairing stops at the shortest
/// input, as iterator zipping does.
pub open spec fn min4(a: nat, b: nat, c: nat, d: nat) -> nat {
    min2(min2(a, b), min2(c, d))
}

/// The lesser of two lengths.
pub open spec fn min2(a: nat, b: nat) -> nat {
    if a <= b {
        a
    } else {
        b
    }
}

impl EncoderDevices for Devices {
    open spec fn device_seq(&self) -> Seq<Device> {
        self.devices@
    }

    fn take_actions_slider_encoder(
        &mut self,
        encoder_values: &Vec<i64>,
        last_encoder_times_ms: &mut Vec<u64>,
        last_encoder_values: &mut Vec<i64>,
        now_ms: u64,
    ) {
        let mut n: usize = self.devices.len();
        if encoder_values.len() < n {
            n = encoder_values.len();
        }
        if last_encoder_times_ms.len() < n {
            n = last_encoder_times_ms.len();
        }
        if last_encoder_values.len() < n {
            n = last_encoder_values.len();
        }
        assert(n == min4(
            old(self).devices@.len(),
            encoder_values@.len(),
            old(last_encoder_times_ms)@.len(),
            old(last_encoder_values)@.len(),
        ));
        for i in 0..n
            invariant
                n <= self.devices@.len(),
                n <= encoder_values@.len(),
                n <= last_encoder_times_ms@.len(),
                n <= last_encoder_values@.len(),
                self.devices@.len() == old(self).devices@.len(),
                last_encoder_times_ms@.len() == old(last_encoder_times_ms)@.len(),
                last_encoder_values@.len() == old(last_encoder_values)@.len(),
                forall|j: int|
                    0 <= j < last_encoder_times_ms@.len() ==> #[trigger] last_encoder_times_ms@[j]
                        <= now_ms,
                forall|j: int|
                    0 <= j < i ==> (
                    #[trigger] self.devices@[j],
                    last_encoder_times_ms@[j] as int,
                    last_encoder_values@[j] as int,
                    ) == (if old(self).devices@[j].behavior is Slider {
                        spec_encoder_update(
                            old(self).devices@[j],
                            encoder_values@[j] as int,
                            old(last_encoder_times_ms)@[j] as int,
                            old(last_encoder_values)@[j] as int,
                            now_ms as int,
                        )
                    } else {
                        (
                            old(self).devices@[j],
                            old(last_encoder_times_ms)@[j] as int,
                            old(last_encoder_values)@[j] as int,
                        )
                    }),
                forall|j: int|
                    i <= j < self.devices@.len() ==> #[trigger] self.devices@[j] == old(
                        self,
                    ).devices@[j],
                forall|j: int|
                    i <= j < last_encoder_times_ms@.len() ==> #[trigger] last_encoder_times_ms@[j]
                        == old(last_encoder_times_ms)@[j],
                forall|j: int|
                    i <= j < last_encoder_values@.len() ==> #[trigger] last_encoder_values@[j]
                        == old(last_encoder_values)@[j],
        {
            if self.devices[i].behavior == Behavior::Slider {
                update_device_from_encoder(
                    &mut self.devices[i],
                    encoder_values[i],
                    &mut last_encoder_times_ms[i],
                    &mut last_encoder_values[i],
                    now_ms,
                );
            }
        }
    }

    fn take_actions_reversible_slider_encoder(
        &mut self,
        encoder_values: &Vec<i64>,
        reverse_pins_high: &Vec<bool>,
        last_encoder_times_ms: &mut Vec<u64>,
        last_encoder_values: &mut Vec<i64>,
        last_click_times_ms: &mut Vec<Option<u64>>,
        now_ms: u64,
    ) {
        let mut n: usize = self.devices.len();
        if reverse_pins_high.len() < n {
            n = reverse_pins_high.len();
        }
        if last_click_times_ms.len() < n {
            n = last_click_times_ms.len();
        }
        if encoder_values.len() < n {
            n = encoder_values.len();
        }
        if last_encoder_times_ms.len() < n {
            n = last_encoder_times_ms.len();
        }
        if last_encoder_values.len() < n {
            n = last_encoder_values.len();
        }
        for i in 0..n
            invariant
                n <= self.devices@.len(),
                n <= encoder_values@.len(),
                n <= reverse_pins_high@.len(),
                n <= last_encoder_times_ms@.len(),
                n <= last_encoder_values@.len(),
                n <= last_click_times_ms@.len(),
                n == min4(
                    min4(
                        old(self).devices@.len(),
                        reverse_pins_high@.len(),
                        old(last_click_times_ms)@.len(),
                        encoder_values@.len(),
                    ),
                    encoder_values@.len(),
                    old(last_encoder_times_ms)@.len(),
                    old(last_encoder_values)@.len(),
                ),
                self.devices@.len() == old(self).devices@.len(),
                last_encoder_times_ms@.len() == old(last_encoder_times_ms)@.len(),
                last_encoder_values@.len() == old(last_encoder_values)@.len(),
                last_click_times_ms@.len() == old(last_click_times_ms)@.len(),
                forall|j: int|
                    0 <= j < last_encoder_times_ms@.len() ==> #[trigger] last_encoder_times_ms@[j]
                        <= now_ms,
                forall|j: int|
                    0 <= j < last_click_times_ms@.len() ==> (#[trigger] last_click_times_ms@[j]
                        matches Some(t) ==> t <= now_ms),
                forall|j: int|
                    0 <= j < i ==> ({
                        let reversed_once = if spec_reverse_fires(
                            old(last_click_times_ms)@[j],
                            reverse_pins_high@[j],
                            now_ms as int,
                        ) {
                            spec_take_action(old(self).devices@[j], Action::Reverse)
                        } else {
                            old(self).devices@[j]
                        };
                        (
                            #[trigger] self.devices@[j],
                            last_click_times_ms@[j],
                            last_encoder_times_ms@[j] as int,
                            last_encoder_values@[j] as int,
                        ) == (if old(self).devices@[j].behavior is ReversableSlider {
                            let (d2, t2, v2) = spec_encoder_update(
                                reversed_once,
                                encoder_values@[j] as int,
                                old(last_encoder_times_ms)@[j] as int,
                                old(last_encoder_values)@[j] as int,
                                now_ms as int,
                            );
                            (
                                d2,
                                spec_click_update(
                                    old(last_click_times_ms)@[j],
                                    reverse_pins_high@[j],
                                    now_ms,
                                ),
                                t2,
                                v2,
                            )
                        } else {
                            (
                                old(self).devices@[j],
                                old(last_click_times_ms)@[j],
                                old(last_encoder_times_ms)@[j] as int,
                                old(last_encoder_values)@[j] as int,
                            )
                        })
                    }),
                forall|j: int|
                    i <= j < self.devices@.len() ==> #[trigger] self.devices@[j] == old(
                        self,
                    ).devices@[j],
                forall|j: int|
                    i <= j < last_encoder_times_ms@.len() ==> #[trigger] last_encoder_times_ms@[j]
                        == old(last_encoder_times_ms)@[j],
                forall|j: int|
                    i <= j < last_encoder_values@.len() ==> #[trigger] last_encoder_values@[j]
                        == old(last_encoder_values)@[j],
                forall|j: int|
                    i <= j < last_click_times_ms@.len() ==> #[trigger] last_click_times_ms@[j]
                        == old(last_click_times_ms)@[j],
        {
            if self.devices[i].behavior == Behavior::ReversableSlider {
                update_reversable_device_from_pin_click(
                    &mut self.devices[i],
                    &mut last_click_times_ms[i],
                    reverse_pins_high[i],
                    now_ms,
                );
                update_device_from_encoder(
                    &mut self.devices[i],
                    encoder_values[i],
                    &mut last_encoder_times_ms[i],
                    &mut last_encoder_values[i],
                    now_ms,
                );
            }
        }
    }
}

} // verus!
