//! The device model: logical controllable entities (dimmers, sliders),
//! the discrete actions applied to them, and the ordered registry that
//! every polling loop and command handler works against.
use vstd::prelude::*;

use crate::strings::{
    format_u64,
    str_eq,
    format_uuid,
    json_escape,
    spec_dec_digits,
    spec_json_escape,
    spec_uuid_text,
};

verus! {

/// Duty step used when an `Up` or `Down` action carries no explicit amount.
pub const DEFAULT_STEP: usize = 10;

/// Dispatch policy tag of a device.
#[derive(Clone, Copy, Debug, PartialEq, Eq, Structural)]
pub enum Behavior {
    Slider,
    ReversableSlider,
}

/// A discrete intent applied to one device: raise or lower the duty
/// percentage by an optional explicit amount (`DEFAULT_STEP` if absent),
/// or toggle the direction of a reversible device.
#[derive(Clone, Copy, Debug, PartialEq, Eq, Structural)]
pub enum Action {
    Up(Option<usize>),
    Down(Option<usize>),
    Reverse,
}

/// A logical controllable entity. `duty_cycle` is a percentage held in
/// [0, 100]; `updated` is the dirty flag meaning the hardware output has
/// not yet been synchronized to `duty_cycle`; `reversed` is the direction
/// a reversible device currently runs in.
#[derive(Clone, Debug)]
pub struct Device {
    pub uuid: u128,
    pub name: String,
    pub behavior: Behavior,
    pub freq_hz: u32,
    pub duty_cycle: u32,
    pub reversed: bool,
    pub updated: bool,
}

/// The ordered, shared collection of devices. Order is significant: loops
/// pair devices with encoders, pins and PWM channels positionally. The
/// mutual-exclusion lock that guards the collection at run time lives with
/// the hardware side; the operations here are the critical sections it
/// protects.
#[derive(Clone, Debug)]
pub struct Devices {
    pub devices: Vec<Device>,
}

/// The action a name denotes, carrying the given amount: `up`, `down`
/// or `reverse`, exactly; anything else denotes none.
pub open spec fn spec_action_from_str(s: Seq<char>, target: Option<usize>) -> Result<Action, ()> {
    if s == "up"@ {
        Ok(Action::Up(target))
    } else if s == "down"@ {
        Ok(Action::Down(target))
    } else if s == "reverse"@ {
        Ok(Action::Reverse)
    } else {
        Err(())
    }
}

impl Action {
    /// Read an action from its lower-case name, carrying `target` as the
    /// explicit amount of an `Up` or `Down`.
    pub fn from_str(s: &str, target: Option<usize>) -> (r: Result<Action, ()>)
        ensures
            r == spec_action_from_str(s@, target),
    {
        if str_eq(s, "up") {
            Ok(Action::Up(target))
        } else if str_eq(s, "down") {
            Ok(Action::Down(target))
        } else if str_eq(s, "reverse") {
            Ok(Action::Reverse)
        } else {
            Err(())
        }
    }
}

/// The amount an `Up` or `Down` action moves the duty percentage by.
pub open spec fn spec_step_amount(amount: Option<usize>) -> int {
    match amount {
        Some(a) => a as int,
        None => DEFAULT_STEP as int,
    }
}

/// The device after one action: `Up`/`Down` move the duty percentage and
/// clamp it to [0, 100], `Reverse` toggles the direction; each of them
/// raises the dirty flag and touches nothing else.
pub open spec fn spec_take_action(d: Device, a: Action) -> Device {
    match a {
        Action::Up(amount) => Device {
            duty_cycle: if d.duty_cycle + spec_step_amount(amount) >= 100 {
                100
            } else {
                (d.duty_cycle + spec_step_amount(amount)) as u32
            },
            updated: true,
            ..d
        },
        Action::Down(amount) => Device {
            duty_cycle: if d.duty_cycle - spec_step_amount(amount) <= 0 {
                0
            } else {
                (d.duty_cycle - spec_step_amount(amount)) as u32
            },
            updated: true,
            ..d
        },
        Action::Reverse => Device { reversed: !d.reversed, updated: true, ..d },
    }
}

impl Device {
    /// The duty percentage never leaves [0, 100].
    pub open spec fn wf(self) -> bool {
        self.duty_cycle <= 100
    }

    /// Apply one action to this device: move or clamp the duty percentage,
    /// or toggle the direction, and raise the dirty flag.
    pub fn take_action(&mut self, action: Action)
        ensures
            *final(self) == spec_take_action(*old(self), action),
            old(self).wf() ==> final(self).wf(),
    {
        match action {
            Action::Up(amount) => {
                let step: usize = match amount {
                    Some(a) => a,
                    None => DEFAULT_STEP,
                };
                let raised: u128 = self.duty_cycle as u128 + step as u128;
                self.duty_cycle = if raised >= 100 {
                    100
                } else {
                    raised as u32
                };
                self.updated = true;
            },
            Action::Down(amount) => {
                let step: usize = match amount {
                    Some(a) => a,
                    None => DEFAULT_STEP,
                };
                let step_u64: u64 = step as u64;
                self.duty_cycle = if self.duty_cycle as u64 <= step_u64 {
                    0
                } else {
                    self.duty_cycle - step as u32
                };
                self.updated = true;
            },
            Action::Reverse => {
                self.reversed = !self.reversed;
                self.updated = true;
            },
        }
    }

    /// Whether the hardware output still has to be synchronized to
    /// `duty_cycle`.
    pub fn needs_hardware_duty_cycle_update(&self) -> (r: bool)
        ensures
            r == self.updated,
    {
        self.updated
    }

    /// The hardware duty register value for this device, scaled from the
    /// percentage by `max_duty / 100` with truncating division; clears the
    /// dirty flag, touching nothing else.
    pub fn get_and_update_duty_cycle(&mut self, max_duty: &u32) -> (r: u32)
        requires
            old(self).wf(),
        ensures
            r == old(self).duty_cycle * *max_duty / 100,
            *final(self) == (Device { updated: false, ..*old(self) }),
    {
        proof {
            let duty = old(self).duty_cycle as int;
            let max = *max_duty as int;
            assert(duty * max <= 100 * max) by (nonlinear_arith)
                requires
                    duty <= 100,
                    max >= 0,
            ;
            assert(100 * max / 100 == max) by (nonlinear_arith)
                requires
                    max >= 0,
            ;
            assert(duty * max / 100 <= 100 * max / 100) by {
                vstd::arithmetic::div_mod::lemma_div_is_ordered(duty * max, 100 * max, 100);
            }
        }
        let scaled: u64 = self.duty_cycle as u64 * *max_duty as u64 / 100;
        self.updated = false;
        scaled as u32
    }
}

impl Devices {
    /// Every device's duty percentage is in range.
    pub open spec fn wf(self) -> bool {
        forall|i: int| 0 <= i < self.devices@.len() ==> (#[trigger] self.devices@[i]).wf()
    }
}

/// The behavior tag's name, as it stands in a device snapshot.
pub open spec fn spec_behavior_text(b: Behavior) -> Seq<char> {
    match b {
        Behavior::Slider => "Slider"@,
        Behavior::ReversableSlider => "ReversableSlider"@,
    }
}

/// The serialized snapshot of a device: identifier, name, behavior tag,
/// frequency and current duty percentage, as one JSON object.
pub open spec fn spec_device_json(d: Device) -> Seq<char> {
    "{\"uuid\":\""@ + spec_uuid_text(d.uuid) + "\",\"name\":\""@ + spec_json_escape(d.name@)
        + "\",\"behavior\":\""@ + spec_behavior_text(d.behavior) + "\",\"freq_Hz\":"@
        + spec_dec_digits(d.freq_hz as int) + ",\"duty_cycle\":"@ + spec_dec_digits(
        d.duty_cycle as int,
    ) + "}"@
}

impl Device {
    /// Serialize this device's snapshot as a JSON object.
    pub fn to_json(&self) -> (r: String)
        ensures
            r@ == spec_device_json(*self),
    {
        let mut r = String::new();
        r.append("{\"uuid\":\"");
        r.append(format_uuid(self.uuid).as_str());
        r.append("\",\"name\":\"");
        r.append(json_escape(self.name.as_str()).as_str());
        r.append("\",\"behavior\":\"");
        match self.behavior {
            Behavior::Slider => r.append("Slider"),
            Behavior::ReversableSlider => r.append("ReversableSlider"),
        }
        r.append("\",\"freq_Hz\":");
        r.append(format_u64(self.freq_hz as u64).as_str());
        r.append(",\"duty_cycle\":");
        r.append(format_u64(self.duty_cycle as u64).as_str());
        r.append("}");
        proof {
            assert(r@ =~= spec_device_json(*self));
        }
        r
    }
}

/// Whether the device at `i` is the last with its name; only those get
/// an entry in the registry listing, matching a map built name by name
/// where a later device with the same name replaces an earlier one.
pub open spec fn spec_kept(devs: Seq<Device>, i: int) -> bool {
    forall|j: int| i < j < devs.len() ==> (#[trigger] devs[j]).name@ != devs[i].name@
}

/// One registry listing entry: the device's name as a JSON key, then its
/// snapshot.
pub open spec fn spec_listing_entry(d: Device) -> Seq<char> {
    seq!['"'] + spec_json_escape(d.name@) + "\":"@ + spec_device_json(d)
}

/// The kept listing entries among the first `i` devices, in order.
pub open spec fn spec_listing_entries(devs: Seq<Device>, i: int) -> Seq<Seq<char>>
    decreases i,
{
    if i <= 0 {
        Seq::empty()
    } else {
        let rest = spec_listing_entries(devs, i - 1);
        if spec_kept(devs, i - 1) {
            rest.push(spec_listing_entry(devs[i - 1]))
        } else {
            rest
        }
    }
}

/// The items joined with commas between them.
pub open spec fn spec_join_comma(items: Seq<Seq<char>>) -> Seq<char>
    decreases items.len(),
{
    if items.len() == 0 {
        Seq::empty()
    } else if items.len() == 1 {
        items[0]
    } else {
        spec_join_comma(items.drop_last()) + seq![','] + items.last()
    }
}

/// The serialized registry listing: one JSON object keyed by device name,
/// holding each name's last device's snapshot, in registry order.
pub open spec fn spec_devices_json(devs: Seq<Device>) -> Seq<char> {
    seq!['{'] + spec_join_comma(spec_listing_entries(devs, devs.len() as int)) + seq!['}']
}

impl Devices {
    /// Serialize the whole registry as one JSON object mapping each
    /// device name to that name's last device's snapshot.
    #[verifier::rlimit(100)]
    pub fn devices_json(&self) -> (r: String)
        ensures
            r@ == spec_devices_json(self.devices@),
    {
        proof {
            reveal_strlit("{");
            reveal_strlit("}");
            reveal_strlit(",");
            reveal_strlit("\"");
            reveal_strlit("\":");
        }
        let n = self.devices.len();
        let mut r = String::new();
        r.append("{");
        let mut emitted = false;
        proof {
            assert(r@ =~= seq!['{'] + spec_join_comma(spec_listing_entries(self.devices@, 0)));
        }
        for i in 0..n
            invariant
                n == self.devices@.len(),
                emitted == (spec_listing_entries(self.devices@, i as int).len() > 0),
                r@ == seq!['{'] + spec_join_comma(spec_listing_entries(self.devices@, i as int)),
        {
            let mut kept = true;
            for j in (i + 1)..n
                invariant
                    n == self.devices@.len(),
                    i < n,
                    kept == (forall|l: int|
                        i < l < j ==> (#[trigger] self.devices@[l]).name@
                            != self.devices@[i as int].name@),
            {
                if str_eq(self.devices[j].name.as_str(), self.devices[i].name.as_str()) {
                    kept = false;
                }
            }
            if kept {
                let ghost entries = spec_listing_entries(self.devices@, i as int);
                if emitted {
                    r.append(",");
                }
                r.append("\"");
                r.append(json_escape(self.devices[i].name.as_str()).as_str());
                r.append("\":");
                r.append(self.devices[i].to_json().as_str());
                proof {
                    reveal_strlit(",");
                    reveal_strlit("\"");
                    reveal_strlit("\":");
                    let entry = spec_listing_entry(self.devices@[i as int]);
                    assert(spec_kept(self.devices@, i as int));
                    assert(spec_listing_entries(self.devices@, i + 1) == entries.push(entry));
                    if entries.len() == 0 {
                        assert(spec_join_comma(entries.push(entry)) == entry);
                        assert(r@ =~= seq!['{'] + spec_join_comma(
                            spec_listing_entries(self.devices@, i + 1),
                        ));
                    } else {
                        assert(entries.push(entry).drop_last() =~= entries);
                        assert(spec_join_comma(entries.push(entry)) == spec_join_comma(entries)
                            + seq![','] + entry);
                        assert(r@ =~= seq!['{'] + spec_join_comma(
                            spec_listing_entries(self.devices@, i + 1),
                        ));
                    }
                }
                emitted = true;
            } else {
                proof {
                    assert(!spec_kept(self.devices@, i as int));
                    assert(spec_listing_entries(self.devices@, i + 1) == spec_listing_entries(
                        self.devices@,
                        i as int,
                    ));
                }
            }
        }
        r.append("}");
        proof {
            assert(r@ =~= spec_devices_json(self.devices@));
        }
        r
    }
}

/// A duty percentage already at 100 is not raised further by `Up`, and one
/// at 0 is not lowered further by `Down`; either action still raises the
/// dirty flag.
pub proof fn lemma_saturated_action_keeps_duty(d: Device, amount: Option<usize>)
    ensures
        d.duty_cycle == 100 ==> spec_take_action(d, Action::Up(amount)) == (Device {
            updated: true,
            ..d
        }),
        d.duty_cycle == 0 ==> spec_take_action(d, Action::Down(amount)) == (Device {
            updated: true,
            ..d
        }),
{
}

/// Any sequence of `Up` and `Down` actions keeps the duty percentage in
/// [0, 100] and can only move it toward the nearer bound, never past it.
pub proof fn lemma_duty_stays_in_range(d: Device, actions: Seq<Action>)
    requires
        d.wf(),
    ensures
        spec_apply_all(d, actions).wf(),
    decreases actions.len(),
{
    if actions.len() > 0 {
        lemma_duty_stays_in_range(spec_take_action(d, actions[0]), actions.drop_first());
    }
}

/// The device after a whole sequence of actions, applied in order.
pub open spec fn spec_apply_all(d: Device, actions: Seq<Action>) -> Device
    decreases actions.len(),
{
    if actions.len() == 0 {
        d
    } else {
        spec_apply_all(spec_take_action(d, actions[0]), actions.drop_first())
    }
}

} // verus!
