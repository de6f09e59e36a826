use control_node::device::{Behavior, Device, Devices};
use control_node::updaters::{
    update_device_from_encoder, update_reversable_device_from_pin_click, EncoderDevices,
};

fn device(behavior: Behavior, duty: u32) -> Device {
    Device {
        uuid: 1,
        name: "d".to_string(),
        behavior,
        freq_hz: 1000,
        duty_cycle: duty,
        reversed: false,
        updated: false,
    }
}

#[test]
fn unchanged_position_takes_no_action() {
    let mut d = device(Behavior::Slider, 40);
    let mut last_time: u64 = 0;
    let mut last_value: i64 = 5;
    update_device_from_encoder(&mut d, 5, &mut last_time, &mut last_value, 1000);
    assert_eq!(d.duty_cycle, 40);
    assert!(!d.updated);
    assert_eq!(last_time, 0);
    assert_eq!(last_value, 5);
}

#[test]
fn position_rise_past_the_window_takes_up() {
    let mut d = device(Behavior::Slider, 40);
    let mut last_time: u64 = 0;
    let mut last_value: i64 = 5;
    update_device_from_encoder(&mut d, 6, &mut last_time, &mut last_value, 200);
    assert_eq!(d.duty_cycle, 50);
    assert!(d.updated);
    assert_eq!(last_time, 200);
    assert_eq!(last_value, 6);
}

#[test]
fn position_fall_past_the_window_takes_down() {
    let mut d = device(Behavior::Slider, 40);
    let mut last_time: u64 = 0;
    let mut last_value: i64 = 5;
    update_device_from_encoder(&mut d, 2, &mut last_time, &mut last_value, 200);
    assert_eq!(d.duty_cycle, 30);
    assert_eq!(last_value, 2);
}

#[test]
fn two_changes_inside_the_window_act_exactly_once() {
    // First change fires; the second lands 40 ms later, inside the
    // debounce window, and is absorbed — but still becomes the recorded
    // position.
    let mut d = device(Behavior::Slider, 40);
    let mut last_time: u64 = 0;
    let mut last_value: i64 = 5;
    update_device_from_encoder(&mut d, 6, &mut last_time, &mut last_value, 200);
    assert_eq!(d.duty_cycle, 50);
    update_device_from_encoder(&mut d, 3, &mut last_time, &mut last_value, 240);
    assert_eq!(d.duty_cycle, 50);
    assert_eq!(last_time, 200);
    assert_eq!(last_value, 3);
}

#[test]
fn change_absorbed_in_window_directs_the_next_action() {
    // The first change arrives while the window of an earlier action is
    // still open, so it only moves the recorded position from 5 to 9.
    // The second change arrives past the window and compares against 9:
    // 7 < 9 means Down, though 7 is above the pre-window position 5.
    let mut d = device(Behavior::Slider, 40);
    let mut last_time: u64 = 100;
    let mut last_value: i64 = 5;
    update_device_from_encoder(&mut d, 9, &mut last_time, &mut last_value, 180);
    assert_eq!(d.duty_cycle, 40);
    assert_eq!(last_value, 9);
    update_device_from_encoder(&mut d, 7, &mut last_time, &mut last_value, 220);
    assert_eq!(d.duty_cycle, 30);
    assert_eq!(last_time, 220);
}

#[test]
fn reverse_fires_only_after_the_hold_threshold() {
    let mut d = device(Behavior::ReversableSlider, 40);
    let mut last_click: Option<u64> = None;
    // Rising edge arms the tracker, nothing fires yet.
    update_reversable_device_from_pin_click(&mut d, &mut last_click, true, 1000);
    assert_eq!(last_click, Some(1000));
    assert!(!d.reversed);
    // Still inside the threshold.
    update_reversable_device_from_pin_click(&mut d, &mut last_click, true, 1100);
    assert!(!d.reversed);
    // Past the threshold: the action fires.
    update_reversable_device_from_pin_click(&mut d, &mut last_click, true, 1101);
    assert!(d.reversed);
    assert!(d.updated);
    // And fires again on the next tick of the sustained hold.
    update_reversable_device_from_pin_click(&mut d, &mut last_click, true, 1150);
    assert!(!d.reversed);
}

#[test]
fn release_stops_firing_within_one_tick() {
    let mut d = device(Behavior::ReversableSlider, 40);
    let mut last_click: Option<u64> = Some(0);
    update_reversable_device_from_pin_click(&mut d, &mut last_click, false, 500);
    assert_eq!(last_click, None);
    // The next high tick only re-arms; nothing fires.
    update_reversable_device_from_pin_click(&mut d, &mut last_click, true, 501);
    assert!(!d.reversed);
    assert_eq!(last_click, Some(501));
}

#[test]
fn slider_tick_updates_only_slider_devices() {
    let mut devices = Devices {
        devices: vec![device(Behavior::Slider, 40), device(Behavior::ReversableSlider, 60)],
    };
    let values: Vec<i64> = vec![4, 9];
    let mut times: Vec<u64> = vec![0, 0];
    let mut lasts: Vec<i64> = vec![1, 1];
    devices.take_actions_slider_encoder(&values, &mut times, &mut lasts, 500);
    assert_eq!(devices.devices[0].duty_cycle, 50);
    assert_eq!(times[0], 500);
    assert_eq!(lasts[0], 4);
    // The reversible device is not this loop's business.
    assert_eq!(devices.devices[1].duty_cycle, 60);
    assert_eq!(times[1], 0);
    assert_eq!(lasts[1], 1);
}

#[test]
fn reversible_tick_applies_pin_then_encoder() {
    let mut devices = Devices {
        devices: vec![device(Behavior::ReversableSlider, 40), device(Behavior::Slider, 60)],
    };
    let values: Vec<i64> = vec![-3, 9];
    let pins: Vec<bool> = vec![true, true];
    let mut times: Vec<u64> = vec![0, 0];
    let mut lasts: Vec<i64> = vec![1, 1];
    let mut clicks: Vec<Option<u64>> = vec![Some(100), Some(100)];
    devices.take_actions_reversible_slider_encoder(
        &values,
        &pins,
        &mut times,
        &mut lasts,
        &mut clicks,
        300,
    );
    // Held past the threshold: reversed; encoder fell: duty down.
    assert!(devices.devices[0].reversed);
    assert_eq!(devices.devices[0].duty_cycle, 30);
    assert_eq!(lasts[0], -3);
    // The plain slider is not this loop's business.
    assert!(!devices.devices[1].reversed);
    assert_eq!(devices.devices[1].duty_cycle, 60);
    assert_eq!(clicks[1], Some(100));
}
