use control_node::device::{Action, Behavior, Device, Devices};
use control_node::DevicesDutyCycles;

fn slider(uuid: u128, name: &str, duty: u32) -> Device {
    Device {
        uuid,
        name: name.to_string(),
        behavior: Behavior::Slider,
        freq_hz: 1000,
        duty_cycle: duty,
        reversed: false,
        updated: false,
    }
}

#[test]
fn up_without_amount_moves_by_the_default_step() {
    let mut d = slider(1, "d0", 40);
    d.take_action(Action::Up(None));
    assert_eq!(d.duty_cycle, 50);
    assert!(d.updated);
}

#[test]
fn up_with_amount_moves_by_that_amount() {
    let mut d = slider(1, "d0", 40);
    d.take_action(Action::Up(Some(3)));
    assert_eq!(d.duty_cycle, 43);
    assert!(d.updated);
}

#[test]
fn repeated_up_clamps_at_one_hundred_and_still_marks_dirty() {
    let mut d = slider(1, "d0", 95);
    d.take_action(Action::Up(None));
    assert_eq!(d.duty_cycle, 100);
    d.updated = false;
    d.take_action(Action::Up(None));
    // Saturated: the percentage no longer moves, the dirty flag still rises.
    assert_eq!(d.duty_cycle, 100);
    assert!(d.updated);
}

#[test]
fn repeated_down_clamps_at_zero_and_still_marks_dirty() {
    let mut d = slider(1, "d0", 7);
    d.take_action(Action::Down(None));
    assert_eq!(d.duty_cycle, 0);
    d.updated = false;
    d.take_action(Action::Down(None));
    assert_eq!(d.duty_cycle, 0);
    assert!(d.updated);
}

#[test]
fn reverse_toggles_direction_and_marks_dirty() {
    let mut d = slider(1, "d0", 40);
    d.take_action(Action::Reverse);
    assert!(d.reversed);
    assert!(d.updated);
    d.take_action(Action::Reverse);
    assert!(!d.reversed);
}

#[test]
fn action_from_str_reads_the_three_names() {
    assert_eq!(Action::from_str("up", Some(2)), Ok(Action::Up(Some(2))));
    assert_eq!(Action::from_str("down", None), Ok(Action::Down(None)));
    assert_eq!(Action::from_str("reverse", Some(1)), Ok(Action::Reverse));
    assert_eq!(Action::from_str("Up", None), Err(()));
    assert_eq!(Action::from_str("open", None), Err(()));
    assert_eq!(Action::from_str("", None), Err(()));
}

#[test]
fn duty_cycle_scales_to_the_channel_maximum_and_clears_dirty() {
    let mut d = slider(1, "d0", 50);
    d.updated = true;
    let duty = d.get_and_update_duty_cycle(&8191);
    assert_eq!(duty, 50 * 8191 / 100);
    assert!(!d.updated);
}

#[test]
fn duty_cycle_pass_writes_only_dirty_devices() {
    // The first half of the scenario with device d0 at duty 40: Up takes
    // it to 50 and marks it dirty; the synchronization pass then issues
    // 50 * max_duty / 100 and clears the flag.
    let mut devices = Devices {
        devices: vec![slider(1, "d0", 40), slider(2, "d1", 80)],
    };
    devices.devices[0].take_action(Action::Up(None));
    assert_eq!(devices.devices[0].duty_cycle, 50);
    assert!(devices.devices[0].updated);

    let writes = devices.update_duty_cycles(&vec![1023, 1023]);
    assert_eq!(writes, vec![Some(50 * 1023 / 100), None]);
    assert!(!devices.devices[0].updated);
    assert_eq!(devices.devices[1].duty_cycle, 80);
}

#[test]
fn duty_cycle_pass_stops_at_the_shorter_input() {
    let mut devices = Devices {
        devices: vec![slider(1, "d0", 10), slider(2, "d1", 20)],
    };
    devices.devices[0].updated = true;
    devices.devices[1].updated = true;
    let writes = devices.update_duty_cycles(&vec![100]);
    assert_eq!(writes, vec![Some(10)]);
    assert!(!devices.devices[0].updated);
    // The device beyond the channel list keeps its dirty flag.
    assert!(devices.devices[1].updated);
}

#[test]
fn device_snapshot_serializes_the_stable_field_set() {
    let d = slider(0x0102030405060708090a0b0c0d0e0f10, "lamp", 42);
    let json = d.to_json();
    assert_eq!(
        json,
        "{\"uuid\":\"01020304-0506-0708-090a-0b0c0d0e0f10\",\"name\":\"lamp\",\"behavior\":\"Slider\",\"freq_Hz\":1000,\"duty_cycle\":42}"
    );
    let v: serde_json::Value = serde_json::from_str(&json).unwrap();
    assert_eq!(v["uuid"], "01020304-0506-0708-090a-0b0c0d0e0f10");
    assert_eq!(v["name"], "lamp");
    assert_eq!(v["behavior"], "Slider");
    assert_eq!(v["freq_Hz"], 1000);
    assert_eq!(v["duty_cycle"], 42);
}

#[test]
fn device_snapshot_escapes_the_name() {
    let mut d = slider(1, "", 0);
    d.name = "a\"b\\c\nd".to_string();
    let json = d.to_json();
    let v: serde_json::Value = serde_json::from_str(&json).unwrap();
    assert_eq!(v["name"], "a\"b\\c\nd");
}

#[test]
fn registry_listing_maps_names_to_snapshots_last_wins() {
    let mut devices = Devices {
        devices: vec![slider(1, "a", 10), slider(2, "b", 20), slider(3, "a", 30)],
    };
    devices.devices[1].behavior = Behavior::ReversableSlider;
    let json = devices.devices_json();
    let v: serde_json::Value = serde_json::from_str(&json).unwrap();
    let map = v.as_object().unwrap();
    assert_eq!(map.len(), 2);
    // Two devices share the name "a": the later one wins, as in a map
    // filled in registry order.
    assert_eq!(map["a"]["duty_cycle"], 30);
    assert_eq!(map["b"]["behavior"], "ReversableSlider");
}

#[test]
fn empty_registry_lists_an_empty_object() {
    let devices = Devices { devices: vec![] };
    assert_eq!(devices.devices_json(), "{}");
}
