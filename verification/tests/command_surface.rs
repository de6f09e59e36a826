use control_node::commands::{handle_command, handle_status, Reply};
use control_node::device::{Behavior, Device, Devices};

fn registry() -> Devices {
    Devices {
        devices: vec![
            Device {
                uuid: 0x0102030405060708090a0b0c0d0e0f10,
                name: "front lamp".to_string(),
                behavior: Behavior::Slider,
                freq_hz: 1000,
                duty_cycle: 40,
                reversed: false,
                updated: false,
            },
            Device {
                uuid: 0xfeedface000000000000000000000042,
                name: "fan".to_string(),
                behavior: Behavior::ReversableSlider,
                freq_hz: 2000,
                duty_cycle: 75,
                reversed: false,
                updated: false,
            },
        ],
    }
}

fn expect_error(r: Reply, message: &str) {
    match r {
        Reply::Error(code, m) => {
            assert_eq!(code, 422);
            assert_eq!(m, message);
        }
        Reply::Payload(p) => panic!("expected an error, got payload {p}"),
    }
}

fn expect_payload(r: Reply) -> serde_json::Value {
    match r {
        Reply::Payload(p) => serde_json::from_str(&p).unwrap(),
        Reply::Error(code, m) => panic!("expected a payload, got {code} {m}"),
    }
}

#[test]
fn status_by_name_returns_the_snapshot() {
    let devices = registry();
    let v = expect_payload(handle_status("/status?device=front%20lamp", &devices));
    assert_eq!(v["name"], "front lamp");
    assert_eq!(v["duty_cycle"], 40);
}

#[test]
fn status_query_is_read_case_insensitively() {
    let devices = registry();
    let v = expect_payload(handle_status("/status?DEVICE=FAN", &devices));
    assert_eq!(v["name"], "fan");
}

#[test]
fn status_by_uuid_returns_the_snapshot() {
    let devices = registry();
    let v = expect_payload(handle_status(
        "/status?uuid=01020304-0506-0708-090a-0b0c0d0e0f10",
        &devices,
    ));
    assert_eq!(v["name"], "front lamp");
}

#[test]
fn status_with_unknown_name_is_not_found() {
    let devices = registry();
    expect_error(handle_status("/status?device=cellar", &devices), "Device name not found");
}

#[test]
fn status_with_unknown_uuid_is_not_found() {
    let devices = registry();
    expect_error(
        handle_status("/status?uuid=00000000-0000-0000-0000-00000000dead", &devices),
        "Device name not found",
    );
}

#[test]
fn status_without_a_selector_is_refused() {
    let devices = registry();
    expect_error(handle_status("/status?x=1", &devices), "No Device name given");
}

#[test]
fn short_status_uri_is_refused() {
    let devices = registry();
    expect_error(handle_status("/status", &devices), "Bad Status command given");
}

#[test]
fn command_applies_up_with_the_target_as_amount() {
    let mut devices = registry();
    let v = expect_payload(handle_command(
        "/command?action=up&target=5&uuid=01020304-0506-0708-090a-0b0c0d0e0f10",
        &mut devices,
    ));
    assert_eq!(v["duty_cycle"], 45);
    assert_eq!(devices.devices[0].duty_cycle, 45);
    assert!(devices.devices[0].updated);
}

#[test]
fn command_action_name_is_read_case_insensitively() {
    let mut devices = registry();
    let v = expect_payload(handle_command(
        "/command?action=DOWN&uuid=01020304-0506-0708-090a-0b0c0d0e0f10",
        &mut devices,
    ));
    assert_eq!(v["duty_cycle"], 30);
}

#[test]
fn command_accepts_braced_and_simple_uuid_forms() {
    let mut devices = registry();
    let v = expect_payload(handle_command(
        "/command?action=up&uuid=0102030405060708090a0b0c0d0e0f10",
        &mut devices,
    ));
    assert_eq!(v["duty_cycle"], 50);
}

#[test]
fn command_with_unknown_uuid_leaves_the_registry_unchanged() {
    let mut devices = registry();
    let r = handle_command(
        "/command?action=down&target=2&uuid=00000000-0000-0000-0000-00000000dead",
        &mut devices,
    );
    expect_error(r, "Uuid not found among devices");
    assert_eq!(devices.devices[0].duty_cycle, 40);
    assert_eq!(devices.devices[1].duty_cycle, 75);
    assert!(!devices.devices[0].updated);
    assert!(!devices.devices[1].updated);
}

#[test]
fn out_of_range_target_is_refused_before_action_parsing() {
    let mut devices = registry();
    // The action name here is nonsense; the target check still answers
    // first.
    let r = handle_command("/command?action=warble&target=9&uuid=nope", &mut devices);
    expect_error(r, "Target must be >= 0 & < 8");
    assert_eq!(devices.devices[0].duty_cycle, 40);
}

#[test]
fn target_boundary_seven_is_accepted_and_eight_is_not() {
    let mut devices = registry();
    let v = expect_payload(handle_command(
        "/command?action=up&target=7&uuid=0102030405060708090a0b0c0d0e0f10",
        &mut devices,
    ));
    assert_eq!(v["duty_cycle"], 47);
    let r = handle_command("/command?action=up&target=8&uuid=x", &mut devices);
    expect_error(r, "Target must be >= 0 & < 8");
}

#[test]
fn malformed_target_is_refused() {
    let mut devices = registry();
    expect_error(
        handle_command("/command?action=up&target=two&uuid=x", &mut devices),
        "Bad Target given",
    );
}

#[test]
fn empty_target_counts_as_absent() {
    let mut devices = registry();
    let v = expect_payload(handle_command(
        "/command?action=up&target=&uuid=0102030405060708090a0b0c0d0e0f10",
        &mut devices,
    ));
    // Absent amount: the default step applies.
    assert_eq!(v["duty_cycle"], 50);
}

#[test]
fn unknown_action_name_is_refused() {
    let mut devices = registry();
    expect_error(
        handle_command("/command?action=open&uuid=x", &mut devices),
        "Bad Action name given",
    );
}

#[test]
fn missing_action_is_refused() {
    let mut devices = registry();
    expect_error(handle_command("/command?target=2&uuid=x", &mut devices), "No Action given");
}

#[test]
fn malformed_uuid_is_refused() {
    let mut devices = registry();
    expect_error(
        handle_command("/command?action=up&uuid=not-a-uuid", &mut devices),
        "Bad Uuid given",
    );
}

#[test]
fn missing_uuid_field_is_refused() {
    let mut devices = registry();
    expect_error(handle_command("/command?action=up", &mut devices), "Uuid field not given");
}

#[test]
fn short_command_uri_is_refused() {
    let mut devices = registry();
    expect_error(handle_command("/command", &mut devices), "Bad Command given");
}

#[test]
fn repeated_parameter_lets_the_later_value_win() {
    let mut devices = registry();
    let r = handle_command("/command?action=up&action=warble&uuid=x", &mut devices);
    expect_error(r, "Bad Action name given");
}

#[test]
fn reverse_command_toggles_the_device() {
    let mut devices = registry();
    let v = expect_payload(handle_command(
        "/command?action=reverse&uuid=feedface-0000-0000-0000-000000000042",
        &mut devices,
    ));
    assert_eq!(v["name"], "fan");
    assert!(devices.devices[1].reversed);
    assert!(devices.devices[1].updated);
}
