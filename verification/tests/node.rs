use control_node::device::{Behavior, Device, Devices};
use control_node::{get_frequencies, Node};

#[test]
fn default_node_has_empty_credentials() {
    let node = Node::default();
    assert_eq!(node.ssid, "");
    assert_eq!(node.password, "");
}

#[test]
fn frequencies_come_out_in_registry_order() {
    let devices = Devices {
        devices: vec![
            Device {
                uuid: 1,
                name: "a".to_string(),
                behavior: Behavior::Slider,
                freq_hz: 1000,
                duty_cycle: 0,
                reversed: false,
                updated: false,
            },
            Device {
                uuid: 2,
                name: "b".to_string(),
                behavior: Behavior::ReversableSlider,
                freq_hz: 25000,
                duty_cycle: 0,
                reversed: false,
                updated: false,
            },
        ],
    };
    assert_eq!(get_frequencies(&devices), vec![1000, 25000]);
}
