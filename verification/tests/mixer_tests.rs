use chromatic::mixer::{input_devices, running_device, DevState, MixerSource};

fn source(description: &str, monitor: Option<u32>, state: DevState) -> MixerSource {
    MixerSource { description: description.to_string(), monitor, state }
}

#[test]
fn input_devices_leaves_monitors_out() {
    let sources = vec![
        source("Monitor of Built-in Audio", Some(0), DevState::Idle),
        source("Built-in Audio Analog Stereo", None, DevState::Suspended),
        source("Monitor of HDMI", Some(1), DevState::Running),
        source("USB Audio Device", None, DevState::Running),
    ];
    assert_eq!(
        input_devices(&sources),
        vec!["Built-in Audio Analog Stereo".to_string(), "USB Audio Device".to_string()]
    );
}

#[test]
fn input_devices_of_nothing() {
    assert!(input_devices(&Vec::new()).is_empty());
    assert!(input_devices(&vec![source("Monitor", Some(3), DevState::Running)]).is_empty());
}

#[test]
fn running_device_is_the_first_running_source() {
    let sources = vec![
        source("Built-in Audio Analog Stereo", None, DevState::Suspended),
        source("Monitor of HDMI", Some(1), DevState::Running),
        source("USB Audio Device", None, DevState::Running),
    ];
    assert_eq!(running_device(&sources), Some("Monitor of HDMI".to_string()));
}

#[test]
fn running_device_needs_a_running_source() {
    let sources = vec![
        source("a", None, DevState::Suspended),
        source("b", None, DevState::Idle),
        source("c", None, DevState::Invalid),
    ];
    assert_eq!(running_device(&sources), None);
    assert_eq!(running_device(&Vec::new()), None);
}
