use chromatic::settings::{
    gauge_layout, setting_changed, Layout, Reaction, Setting, GAUGE_HEIGHT,
};

#[test]
fn keys() {
    assert_eq!(Setting::SelectedDevice.key(), "selected-device");
    assert_eq!(Setting::ChooseDevice.key(), "choose-device");
    assert_eq!(Setting::ShowGauge.key(), "show-gauge");
    assert_eq!(Setting::BufferSize.key(), "buffer-size");
    assert_eq!(Setting::GaugeHang.key(), "gauge-hang");
    assert_eq!(Setting::LabelHang.key(), "label-hang");
    assert_eq!(Setting::GaugeRestPosition.key(), "gauge-rest-position");
}

#[test]
fn a_new_device_switches_the_stream() {
    assert_eq!(
        setting_changed(Setting::SelectedDevice, false, false),
        Reaction::SwitchStream { named: true, refresh: true }
    );
    assert_eq!(
        setting_changed(Setting::SelectedDevice, true, false),
        Reaction::SwitchStream { named: true, refresh: true }
    );
    assert_eq!(setting_changed(Setting::SelectedDevice, true, true), Reaction::Nothing);
    assert_eq!(setting_changed(Setting::SelectedDevice, false, true), Reaction::Nothing);
}

#[test]
fn the_manual_switch_restarts_the_selection() {
    assert_eq!(
        setting_changed(Setting::ChooseDevice, true, true),
        Reaction::SwitchStream { named: false, refresh: false }
    );
    assert_eq!(
        setting_changed(Setting::ChooseDevice, false, false),
        Reaction::SwitchStream { named: true, refresh: false }
    );
}

#[test]
fn the_buffer_size_reopens_the_device() {
    for manual in [false, true] {
        for row in [false, true] {
            assert_eq!(
                setting_changed(Setting::BufferSize, manual, row),
                Reaction::SwitchStream { named: true, refresh: true }
            );
        }
    }
}

#[test]
fn the_needle_options_restart_the_animator() {
    assert_eq!(setting_changed(Setting::GaugeHang, false, false), Reaction::RestartAnimator);
    assert_eq!(
        setting_changed(Setting::GaugeRestPosition, true, true),
        Reaction::RestartAnimator
    );
}

#[test]
fn the_other_options() {
    assert_eq!(setting_changed(Setting::LabelHang, false, false), Reaction::ReloadHang);
    assert_eq!(setting_changed(Setting::ShowGauge, false, false), Reaction::Relayout);
}

#[test]
fn the_gauge_layout() {
    assert_eq!(GAUGE_HEIGHT, 200);
    assert_eq!(gauge_layout(true), Layout { gauge_height: 200, note_expands: false });
    assert_eq!(gauge_layout(false), Layout { gauge_height: 0, note_expands: true });
}
