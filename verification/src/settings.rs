//! What a change of the configuration sets in motion.
//!
//! The preferences write the options; the pipeline reads them. A change
//! must reach the part that it concerns: the stream for the device and the
//! buffer, the animator for the needle's timing and rest position, the
//! silence tracker for the hang duration, the layout for the gauge.

use vstd::prelude::*;

verus! {

/// The options of the configuration.
#[derive(Clone, Copy, Debug, PartialEq, Eq, Structural)]
pub enum Setting {
    /// The name of the chosen capture device.
    SelectedDevice,
    /// Whether the device is chosen by hand.
    ChooseDevice,
    /// Whether the gauge is shown.
    ShowGauge,
    /// The size of the capture buffer.
    BufferSize,
    /// How long the needle hovers, in seconds.
    GaugeHang,
    /// How long the labels hold without a pitch, in seconds.
    LabelHang,
    /// Where the needle rests.
    GaugeRestPosition,
}

/// What has to happen after an option changed.
#[derive(Clone, Copy, Debug, PartialEq, Eq, Structural)]
pub enum Reaction {
    /// Switch the stream. With `named` the selected device's name goes
    /// with the request; without, the selection begins with the first
    /// attempt of the chain. With `refresh` a successful switch is followed
    /// by selecting the device in the list of the preferences.
    SwitchStream { named: bool, refresh: bool },
    /// End the animator's loop and start a new one with the new values.
    RestartAnimator,
    /// Give the silence tracker the new hang duration.
    ReloadHang,
    /// Show or hide the gauge.
    Relayout,
    /// Nothing: the change is already in effect.
    Nothing,
}

/// The key under which the option is stored.
pub open spec fn key_of(setting: Setting) -> Seq<char> {
    match setting {
        Setting::SelectedDevice => "selected-device"@,
        Setting::ChooseDevice => "choose-device"@,
        Setting::ShowGauge => "show-gauge"@,
        Setting::BufferSize => "buffer-size"@,
        Setting::GaugeHang => "gauge-hang"@,
        Setting::LabelHang => "label-hang"@,
        Setting::GaugeRestPosition => "gauge-rest-position"@,
    }
}

/// The reaction to a change of `setting`, where `manual` is the present
/// value of the hand-selection switch and `row_matches` tells whether the
/// list of the preferences already shows the selected device.
pub open spec fn reaction(setting: Setting, manual: bool, row_matches: bool) -> Reaction {
    match setting {
        Setting::SelectedDevice => if row_matches {
            Reaction::Nothing
        } else {
            Reaction::SwitchStream { named: true, refresh: true }
        },
        Setting::ChooseDevice => Reaction::SwitchStream { named: !manual, refresh: false },
        Setting::BufferSize => Reaction::SwitchStream { named: true, refresh: true },
        Setting::GaugeHang | Setting::GaugeRestPosition => Reaction::RestartAnimator,
        Setting::LabelHang => Reaction::ReloadHang,
        Setting::ShowGauge => Reaction::Relayout,
    }
}

/// How the window is laid out around the gauge.
#[derive(Clone, Copy, Debug, PartialEq, Eq, Structural)]
pub struct Layout {
    /// The height requested for the gauge, in pixels.
    pub gauge_height: i32,
    /// Whether the note takes the room that the gauge leaves.
    pub note_expands: bool,
}

/// The height of the gauge when it is shown, in pixels.
pub const GAUGE_HEIGHT: i32 = 200;

/// The layout for a gauge that is shown or hidden: shown, it gets its
/// height and the note keeps to itself; hidden, it gets none and the note
/// fills the window.
pub fn gauge_layout(show_gauge: bool) -> (layout: Layout)
    ensures
        layout == (if show_gauge {
            Layout { gauge_height: GAUGE_HEIGHT, note_expands: false }
        } else {
            Layout { gauge_height: 0, note_expands: true }
        }),
{
    if show_gauge {
        Layout { gauge_height: GAUGE_HEIGHT, note_expands: false }
    } else {
        Layout { gauge_height: 0, note_expands: true }
    }
}

impl Setting {
    /// The key under which the option is stored.
    pub fn key(self) -> (key: &'static str)
        ensures
            key@ == key_of(self),
    {
        match self {
            Setting::SelectedDevice => "selected-device",
            Setting::ChooseDevice => "choose-device",
            Setting::ShowGauge => "show-gauge",
            Setting::BufferSize => "buffer-size",
            Setting::GaugeHang => "gauge-hang",
            Setting::LabelHang => "label-hang",
            Setting::GaugeRestPosition => "gauge-rest-position",
        }
    }
}

/// Decides what a change of an option sets in motion.
///
/// A new device name switches the stream to it, unless the preferences
/// already show it, which means that they caused the change themselves. The
/// hand-selection switch restarts the selection: with the switch on from
/// the top of the chain, with the switch off under the selected name. A new
/// buffer size reopens the selected device. The needle's hover time and
/// rest position restart the animator, the labels' hang time reaches the
/// silence tracker, and the gauge's visibility the layout.
pub fn setting_changed(setting: Setting, manual: bool, row_matches: bool) -> (action: Reaction)
    ensures
        action == reaction(setting, manual, row_matches),
{
    match setting {
        Setting::SelectedDevice => {
            if row_matches {
                Reaction::Nothing
            } else {
                Reaction::SwitchStream { named: true, refresh: true }
            }
        },
        Setting::ChooseDevice => Reaction::SwitchStream { named: !manual, refresh: false },
        Setting::BufferSize => Reaction::SwitchStream { named: true, refresh: true },
        Setting::GaugeHang => Reaction::RestartAnimator,
        Setting::GaugeRestPosition => Reaction::RestartAnimator,
        Setting::LabelHang => Reaction::ReloadHang,
        Setting::ShowGauge => Reaction::Relayout,
    }
}

/// Every option that concerns the stream switches the stream, and every
/// option that concerns the needle restarts the animator.
pub proof fn lemma_changes_propagate(setting: Setting, manual: bool, row_matches: bool)
    ensures
        (setting == Setting::ChooseDevice || setting == Setting::BufferSize || (setting
            == Setting::SelectedDevice && !row_matches)) <==> reaction(
            setting,
            manual,
            row_matches,
        ) is SwitchStream,
        (setting == Setting::GaugeHang || setting == Setting::GaugeRestPosition) <==> reaction(
            setting,
            manual,
            row_matches,
        ) == Reaction::RestartAnimator,
{
}

} // verus!
