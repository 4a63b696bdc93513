pub mod store;

pub use store::ProfileStore;

use vstd::prelude::*;
use crate::audio::AudioConfig;
use crate::hid::{Rgb, RgbMode};
use crate::rgb::RgbState;

verus! {

/// A saved set of device and EQ settings.
#[derive(Debug)]
pub struct Profile {
    pub name: String,
    pub rgb: RgbState,
    pub eq: AudioConfig,
    pub nr: bool,
    pub latency_ms: u8,
    /// Process names that, when foregrounded, auto-apply this profile
    /// (matched case-insensitively against the executable's file name).
    pub app_matches: Vec<String>,
}

/// Latency preset of a stored profile that lacks one: 100 ms.
pub fn default_latency() -> (v: u8)
    ensures
        v == 100,
{
    100
}

/// Law: the default latency of a stored profile is one of the presets the
/// device accepts, so applying such a profile never skips its latency.
pub proof fn default_latency_is_a_preset()
    ensures
        crate::hid::protocol::LATENCY_MODE_VALUES_MS@.contains(100u8),
{
    assert(crate::hid::protocol::LATENCY_MODE_VALUES_MS@[3] == 100u8);
}

/// A device-side setting of a profile.
#[derive(Debug, Clone, Copy, PartialEq, Eq, Structural)]
pub enum DeviceCommand {
    SetRgb { mode: RgbMode, color: Rgb, intensity: u8 },
    SetNoiseReduction(bool),
    SetLatencyMode(u8),
}

/// One step of applying a profile to the headset: the command, and whether
/// its failure ends the application (otherwise it is skipped silently).
#[derive(Debug, Clone, Copy, PartialEq, Eq, Structural)]
pub struct ProfileStep {
    pub command: DeviceCommand,
    pub stop_on_error: bool,
}

impl Profile {
    /// The steps that push the profile to the headset, in order: RGB (mode,
    /// color, the speed as intensity), then noise reduction, both required;
    /// then the latency preset, whose rejection (an unusual stored value) is
    /// skipped.
    pub fn device_steps(&self) -> (s: Vec<ProfileStep>)
        ensures
            s@ == seq![
                ProfileStep {
                    command: DeviceCommand::SetRgb {
                        mode: self.rgb.mode,
                        color: self.rgb.color,
                        intensity: self.rgb.speed,
                    },
                    stop_on_error: true,
                },
                ProfileStep { command: DeviceCommand::SetNoiseReduction(self.nr), stop_on_error: true },
                ProfileStep {
                    command: DeviceCommand::SetLatencyMode(self.latency_ms),
                    stop_on_error: false,
                },
            ],
    {
        let mut s: Vec<ProfileStep> = Vec::new();
        s.push(
            ProfileStep {
                command: DeviceCommand::SetRgb {
                    mode: self.rgb.mode,
                    color: self.rgb.color,
                    intensity: self.rgb.speed,
                },
                stop_on_error: true,
            },
        );
        s.push(ProfileStep { command: DeviceCommand::SetNoiseReduction(self.nr), stop_on_error: true });
        s.push(ProfileStep { command: DeviceCommand::SetLatencyMode(self.latency_ms), stop_on_error: false });
        s
    }
}

} // verus!
