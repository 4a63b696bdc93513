pub mod pelta;
pub mod protocol;

use vstd::prelude::*;
use crate::text::{decimal, hex_byte, push_char, push_decimal, push_hex_byte};

verus! {

#[derive(Debug, Clone, Copy, PartialEq, Eq, Structural)]
pub struct Rgb {
    pub r: u8,
    pub g: u8,
    pub b: u8,
}

impl Rgb {
    /// The color that switches the LED off.
    pub fn off() -> (c: Rgb)
        ensures
            c == (Rgb { r: 0, g: 0, b: 0 }),
    {
        Rgb { r: 0, g: 0, b: 0 }
    }
}

/// LED behavior modes.
///
/// `Static` is driven through the dedicated direct-color command
/// (`setSWLEDColor`). The animated modes go through `setLightEffect`, whose
/// device-side mode bytes are 1 = static, 2 = breathing, 3 = strobe,
/// 4 = rainbow.
#[derive(Debug, Clone, Copy, PartialEq, Eq, Structural)]
pub enum RgbMode {
    Off,
    Static,
    Breathing,
    Strobe,
    Rainbow,
}

/// Power/connection snapshot returned by [`PeltaDevice::power_info`].
#[derive(Debug, Clone, Copy)]
pub struct PowerInfo {
    /// Best-guess battery percentage: second data byte of the getPowerInfo
    /// reply.
    pub percent: u8,
    pub charging: bool,
    /// The four data bytes of the getPowerInfo reply.
    pub raw: [u8; 4],
}

/// What a device operation can fail with.
#[derive(Debug)]
pub enum DeviceError {
    /// No HID interface of a Pelta's vendor command collection is present.
    InterfaceNotFound,
    /// The HID layer failed; the text is its message.
    Transport(String),
    /// No reply echoing the opcode arrived.
    NoMatchingResponse(Vec<u8>),
    /// The light-effect mode byte is not one the device accepts.
    InvalidLightEffectMode(u8),
    /// The latency value is not one of the device's presets.
    InvalidLatency(u8),
}

/// Items of a byte list rendered as by `{:02x?}`, without the brackets.
pub open spec fn hex_items(bytes: Seq<u8>) -> Seq<char>
    decreases bytes.len(),
{
    if bytes.len() == 0 {
        Seq::empty()
    } else if bytes.len() == 1 {
        hex_byte(bytes[0], false)
    } else {
        hex_items(bytes.drop_last()) + seq![',', ' '] + hex_byte(bytes.last(), false)
    }
}

/// A byte list rendered as by `{:02x?}`, e.g. `[12, 00]`.
pub open spec fn hex_list(bytes: Seq<u8>) -> Seq<char> {
    seq!['['] + hex_items(bytes) + seq![']']
}

fn push_hex_list(s: &mut String, bytes: &Vec<u8>)
    ensures
        final(s)@ == old(s)@ + hex_list(bytes@),
{
    push_char(s, '[');
    let ghost start = s@;
    let mut i: usize = 0;
    while i < bytes.len()
        invariant
            i <= bytes@.len(),
            s@ == start + hex_items(bytes@.take(i as int)),
        decreases bytes@.len() - i,
    {
        if i > 0 {
            push_char(s, ',');
            push_char(s, ' ');
        }
        push_hex_byte(s, bytes[i], false);
        i += 1;
        assert(bytes@.take(i as int).drop_last() =~= bytes@.take(i - 1));
        assert(s@ =~= start + hex_items(bytes@.take(i as int)));
    }
    assert(bytes@.take(bytes@.len() as int) =~= bytes@);
    push_char(s, ']');
    assert(s@ =~= old(s)@ + hex_list(bytes@));
}

impl DeviceError {
    /// The error text shown to the user.
    pub fn message(&self) -> (m: String)
        ensures
            m@ == match self {
                DeviceError::InterfaceNotFound => "Pelta vendor interface not found"@,
                DeviceError::Transport(t) => t@,
                DeviceError::NoMatchingResponse(op) => "no matching response for opcode "@
                    + hex_list(op@),
                DeviceError::InvalidLightEffectMode(m) => "invalid light-effect mode "@ + decimal(
                    *m as nat,
                ) + "; valid: [1, 2, 3, 4]"@,
                DeviceError::InvalidLatency(v) => "invalid latency value "@ + decimal(*v as nat)
                    + "; valid: [40, 60, 80, 100]"@,
            },
    {
        match self {
            DeviceError::InterfaceNotFound => String::from_str("Pelta vendor interface not found"),
            DeviceError::Transport(t) => t.clone(),
            DeviceError::NoMatchingResponse(op) => {
                let mut m = String::from_str("no matching response for opcode ");
                push_hex_list(&mut m, op);
                m
            },
            DeviceError::InvalidLightEffectMode(mode) => {
                let mut m = String::from_str("invalid light-effect mode ");
                push_decimal(&mut m, *mode as u64);
                m.append("; valid: [1, 2, 3, 4]");
                m
            },
            DeviceError::InvalidLatency(v) => {
                let mut m = String::from_str("invalid latency value ");
                push_decimal(&mut m, *v as u64);
                m.append("; valid: [40, 60, 80, 100]");
                m
            },
        }
    }
}

/// The device command that realizes an RGB setting.
#[derive(Debug, Clone, Copy, PartialEq, Eq, Structural)]
pub enum RgbRequest {
    /// Direct static color (`setSWLEDColor`).
    LedColor(Rgb),
    /// Animated effect (`setLightEffect`).
    LightEffect { mode: u8, intensity: u8, color: Rgb },
}

/// The RGB dispatch table: off and static go through the direct color,
/// breathing, strobe and rainbow through light-effect modes 2, 3 and 4.
pub open spec fn rgb_request_spec(mode: RgbMode, color: Rgb, intensity: u8) -> RgbRequest {
    match mode {
        RgbMode::Off => RgbRequest::LedColor(Rgb { r: 0, g: 0, b: 0 }),
        RgbMode::Static => RgbRequest::LedColor(color),
        RgbMode::Breathing => RgbRequest::LightEffect { mode: 2, intensity, color },
        RgbMode::Strobe => RgbRequest::LightEffect { mode: 3, intensity, color },
        RgbMode::Rainbow => RgbRequest::LightEffect { mode: 4, intensity, color },
    }
}

/// Which command carries `mode`, `color` and `intensity` to the device.
pub fn rgb_request(mode: RgbMode, color: Rgb, intensity: u8) -> (r: RgbRequest)
    ensures
        r == rgb_request_spec(mode, color, intensity),
{
    match mode {
        RgbMode::Off => RgbRequest::LedColor(Rgb::off()),
        RgbMode::Static => RgbRequest::LedColor(color),
        RgbMode::Breathing => RgbRequest::LightEffect { mode: 2, intensity, color },
        RgbMode::Strobe => RgbRequest::LightEffect { mode: 3, intensity, color },
        RgbMode::Rainbow => RgbRequest::LightEffect { mode: 4, intensity, color },
    }
}

/// Law: every RGB setting goes out as a command the device accepts; the
/// light-effect modes it selects are all valid modes.
pub proof fn rgb_requests_use_valid_modes(mode: RgbMode, color: Rgb, intensity: u8)
    ensures
        rgb_request_spec(mode, color, intensity) matches RgbRequest::LightEffect { mode: m, .. }
            ==> protocol::LIGHT_EFFECT_MODES@.contains(m),
{
    let modes = protocol::LIGHT_EFFECT_MODES@;
    assert(modes[1] == 2u8 && modes[2] == 3u8 && modes[3] == 4u8);
}

/// The vendor control surface of the ROG Pelta. Every method maps to a
/// Report 0xCC command; the frames and reply decoding live in [`pelta`].
///
/// Absent on purpose: EQ (host audio backend), sleep timer (not exposed by
/// the firmware), software mic mute (OS level) and sidetone setters (not
/// decoded).
pub trait PeltaDevice: Send + Sync {
    fn firmware_version(&self) -> Result<String, DeviceError>;

    fn power_info(&self) -> Result<PowerInfo, DeviceError>;

    /// Wireless only: whether the dongle reports the headset paired and in range.
    fn headset_present(&self) -> Result<bool, DeviceError>;

    fn led_enabled(&self) -> Result<bool, DeviceError>;

    fn noise_reduction(&self) -> Result<bool, DeviceError>;

    /// Latency preset in ms (one of 40/60/80/100).
    fn latency_mode(&self) -> Result<u8, DeviceError>;

    fn sidetone_volume(&self) -> Result<u8, DeviceError>;

    fn sidetone_enabled(&self) -> Result<bool, DeviceError>;

    /// Direct static color (software mode).
    fn set_led_color(&self, color: Rgb) -> (r: Result<(), DeviceError>)
        ensures
            self.rgb_outcome(RgbRequest::LedColor(color), r),
    ;

    /// Animated effect; `mode` must be one of `LIGHT_EFFECT_MODES`.
    fn set_light_effect(&self, mode: u8, intensity: u8, color: Rgb) -> (r: Result<(), DeviceError>)
        ensures
            self.rgb_outcome(RgbRequest::LightEffect { mode, intensity, color }, r),
    ;

    fn set_noise_reduction(&self, on: bool) -> Result<(), DeviceError>;

    /// Latency preset; `value_ms` must be one of `LATENCY_MODE_VALUES_MS`.
    fn set_latency_mode(&self, value_ms: u8) -> Result<(), DeviceError>;

    fn set_demo_mode(&self, on: bool) -> Result<(), DeviceError>;

    /// `r` is an outcome that sending the RGB command `request` can have on
    /// this device. Each device says which outcomes are possible; for a
    /// device behind the HID layer that is any outcome.
    spec fn rgb_outcome(&self, request: RgbRequest, r: Result<(), DeviceError>) -> bool;

    /// High-level RGB dispatch used by the profile system: sends the command
    /// that [`rgb_request`] selects, and its outcome is the outcome of that
    /// one command.
    fn set_rgb(&self, mode: RgbMode, color: Rgb, intensity: u8) -> (r: Result<(), DeviceError>)
        ensures
            self.rgb_outcome(rgb_request_spec(mode, color, intensity), r),
    {
        match rgb_request(mode, color, intensity) {
            RgbRequest::LedColor(c) => self.set_led_color(c),
            RgbRequest::LightEffect { mode, intensity, color } => self.set_light_effect(
                mode,
                intensity,
                color,
            ),
        }
    }
}

} // verus!
