use vstd::prelude::*;
use crate::hid::{Rgb, RgbMode};

verus! {

/// The RGB part of a profile.
#[derive(Debug, Clone, Copy, PartialEq, Eq, Structural)]
pub struct RgbState {
    pub mode: RgbMode,
    pub color: Rgb,
    pub speed: u8,
}

impl Default for RgbState {
    /// Static red at speed 50.
    fn default() -> (s: Self)
        ensures
            s == (RgbState { mode: RgbMode::Static, color: Rgb { r: 255, g: 0, b: 0 }, speed: 50 }),
    {
        RgbState { mode: RgbMode::Static, color: Rgb { r: 255, g: 0, b: 0 }, speed: 50 }
    }
}

} // verus!
