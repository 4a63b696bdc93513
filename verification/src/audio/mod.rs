pub mod apo;
pub mod easyeffects;

use vstd::prelude::*;

verus! {

/// One peaking EQ band. The gain and Q are IEEE-754 single-precision values,
/// carried as their bit patterns: the library moves them, the writers render
/// them.
#[derive(Debug, Clone, Copy, PartialEq, Eq, Structural)]
pub struct EqBand {
    pub freq_hz: u32,
    pub gain_db_bits: u32,
    pub q_bits: u32,
}

/// The host-side EQ configuration (bit patterns of single-precision values
/// as in [`EqBand`]).
#[derive(Debug)]
pub struct AudioConfig {
    pub bands: Vec<EqBand>,
    pub preamp_db_bits: u32,
    pub surround_enabled: bool,
    /// EQ on/off; when off the backend is given a configuration that does nothing.
    pub enabled: bool,
}

/// Default of [`AudioConfig::enabled`] when a stored configuration lacks it.
pub fn default_true() -> (b: bool)
    ensures
        b,
{
    true
}

/// The error text when no EQ backend is installed.
pub fn no_backend_message() -> (m: String)
    ensures
        m@ == "No audio EQ backend installed (Equalizer APO / EasyEffects)"@,
{
    String::from_str("No audio EQ backend installed (Equalizer APO / EasyEffects)")
}

/// The error text of a failed EQ backend while a profile is applied.
pub fn eq_backend_error(cause: &str) -> (m: String)
    ensures
        m@ == "EQ backend: "@ + cause@,
{
    let mut m = String::from_str("EQ backend: ");
    m.append(cause);
    m
}

/// The operating system the application runs on.
#[derive(Debug, Clone, Copy, PartialEq, Eq, Structural)]
pub enum Platform {
    Windows,
    Linux,
    Other,
}

/// The host audio backends that can carry the EQ.
#[derive(Debug, Clone, Copy, PartialEq, Eq, Structural)]
pub enum BackendKind {
    EqualizerApo,
    EasyEffects,
}

impl BackendKind {
    pub fn name(&self) -> (s: &'static str)
        ensures
            *self == BackendKind::EqualizerApo ==> s@ == "Equalizer APO"@,
            *self == BackendKind::EasyEffects ==> s@ == "EasyEffects"@,
    {
        match self {
            BackendKind::EqualizerApo => "Equalizer APO",
            BackendKind::EasyEffects => "EasyEffects",
        }
    }
}

/// The backend to use: Equalizer APO on Windows, EasyEffects on Linux, each
/// only when installed.
pub fn select_backend(platform: Platform, apo_installed: bool, easyeffects_installed: bool) -> (r:
    Option<BackendKind>)
    ensures
        r == (if platform == Platform::Windows && apo_installed {
            Some(BackendKind::EqualizerApo)
        } else if platform == Platform::Linux && easyeffects_installed {
            Some(BackendKind::EasyEffects)
        } else {
            None
        }),
{
    match platform {
        Platform::Windows => if apo_installed {
            Some(BackendKind::EqualizerApo)
        } else {
            None
        },
        Platform::Linux => if easyeffects_installed {
            Some(BackendKind::EasyEffects)
        } else {
            None
        },
        Platform::Other => None,
    }
}

} // verus!
