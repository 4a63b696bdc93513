//! EasyEffects (Linux) output preset: where it goes and what it holds.

use vstd::prelude::*;
use super::{AudioConfig, EqBand};
use crate::text::{decimal, join_path, join_path_spec, push_decimal};

verus! {

/// Directory of EasyEffects output presets, relative to the home directory.
pub const PRESET_SUBDIR: &'static str = ".config/easyeffects/output";

/// Our preset file, inside the preset directory.
pub const PRESET_FILE: &'static str = "openpelta.json";

/// Home directory used when none is known.
pub const FALLBACK_HOME: &'static str = "/tmp";

pub struct EasyEffects {
    preset_dir: String,
}

/// Top-level key of the preset document.
pub const OUTPUT_KEY: &'static str = "output";

/// Key of the plugin chain inside the output object.
pub const PLUGINS_ORDER_KEY: &'static str = "plugins_order";

/// Key of the equalizer object inside the output object.
pub const EQUALIZER_KEY: &'static str = "equalizer";

pub const INPUT_GAIN_KEY: &'static str = "input-gain";

pub const NUM_BANDS_KEY: &'static str = "num-bands";

pub const FREQUENCY_KEY: &'static str = "frequency";

pub const GAIN_KEY: &'static str = "gain";

pub const Q_KEY: &'static str = "q";

pub const TYPE_KEY: &'static str = "type";

pub const MODE_KEY: &'static str = "mode";

/// Filter type of every band: a peaking (bell) filter.
pub const BAND_TYPE: &'static str = "Bell";

/// Filter mode of every band.
pub const BAND_MODE: &'static str = "RLC (BT)";

/// A leaf value of the preset document. Single-precision values are carried
/// as their bit patterns.
#[derive(Debug, Clone, Copy, PartialEq, Eq)]
pub enum Scalar {
    Integer(u64),
    Float(u32),
    Text(&'static str),
}

/// A value of the equalizer object: a leaf, or a band object given as its
/// keys and values in order.
#[derive(Debug)]
pub enum EqualizerValue {
    Scalar(Scalar),
    Object(Vec<(&'static str, Scalar)>),
}

/// The contents of the output preset document
/// `{"output": {"plugins_order": [...], "equalizer": {...}}}`: the plugin
/// chain, and every key and value of the equalizer object in order.
pub struct EasyEffectsPreset {
    pub plugins_order: Vec<&'static str>,
    pub equalizer: Vec<(String, EqualizerValue)>,
}

/// The key of band `i`.
pub open spec fn band_key(i: nat) -> Seq<char> {
    "band"@ + decimal(i)
}

/// `s` is the text leaf `t`.
pub open spec fn is_text(s: Scalar, t: Seq<char>) -> bool {
    s matches Scalar::Text(x) && x@ == t
}

/// The fields of a band object: frequency, gain and Q of `band`, type Bell,
/// mode RLC (BT), and nothing else.
pub open spec fn band_fields(f: Seq<(&'static str, Scalar)>, band: EqBand) -> bool {
    &&& f.len() == 5
    &&& f[0].0@ == FREQUENCY_KEY@ && f[0].1 == Scalar::Integer(band.freq_hz as u64)
    &&& f[1].0@ == GAIN_KEY@ && f[1].1 == Scalar::Float(band.gain_db_bits)
    &&& f[2].0@ == Q_KEY@ && f[2].1 == Scalar::Float(band.q_bits)
    &&& f[3].0@ == TYPE_KEY@ && is_text(f[3].1, BAND_TYPE@)
    &&& f[4].0@ == MODE_KEY@ && is_text(f[4].1, BAND_MODE@)
}

/// Entry `2 + i` of the equalizer object: band `i` under key `band<i>`.
pub open spec fn band_entry(i: nat, band: EqBand, e: (String, EqualizerValue)) -> bool {
    &&& e.0@ == band_key(i)
    &&& e.1 matches EqualizerValue::Object(f) && band_fields(f@, band)
}

fn band_object(band: EqBand) -> (v: EqualizerValue)
    ensures
        v matches EqualizerValue::Object(f) && band_fields(f@, band),
{
    let mut f: Vec<(&'static str, Scalar)> = Vec::new();
    f.push((FREQUENCY_KEY, Scalar::Integer(band.freq_hz as u64)));
    f.push((GAIN_KEY, Scalar::Float(band.gain_db_bits)));
    f.push((Q_KEY, Scalar::Float(band.q_bits)));
    f.push((TYPE_KEY, Scalar::Text(BAND_TYPE)));
    f.push((MODE_KEY, Scalar::Text(BAND_MODE)));
    EqualizerValue::Object(f)
}

impl EasyEffects {
    pub closed spec fn preset_dir_spec(&self) -> Seq<char> {
        self.preset_dir@
    }

    /// The backend for the user whose home directory is `home` (`/tmp` when
    /// unknown): presets go to `<home>/.config/easyeffects/output`.
    pub fn new(home: Option<&str>) -> (b: EasyEffects)
        ensures
            b.preset_dir_spec() == join_path_spec(
                match home {
                    Some(h) => h@,
                    None => FALLBACK_HOME@,
                },
                PRESET_SUBDIR@,
            ),
    {
        let base = match home {
            Some(h) => h,
            None => FALLBACK_HOME,
        };
        EasyEffects { preset_dir: join_path(base, PRESET_SUBDIR) }
    }

    pub fn preset_dir(&self) -> (d: &str)
        ensures
            d@ == self.preset_dir_spec(),
    {
        self.preset_dir.as_str()
    }

    /// Where our preset file is written.
    pub fn preset_path(&self) -> (p: String)
        ensures
            p@ == join_path_spec(self.preset_dir_spec(), PRESET_FILE@),
    {
        join_path(self.preset_dir.as_str(), PRESET_FILE)
    }

    /// The preset for `cfg`: the equalizer alone, or followed by the
    /// convolver when surround is on; then the equalizer object, which holds
    /// the input gain (the preamp), the band count and one band object per
    /// EQ band in order, and no other key.
    pub fn preset(cfg: &AudioConfig) -> (p: EasyEffectsPreset)
        ensures
            p.plugins_order@.len() == if cfg.surround_enabled { 2nat } else { 1nat },
            p.plugins_order@[0]@ == "equalizer"@,
            cfg.surround_enabled ==> p.plugins_order@[1]@ == "convolver"@,
            p.equalizer@.len() == cfg.bands@.len() + 2,
            p.equalizer@[0].0@ == INPUT_GAIN_KEY@,
            p.equalizer@[0].1 matches EqualizerValue::Scalar(v) && v == Scalar::Float(
                cfg.preamp_db_bits,
            ),
            p.equalizer@[1].0@ == NUM_BANDS_KEY@,
            p.equalizer@[1].1 matches EqualizerValue::Scalar(v) && v == Scalar::Integer(
                cfg.bands@.len() as u64,
            ),
            forall|i: int|
                0 <= i < cfg.bands@.len() ==> band_entry(
                    i as nat,
                    cfg.bands@[i],
                    #[trigger] p.equalizer@[i + 2],
                ),
    {
        let mut plugins_order: Vec<&'static str> = Vec::new();
        plugins_order.push("equalizer");
        if cfg.surround_enabled {
            plugins_order.push("convolver");
        }
        let mut equalizer: Vec<(String, EqualizerValue)> = Vec::new();
        equalizer.push(
            (String::from_str(INPUT_GAIN_KEY), EqualizerValue::Scalar(Scalar::Float(cfg.preamp_db_bits))),
        );
        equalizer.push(
            (String::from_str(NUM_BANDS_KEY), EqualizerValue::Scalar(Scalar::Integer(cfg.bands.len() as u64))),
        );
        let mut i: usize = 0;
        while i < cfg.bands.len()
            invariant
                i <= cfg.bands@.len(),
                equalizer@.len() == i + 2,
                equalizer@[0].0@ == INPUT_GAIN_KEY@,
                equalizer@[0].1 matches EqualizerValue::Scalar(v) && v == Scalar::Float(
                    cfg.preamp_db_bits,
                ),
                equalizer@[1].0@ == NUM_BANDS_KEY@,
                equalizer@[1].1 matches EqualizerValue::Scalar(v) && v == Scalar::Integer(
                    cfg.bands@.len() as u64,
                ),
                forall|j: int|
                    0 <= j < i ==> band_entry(j as nat, cfg.bands@[j], #[trigger] equalizer@[j + 2]),
            decreases cfg.bands@.len() - i,
        {
            let b = cfg.bands[i];
            let mut key = String::from_str("band");
            push_decimal(&mut key, i as u64);
            equalizer.push((key, band_object(b)));
            i += 1;
        }
        EasyEffectsPreset { plugins_order, equalizer }
    }
}

} // verus!
