//! Equalizer APO (Windows) configuration writer: the text of our preset
//! file, the line that makes APO's main configuration source it, and the
//! retry policy for writing files APO may hold open.

use vstd::prelude::*;
use super::{AudioConfig, EqBand};
use crate::text::{
    chars_of, contains, decimal, is_whitespace, printable_ascii_is_not_whitespace,
    trim_end_removes_exactly_trailing_whitespace, find_chars, find_from_spec, occurs_at, push_char,
    push_decimal, string_of, trim_end, trimmed_len,
};

verus! {

/// Where Equalizer APO keeps its configuration.
pub const DEFAULT_PATH: &'static str = "C:\\Program Files\\EqualizerAPO\\config";

/// Our preset file, inside the configuration directory.
pub const PRESET_FILE: &'static str = "openpelta.txt";

/// APO's main configuration file, inside the configuration directory.
pub const MAIN_CONFIG_FILE: &'static str = "config.txt";

/// The line of the main configuration that sources our preset.
pub const INCLUDE_LINE: &'static str = "Include: openpelta.txt";

pub struct EqualizerApo {
    config_dir: String,
}

/// The decimal renderings of the floating-point fields of an
/// [`AudioConfig`], as the preset file shows them: the preamp with one
/// decimal, each band's gain with one and its Q with two.
pub struct ApoNumbers {
    pub preamp_db: String,
    pub gain_db: Vec<String>,
    pub q: Vec<String>,
}

/// The line of band `i` (0-based; filters are numbered from 1).
pub open spec fn filter_line(i: nat, band: EqBand, gain: Seq<char>, q: Seq<char>) -> Seq<char> {
    "Filter "@ + decimal(i + 1) + ": ON PK Fc "@ + decimal(band.freq_hz as nat) + " Hz Gain "@
        + gain + " dB Q "@ + q + "\n"@
}

/// The lines of the first `n` bands.
pub open spec fn filter_lines(
    bands: Seq<EqBand>,
    gains: Seq<String>,
    qs: Seq<String>,
    n: nat,
) -> Seq<char>
    decreases n,
{
    if n == 0 {
        Seq::empty()
    } else {
        filter_lines(bands, gains, qs, (n - 1) as nat) + filter_line(
            (n - 1) as nat,
            bands[n - 1],
            gains[n - 1]@,
            qs[n - 1]@,
        )
    }
}

/// The preset file: the device selector, then (EQ on) the preamp, one
/// peaking filter per band and, with surround, the HeSuVi include. With the
/// EQ off only the device selector remains, which changes nothing.
pub open spec fn preset_text(cfg: AudioConfig, n: ApoNumbers) -> Seq<char> {
    if !cfg.enabled {
        "Device: ROG Pelta\n"@
    } else {
        "Device: ROG Pelta\n"@ + "Preamp: "@ + n.preamp_db@ + " dB\n"@ + filter_lines(
            cfg.bands@,
            n.gain_db@,
            n.q@,
            cfg.bands@.len(),
        ) + if cfg.surround_enabled {
            "Include: hesuvi-7.1.txt\n"@
        } else {
            Seq::empty()
        }
    }
}

/// The main configuration after making sure it sources our preset: appended
/// on a line of its own after the existing text with its trailing whitespace
/// removed.
pub open spec fn with_include(current: Seq<char>) -> Seq<char> {
    if current.len() == 0 {
        INCLUDE_LINE@ + seq!['\n']
    } else {
        trim_end(current) + seq!['\n'] + INCLUDE_LINE@ + seq!['\n']
    }
}

/// The number of retries of a write that found the file in use.
pub const MAX_RETRIES: u32 = 5;

/// Windows error "the process cannot access the file because it is being
/// used by another process".
pub const SHARING_VIOLATION: i32 = 32;

/// Delay before retry `k` (0-based): 50 ms, doubling, at most 500 ms.
pub open spec fn retry_delay(k: nat) -> nat
    decreases k,
{
    if k == 0 {
        50
    } else {
        let d = 2 * retry_delay((k - 1) as nat);
        if d < 500 {
            d
        } else {
            500
        }
    }
}

/// Retry policy of a file write that Equalizer APO's file watcher may be
/// holding open: up to five retries, only after a sharing violation, with
/// delays of 50, 100, 200, 400 and 500 ms.
pub struct WriteRetry {
    retries: u32,
    delay_ms: u64,
}

impl WriteRetry {
    /// Retries done so far.
    pub closed spec fn retries(&self) -> nat {
        self.retries as nat
    }

    pub closed spec fn wf(&self) -> bool {
        self.retries <= MAX_RETRIES && self.delay_ms == retry_delay(self.retries as nat)
    }

    pub fn new() -> (r: WriteRetry)
        ensures
            r.wf(),
            r.retries() == 0,
    {
        WriteRetry { retries: 0, delay_ms: 50 }
    }

    /// After a failed write with OS error `os_error`: the delay before writing
    /// again, or `None` to give up with that error.
    pub fn after_failure(&mut self, os_error: Option<i32>) -> (r: Option<u64>)
        requires
            old(self).wf(),
        ensures
            final(self).wf(),
            r is Some <==> old(self).retries() < MAX_RETRIES && os_error == Some(SHARING_VIOLATION),
            r matches Some(d) ==> d == retry_delay(old(self).retries()) && final(self).retries()
                == old(self).retries() + 1,
            r is None ==> final(self).retries() == old(self).retries(),
    {
        let retryable = match os_error {
            Some(code) => code == SHARING_VIOLATION,
            None => false,
        };
        if self.retries < MAX_RETRIES && retryable {
            let d = self.delay_ms;
            assert(retry_delay(self.retries as nat) <= 500) by {
                reveal_with_fuel(retry_delay, 2);
            }
            self.delay_ms = if d * 2 < 500 { d * 2 } else { 500 };
            self.retries = self.retries + 1;
            Some(d)
        } else {
            None
        }
    }
}

/// Law: the retry delays are 50, 100, 200, 400 and 500 ms, and never
/// exceed 500 ms.
pub proof fn retry_delay_schedule(k: nat)
    ensures
        retry_delay(0) == 50 && retry_delay(1) == 100 && retry_delay(2) == 200 && retry_delay(3)
            == 400 && retry_delay(4) == 500,
        retry_delay(k) <= 500,
    decreases k,
{
    reveal_with_fuel(retry_delay, 5);
    if k > 0 {
        retry_delay_schedule((k - 1) as nat);
    }
}

/// Law: a write is attempted at most six times: a retry state never counts
/// more than five retries.
pub proof fn write_attempts_are_bounded(r: WriteRetry)
    requires
        r.wf(),
    ensures
        r.retries() <= MAX_RETRIES,
{
}

fn push_str_chars(s: &mut String, t: &String)
    ensures
        final(s)@ == old(s)@ + t@,
{
    s.append(t.as_str());
}

impl EqualizerApo {
    pub closed spec fn config_dir_spec(&self) -> Seq<char> {
        self.config_dir@
    }

    /// The backend at Equalizer APO's default configuration directory.
    pub fn new() -> (b: EqualizerApo)
        ensures
            b.config_dir_spec() == DEFAULT_PATH@,
    {
        EqualizerApo { config_dir: String::from_str(DEFAULT_PATH) }
    }

    pub fn config_dir(&self) -> (d: &str)
        ensures
            d@ == self.config_dir_spec(),
    {
        self.config_dir.as_str()
    }

    pub fn name(&self) -> (s: &'static str)
        ensures
            s@ == "Equalizer APO"@,
    {
        "Equalizer APO"
    }

    /// The error text when the configuration directory is missing; `dir`
    /// is the directory as shown to the user.
    pub fn not_installed_message(dir: &str) -> (m: String)
        ensures
            m@ == "Equalizer APO not installed at "@ + dir@,
    {
        let mut m = String::from_str("Equalizer APO not installed at ");
        m.append(dir);
        m
    }

    /// The text of our preset file for `cfg`, with its numbers rendered as
    /// in `numbers`.
    pub fn render(cfg: &AudioConfig, numbers: &ApoNumbers) -> (out: String)
        requires
            numbers.gain_db@.len() == cfg.bands@.len(),
            numbers.q@.len() == cfg.bands@.len(),
        ensures
            out@ == preset_text(*cfg, *numbers),
    {
        let mut out = String::from_str("Device: ROG Pelta\n");
        if !cfg.enabled {
            return out;
        }
        out.append("Preamp: ");
        push_str_chars(&mut out, &numbers.preamp_db);
        out.append(" dB\n");
        let ghost head = out@;
        let mut i: usize = 0;
        while i < cfg.bands.len()
            invariant
                i <= cfg.bands@.len(),
                numbers.gain_db@.len() == cfg.bands@.len(),
                numbers.q@.len() == cfg.bands@.len(),
                out@ == head + filter_lines(cfg.bands@, numbers.gain_db@, numbers.q@, i as nat),
            decreases cfg.bands@.len() - i,
        {
            let ghost before = out@;
            let band = cfg.bands[i];
            out.append("Filter ");
            push_decimal(&mut out, (i as u64) + 1);
            out.append(": ON PK Fc ");
            push_decimal(&mut out, band.freq_hz as u64);
            out.append(" Hz Gain ");
            push_str_chars(&mut out, &numbers.gain_db[i]);
            out.append(" dB Q ");
            push_str_chars(&mut out, &numbers.q[i]);
            out.append("\n");
            assert(out@ =~= before + filter_line(
                i as nat,
                cfg.bands@[i as int],
                numbers.gain_db@[i as int]@,
                numbers.q@[i as int]@,
            ));
            i += 1;
        }
        if cfg.surround_enabled {
            out.append("Include: hesuvi-7.1.txt\n");
        }
        out
    }

    /// The main configuration text to write so that it sources our preset,
    /// or `None` when it already contains the include line.
    pub fn include_update(current: &str) -> (r: Option<String>)
        ensures
            r is None <==> contains(current@, INCLUDE_LINE@),
            r matches Some(t) ==> t@ == with_include(current@),
    {
        let cs = chars_of(current);
        let line = chars_of(INCLUDE_LINE);
        proof {
            reveal_strlit("Include: openpelta.txt");
            find_from_spec(cs@, line@, 0);
        }
        match find_chars(&cs, &line, 0) {
            Some(_) => {
                return None;
            },
            None => {},
        }
        let mut t = String::new();
        if cs.len() > 0 {
            let n = trimmed_len(&cs);
            t = string_of(cs.as_slice(), n);
            push_char(&mut t, '\n');
        }
        t.append(INCLUDE_LINE);
        push_char(&mut t, '\n');
        Some(t)
    }
}

/// Law: the user's existing configuration is kept as it is, only its
/// trailing line breaks and blanks dropped: when it ends in a printable
/// character followed by blanks, tabs and line breaks, the update is that
/// text, a line break, our include line and a line break.
pub proof fn include_keeps_existing_text(body: Seq<char>, tail: Seq<char>)
    requires
        body.len() > 0,
        0x21 <= body.last() as int <= 0x7E,
        forall|i: int|
            0 <= i < tail.len() ==> #[trigger] tail[i] == ' ' || tail[i] == '\t' || tail[i]
                == '\n' || tail[i] == '\r',
    ensures
        with_include(body + tail) == body + seq!['\n'] + "Include: openpelta.txt"@ + seq!['\n'],
{
    printable_ascii_is_not_whitespace(body.last());
    assert forall|i: int| 0 <= i < tail.len() implies is_whitespace(#[trigger] tail[i]) by {}
    trim_end_removes_exactly_trailing_whitespace(body, tail);
    assert((body + tail).len() > 0);
}

/// Law: updating the main configuration is idempotent. Once our include has
/// been written, the next update leaves the file alone.
pub proof fn include_update_is_idempotent(current: Seq<char>)
    ensures
        contains(with_include(current), INCLUDE_LINE@),
{
    let t = with_include(current);
    let line = INCLUDE_LINE@;
    let at = t.len() - 1 - line.len();
    assert(t.subrange(at, at + line.len()) =~= line);
    assert(occurs_at(t, line, at));
}

} // verus!
