//! Capture configuration: input modes, sample-format names, options of the
//! raw byte-stream input and the loopback buffer duration.
use vstd::prelude::*;
use vstd::string::StrSliceExecFns;

use crate::packet::{SampleFormat, SampleRate};
use crate::packet_data::Meta;

verus! {

/// Largest payload of one data frame, header excluded; a multiple of every
/// sample size.
pub const MAX_PAYLOAD: usize = 1024;

/// Channels of the raw byte-stream input when none are given.
pub const DEFAULT_STDIN_CHANNELS: u8 = 2;

/// Sample rate of the raw byte-stream input when none is given.
pub const DEFAULT_STDIN_RATE: u32 = 48_000;

/// Where audio is captured from.
#[derive(Debug, Clone, Copy, PartialEq, Eq, Structural)]
pub enum InputMode {
    /// The default capture device.
    Cpal,
    /// The OS loopback of the default render device.
    WasapiLoopback,
    /// Raw bytes on standard input.
    Stdin,
}

/// Which capture back ends this build offers; standard input always exists.
#[derive(Debug, Clone, Copy, PartialEq, Eq, Structural)]
pub struct Platform {
    pub cpal: bool,
    pub wasapi: bool,
}

/// Why a capture configuration is refused.
#[derive(Debug, Clone, Copy, PartialEq, Eq, Structural)]
pub enum ConfigError {
    /// The input mode name is not one this build offers.
    InvalidInputMode,
    /// The sample format name is not f32, i16, u16 or u32.
    InvalidSampleFormat,
    /// Channels, rate or format were given for an input other than stdin.
    OptionsOnlyForStdin,
    /// The channel count is not in 1..=255.
    InvalidChannels,
}

impl ConfigError {
    /// A short human-readable description.
    pub fn as_str(&self) -> (r: &'static str) {
        match self {
            ConfigError::InvalidInputMode => "invalid input mode",
            ConfigError::InvalidSampleFormat => "invalid sample format (expected: f32|i16|u16|u32)",
            ConfigError::OptionsOnlyForStdin => "--channels/--rate/--format are only valid with --input stdin",
            ConfigError::InvalidChannels => "--channels must be 1..=255",
        }
    }
}

/// Stream parameters given on the command line.
#[derive(Debug, Clone, Copy, PartialEq, Eq, Structural)]
pub struct InputOptions {
    pub channels: Option<u8>,
    pub sample_rate: Option<u32>,
    pub format: Option<SampleFormat>,
}

/// A channel count given on the command line: 1 to 255.
pub fn check_channels(n: u16) -> (r: Result<u8, ConfigError>)
    ensures
        1 <= n <= 255 ==> r == Ok::<u8, ConfigError>(n as u8),
        !(1 <= n <= 255) ==> r == Err::<u8, ConfigError>(ConfigError::InvalidChannels),
{
    if n == 0 || n > 255 {
        Err(ConfigError::InvalidChannels)
    } else {
        Ok(n as u8)
    }
}

/// The code of `c` with ASCII upper-case letters lowered.
pub open spec fn lower_code(c: char) -> int {
    if 65 <= (c as u32) <= 90 {
        (c as u32) + 32
    } else {
        (c as u32) as int
    }
}

/// Whether `s` and `w` are equal up to ASCII case.
pub open spec fn eq_ascii_nocase(s: Seq<char>, w: Seq<char>) -> bool {
    &&& s.len() == w.len()
    &&& forall|i: int| 0 <= i < s.len() ==> lower_code(#[trigger] s[i]) == lower_code(w[i])
}

/// Whether `s` and `w` are equal up to ASCII case.
pub fn eq_ignore_ascii_case(s: &str, w: &str) -> (r: bool)
    ensures
        r == eq_ascii_nocase(s@, w@),
{
    let n = s.unicode_len();
    if n != w.unicode_len() {
        return false;
    }
    let mut i: usize = 0;
    while i < n
        invariant
            n == s@.len(),
            n == w@.len(),
            i <= n,
            forall|k: int| 0 <= k < i ==> lower_code(#[trigger] s@[k]) == lower_code(w@[k]),
        decreases n - i,
    {
        let a = s.get_char(i) as u32;
        let b = w.get_char(i) as u32;
        let la = if 65 <= a && a <= 90 {
            a + 32
        } else {
            a
        };
        let lb = if 65 <= b && b <= 90 {
            b + 32
        } else {
            b
        };
        if la != lb {
            return false;
        }
        i = i + 1;
    }
    true
}

/// The sample format named by `s`, in any ASCII case.
pub open spec fn spec_parse_sample_format(s: Seq<char>) -> Option<SampleFormat> {
    if eq_ascii_nocase(s, "f32"@) {
        Some(SampleFormat::F32)
    } else if eq_ascii_nocase(s, "i16"@) {
        Some(SampleFormat::I16)
    } else if eq_ascii_nocase(s, "u16"@) {
        Some(SampleFormat::U16)
    } else if eq_ascii_nocase(s, "u32"@) {
        Some(SampleFormat::U32)
    } else {
        None
    }
}

/// Parses `f32`, `i16`, `u16` or `u32`, in any ASCII case.
pub fn parse_sample_format(s: &str) -> (r: Result<SampleFormat, ConfigError>)
    ensures
        spec_parse_sample_format(s@) matches Some(f) ==> r == Ok::<SampleFormat, ConfigError>(f),
        spec_parse_sample_format(s@) is None ==> r == Err::<SampleFormat, ConfigError>(
            ConfigError::InvalidSampleFormat,
        ),
{
    if eq_ignore_ascii_case(s, "f32") {
        Ok(SampleFormat::F32)
    } else if eq_ignore_ascii_case(s, "i16") {
        Ok(SampleFormat::I16)
    } else if eq_ignore_ascii_case(s, "u16") {
        Ok(SampleFormat::U16)
    } else if eq_ignore_ascii_case(s, "u32") {
        Ok(SampleFormat::U32)
    } else {
        Err(ConfigError::InvalidSampleFormat)
    }
}

/// The input mode named by `s`, in any ASCII case, among those `p` offers.
pub open spec fn spec_parse_input_mode(s: Seq<char>, p: Platform) -> Option<InputMode> {
    if p.cpal && eq_ascii_nocase(s, "cpal"@) {
        Some(InputMode::Cpal)
    } else if p.wasapi && (eq_ascii_nocase(s, "wasapi"@) || eq_ascii_nocase(s, "loopback"@)) {
        Some(InputMode::WasapiLoopback)
    } else if eq_ascii_nocase(s, "stdin"@) {
        Some(InputMode::Stdin)
    } else {
        None
    }
}

/// Parses `cpal`, `wasapi` or `loopback`, or `stdin`, in any ASCII case; a
/// mode that the platform does not offer is refused.
pub fn parse_input_mode(s: &str, platform: Platform) -> (r: Result<InputMode, ConfigError>)
    ensures
        spec_parse_input_mode(s@, platform) matches Some(m) ==> r == Ok::<InputMode, ConfigError>(m),
        spec_parse_input_mode(s@, platform) is None ==> r == Err::<InputMode, ConfigError>(
            ConfigError::InvalidInputMode,
        ),
{
    if platform.cpal && eq_ignore_ascii_case(s, "cpal") {
        Ok(InputMode::Cpal)
    } else if platform.wasapi && (eq_ignore_ascii_case(s, "wasapi") || eq_ignore_ascii_case(
        s,
        "loopback",
    )) {
        Ok(InputMode::WasapiLoopback)
    } else if eq_ignore_ascii_case(s, "stdin") {
        Ok(InputMode::Stdin)
    } else {
        Err(ConfigError::InvalidInputMode)
    }
}

/// The mode names that the platform offers, for help and error messages.
pub fn input_mode_options(platform: Platform) -> (r: &'static str)
    ensures
        platform.cpal && platform.wasapi ==> r == "cpal|wasapi|stdin",
        platform.cpal && !platform.wasapi ==> r == "cpal|stdin",
        !platform.cpal && platform.wasapi ==> r == "wasapi|stdin",
        !platform.cpal && !platform.wasapi ==> r == "stdin",
{
    if platform.cpal && platform.wasapi {
        "cpal|wasapi|stdin"
    } else if platform.cpal {
        "cpal|stdin"
    } else if platform.wasapi {
        "wasapi|stdin"
    } else {
        "stdin"
    }
}

/// The mode used when none is asked for: the capture device if offered, else
/// the loopback if offered, else standard input.
pub open spec fn spec_default_input_mode(p: Platform) -> InputMode {
    if p.cpal {
        InputMode::Cpal
    } else if p.wasapi {
        InputMode::WasapiLoopback
    } else {
        InputMode::Stdin
    }
}

/// The mode used when none is asked for.
pub fn default_input_mode(platform: Platform) -> (r: InputMode)
    ensures
        r == spec_default_input_mode(platform),
{
    if platform.cpal {
        InputMode::Cpal
    } else if platform.wasapi {
        InputMode::WasapiLoopback
    } else {
        InputMode::Stdin
    }
}

/// The name of the mode used when none is asked for.
pub fn default_input_mode_name(platform: Platform) -> (r: &'static str)
    ensures
        platform.cpal ==> r == "cpal",
        !platform.cpal && platform.wasapi ==> r == "wasapi",
        !platform.cpal && !platform.wasapi ==> r == "stdin",
{
    if platform.cpal {
        "cpal"
    } else if platform.wasapi {
        "wasapi"
    } else {
        "stdin"
    }
}

impl InputOptions {
    /// Whether any stream parameter was given.
    pub open spec fn any_given(&self) -> bool {
        self.channels is Some || self.sample_rate is Some || self.format is Some
    }

    /// Checks the options against the input mode: only standard input takes
    /// stream parameters, the other inputs use the device's own format.
    pub fn validate_for(&self, mode: InputMode) -> (r: Result<(), ConfigError>)
        ensures
            r is Err <==> mode != InputMode::Stdin && self.any_given(),
            r matches Err(e) ==> e == ConfigError::OptionsOnlyForStdin,
    {
        match mode {
            InputMode::Stdin => Ok(()),
            _ => {
                if self.channels.is_some() || self.sample_rate.is_some() || self.format.is_some() {
                    Err(ConfigError::OptionsOnlyForStdin)
                } else {
                    Ok(())
                }
            },
        }
    }

    /// The stream format of standard input: the given parameters, with 2
    /// channels, 48000 Hz and u32 samples for those not given.
    pub fn stdin_meta(&self) -> (r: Meta)
        ensures
            r.channels == match self.channels {
                Some(c) => c,
                None => DEFAULT_STDIN_CHANNELS,
            },
            r.sample_rate.0 == match self.sample_rate {
                Some(h) => h,
                None => DEFAULT_STDIN_RATE,
            },
            r.sample_format == match self.format {
                Some(f) => f,
                None => SampleFormat::U32,
            },
    {
        Meta {
            channels: match self.channels {
                Some(c) => c,
                None => DEFAULT_STDIN_CHANNELS,
            },
            sample_rate: SampleRate(
                match self.sample_rate {
                    Some(h) => h,
                    None => DEFAULT_STDIN_RATE,
                },
            ),
            sample_format: match self.format {
                Some(f) => f,
                None => SampleFormat::U32,
            },
        }
    }
}

/// The duration of `frames` frames at `sample_rate` Hz in 100-ns units,
/// rounded to nearest, at least one frame and at least one unit; zero for a
/// zero rate. Intermediate products saturate.
pub open spec fn spec_frames_to_100ns(frames: u32, sample_rate: u32) -> i64 {
    if sample_rate == 0 {
        0
    } else {
        let f: int = if frames < 1 {
            1
        } else {
            frames as int
        };
        let p = f * 10_000_000 + sample_rate / 2;
        let p = if p > u64::MAX {
            u64::MAX as int
        } else {
            p
        };
        let t = p / (sample_rate as int);
        if t < 1 {
            1
        } else {
            t as i64
        }
    }
}

/// Frames to 100-ns units, as a buffer duration for the loopback capture.
pub fn frames_to_100ns(frames: u32, sample_rate: u32) -> (r: i64)
    ensures
        r == spec_frames_to_100ns(frames, sample_rate),
{
    if sample_rate == 0 {
        return 0;
    }
    let frames: u64 = if frames < 1 {
        1
    } else {
        frames as u64
    };
    let sample_rate = sample_rate as u64;
    proof {
        assert(frames * 10_000_000 <= 0xffff_ffff * 10_000_000) by (nonlinear_arith)
            requires
                frames <= 0xffff_ffff,
        ;
    }
    let num = (frames * 10_000_000).saturating_add(sample_rate / 2);
    let ticks = num / sample_rate;
    proof {
        assert(ticks <= num) by (nonlinear_arith)
            requires
                sample_rate >= 1,
                ticks == num / sample_rate,
        ;
    }
    if ticks < 1 {
        1
    } else {
        ticks as i64
    }
}

} // verus!
