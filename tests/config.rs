use sound_send::input::{
    check_channels, default_input_mode, default_input_mode_name, frames_to_100ns, input_mode_options,
    parse_input_mode, parse_sample_format, ConfigError, InputMode, InputOptions, Platform,
};
use sound_send::packet::SampleFormat;

const LINUX: Platform = Platform { cpal: false, wasapi: false };
const WINDOWS: Platform = Platform { cpal: true, wasapi: true };

#[test]
fn sample_format_names() {
    assert_eq!(parse_sample_format("f32"), Ok(SampleFormat::F32));
    assert_eq!(parse_sample_format("I16"), Ok(SampleFormat::I16));
    assert_eq!(parse_sample_format("U16"), Ok(SampleFormat::U16));
    assert_eq!(parse_sample_format("u32"), Ok(SampleFormat::U32));
    assert_eq!(parse_sample_format("u8"), Err(ConfigError::InvalidSampleFormat));
    assert_eq!(parse_sample_format("f32 "), Err(ConfigError::InvalidSampleFormat));
}

#[test]
fn input_mode_names() {
    assert_eq!(parse_input_mode("STDIN", LINUX), Ok(InputMode::Stdin));
    assert_eq!(parse_input_mode("loopback", LINUX), Err(ConfigError::InvalidInputMode));
    assert_eq!(parse_input_mode("Loopback", WINDOWS), Ok(InputMode::WasapiLoopback));
    assert_eq!(parse_input_mode("wasapi", WINDOWS), Ok(InputMode::WasapiLoopback));
    assert_eq!(parse_input_mode("cpal", WINDOWS), Ok(InputMode::Cpal));
    assert_eq!(input_mode_options(LINUX), "stdin");
    assert_eq!(input_mode_options(WINDOWS), "cpal|wasapi|stdin");
    assert_eq!(default_input_mode(LINUX), InputMode::Stdin);
    assert_eq!(default_input_mode_name(WINDOWS), "cpal");
    assert_eq!(default_input_mode_name(Platform { cpal: false, wasapi: true }), "wasapi");
}

#[test]
fn stdin_options() {
    let none = InputOptions { channels: None, sample_rate: None, format: None };
    let m = none.stdin_meta();
    assert_eq!((m.channels, m.sample_rate.0, m.sample_format), (2, 48_000, SampleFormat::U32));
    let some = InputOptions { channels: Some(1), sample_rate: Some(44_100), format: Some(SampleFormat::I16) };
    let m = some.stdin_meta();
    assert_eq!((m.channels, m.sample_rate.0, m.sample_format), (1, 44_100, SampleFormat::I16));
    assert_eq!(some.validate_for(InputMode::Stdin), Ok(()));
    assert_eq!(some.validate_for(InputMode::Cpal), Err(ConfigError::OptionsOnlyForStdin));
    assert_eq!(none.validate_for(InputMode::WasapiLoopback), Ok(()));
}

#[test]
fn buffer_duration_in_100ns() {
    assert_eq!(frames_to_100ns(480, 48_000), 100_000);
    assert_eq!(frames_to_100ns(0, 48_000), 208);
    assert_eq!(frames_to_100ns(441, 44_100), 100_000);
    assert_eq!(frames_to_100ns(1, 0), 0);
    assert_eq!(frames_to_100ns(1, 4_000_000_000), 1);
    assert_eq!(frames_to_100ns(u32::MAX, 1), 42_949_672_950_000_000);
}

#[test]
fn channel_counts() {
    assert_eq!(check_channels(1), Ok(1));
    assert_eq!(check_channels(255), Ok(255));
    assert_eq!(check_channels(0), Err(ConfigError::InvalidChannels));
    assert_eq!(check_channels(256), Err(ConfigError::InvalidChannels));
}
