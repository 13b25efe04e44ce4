use audio::config::{negotiate_output, ConfigRange, SampleEncoding, SetupError, StreamConfig, SAMPLE_RATE};

fn range(encoding: SampleEncoding, min: u32, max: u32) -> ConfigRange {
    ConfigRange { channels: 2, min_sample_rate: min, max_sample_rate: max, encoding }
}

#[test]
fn float_device_gives_requested_rate() {
    let dev = vec![range(SampleEncoding::F32, 8_000, 96_000)];
    assert_eq!(
        negotiate_output(Some(dev), SAMPLE_RATE),
        Ok(StreamConfig { channels: 2, sample_rate: 48_000 })
    );
}

#[test]
fn sixteen_bit_only_device_is_unsupported() {
    let dev = vec![
        range(SampleEncoding::I16, 8_000, 96_000),
        range(SampleEncoding::U16, 8_000, 96_000),
    ];
    assert_eq!(negotiate_output(Some(dev), SAMPLE_RATE), Err(SetupError::UnsupportedFormat));
}

#[test]
fn first_range_decides() {
    let dev = vec![
        range(SampleEncoding::I16, 8_000, 96_000),
        range(SampleEncoding::F32, 8_000, 96_000),
    ];
    assert_eq!(negotiate_output(Some(dev), SAMPLE_RATE), Err(SetupError::UnsupportedFormat));
}

#[test]
fn double_precision_is_unsupported() {
    let dev = vec![range(SampleEncoding::F64, 8_000, 96_000)];
    assert_eq!(negotiate_output(Some(dev), SAMPLE_RATE), Err(SetupError::UnsupportedFormat));
}

#[test]
fn missing_device_is_reported() {
    assert_eq!(negotiate_output(None, SAMPLE_RATE), Err(SetupError::NoOutputDevice));
}

#[test]
fn device_without_configs_is_reported() {
    assert_eq!(negotiate_output(Some(Vec::new()), SAMPLE_RATE), Err(SetupError::NoSupportedConfig));
}

#[test]
fn rate_outside_range_is_reported() {
    let dev = vec![range(SampleEncoding::F32, 8_000, 44_100)];
    assert_eq!(negotiate_output(Some(dev), SAMPLE_RATE), Err(SetupError::NoSupportedConfig));
}

#[test]
fn rate_at_range_bounds_is_accepted() {
    let dev = vec![ConfigRange {
        channels: 1,
        min_sample_rate: 48_000,
        max_sample_rate: 48_000,
        encoding: SampleEncoding::F32,
    }];
    assert_eq!(
        negotiate_output(Some(dev), 48_000),
        Ok(StreamConfig { channels: 1, sample_rate: 48_000 })
    );
}

#[test]
fn zero_rate_is_a_configuration_error() {
    let dev = vec![range(SampleEncoding::F32, 0, 96_000)];
    assert_eq!(negotiate_output(Some(dev), 0), Err(SetupError::Configuration));
}

#[test]
fn unknown_encoding_is_unsupported() {
    let dev = vec![range(SampleEncoding::Other, 8_000, 96_000)];
    assert_eq!(negotiate_output(Some(dev), SAMPLE_RATE), Err(SetupError::UnsupportedFormat));
}
