use vstd::prelude::*;

verus! {

/// Sample rate requested from the output device, in frames per second.
pub const SAMPLE_RATE: u32 = 48_000;

/// How one sample is encoded in a device buffer.
#[derive(Debug, Clone, Copy, PartialEq, Eq, Structural)]
pub enum SampleEncoding {
    I8,
    I16,
    I32,
    I64,
    U8,
    U16,
    U32,
    U64,
    F32,
    F64,
    /// An encoding the device layer names but this library does not know.
    Other,
}

/// One range of output configurations that a device reports.
#[derive(Debug, Clone, Copy, PartialEq, Eq, Structural)]
pub struct ConfigRange {
    pub channels: u16,
    pub min_sample_rate: u32,
    pub max_sample_rate: u32,
    pub encoding: SampleEncoding,
}

/// The configuration an output stream is opened with (32-bit float samples).
#[derive(Debug, Clone, Copy, PartialEq, Eq, Structural)]
pub struct StreamConfig {
    pub channels: u16,
    pub sample_rate: u32,
}

/// Fatal errors while setting up the output stream.
#[derive(Debug, Clone, Copy, PartialEq, Eq, Structural)]
pub enum SetupError {
    /// No default output device is available.
    NoOutputDevice,
    /// The device reports no usable output configuration.
    NoSupportedConfig,
    /// The device's configuration does not use 32-bit float samples.
    UnsupportedFormat,
    /// The requested sample rate is zero.
    Configuration,
}

/// The result of negotiation: the device's first reported range decides.
/// `None` stands for a missing default output device.
pub open spec fn negotiated(device: Option<Seq<ConfigRange>>, rate: u32) -> Result<StreamConfig, SetupError> {
    if rate == 0 {
        Err(SetupError::Configuration)
    } else {
        match device {
            None => Err(SetupError::NoOutputDevice),
            Some(ranges) => if ranges.len() == 0 {
                Err(SetupError::NoSupportedConfig)
            } else if ranges[0].encoding != SampleEncoding::F32 {
                Err(SetupError::UnsupportedFormat)
            } else if rate < ranges[0].min_sample_rate || ranges[0].max_sample_rate < rate {
                Err(SetupError::NoSupportedConfig)
            } else {
                Ok(StreamConfig { channels: ranges[0].channels, sample_rate: rate })
            },
        }
    }
}

/// What a device reports, as a sequence of ranges.
pub open spec fn view_device(device: Option<Vec<ConfigRange>>) -> Option<Seq<ConfigRange>> {
    match device {
        None => None,
        Some(v) => Some(v@),
    }
}

/// Chooses the output configuration: the first range the default output
/// device reports, at `rate`, provided it holds 32-bit float samples and
/// admits that rate. No other encoding is converted or accepted.
pub fn negotiate_output(device: Option<Vec<ConfigRange>>, rate: u32) -> (r: Result<
    StreamConfig,
    SetupError,
>)
    ensures
        r == negotiated(view_device(device), rate),
        r is Ok ==> r->Ok_0.sample_rate == rate,
{
    if rate == 0 {
        return Err(SetupError::Configuration);
    }
    match device {
        None => Err(SetupError::NoOutputDevice),
        Some(ranges) => {
            if ranges.len() == 0 {
                return Err(SetupError::NoSupportedConfig);
            }
            let first = ranges[0];
            if first.encoding != SampleEncoding::F32 {
                Err(SetupError::UnsupportedFormat)
            } else if rate < first.min_sample_rate || first.max_sample_rate < rate {
                Err(SetupError::NoSupportedConfig)
            } else {
                Ok(StreamConfig { channels: first.channels, sample_rate: rate })
            }
        },
    }
}

/// Whatever the device reports, negotiation never yields a stream in any
/// encoding other than 32-bit float: a device whose first range holds another
/// encoding is refused with `UnsupportedFormat`.
pub proof fn lemma_only_float_streams(ranges: Seq<ConfigRange>, rate: u32)
    requires
        rate != 0,
        ranges.len() > 0,
        ranges[0].encoding != SampleEncoding::F32,
    ensures
        negotiated(Some(ranges), rate) == Err::<StreamConfig, SetupError>(
            SetupError::UnsupportedFormat,
        ),
{
}

} // verus!
