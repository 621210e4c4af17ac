//! The output sink adapter: what a stream outlet is made with, and the checks
//! around every push. The outlet itself belongs to the caller.

use vstd::prelude::*;
use crate::profile::{DeviceProfile, ProfileModel, SampleFormat, TransportKind};
use crate::sample::Sample;

verus! {

/// What an outlet is made with, once per session.
#[derive(Clone, Copy, Debug, PartialEq, Eq, Structural)]
pub struct SinkConfig {
    pub transport: TransportKind,
    pub channel_count: usize,
    pub sample_rate_hz: u32,
    pub format: SampleFormat,
}

/// The outlet configuration of a device.
pub open spec fn sink_for(profile: ProfileModel) -> SinkConfig {
    SinkConfig {
        transport: profile.transport,
        channel_count: profile.channel_count,
        sample_rate_hz: profile.sample_rate_hz,
        format: profile.format,
    }
}

/// The name of the stream of each transport.
pub open spec fn stream_name_of(transport: TransportKind) -> Seq<char> {
    match transport {
        TransportKind::Serial => "UDL"@,
        _ => "NPG-Lite"@,
    }
}

/// The content type of the stream of each transport.
pub open spec fn stream_type_of(transport: TransportKind) -> Seq<char> {
    match transport {
        TransportKind::Serial => "Biopotential_Signals"@,
        _ => "EXG"@,
    }
}

/// The identifier that tells the stream of each transport from the others.
pub open spec fn source_id_of(transport: TransportKind) -> Seq<char> {
    match transport {
        TransportKind::Serial => "Chords"@,
        TransportKind::Ble => "uidbluetooth007"@,
        TransportKind::WebSocket => "uidwifi007"@,
    }
}

impl SinkConfig {
    /// The outlet configuration of a device.
    pub fn for_profile(profile: &DeviceProfile) -> (config: SinkConfig)
        ensures
            config == sink_for(profile@),
            config.channel_count >= 1,
    {
        SinkConfig {
            transport: profile.transport(),
            channel_count: profile.channel_count(),
            sample_rate_hz: profile.sample_rate_hz(),
            format: profile.format(),
        }
    }

    /// The name of the stream.
    pub fn stream_name(&self) -> (name: &'static str)
        ensures
            name@ == stream_name_of(self.transport),
    {
        match self.transport {
            TransportKind::Serial => "UDL",
            _ => "NPG-Lite",
        }
    }

    /// The content type of the stream.
    pub fn stream_type(&self) -> (content: &'static str)
        ensures
            content@ == stream_type_of(self.transport),
    {
        match self.transport {
            TransportKind::Serial => "Biopotential_Signals",
            _ => "EXG",
        }
    }

    /// The identifier that tells this stream from the others.
    pub fn source_id(&self) -> (id: &'static str)
        ensures
            id@ == source_id_of(self.transport),
    {
        match self.transport {
            TransportKind::Serial => "Chords",
            TransportKind::Ble => "uidbluetooth007",
            TransportKind::WebSocket => "uidwifi007",
        }
    }
}

/// Why a sample did not reach the sink.
#[derive(Clone, Copy, Debug, PartialEq, Eq, Structural)]
pub enum PushError {
    /// The sample does not have one reading per channel of the outlet.
    ChannelMismatch { expected: usize, found: usize },
    /// The sink did not take the sample.
    Rejected,
}

/// Whether a sample with `found` readings fits an outlet made with `config`.
pub open spec fn fits(config: SinkConfig, found: nat) -> bool {
    found == config.channel_count
}

/// Checks a sample against the outlet before it is pushed.
pub fn check_sample(config: &SinkConfig, sample: &Sample) -> (checked: Result<(), PushError>)
    ensures
        checked is Ok <==> fits(*config, sample@.channels.len()),
        checked matches Err(e) ==> e == (PushError::ChannelMismatch {
            expected: config.channel_count,
            found: sample@.channels.len() as usize,
        }),
{
    let found = sample.channels.len();
    if found == config.channel_count {
        Ok(())
    } else {
        Err(PushError::ChannelMismatch { expected: config.channel_count, found })
    }
}

} // verus!
