//! Device profiles: what a session must know of the device it streams from.

use vstd::prelude::*;
use crate::handshake::{identified, identify, Preset};
use crate::wire::SERIAL_OVERHEAD;

verus! {

/// The transport a device is reached over.
#[derive(Clone, Copy, Debug, PartialEq, Eq, Structural)]
pub enum TransportKind {
    Serial,
    Ble,
    WebSocket,
}

/// The numeric format in which samples are handed to the sink.
#[derive(Clone, Copy, Debug, PartialEq, Eq, Structural)]
pub enum SampleFormat {
    Int16,
    Float32,
}

/// Baud rate of a serial link when the port says nothing else.
pub const DEFAULT_BAUD_RATE: u32 = 230400;

/// Sample rate, in Hz, of a device when the port says nothing else.
pub const DEFAULT_SAMPLE_RATE_HZ: u32 = 500;

/// Baud rate of the boards known by their USB identifiers.
pub const ALTERNATE_BAUD_RATE: u32 = 115200;

/// Sample rate, in Hz, of the boards known by their USB identifiers.
pub const ALTERNATE_SAMPLE_RATE_HZ: u32 = 250;

/// Length of one BLE sample.
pub const BLE_SAMPLE_LEN: usize = 7;

/// Length of one WebSocket block.
pub const WEBSOCKET_BLOCK_LEN: usize = 13;

/// Channels of a BLE or WebSocket device.
pub const WIRELESS_CHANNELS: usize = 3;

/// Sample rate, in Hz, of a BLE or WebSocket device.
pub const WIRELESS_SAMPLE_RATE_HZ: u32 = 500;

/// The USB vendor and product identifiers of a serial port.
#[derive(Clone, Copy, Debug, PartialEq, Eq, Structural)]
pub struct UsbIds {
    pub vendor: u16,
    pub product: u16,
}

/// Whether a port with these identifiers is one of the boards that run at the
/// alternate baud and sample rates.
pub open spec fn runs_at_alternate_rates(ids: UsbIds) -> bool {
    ||| ids.vendor == 6790
    ||| ids.product == 67
    ||| ids.product == 579
    ||| ids.product == 29987
    ||| ids.product == 66
    ||| ids.product == 24577
}

/// Baud rate and sample rate of a serial link.
#[derive(Clone, Copy, Debug, PartialEq, Eq, Structural)]
pub struct LinkSettings {
    pub baud_rate: u32,
    pub sample_rate_hz: u32,
}

impl LinkSettings {
    /// The settings used where a port says nothing else.
    pub open spec fn initial() -> LinkSettings {
        LinkSettings { baud_rate: DEFAULT_BAUD_RATE, sample_rate_hz: DEFAULT_SAMPLE_RATE_HZ }
    }

    /// The settings of the boards known by their USB identifiers.
    pub open spec fn alternate() -> LinkSettings {
        LinkSettings { baud_rate: ALTERNATE_BAUD_RATE, sample_rate_hz: ALTERNATE_SAMPLE_RATE_HZ }
    }

    /// The settings to open a port with: the alternate ones where its USB
    /// identifiers are known, the initial ones for every other port. They
    /// depend on that port alone.
    pub open spec fn spec_for_port(usb: Option<UsbIds>) -> LinkSettings {
        match usb {
            Some(ids) if runs_at_alternate_rates(ids) => LinkSettings::alternate(),
            _ => LinkSettings::initial(),
        }
    }

    /// The settings used where a port says nothing else.
    pub fn new() -> (settings: LinkSettings)
        ensures
            settings == LinkSettings::initial(),
    {
        LinkSettings { baud_rate: DEFAULT_BAUD_RATE, sample_rate_hz: DEFAULT_SAMPLE_RATE_HZ }
    }

    /// The settings to open a port with.
    #[verifier::when_used_as_spec(spec_for_port)]
    pub fn for_port(usb: Option<UsbIds>) -> (settings: LinkSettings)
        ensures
            settings == LinkSettings::spec_for_port(usb),
    {
        match usb {
            Some(ids) => {
                if ids.vendor == 6790 || ids.product == 67 || ids.product == 579 || ids.product
                    == 29987 || ids.product == 66 || ids.product == 24577 {
                    LinkSettings {
                        baud_rate: ALTERNATE_BAUD_RATE,
                        sample_rate_hz: ALTERNATE_SAMPLE_RATE_HZ,
                    }
                } else {
                    LinkSettings::new()
                }
            },
            None => LinkSettings::new(),
        }
    }
}

/// The bytes of a frame or block that are not channel data.
pub open spec fn overhead(transport: TransportKind) -> int {
    match transport {
        TransportKind::Serial => SERIAL_OVERHEAD as int,
        _ => 1,
    }
}

/// What identifies a connected device: fixed for the lifetime of a session.
#[derive(Clone, Copy, Debug, PartialEq, Eq)]
pub struct DeviceProfile {
    transport: TransportKind,
    baud_rate: Option<u32>,
    frame_size: usize,
    channel_count: usize,
    sample_rate_hz: u32,
    format: SampleFormat,
}

/// The mathematical value of a [`DeviceProfile`].
pub struct ProfileModel {
    pub transport: TransportKind,
    pub baud_rate: Option<u32>,
    pub frame_size: usize,
    pub channel_count: usize,
    pub sample_rate_hz: u32,
    pub format: SampleFormat,
}

impl ProfileModel {
    /// A frame holds its channels, two bytes each, and the bytes around them;
    /// only a serial device has a baud rate; a wireless device has the fixed
    /// block layout.
    pub open spec fn consistent(self) -> bool {
        &&& self.channel_count >= 1
        &&& self.frame_size >= overhead(self.transport) + 2 * self.channel_count
        &&& (self.baud_rate is Some <==> self.transport is Serial)
        &&& (self.transport is Ble ==> self.frame_size == BLE_SAMPLE_LEN && self.channel_count
            == WIRELESS_CHANNELS)
        &&& (self.transport is WebSocket ==> self.frame_size == WEBSOCKET_BLOCK_LEN
            && self.channel_count == WIRELESS_CHANNELS)
    }

    /// The profile of a serial device.
    pub open spec fn serial(frame_size: usize, channel_count: usize, link: LinkSettings) -> ProfileModel {
        ProfileModel {
            transport: TransportKind::Serial,
            baud_rate: Some(link.baud_rate),
            frame_size,
            channel_count,
            sample_rate_hz: link.sample_rate_hz,
            format: SampleFormat::Int16,
        }
    }

    /// The profile of the BLE device.
    pub open spec fn ble() -> ProfileModel {
        ProfileModel {
            transport: TransportKind::Ble,
            baud_rate: None,
            frame_size: BLE_SAMPLE_LEN,
            channel_count: WIRELESS_CHANNELS,
            sample_rate_hz: WIRELESS_SAMPLE_RATE_HZ,
            format: SampleFormat::Float32,
        }
    }

    /// The profile of the WebSocket device.
    pub open spec fn websocket() -> ProfileModel {
        ProfileModel {
            transport: TransportKind::WebSocket,
            baud_rate: None,
            frame_size: WEBSOCKET_BLOCK_LEN,
            channel_count: WIRELESS_CHANNELS,
            sample_rate_hz: WIRELESS_SAMPLE_RATE_HZ,
            format: SampleFormat::Float32,
        }
    }
}

impl View for DeviceProfile {
    type V = ProfileModel;

    closed spec fn view(&self) -> ProfileModel {
        ProfileModel {
            transport: self.transport,
            baud_rate: self.baud_rate,
            frame_size: self.frame_size,
            channel_count: self.channel_count,
            sample_rate_hz: self.sample_rate_hz,
            format: self.format,
        }
    }
}

impl DeviceProfile {
    #[verifier::type_invariant]
    spec fn well_formed(self) -> bool {
        self@.consistent()
    }

    /// The profile of a serial device with one of the framing presets.
    pub fn serial(preset: Preset, link: LinkSettings) -> (profile: DeviceProfile)
        ensures
            profile@ == ProfileModel::serial(preset.frame_size(), preset.channel_count(), link),
            profile@.consistent(),
    {
        DeviceProfile {
            transport: TransportKind::Serial,
            baud_rate: Some(link.baud_rate),
            frame_size: preset.frame_size(),
            channel_count: preset.channel_count(),
            sample_rate_hz: link.sample_rate_hz,
            format: SampleFormat::Int16,
        }
    }

    /// The profile of a serial device with a framing of its own. `None` where
    /// the frame cannot hold the channels and the four bytes around them.
    pub fn custom_serial(frame_size: usize, channel_count: usize, link: LinkSettings) -> (profile:
        Option<DeviceProfile>)
        ensures
            profile is Some <==> ProfileModel::serial(frame_size, channel_count, link).consistent(),
            profile matches Some(p) ==> p@ == ProfileModel::serial(frame_size, channel_count, link),
    {
        if channel_count >= 1 && channel_count <= (usize::MAX - SERIAL_OVERHEAD) / 2 && frame_size
            >= SERIAL_OVERHEAD + 2 * channel_count {
            Some(
                DeviceProfile {
                    transport: TransportKind::Serial,
                    baud_rate: Some(link.baud_rate),
                    frame_size,
                    channel_count,
                    sample_rate_hz: link.sample_rate_hz,
                    format: SampleFormat::Int16,
                },
            )
        } else {
            None
        }
    }

    /// The profile of the BLE device.
    pub fn ble() -> (profile: DeviceProfile)
        ensures
            profile@ == ProfileModel::ble(),
            profile@.consistent(),
    {
        DeviceProfile {
            transport: TransportKind::Ble,
            baud_rate: None,
            frame_size: BLE_SAMPLE_LEN,
            channel_count: WIRELESS_CHANNELS,
            sample_rate_hz: WIRELESS_SAMPLE_RATE_HZ,
            format: SampleFormat::Float32,
        }
    }

    /// The profile of the WebSocket device.
    pub fn websocket() -> (profile: DeviceProfile)
        ensures
            profile@ == ProfileModel::websocket(),
            profile@.consistent(),
    {
        DeviceProfile {
            transport: TransportKind::WebSocket,
            baud_rate: None,
            frame_size: WEBSOCKET_BLOCK_LEN,
            channel_count: WIRELESS_CHANNELS,
            sample_rate_hz: WIRELESS_SAMPLE_RATE_HZ,
            format: SampleFormat::Float32,
        }
    }

    /// The profile that the answer to the identification command selects, on a
    /// link with the given settings. `None` until a token of the closed set has
    /// arrived.
    pub fn from_handshake(response: &[u8], link: LinkSettings) -> (profile: Option<DeviceProfile>)
        ensures
            profile is Some <==> identified(response@) is Some,
            profile matches Some(p) ==> p@ == ProfileModel::serial(
                identified(response@)->0.frame_size(),
                identified(response@)->0.channel_count(),
                link,
            ),
    {
        match identify(response) {
            Some(preset) => Some(DeviceProfile::serial(preset, link)),
            None => None,
        }
    }

    /// The transport the device is reached over.
    pub fn transport(&self) -> (transport: TransportKind)
        ensures
            transport == self@.transport,
            self@.consistent(),
    {
        proof {
            use_type_invariant(self);
        }
        self.transport
    }

    /// The baud rate: of a serial device only.
    pub fn baud_rate(&self) -> (baud_rate: Option<u32>)
        ensures
            baud_rate == self@.baud_rate,
            self@.consistent(),
    {
        proof {
            use_type_invariant(self);
        }
        self.baud_rate
    }

    /// Bytes in one frame or block.
    pub fn frame_size(&self) -> (frame_size: usize)
        ensures
            frame_size == self@.frame_size,
            self@.consistent(),
    {
        proof {
            use_type_invariant(self);
        }
        self.frame_size
    }

    /// Channels in one sample.
    pub fn channel_count(&self) -> (channel_count: usize)
        ensures
            channel_count == self@.channel_count,
            self@.consistent(),
    {
        proof {
            use_type_invariant(self);
        }
        self.channel_count
    }

    /// Samples per second.
    pub fn sample_rate_hz(&self) -> (sample_rate_hz: u32)
        ensures
            sample_rate_hz == self@.sample_rate_hz,
            self@.consistent(),
    {
        proof {
            use_type_invariant(self);
        }
        self.sample_rate_hz
    }

    /// The numeric format in which samples are handed to the sink.
    pub fn format(&self) -> (format: SampleFormat)
        ensures
            format == self@.format,
            self@.consistent(),
    {
        proof {
            use_type_invariant(self);
        }
        self.format
    }
}

} // verus!
