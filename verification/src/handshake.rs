//! The identification handshake: the tokens a device answers with and the
//! framing preset that each of them selects.

use vstd::prelude::*;
use vstd::utf8::encode_utf8;
use crate::search::{contains_bytes, occurs_at, occurs_in};
use crate::wire::SERIAL_OVERHEAD;

verus! {

/// The command that asks a device for its model.
pub fn identify_command() -> (command: &'static str)
    ensures
        command@ == "WHORU\n"@,
{
    "WHORU\n"
}

/// The serial framing presets: frame size and channel count.
#[derive(Clone, Copy, Debug, PartialEq, Eq, Structural)]
pub enum Preset {
    /// 16-byte frames, 6 channels: the default.
    SixChannel,
    /// 20-byte frames, 8 channels.
    EightChannel,
    /// 36-byte frames, 16 channels.
    SixteenChannel,
    /// 10-byte frames, 3 channels.
    ThreeChannel,
}

impl Preset {
    pub open spec fn spec_channel_count(self) -> usize {
        match self {
            Preset::SixChannel => 6,
            Preset::EightChannel => 8,
            Preset::SixteenChannel => 16,
            Preset::ThreeChannel => 3,
        }
    }

    pub open spec fn spec_frame_size(self) -> usize {
        match self {
            Preset::SixChannel => 16,
            Preset::EightChannel => 20,
            Preset::SixteenChannel => 36,
            Preset::ThreeChannel => 10,
        }
    }

    /// Channels in one frame.
    #[verifier::when_used_as_spec(spec_channel_count)]
    pub fn channel_count(self) -> (count: usize)
        ensures
            count == self.spec_channel_count(),
    {
        match self {
            Preset::SixChannel => 6,
            Preset::EightChannel => 8,
            Preset::SixteenChannel => 16,
            Preset::ThreeChannel => 3,
        }
    }

    /// Bytes in one frame: the channels, two bytes each, and the four bytes
    /// around them.
    #[verifier::when_used_as_spec(spec_frame_size)]
    pub fn frame_size(self) -> (size: usize)
        ensures
            size == self.spec_frame_size(),
            size == SERIAL_OVERHEAD + 2 * self.spec_channel_count(),
    {
        SERIAL_OVERHEAD + 2 * self.channel_count()
    }
}

/// The boards that answer the identification command, by the token they
/// answer with.
#[derive(Clone, Copy, Debug, PartialEq, Eq, Structural)]
pub enum DeviceModel {
    UnoR4,
    UnoR3,
    GigaR1,
    RpiPicoRp2040,
    UnoClone,
    NanoClone,
    Mega2560R3,
    Mega2560Clone,
    GenuinoUno,
    NanoClassic,
    Stm32G4CoreBoard,
    Stm32F4BlackPill,
    NpgLite,
}

impl DeviceModel {
    /// The token, as text.
    pub open spec fn text(self) -> Seq<char> {
        match self {
            DeviceModel::UnoR4 => "UNO-R4"@,
            DeviceModel::UnoR3 => "UNO-R3"@,
            DeviceModel::GigaR1 => "GIGA-R1"@,
            DeviceModel::RpiPicoRp2040 => "RPI-PICO-RP2040"@,
            DeviceModel::UnoClone => "UNO-CLONE"@,
            DeviceModel::NanoClone => "NANO-CLONE"@,
            DeviceModel::Mega2560R3 => "MEGA-2560-R3"@,
            DeviceModel::Mega2560Clone => "MEGA-2560-CLONE"@,
            DeviceModel::GenuinoUno => "GENUINO-UNO"@,
            DeviceModel::NanoClassic => "NANO-CLASSIC"@,
            DeviceModel::Stm32G4CoreBoard => "STM32G4-CORE-BOARD"@,
            DeviceModel::Stm32F4BlackPill => "STM32F4-BLACK-PILL"@,
            DeviceModel::NpgLite => "NPG-LITE"@,
        }
    }

    /// The token, as the bytes that the device sends.
    pub open spec fn token_bytes(self) -> Seq<u8> {
        encode_utf8(self.text())
    }

    /// The framing preset of the board.
    pub open spec fn spec_preset(self) -> Preset {
        match self {
            DeviceModel::NanoClone | DeviceModel::NanoClassic | DeviceModel::Stm32F4BlackPill => {
                Preset::EightChannel
            },
            DeviceModel::Mega2560R3 | DeviceModel::Mega2560Clone | DeviceModel::Stm32G4CoreBoard => {
                Preset::SixteenChannel
            },
            DeviceModel::RpiPicoRp2040 | DeviceModel::NpgLite => Preset::ThreeChannel,
            _ => Preset::SixChannel,
        }
    }

    /// The token that the board answers the identification command with.
    pub fn token(self) -> (token: &'static str)
        ensures
            token@ == self.text(),
    {
        match self {
            DeviceModel::UnoR4 => "UNO-R4",
            DeviceModel::UnoR3 => "UNO-R3",
            DeviceModel::GigaR1 => "GIGA-R1",
            DeviceModel::RpiPicoRp2040 => "RPI-PICO-RP2040",
            DeviceModel::UnoClone => "UNO-CLONE",
            DeviceModel::NanoClone => "NANO-CLONE",
            DeviceModel::Mega2560R3 => "MEGA-2560-R3",
            DeviceModel::Mega2560Clone => "MEGA-2560-CLONE",
            DeviceModel::GenuinoUno => "GENUINO-UNO",
            DeviceModel::NanoClassic => "NANO-CLASSIC",
            DeviceModel::Stm32G4CoreBoard => "STM32G4-CORE-BOARD",
            DeviceModel::Stm32F4BlackPill => "STM32F4-BLACK-PILL",
            DeviceModel::NpgLite => "NPG-LITE",
        }
    }

    /// The framing preset of the board.
    #[verifier::when_used_as_spec(spec_preset)]
    pub fn preset(self) -> (preset: Preset)
        ensures
            preset == self.spec_preset(),
    {
        match self {
            DeviceModel::NanoClone | DeviceModel::NanoClassic | DeviceModel::Stm32F4BlackPill => {
                Preset::EightChannel
            },
            DeviceModel::Mega2560R3 | DeviceModel::Mega2560Clone | DeviceModel::Stm32G4CoreBoard => {
                Preset::SixteenChannel
            },
            DeviceModel::RpiPicoRp2040 | DeviceModel::NpgLite => Preset::ThreeChannel,
            _ => Preset::SixChannel,
        }
    }
}

/// Whether the token of `model` lies in `response`.
pub open spec fn mentions(response: Seq<u8>, model: DeviceModel) -> bool {
    occurs_in(model.token_bytes(), response)
}

/// Whether some token of the closed set lies in `response`.
pub open spec fn recognized(response: Seq<u8>) -> bool {
    exists|model: DeviceModel| mentions(response, model)
}

/// The preset that a response selects. Where tokens of several presets occur,
/// the three-channel preset goes before the sixteen-channel one, that one
/// before the eight-channel one, and the default comes last.
pub open spec fn selected_preset(response: Seq<u8>) -> Preset {
    if mentions(response, DeviceModel::RpiPicoRp2040) || mentions(response, DeviceModel::NpgLite) {
        Preset::ThreeChannel
    } else if mentions(response, DeviceModel::Mega2560R3) || mentions(
        response,
        DeviceModel::Mega2560Clone,
    ) || mentions(response, DeviceModel::Stm32G4CoreBoard) {
        Preset::SixteenChannel
    } else if mentions(response, DeviceModel::NanoClone) || mentions(
        response,
        DeviceModel::NanoClassic,
    ) || mentions(response, DeviceModel::Stm32F4BlackPill) {
        Preset::EightChannel
    } else {
        Preset::SixChannel
    }
}

/// What the accumulated answer to the identification command says: `None`
/// until a token of the closed set has arrived, then the preset it selects.
pub open spec fn identified(response: Seq<u8>) -> Option<Preset> {
    if recognized(response) {
        Some(selected_preset(response))
    } else {
        None
    }
}

/// Whether the token of `model` lies in `response`.
pub fn response_mentions(response: &[u8], model: DeviceModel) -> (found: bool)
    ensures
        found == mentions(response@, model),
{
    contains_bytes(response, model.token().as_bytes())
}

/// Reads the accumulated answer to the identification command.
pub fn identify(response: &[u8]) -> (preset: Option<Preset>)
    ensures
        preset == identified(response@),
{
    let three = response_mentions(response, DeviceModel::RpiPicoRp2040) || response_mentions(
        response,
        DeviceModel::NpgLite,
    );
    let sixteen = response_mentions(response, DeviceModel::Mega2560R3) || response_mentions(
        response,
        DeviceModel::Mega2560Clone,
    ) || response_mentions(response, DeviceModel::Stm32G4CoreBoard);
    let eight = response_mentions(response, DeviceModel::NanoClone) || response_mentions(
        response,
        DeviceModel::NanoClassic,
    ) || response_mentions(response, DeviceModel::Stm32F4BlackPill);
    if three {
        Some(Preset::ThreeChannel)
    } else if sixteen {
        Some(Preset::SixteenChannel)
    } else if eight {
        Some(Preset::EightChannel)
    } else {
        let six = response_mentions(response, DeviceModel::UnoR4) || response_mentions(
            response,
            DeviceModel::UnoR3,
        ) || response_mentions(response, DeviceModel::GigaR1) || response_mentions(
            response,
            DeviceModel::UnoClone,
        ) || response_mentions(response, DeviceModel::GenuinoUno);
        if six {
            Some(Preset::SixChannel)
        } else {
            assert forall|model: DeviceModel| !mentions(response@, model) by {
                match model {
                    DeviceModel::UnoR4 => {},
                    DeviceModel::UnoR3 => {},
                    DeviceModel::GigaR1 => {},
                    DeviceModel::RpiPicoRp2040 => {},
                    DeviceModel::UnoClone => {},
                    DeviceModel::NanoClone => {},
                    DeviceModel::Mega2560R3 => {},
                    DeviceModel::Mega2560Clone => {},
                    DeviceModel::GenuinoUno => {},
                    DeviceModel::NanoClassic => {},
                    DeviceModel::Stm32G4CoreBoard => {},
                    DeviceModel::Stm32F4BlackPill => {},
                    DeviceModel::NpgLite => {},
                }
            }
            None
        }
    }
}

/// A response that holds the token of one board, and of no board with another
/// preset, selects the preset of that board.
pub proof fn lemma_token_selects_its_preset(response: Seq<u8>, model: DeviceModel)
    requires
        mentions(response, model),
        forall|other: DeviceModel| #[trigger]
            mentions(response, other) ==> other.spec_preset() == model.spec_preset(),
    ensures
        identified(response) == Some(model.spec_preset()),
{
    assert(recognized(response));
    match model {
        DeviceModel::UnoR4 => {},
        DeviceModel::UnoR3 => {},
        DeviceModel::GigaR1 => {},
        DeviceModel::RpiPicoRp2040 => {},
        DeviceModel::UnoClone => {},
        DeviceModel::NanoClone => {},
        DeviceModel::Mega2560R3 => {},
        DeviceModel::Mega2560Clone => {},
        DeviceModel::GenuinoUno => {},
        DeviceModel::NanoClassic => {},
        DeviceModel::Stm32G4CoreBoard => {},
        DeviceModel::Stm32F4BlackPill => {},
        DeviceModel::NpgLite => {},
    }
}

/// A token that has arrived stays: once a response is recognised, so is every
/// longer one.
pub proof fn lemma_recognised_responses_stay_recognised(response: Seq<u8>, more: Seq<u8>)
    requires
        recognized(response),
    ensures
        recognized(response + more),
{
    let model = choose|model: DeviceModel| mentions(response, model);
    let at = choose|at: int| occurs_at(model.token_bytes(), response, at);
    let token = model.token_bytes();
    assert((response + more).subrange(at, at + token.len()) =~= response.subrange(
        at,
        at + token.len(),
    ));
    assert(occurs_at(token, response + more, at));
    assert(mentions(response + more, model));
}

} // verus!
