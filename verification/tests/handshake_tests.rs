use exgstream::handshake::{identify, identify_command, response_mentions, DeviceModel, Preset};
use exgstream::profile::{
    DeviceProfile, LinkSettings, SampleFormat, TransportKind, UsbIds, ALTERNATE_BAUD_RATE,
    ALTERNATE_SAMPLE_RATE_HZ, DEFAULT_BAUD_RATE, DEFAULT_SAMPLE_RATE_HZ,
};

const ALL_MODELS: [DeviceModel; 13] = [
    DeviceModel::UnoR4,
    DeviceModel::UnoR3,
    DeviceModel::GigaR1,
    DeviceModel::RpiPicoRp2040,
    DeviceModel::UnoClone,
    DeviceModel::NanoClone,
    DeviceModel::Mega2560R3,
    DeviceModel::Mega2560Clone,
    DeviceModel::GenuinoUno,
    DeviceModel::NanoClassic,
    DeviceModel::Stm32G4CoreBoard,
    DeviceModel::Stm32F4BlackPill,
    DeviceModel::NpgLite,
];

#[test]
fn mega_token_yields_sixteen_channels_in_thirty_six_bytes() {
    let profile = DeviceProfile::from_handshake(b"MEGA-2560-R3", LinkSettings::new()).unwrap();
    assert_eq!(profile.frame_size(), 36);
    assert_eq!(profile.channel_count(), 16);
    assert_eq!(profile.transport(), TransportKind::Serial);
    assert_eq!(profile.format(), SampleFormat::Int16);
}

#[test]
fn pico_token_yields_three_channels_in_ten_bytes() {
    let profile = DeviceProfile::from_handshake(b"RPI-PICO-RP2040", LinkSettings::new()).unwrap();
    assert_eq!(profile.frame_size(), 10);
    assert_eq!(profile.channel_count(), 3);
}

#[test]
fn every_token_selects_the_preset_of_its_board() {
    for model in ALL_MODELS {
        assert_eq!(identify(model.token().as_bytes()), Some(model.preset()));
    }
}

#[test]
fn lookup_table_has_the_documented_presets() {
    let expected = [
        ("UNO-R4", 16, 6),
        ("UNO-R3", 16, 6),
        ("GIGA-R1", 16, 6),
        ("RPI-PICO-RP2040", 10, 3),
        ("UNO-CLONE", 16, 6),
        ("NANO-CLONE", 20, 8),
        ("MEGA-2560-R3", 36, 16),
        ("MEGA-2560-CLONE", 36, 16),
        ("GENUINO-UNO", 16, 6),
        ("NANO-CLASSIC", 20, 8),
        ("STM32G4-CORE-BOARD", 36, 16),
        ("STM32F4-BLACK-PILL", 20, 8),
        ("NPG-LITE", 10, 3),
    ];
    for (i, (token, frame_size, channels)) in expected.iter().enumerate() {
        assert_eq!(ALL_MODELS[i].token(), *token);
        let preset = identify(token.as_bytes()).unwrap();
        assert_eq!(preset.frame_size(), *frame_size);
        assert_eq!(preset.channel_count(), *channels);
    }
}

#[test]
fn token_is_found_inside_a_longer_answer() {
    assert_eq!(identify(b"\r\nboot ok\r\nNANO-CLASSIC\r\n"), Some(Preset::EightChannel));
    assert_eq!(identify(b"\xff\xfeUNO-R4\x00"), Some(Preset::SixChannel));
}

#[test]
fn answer_without_a_token_is_not_recognised() {
    assert_eq!(identify(b""), None);
    assert_eq!(identify(b"WHORU\n"), None);
    assert_eq!(identify(b"MEGA-2560-R"), None);
    assert_eq!(identify(b"uno-r3"), None);
    assert!(DeviceProfile::from_handshake(b"hello", LinkSettings::new()).is_none());
}

#[test]
fn later_presets_take_precedence_when_several_tokens_arrive() {
    assert_eq!(identify(b"NANO-CLONE MEGA-2560-CLONE"), Some(Preset::SixteenChannel));
    assert_eq!(identify(b"NPG-LITE MEGA-2560-CLONE"), Some(Preset::ThreeChannel));
    assert_eq!(identify(b"UNO-R3 NANO-CLONE"), Some(Preset::EightChannel));
}

#[test]
fn response_mentions_looks_for_one_token() {
    assert!(response_mentions(b"xxGIGA-R1xx", DeviceModel::GigaR1));
    assert!(!response_mentions(b"xxGIGA-R1xx", DeviceModel::UnoR3));
}

#[test]
fn identify_command_is_whoru_with_a_newline() {
    assert_eq!(identify_command(), "WHORU\n");
}

#[test]
fn link_settings_follow_usb_identifiers() {
    let initial = LinkSettings::new();
    assert_eq!(initial.baud_rate, DEFAULT_BAUD_RATE);
    assert_eq!(initial.sample_rate_hz, DEFAULT_SAMPLE_RATE_HZ);
    assert_eq!(initial.baud_rate, 230400);
    assert_eq!(initial.sample_rate_hz, 500);
    assert_eq!(LinkSettings::for_port(None), initial);
    assert_eq!(LinkSettings::for_port(Some(UsbIds { vendor: 0x2341, product: 0x0069 })), initial);
    let alternate =
        LinkSettings { baud_rate: ALTERNATE_BAUD_RATE, sample_rate_hz: ALTERNATE_SAMPLE_RATE_HZ };
    assert_eq!(alternate.baud_rate, 115200);
    assert_eq!(alternate.sample_rate_hz, 250);
    assert_eq!(LinkSettings::for_port(Some(UsbIds { vendor: 6790, product: 1 })), alternate);
    for product in [67u16, 579, 29987, 66, 24577] {
        assert_eq!(LinkSettings::for_port(Some(UsbIds { vendor: 1, product })), alternate);
    }
}

#[test]
fn link_settings_depend_on_the_port_alone() {
    let known = Some(UsbIds { vendor: 6790, product: 29987 });
    let unknown = Some(UsbIds { vendor: 1, product: 2 });
    let before = LinkSettings::for_port(unknown);
    let _ = LinkSettings::for_port(known);
    assert_eq!(LinkSettings::for_port(unknown), before);
    assert_eq!(LinkSettings::for_port(None), LinkSettings::new());
}

#[test]
fn handshake_profile_carries_the_link_settings() {
    let link = LinkSettings::for_port(Some(UsbIds { vendor: 6790, product: 29987 }));
    let profile = DeviceProfile::from_handshake(b"UNO-R3", link).unwrap();
    assert_eq!(profile.baud_rate(), Some(115200));
    assert_eq!(profile.sample_rate_hz(), 250);
    assert_eq!(profile.frame_size(), 16);
    assert_eq!(profile.channel_count(), 6);
}

#[test]
fn wireless_profiles_are_fixed() {
    let ble = DeviceProfile::ble();
    assert_eq!(ble.transport(), TransportKind::Ble);
    assert_eq!(ble.frame_size(), 7);
    assert_eq!(ble.channel_count(), 3);
    assert_eq!(ble.sample_rate_hz(), 500);
    assert_eq!(ble.baud_rate(), None);
    assert_eq!(ble.format(), SampleFormat::Float32);
    let ws = DeviceProfile::websocket();
    assert_eq!(ws.transport(), TransportKind::WebSocket);
    assert_eq!(ws.frame_size(), 13);
    assert_eq!(ws.channel_count(), 3);
    assert_eq!(ws.format(), SampleFormat::Float32);
}

#[test]
fn custom_profile_needs_room_for_its_channels() {
    let link = LinkSettings::new();
    assert!(DeviceProfile::custom_serial(16, 6, link).is_some());
    assert!(DeviceProfile::custom_serial(40, 6, link).is_some());
    assert!(DeviceProfile::custom_serial(15, 6, link).is_none());
    assert!(DeviceProfile::custom_serial(16, 0, link).is_none());
    assert!(DeviceProfile::custom_serial(0, 0, link).is_none());
    assert!(DeviceProfile::custom_serial(usize::MAX, usize::MAX, link).is_none());
    let profile = DeviceProfile::custom_serial(6, 1, link).unwrap();
    assert_eq!(profile.frame_size(), 6);
    assert_eq!(profile.channel_count(), 1);
}
