use exgstream::ble::{
    classify_adapter, classify_lowercase_adapter, close_ble_outlet, find_characteristics,
    is_supported_device_name, is_supported_lowercase_name, peripheral_matches, position_of,
    process_ble_sample, reassemble, reduced_ids_match, scan_before_listing_ms, AdapterKind,
    BleError, CharacteristicError, Characteristics, BLOCK_COUNT, CONTROL_CHARACTERISTIC,
    DATA_CHARACTERISTIC, NEW_PACKET_LEN, SINGLE_SAMPLE_LEN,
};
use exgstream::continuity::{Continuity, ContinuityTracker};
use exgstream::endpoint::{default_endpoint, resolve_endpoint, EndpointError};
use exgstream::profile::DeviceProfile;
use exgstream::sample::{decode_block, Sample};
use exgstream::supervisor::{Action, Event, Supervisor};
use exgstream::websocket::{decode_message, BLOCK_SIZE};

fn ble_sample(counter: u8, values: [i16; 3]) -> Vec<u8> {
    let mut bytes = vec![counter];
    for value in values {
        bytes.extend_from_slice(&value.to_be_bytes());
    }
    bytes
}

#[test]
fn ble_constants_have_the_documented_values() {
    assert_eq!(SINGLE_SAMPLE_LEN, 7);
    assert_eq!(BLOCK_COUNT, 10);
    assert_eq!(NEW_PACKET_LEN, 70);
    assert_eq!(BLOCK_SIZE, 13);
}

#[test]
fn batched_notification_decodes_into_ten_samples_in_order() {
    let mut notification = Vec::new();
    for i in 0..10u8 {
        notification.extend(ble_sample(i, [i as i16, -(i as i16), 1000 + i as i16]));
    }
    assert_eq!(notification.len(), 70);
    let samples = reassemble(&notification);
    assert_eq!(samples.len(), 10);
    for (i, sample) in samples.iter().enumerate() {
        assert_eq!(sample.counter, i as u8);
        assert_eq!(sample.channels, vec![i as i16, -(i as i16), 1000 + i as i16]);
    }
}

#[test]
fn single_notification_decodes_into_one_sample() {
    let samples = reassemble(&ble_sample(200, [-5, 6, -7]));
    assert_eq!(samples, vec![Sample { counter: 200, channels: vec![-5, 6, -7] }]);
}

#[test]
fn notification_of_any_other_length_decodes_into_nothing() {
    for len in 0..200usize {
        if len == 7 || len == 70 {
            continue;
        }
        assert!(reassemble(&vec![1u8; len]).is_empty());
    }
}

#[test]
fn process_ble_sample_decodes_and_checks_continuity() {
    let mut tracker = ContinuityTracker::new();
    let first = process_ble_sample(&ble_sample(5, [1, 2, 3]), &mut tracker).unwrap();
    assert_eq!(first.sample, Sample { counter: 5, channels: vec![1, 2, 3] });
    assert_eq!(first.verdict, Continuity::First);
    let second = process_ble_sample(&ble_sample(8, [4, 5, 6]), &mut tracker).unwrap();
    assert_eq!(second.verdict, Continuity::Gap { lost: 2 });
    assert_eq!(tracker.last_counter(), Some(8));
}

#[test]
fn process_ble_sample_rejects_a_wrong_length() {
    let mut tracker = ContinuityTracker::new();
    tracker.check(9);
    let error = process_ble_sample(&[1, 2, 3], &mut tracker).unwrap_err();
    assert_eq!(error, BleError::InvalidSampleLength);
    assert_eq!(error.message(), "Invalid sample length");
    assert_eq!(tracker.last_counter(), Some(9));
    assert!(process_ble_sample(&[0u8; 8], &mut tracker).is_err());
}

#[test]
fn close_ble_outlet_is_idempotent_and_safe_in_any_state() {
    let mut supervisor = Supervisor::new();
    assert_eq!(
        close_ble_outlet(&mut supervisor),
        Action::Halt { release_sink: false, send_stop: false }
    );
    supervisor.handle(Event::Start(DeviceProfile::ble()));
    supervisor.handle(Event::Connected);
    assert!(supervisor.is_streaming());
    assert_eq!(
        close_ble_outlet(&mut supervisor),
        Action::Halt { release_sink: true, send_stop: true }
    );
    assert!(supervisor.is_idle());
    assert_eq!(
        close_ble_outlet(&mut supervisor),
        Action::Halt { release_sink: false, send_stop: false }
    );
    assert!(supervisor.is_idle());
}

#[test]
fn characteristics_are_found_by_their_identifiers() {
    let uuids = [1u128, CONTROL_CHARACTERISTIC, 7, DATA_CHARACTERISTIC, DATA_CHARACTERISTIC];
    assert_eq!(find_characteristics(&uuids), Ok(Characteristics { data: 3, control: 1 }));
    assert_eq!(DATA_CHARACTERISTIC, 0xbeb5483e36e14688b7f5ea07361b26a8);
    assert_eq!(CONTROL_CHARACTERISTIC, 0x0000ff0100001000800000805f9b34fb);
}

#[test]
fn missing_characteristics_are_named() {
    assert_eq!(find_characteristics(&[]), Err(CharacteristicError::DataMissing));
    assert_eq!(
        find_characteristics(&[CONTROL_CHARACTERISTIC]),
        Err(CharacteristicError::DataMissing)
    );
    assert_eq!(
        find_characteristics(&[DATA_CHARACTERISTIC]),
        Err(CharacteristicError::ControlMissing)
    );
}

#[test]
fn missing_characteristics_have_their_messages() {
    assert_eq!(CharacteristicError::DataMissing.message(), "Data characteristic missing");
    assert_eq!(CharacteristicError::ControlMissing.message(), "Control characteristic missing");
}

#[test]
fn position_of_gives_the_first_place() {
    assert_eq!(position_of(&[5, 6, 5, 7], 5), Some(0));
    assert_eq!(position_of(&[5, 6, 5, 7], 7), Some(3));
    assert_eq!(position_of(&[5, 6, 5, 7], 8), None);
    assert_eq!(position_of(&[], 8), None);
}

#[test]
fn lowercase_names_are_matched_as_they_are() {
    assert!(is_supported_lowercase_name("npg-lite"));
    assert!(!is_supported_lowercase_name("NPG-LITE"));
    assert!(!is_supported_lowercase_name("np-g"));
}

#[test]
fn lowercase_adapter_descriptions_are_classified_as_they_are() {
    assert_eq!(classify_lowercase_adapter("winrt"), AdapterKind::Windows);
    assert_eq!(classify_lowercase_adapter("WinRT"), AdapterKind::Other);
    assert_eq!(classify_lowercase_adapter("hci0"), AdapterKind::LinuxHci);
    assert_eq!(classify_lowercase_adapter(""), AdapterKind::Other);
}

#[test]
fn reduced_identifiers_match_by_containment_on_windows_only() {
    assert!(reduced_ids_match(AdapterKind::Windows, "xxaabbccxx", "aabbcc"));
    assert!(!reduced_ids_match(AdapterKind::Windows, "aabbcc", "xxaabbccxx"));
    assert!(!reduced_ids_match(AdapterKind::Other, "xxaabbccxx", "aabbcc"));
    assert!(reduced_ids_match(AdapterKind::LinuxHci, "aabbcc", "aabbcc"));
}

#[test]
fn device_names_are_matched_in_any_case() {
    assert!(is_supported_device_name("NPG-Lite-30:AE"));
    assert!(is_supported_device_name("my npg device"));
    assert!(is_supported_device_name("xNpGx"));
    assert!(!is_supported_device_name("Heart rate strap"));
    assert!(!is_supported_device_name(""));
}

#[test]
fn adapters_are_classified_by_what_they_say() {
    assert_eq!(classify_adapter("WinRT Bluetooth adapter"), AdapterKind::Windows);
    assert_eq!(classify_adapter("Microsoft WINDOWS radio"), AdapterKind::Windows);
    assert_eq!(classify_adapter("hci0 (usb:v1D6Bp0246d0540)"), AdapterKind::LinuxHci);
    assert_eq!(classify_adapter("windows hci"), AdapterKind::Windows);
    assert_eq!(classify_adapter("CoreBluetooth"), AdapterKind::Other);
    assert_eq!(scan_before_listing_ms(AdapterKind::Windows), Some(2000));
    assert_eq!(scan_before_listing_ms(AdapterKind::LinuxHci), None);
    assert_eq!(scan_before_listing_ms(AdapterKind::Other), Some(1000));
}

#[test]
fn windows_peripherals_match_by_reduced_address() {
    assert!(peripheral_matches(
        AdapterKind::Windows,
        "BTHENUM\\DEV_AABBCCDDEEFF",
        "aa:bb:cc:dd:ee:ff"
    ));
    assert!(peripheral_matches(AdapterKind::Windows, "AA:BB:CC:DD:EE:FF", "AABBCCDDEEFF"));
    assert!(!peripheral_matches(
        AdapterKind::Windows,
        "BTHENUM\\DEV_AABBCCDDEE00",
        "aa:bb:cc:dd:ee:ff"
    ));
}

#[test]
fn other_peripherals_match_by_exact_identifier() {
    assert!(peripheral_matches(AdapterKind::LinuxHci, "AA:BB:CC:DD:EE:FF", "AA:BB:CC:DD:EE:FF"));
    assert!(!peripheral_matches(AdapterKind::LinuxHci, "AA:BB:CC:DD:EE:FF", "aa:bb:cc:dd:ee:ff"));
    assert!(!peripheral_matches(AdapterKind::Other, "AABBCCDDEEFF", "AA:BB:CC:DD:EE:FF"));
    assert!(peripheral_matches(AdapterKind::Other, "", ""));
}

#[test]
fn websocket_message_splits_into_thirteen_byte_blocks() {
    let mut message = Vec::new();
    for i in 0..4u8 {
        message.extend(ble_sample(i, [i as i16 * 3, -100, 12345]));
        message.extend([0xEE; 6]);
    }
    assert_eq!(message.len(), 52);
    let samples = decode_message(&message);
    assert_eq!(samples.len(), 4);
    for (i, sample) in samples.iter().enumerate() {
        assert_eq!(sample.counter, i as u8);
        assert_eq!(sample.channels, vec![i as i16 * 3, -100, 12345]);
    }
}

#[test]
fn websocket_trailing_partial_block_is_dropped() {
    let mut message = ble_sample(1, [1, 2, 3]);
    message.extend([0u8; 6]);
    message.extend([9u8; 12]);
    assert_eq!(decode_message(&message).len(), 1);
    assert!(decode_message(&[0u8; 12]).is_empty());
    assert!(decode_message(&[]).is_empty());
}

#[test]
fn decode_block_reads_one_counter_and_three_channels() {
    let bytes = [0xAA, 0x07, 0x80, 0x00, 0x7F, 0xFF, 0x00, 0x00, 0x55];
    assert_eq!(decode_block(&bytes, 1), Sample { counter: 7, channels: vec![-32768, 32767, 0] });
}

#[test]
fn default_endpoint_resolves_to_its_serialized_url() {
    assert_eq!(default_endpoint(), "ws://multi-emg.local:81");
    assert_eq!(resolve_endpoint(default_endpoint()), Ok("ws://multi-emg.local:81/".to_string()));
}

#[test]
fn endpoint_is_normalised_by_the_parser() {
    assert_eq!(
        resolve_endpoint("WS://Multi-EMG.local:81/stream"),
        Ok("ws://multi-emg.local:81/stream".to_string())
    );
}

#[test]
fn address_that_is_no_url_is_an_error() {
    assert_eq!(resolve_endpoint("multi-emg.local"), Err(EndpointError::InvalidUrl));
    assert_eq!(resolve_endpoint(""), Err(EndpointError::InvalidUrl));
    assert_eq!(resolve_endpoint("ws://host:notaport"), Err(EndpointError::InvalidUrl));
}
