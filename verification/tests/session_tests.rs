use exgstream::continuity::{Continuity, ContinuityTracker};
use exgstream::handshake::Preset;
use exgstream::metrics::{Metrics, RateWindow, RATE_WINDOW};
use exgstream::pipeline::forward;
use exgstream::profile::{DeviceProfile, LinkSettings, SampleFormat, TransportKind};
use exgstream::report::{
    announced_stream_id, report_due, sample_report, MetricEvent, ReportPlan, STREAM_ID_EVERY,
};
use exgstream::sample::Sample;
use exgstream::search::{contains_bytes, matches_at};
use exgstream::session::AcquisitionSession;
use exgstream::sink::{check_sample, PushError, SinkConfig};
use exgstream::text::{contains_text, same_text};
use exgstream::wire::{read_be_i16, read_channels};

fn block(counter: u8, values: [i16; 3]) -> Vec<u8> {
    let mut bytes = vec![counter];
    for value in values {
        bytes.extend_from_slice(&value.to_be_bytes());
    }
    bytes
}

fn sample(counter: u8) -> Sample {
    Sample { counter, channels: vec![counter as i16, 0, 0] }
}

#[test]
fn big_endian_values_are_read_exactly() {
    assert_eq!(read_be_i16(0x00, 0x0A), 10);
    assert_eq!(read_be_i16(0x01, 0x00), 256);
    assert_eq!(read_be_i16(0x7F, 0xFF), 32767);
    assert_eq!(read_be_i16(0x80, 0x00), -32768);
    assert_eq!(read_be_i16(0xFF, 0xFF), -1);
    for hi in 0..=255u8 {
        for lo in [0u8, 1, 127, 128, 255] {
            assert_eq!(read_be_i16(hi, lo), i16::from_be_bytes([hi, lo]));
        }
    }
}

#[test]
fn channels_are_read_from_an_offset() {
    let bytes = [9, 9, 0x00, 0x01, 0xFF, 0xFE, 0x12, 0x34, 9];
    assert_eq!(read_channels(&bytes, 2, 3), vec![1, -2, 0x1234]);
    assert!(read_channels(&bytes, 9, 0).is_empty());
}

#[test]
fn forward_drops_duplicates_and_counts_losses() {
    let mut tracker = ContinuityTracker::new();
    let mut metrics = Metrics::new();
    let decoded = vec![sample(5), sample(5), sample(6), sample(9), sample(9), sample(10)];
    let forwarded = forward(&mut tracker, &mut metrics, decoded);
    assert_eq!(forwarded, vec![sample(5), sample(6), sample(9), sample(10)]);
    assert_eq!(metrics.samples, 4);
    assert_eq!(metrics.duplicates, 2);
    assert_eq!(metrics.lost, 2);
    assert_eq!(tracker.last_counter(), Some(10));
}

#[test]
fn forward_of_nothing_changes_nothing() {
    let mut tracker = ContinuityTracker::new();
    tracker.check(3);
    let mut metrics = Metrics::new();
    assert!(forward(&mut tracker, &mut metrics, Vec::new()).is_empty());
    assert_eq!(metrics, Metrics::new());
    assert_eq!(tracker.last_counter(), Some(3));
}

#[test]
fn ble_session_forwards_a_batch_and_counts_it() {
    let mut session = AcquisitionSession::new(&DeviceProfile::ble());
    let mut notification = Vec::new();
    for counter in [1u8, 2, 3, 3, 4, 6, 7, 8, 9, 10] {
        notification.extend(block(counter, [counter as i16, 0, -1]));
    }
    let samples = session.ingest(&notification);
    let counters: Vec<u8> = samples.iter().map(|s| s.counter).collect();
    assert_eq!(counters, vec![1, 2, 3, 4, 6, 7, 8, 9, 10]);
    let metrics = session.metrics();
    assert_eq!(metrics.messages, 1);
    assert_eq!(metrics.bytes, 70);
    assert_eq!(metrics.samples, 9);
    assert_eq!(metrics.duplicates, 1);
    assert_eq!(metrics.lost, 1);
    assert_eq!(session.last_counter(), Some(10));
}

#[test]
fn continuity_carries_over_from_one_notification_to_the_next() {
    let mut session = AcquisitionSession::new(&DeviceProfile::ble());
    assert_eq!(session.ingest(&block(254, [0, 0, 0])).len(), 1);
    assert_eq!(session.ingest(&block(255, [0, 0, 0])).len(), 1);
    assert_eq!(session.ingest(&block(0, [0, 0, 0])).len(), 1);
    assert_eq!(session.ingest(&block(0, [0, 0, 0])).len(), 0);
    assert_eq!(session.ingest(&block(3, [0, 0, 0])).len(), 1);
    assert_eq!(session.metrics().lost, 2);
    assert_eq!(session.metrics().duplicates, 1);
}

#[test]
fn notification_of_unexpected_length_is_counted_and_dropped() {
    let mut session = AcquisitionSession::new(&DeviceProfile::ble());
    assert!(session.ingest(&[1, 2, 3, 4]).is_empty());
    assert_eq!(session.metrics().messages, 1);
    assert_eq!(session.metrics().bytes, 4);
    assert_eq!(session.metrics().samples, 0);
    assert_eq!(session.last_counter(), None);
}

#[test]
fn websocket_session_decodes_blocks() {
    let mut session = AcquisitionSession::new(&DeviceProfile::websocket());
    let mut message = Vec::new();
    for counter in [7u8, 8] {
        message.extend(block(counter, [100, 200, 300]));
        message.extend([0u8; 6]);
    }
    let samples = session.ingest(&message);
    assert_eq!(
        samples,
        vec![
            Sample { counter: 7, channels: vec![100, 200, 300] },
            Sample { counter: 8, channels: vec![100, 200, 300] },
        ]
    );
}

#[test]
fn serial_session_uses_the_sequence_byte_as_counter() {
    let profile = DeviceProfile::serial(Preset::ThreeChannel, LinkSettings::new());
    let mut session = AcquisitionSession::new(&profile);
    let frame = |counter: u8| vec![0xC7, 0x7C, counter, 0, 1, 0, 2, 0, 3, 0x01];
    let mut stream = frame(1);
    stream.extend(frame(1));
    stream.extend(frame(4));
    let samples = session.ingest(&stream);
    assert_eq!(
        samples,
        vec![
            Sample { counter: 1, channels: vec![1, 2, 3] },
            Sample { counter: 4, channels: vec![1, 2, 3] },
        ]
    );
    assert_eq!(session.metrics().lost, 2);
    assert_eq!(session.metrics().duplicates, 1);
}

#[test]
fn forwarded_samples_fit_the_sink() {
    let profile = DeviceProfile::serial(Preset::EightChannel, LinkSettings::new());
    let mut session = AcquisitionSession::new(&profile);
    let mut frame = vec![0xC7, 0x7C, 0];
    frame.extend([0u8; 16]);
    frame.push(0x01);
    for sample in session.ingest(&frame) {
        assert_eq!(session.check_push(&sample), Ok(()));
    }
    let short = Sample { counter: 0, channels: vec![1, 2, 3] };
    assert_eq!(
        session.check_push(&short),
        Err(PushError::ChannelMismatch { expected: 8, found: 3 })
    );
}

#[test]
fn failed_push_is_counted_and_the_session_goes_on() {
    let mut session = AcquisitionSession::new(&DeviceProfile::ble());
    assert_eq!(session.push_done(true), Ok(()));
    assert_eq!(session.push_failures(), 0);
    assert_eq!(session.push_done(false), Err(PushError::Rejected));
    assert_eq!(session.push_done(false), Err(PushError::Rejected));
    assert_eq!(session.push_failures(), 2);
    assert_eq!(session.ingest(&block(1, [1, 1, 1])).len(), 1);
}

#[test]
fn taking_the_metrics_starts_them_over() {
    let mut session = AcquisitionSession::new(&DeviceProfile::ble());
    session.ingest(&block(1, [1, 1, 1]));
    session.ingest(&block(5, [1, 1, 1]));
    let taken = session.take_metrics();
    assert_eq!(taken, Metrics { samples: 2, bytes: 14, messages: 2, lost: 3, duplicates: 0 });
    assert_eq!(session.metrics(), Metrics::new());
    assert_eq!(session.last_counter(), Some(5));
}

#[test]
fn counters_stop_at_the_maximum() {
    let mut metrics =
        Metrics { samples: u64::MAX, bytes: u64::MAX - 1, messages: 3, lost: u64::MAX - 2, duplicates: 0 };
    metrics.record_message(10);
    assert_eq!(metrics.bytes, u64::MAX);
    assert_eq!(metrics.messages, 4);
    metrics.record_verdict(Continuity::Gap { lost: 200 });
    assert_eq!(metrics.lost, u64::MAX);
    assert_eq!(metrics.samples, u64::MAX);
    metrics.record_verdict(Continuity::Duplicate);
    assert_eq!(metrics.duplicates, 1);
    let taken = metrics.take();
    assert_eq!(taken.lost, u64::MAX);
    assert_eq!(metrics, Metrics::new());
}

#[test]
fn sink_configuration_follows_the_profile() {
    let serial = SinkConfig::for_profile(&DeviceProfile::serial(
        Preset::SixteenChannel,
        LinkSettings { baud_rate: 115200, sample_rate_hz: 250 },
    ));
    assert_eq!(
        serial,
        SinkConfig {
            transport: TransportKind::Serial,
            channel_count: 16,
            sample_rate_hz: 250,
            format: SampleFormat::Int16,
        }
    );
    assert_eq!(serial.stream_name(), "UDL");
    assert_eq!(serial.stream_type(), "Biopotential_Signals");
    assert_eq!(serial.source_id(), "Chords");
    let ble = SinkConfig::for_profile(&DeviceProfile::ble());
    assert_eq!(ble.channel_count, 3);
    assert_eq!(ble.sample_rate_hz, 500);
    assert_eq!(ble.format, SampleFormat::Float32);
    assert_eq!(ble.stream_name(), "NPG-Lite");
    assert_eq!(ble.stream_type(), "EXG");
    assert_eq!(ble.source_id(), "uidbluetooth007");
    let ws = AcquisitionSession::new(&DeviceProfile::websocket()).sink();
    assert_eq!(ws.stream_name(), "NPG-Lite");
    assert_eq!(ws.source_id(), "uidwifi007");
    assert_eq!(check_sample(&ws, &Sample { counter: 0, channels: vec![1, 2, 3] }), Ok(()));
    assert_eq!(
        check_sample(&ws, &Sample { counter: 0, channels: vec![] }),
        Err(PushError::ChannelMismatch { expected: 3, found: 0 })
    );
}

#[test]
fn rate_window_keeps_the_last_twenty_rates() {
    let mut window = RateWindow::new();
    assert_eq!(window.peak(), None);
    assert_eq!(window.len(), 0);
    window.push(900);
    assert_eq!(window.peak(), Some(900));
    for rate in 0..19u64 {
        window.push(rate);
    }
    assert_eq!(window.len(), RATE_WINDOW);
    assert_eq!(window.peak(), Some(900));
    window.push(500);
    assert_eq!(window.len(), 20);
    assert_eq!(window.peak(), Some(500));
    for _ in 0..20 {
        window.push(7);
    }
    assert_eq!(window.peak(), Some(7));
}

#[test]
fn reports_are_due_once_a_second() {
    assert_eq!(report_due(TransportKind::Serial, 5000, 999), None);
    assert_eq!(report_due(TransportKind::Ble, 5000, 0), None);
    assert_eq!(
        report_due(TransportKind::Serial, 2000, 1000),
        Some(ReportPlan { connection: true, sample_rate: false, sample_lost: false, stream_id: true })
    );
    assert_eq!(
        report_due(TransportKind::Serial, 2001, 1000),
        Some(ReportPlan { connection: true, sample_rate: true, sample_lost: false, stream_id: true })
    );
    assert_eq!(
        report_due(TransportKind::Ble, 1000, 1000),
        Some(ReportPlan { connection: false, sample_rate: true, sample_lost: true, stream_id: true })
    );
    assert_eq!(
        report_due(TransportKind::WebSocket, 1000, 1500),
        Some(ReportPlan { connection: false, sample_rate: true, sample_lost: false, stream_id: false })
    );
}

#[test]
fn websocket_reports_with_single_samples() {
    assert_eq!(STREAM_ID_EVERY, 100);
    assert_eq!(
        sample_report(TransportKind::WebSocket, 1, false),
        ReportPlan { connection: true, sample_rate: false, sample_lost: false, stream_id: false }
    );
    assert_eq!(
        sample_report(TransportKind::WebSocket, 99, true),
        ReportPlan { connection: true, sample_rate: false, sample_lost: true, stream_id: false }
    );
    assert_eq!(
        sample_report(TransportKind::WebSocket, 100, false),
        ReportPlan { connection: true, sample_rate: false, sample_lost: false, stream_id: true }
    );
    assert_eq!(
        sample_report(TransportKind::WebSocket, 300, true),
        ReportPlan { connection: true, sample_rate: false, sample_lost: true, stream_id: true }
    );
}

#[test]
fn other_transports_report_once_a_second_only() {
    let nothing =
        ReportPlan { connection: false, sample_rate: false, sample_lost: false, stream_id: false };
    assert_eq!(sample_report(TransportKind::Serial, 100, true), nothing);
    assert_eq!(sample_report(TransportKind::Ble, 100, true), nothing);
}

#[test]
fn events_and_stream_identifiers_have_their_names() {
    assert_eq!(MetricEvent::Connection.name(), "connection");
    assert_eq!(MetricEvent::SampleRate.name(), "samplerate");
    assert_eq!(MetricEvent::SampleLost.name(), "samplelost");
    assert_eq!(MetricEvent::StreamId.name(), "lsl");
    assert_eq!(announced_stream_id(TransportKind::Serial), "uidserial007");
    assert_eq!(announced_stream_id(TransportKind::Ble), "uidbluetooth007");
    assert_eq!(announced_stream_id(TransportKind::WebSocket), "uidwifi007");
}

#[test]
fn byte_search_finds_runs_anywhere() {
    assert!(contains_bytes(b"hello world", b"world"));
    assert!(contains_bytes(b"hello world", b"hello"));
    assert!(contains_bytes(b"hello world", b"o w"));
    assert!(contains_bytes(b"hello", b""));
    assert!(contains_bytes(b"", b""));
    assert!(!contains_bytes(b"", b"a"));
    assert!(!contains_bytes(b"hello", b"hello!"));
    assert!(!contains_bytes(b"aaab", b"aab "));
    assert!(contains_bytes(b"aaab", b"aab"));
    assert!(matches_at(b"abcdef", b"cd", 2));
    assert!(!matches_at(b"abcdef", b"cd", 1));
}

#[test]
fn text_search_and_comparison_work_on_utf8() {
    assert!(contains_text("Grüße aus Köln", "Köln"));
    assert!(!contains_text("Grüße aus Koln", "Köln"));
    assert!(same_text("µV", "µV"));
    assert!(!same_text("µV", "uV"));
    assert!(!same_text("abc", "abcd"));
}
