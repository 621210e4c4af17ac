use exgstream::handshake::Preset;
use exgstream::metrics::Metrics;
use exgstream::profile::{DeviceProfile, LinkSettings, SampleFormat, TransportKind};
use exgstream::sample::Sample;
use exgstream::sink::{PushError, SinkConfig};
use exgstream::supervisor::{
    ble_start_command, ble_stop_command, connect_plan, serial_start_command, Action, ConnectPlan,
    Event, StartCommand, Supervisor, SupervisorError,
};

fn serial_profile() -> DeviceProfile {
    DeviceProfile::serial(Preset::SixChannel, LinkSettings::new())
}

fn frame_with_counter(counter: u8) -> Vec<u8> {
    let mut frame = vec![0xC7, 0x7C, counter];
    frame.extend([0u8; 12]);
    frame.push(0x01);
    frame
}

fn streaming(profile: DeviceProfile) -> Supervisor {
    let mut supervisor = Supervisor::new();
    supervisor.handle(Event::Start(profile));
    supervisor.handle(Event::Connected);
    assert!(supervisor.is_streaming());
    supervisor
}

#[test]
fn connect_plans_follow_the_transport() {
    assert_eq!(
        connect_plan(&serial_profile()),
        ConnectPlan {
            transport: TransportKind::Serial,
            baud_rate: Some(230400),
            timeout_ms: 3000,
            start: StartCommand::Serial { repeats: 3, pause_ms: 1000 },
        }
    );
    assert_eq!(
        connect_plan(&DeviceProfile::ble()),
        ConnectPlan {
            transport: TransportKind::Ble,
            baud_rate: None,
            timeout_ms: 10000,
            start: StartCommand::BleSubscribeThenStart,
        }
    );
    assert_eq!(
        connect_plan(&DeviceProfile::websocket()),
        ConnectPlan {
            transport: TransportKind::WebSocket,
            baud_rate: None,
            timeout_ms: 3000,
            start: StartCommand::Nothing,
        }
    );
}

#[test]
fn commands_have_the_documented_text() {
    assert_eq!(serial_start_command(), "START\r\n");
    assert_eq!(ble_start_command(), "start");
    assert_eq!(ble_stop_command(), "stop");
}

#[test]
fn supervisor_walks_through_connect_and_stream() {
    let mut supervisor = Supervisor::new();
    assert!(supervisor.is_idle());
    let profile = serial_profile();
    assert_eq!(supervisor.handle(Event::Start(profile)), Action::Connect(connect_plan(&profile)));
    assert!(!supervisor.is_idle());
    assert!(!supervisor.is_streaming());
    assert_eq!(
        supervisor.handle(Event::Connected),
        Action::OpenSink(SinkConfig {
            transport: TransportKind::Serial,
            channel_count: 6,
            sample_rate_hz: 500,
            format: SampleFormat::Int16,
        })
    );
    assert!(supervisor.is_streaming());
}

#[test]
fn read_timeout_is_retried_in_place() {
    let mut supervisor = streaming(serial_profile());
    supervisor.ingest(&frame_with_counter(1));
    assert_eq!(supervisor.handle(Event::ReadTimedOut), Action::Read);
    assert!(supervisor.is_streaming());
    let samples = supervisor.ingest(&frame_with_counter(1));
    assert!(samples.is_empty());
}

#[test]
fn lost_transport_leads_to_backoff_and_reconnect() {
    let profile = serial_profile();
    let mut supervisor = streaming(profile);
    assert_eq!(
        supervisor.handle(Event::TransportLost),
        Action::ReleaseAndWait { backoff_ms: 5000 }
    );
    assert!(!supervisor.is_streaming());
    assert!(!supervisor.is_idle());
    assert_eq!(supervisor.handle(Event::BackoffElapsed), Action::Connect(connect_plan(&profile)));
    assert!(matches!(supervisor.handle(Event::Connected), Action::OpenSink(_)));
    assert!(supervisor.is_streaming());
}

#[test]
fn reconnect_starts_with_unknown_continuity_and_empty_buffer() {
    let mut supervisor = streaming(serial_profile());
    let frame = frame_with_counter(9);
    assert_eq!(supervisor.ingest(&frame).len(), 1);
    assert!(supervisor.ingest(&frame[..10]).is_empty());
    supervisor.handle(Event::TransportLost);
    supervisor.handle(Event::BackoffElapsed);
    supervisor.handle(Event::Connected);
    assert!(supervisor.ingest(&frame[10..]).is_empty());
    assert_eq!(supervisor.ingest(&frame), vec![Sample { counter: 9, channels: vec![0; 6] }]);
}

#[test]
fn failed_reconnect_is_tried_again_after_the_backoff() {
    let mut supervisor = streaming(serial_profile());
    supervisor.handle(Event::TransportLost);
    for _ in 0..5 {
        assert!(matches!(supervisor.handle(Event::BackoffElapsed), Action::Connect(_)));
        assert_eq!(supervisor.handle(Event::ConnectFailed), Action::Wait { backoff_ms: 5000 });
        assert!(!supervisor.is_idle());
    }
}

#[test]
fn failed_first_connect_is_a_hard_error() {
    let mut supervisor = Supervisor::new();
    supervisor.handle(Event::Start(DeviceProfile::websocket()));
    assert_eq!(
        supervisor.handle(Event::ConnectFailed),
        Action::Abort(SupervisorError::ConnectFailed)
    );
    assert!(supervisor.is_idle());
}

#[test]
fn sink_failure_is_a_hard_error() {
    let mut supervisor = Supervisor::new();
    supervisor.handle(Event::Start(DeviceProfile::ble()));
    supervisor.handle(Event::Connected);
    assert_eq!(
        supervisor.handle(Event::SinkFailed),
        Action::Abort(SupervisorError::SinkUnavailable)
    );
    assert!(supervisor.is_idle());
}

#[test]
fn stop_is_idempotent_and_safe_from_every_state() {
    let mut idle = Supervisor::new();
    assert_eq!(idle.stop(), Action::Halt { release_sink: false, send_stop: false });
    assert!(idle.is_idle());

    let mut connecting = Supervisor::new();
    connecting.handle(Event::Start(serial_profile()));
    assert_eq!(connecting.stop(), Action::Halt { release_sink: false, send_stop: false });
    assert!(connecting.is_idle());

    let mut serial = streaming(serial_profile());
    assert_eq!(serial.stop(), Action::Halt { release_sink: true, send_stop: false });
    assert_eq!(serial.stop(), Action::Halt { release_sink: false, send_stop: false });
    assert!(serial.is_idle());

    let mut ble = streaming(DeviceProfile::ble());
    assert_eq!(ble.handle(Event::Stop), Action::Halt { release_sink: true, send_stop: true });
    assert!(ble.is_idle());

    let mut waiting = streaming(DeviceProfile::websocket());
    waiting.handle(Event::TransportLost);
    assert_eq!(waiting.stop(), Action::Halt { release_sink: false, send_stop: false });
    assert!(waiting.is_idle());
}

#[test]
fn events_of_a_finished_cycle_are_ignored() {
    let mut supervisor = streaming(serial_profile());
    supervisor.stop();
    assert_eq!(supervisor.handle(Event::ReadTimedOut), Action::Ignore);
    assert_eq!(supervisor.handle(Event::TransportLost), Action::Ignore);
    assert_eq!(supervisor.handle(Event::BackoffElapsed), Action::Ignore);
    assert_eq!(supervisor.handle(Event::Connected), Action::Ignore);
    assert!(supervisor.is_idle());
    assert!(supervisor.ingest(&frame_with_counter(1)).is_empty());
}

#[test]
fn second_start_is_rejected_while_a_device_is_served() {
    let mut supervisor = streaming(serial_profile());
    supervisor.ingest(&frame_with_counter(4));
    assert_eq!(
        supervisor.handle(Event::Start(DeviceProfile::ble())),
        Action::Reject(SupervisorError::Busy)
    );
    assert!(supervisor.is_streaming());
    assert_eq!(supervisor.ingest(&frame_with_counter(5)).len(), 1);
    assert!(supervisor.ingest(&frame_with_counter(5)).is_empty());
}

#[test]
fn supervisor_can_start_again_after_stop() {
    let mut supervisor = streaming(DeviceProfile::ble());
    supervisor.stop();
    assert!(matches!(
        supervisor.handle(Event::Start(DeviceProfile::websocket())),
        Action::Connect(_)
    ));
}

#[test]
fn metrics_exist_only_while_streaming() {
    let mut supervisor = Supervisor::new();
    assert_eq!(supervisor.metrics(), None);
    assert_eq!(supervisor.take_metrics(), None);
    supervisor.handle(Event::Start(serial_profile()));
    assert_eq!(supervisor.metrics(), None);
    supervisor.handle(Event::Connected);
    assert_eq!(supervisor.metrics(), Some(Metrics::new()));
    supervisor.ingest(&frame_with_counter(1));
    supervisor.ingest(&frame_with_counter(3));
    let expected = Metrics { samples: 2, bytes: 32, messages: 2, lost: 1, duplicates: 0 };
    assert_eq!(supervisor.metrics(), Some(expected));
    assert_eq!(supervisor.take_metrics(), Some(expected));
    assert_eq!(supervisor.metrics(), Some(Metrics::new()));
    assert_eq!(supervisor.ingest(&frame_with_counter(4)).len(), 1);
    supervisor.handle(Event::TransportLost);
    assert_eq!(supervisor.metrics(), None);
}

#[test]
fn push_outcome_is_reported_and_streaming_goes_on() {
    let mut supervisor = streaming(DeviceProfile::ble());
    assert_eq!(supervisor.push_done(true), Ok(()));
    assert_eq!(supervisor.push_done(false), Err(PushError::Rejected));
    assert!(supervisor.is_streaming());
    let mut idle = Supervisor::new();
    assert_eq!(idle.push_done(false), Err(PushError::Rejected));
    assert!(idle.is_idle());
}
