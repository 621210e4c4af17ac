//! The acquisition supervisor: the connect, stream and reconnect cycle of one
//! transport, as a function from state and event to next state and action.
//! The caller performs the action and reports what came of it.

use vstd::prelude::*;
use crate::metrics::Metrics;
use crate::profile::{DeviceProfile, ProfileModel, TransportKind};
use crate::sample::{sample_models, Sample, SampleModel};
use crate::session::{AcquisitionSession, SessionModel};
use crate::sink::{sink_for, PushError, SinkConfig};

verus! {

/// How long an attempt to open a serial port or a socket may take.
pub const OPEN_TIMEOUT_MS: u64 = 3000;

/// How long an attempt to connect to a BLE peripheral may take.
pub const BLE_CONNECT_TIMEOUT_MS: u64 = 10000;

/// How long the supervisor waits after a disconnect before it connects again.
pub const RECONNECT_BACKOFF_MS: u64 = 5000;

/// How many times the serial start command is sent.
pub const SERIAL_START_REPEATS: u8 = 3;

/// The pause after each serial start command.
pub const SERIAL_START_PAUSE_MS: u64 = 1000;

/// What makes a device begin to stream once the transport is open.
#[derive(Clone, Copy, Debug, PartialEq, Eq, Structural)]
pub enum StartCommand {
    /// The serial start command, sent `repeats` times, `pause_ms` apart.
    Serial { repeats: u8, pause_ms: u64 },
    /// Subscribe to the data characteristic, then write the start command to
    /// the control characteristic.
    BleSubscribeThenStart,
    /// Data flows as soon as the socket is open.
    Nothing,
}

/// How to open a transport.
#[derive(Clone, Copy, Debug, PartialEq, Eq, Structural)]
pub struct ConnectPlan {
    pub transport: TransportKind,
    pub baud_rate: Option<u32>,
    pub timeout_ms: u64,
    pub start: StartCommand,
}

/// The plan to reach a device.
pub open spec fn plan_for(profile: ProfileModel) -> ConnectPlan {
    ConnectPlan {
        transport: profile.transport,
        baud_rate: profile.baud_rate,
        timeout_ms: match profile.transport {
            TransportKind::Ble => BLE_CONNECT_TIMEOUT_MS,
            _ => OPEN_TIMEOUT_MS,
        },
        start: match profile.transport {
            TransportKind::Serial => StartCommand::Serial {
                repeats: SERIAL_START_REPEATS,
                pause_ms: SERIAL_START_PAUSE_MS,
            },
            TransportKind::Ble => StartCommand::BleSubscribeThenStart,
            TransportKind::WebSocket => StartCommand::Nothing,
        },
    }
}

/// The plan to reach a device.
pub fn connect_plan(profile: &DeviceProfile) -> (plan: ConnectPlan)
    ensures
        plan == plan_for(profile@),
{
    let transport = profile.transport();
    ConnectPlan {
        transport,
        baud_rate: profile.baud_rate(),
        timeout_ms: match transport {
            TransportKind::Ble => BLE_CONNECT_TIMEOUT_MS,
            _ => OPEN_TIMEOUT_MS,
        },
        start: match transport {
            TransportKind::Serial => StartCommand::Serial {
                repeats: SERIAL_START_REPEATS,
                pause_ms: SERIAL_START_PAUSE_MS,
            },
            TransportKind::Ble => StartCommand::BleSubscribeThenStart,
            TransportKind::WebSocket => StartCommand::Nothing,
        },
    }
}

/// The command that makes a serial device stream.
pub fn serial_start_command() -> (command: &'static str)
    ensures
        command@ == "START\r\n"@,
{
    "START\r\n"
}

/// The command that makes a BLE device stream, written to the control
/// characteristic.
pub fn ble_start_command() -> (command: &'static str)
    ensures
        command@ == "start"@,
{
    "start"
}

/// The command that makes a BLE device stop, written to the control
/// characteristic.
pub fn ble_stop_command() -> (command: &'static str)
    ensures
        command@ == "stop"@,
{
    "stop"
}

/// What the caller reports to the supervisor.
#[derive(Clone, Copy, Debug)]
pub enum Event {
    /// The collaborator asks for acquisition from this device.
    Start(DeviceProfile),
    /// The transport is open and the start command has gone out.
    Connected,
    /// The transport could not be opened, or the start command failed.
    ConnectFailed,
    /// The outlet could not be made.
    SinkFailed,
    /// A read ran into its timeout.
    ReadTimedOut,
    /// A read or write failed for good, or the stream has ended.
    TransportLost,
    /// The wait after a disconnect is over.
    BackoffElapsed,
    /// The collaborator asks for the end of acquisition.
    Stop,
}

/// Why the supervisor gave up or turned a request down.
#[derive(Clone, Copy, Debug, PartialEq, Eq, Structural)]
pub enum SupervisorError {
    /// The first attempt to reach the device failed.
    ConnectFailed,
    /// The outlet could not be made.
    SinkUnavailable,
    /// A session is under way already.
    Busy,
}

/// What the caller is to do next.
#[derive(Clone, Copy, Debug, PartialEq, Eq, Structural)]
pub enum Action {
    /// Nothing: the event belongs to a cycle that is over.
    Ignore,
    /// Open the transport and make the device stream, then report
    /// `Connected` or `ConnectFailed`.
    Connect(ConnectPlan),
    /// Make the outlet, then read.
    OpenSink(SinkConfig),
    /// Read again.
    Read,
    /// Close the transport and release the outlet, wait, then report
    /// `BackoffElapsed`.
    ReleaseAndWait { backoff_ms: u64 },
    /// Wait, then report `BackoffElapsed`.
    Wait { backoff_ms: u64 },
    /// Stop reading and close what is open; release the outlet where
    /// `release_sink` says so; where `send_stop` says so, first write the stop
    /// command to the control characteristic and unsubscribe.
    Halt { release_sink: bool, send_stop: bool },
    /// Close what is open, release the outlet where there is one, and hand
    /// the error to the collaborator.
    Abort(SupervisorError),
    /// Turn the request down and go on as before.
    Reject(SupervisorError),
}

/// The state of the supervisor. A session exists while it streams and at no
/// other time.
pub enum Phase {
    Idle,
    Connecting { profile: DeviceProfile, reconnect: bool },
    Streaming { profile: DeviceProfile, session: AcquisitionSession },
    Disconnected { profile: DeviceProfile },
}

/// The mathematical value of a [`Phase`].
pub enum PhaseModel {
    Idle,
    Connecting { profile: ProfileModel, reconnect: bool },
    Streaming { profile: ProfileModel, session: SessionModel },
    Disconnected { profile: ProfileModel },
}

impl View for Phase {
    type V = PhaseModel;

    open spec fn view(&self) -> PhaseModel {
        match self {
            Phase::Idle => PhaseModel::Idle,
            Phase::Connecting { profile, reconnect } => PhaseModel::Connecting {
                profile: profile@,
                reconnect: *reconnect,
            },
            Phase::Streaming { profile, session } => PhaseModel::Streaming {
                profile: profile@,
                session: session@,
            },
            Phase::Disconnected { profile } => PhaseModel::Disconnected { profile: profile@ },
        }
    }
}

/// The state that follows `phase` on `event`.
pub open spec fn next_phase(phase: PhaseModel, event: Event) -> PhaseModel {
    match (phase, event) {
        (_, Event::Stop) => PhaseModel::Idle,
        (PhaseModel::Idle, Event::Start(profile)) => PhaseModel::Connecting {
            profile: profile@,
            reconnect: false,
        },
        (PhaseModel::Connecting { profile, reconnect }, Event::Connected) => PhaseModel::Streaming {
            profile,
            session: SessionModel::fresh(profile),
        },
        (PhaseModel::Connecting { profile, reconnect }, Event::ConnectFailed) => if reconnect {
            PhaseModel::Disconnected { profile }
        } else {
            PhaseModel::Idle
        },
        (PhaseModel::Streaming { profile, session }, Event::TransportLost) => {
            PhaseModel::Disconnected { profile }
        },
        (PhaseModel::Streaming { profile, session }, Event::SinkFailed) => PhaseModel::Idle,
        (PhaseModel::Disconnected { profile }, Event::BackoffElapsed) => PhaseModel::Connecting {
            profile,
            reconnect: true,
        },
        _ => phase,
    }
}

/// What the caller is to do when `event` arrives in `phase`.
pub open spec fn action_for(phase: PhaseModel, event: Event) -> Action {
    match (phase, event) {
        (PhaseModel::Streaming { profile, session }, Event::Stop) => Action::Halt {
            release_sink: true,
            send_stop: profile.transport is Ble,
        },
        (_, Event::Stop) => Action::Halt { release_sink: false, send_stop: false },
        (PhaseModel::Idle, Event::Start(profile)) => Action::Connect(plan_for(profile@)),
        (_, Event::Start(_)) => Action::Reject(SupervisorError::Busy),
        (PhaseModel::Connecting { profile, reconnect }, Event::Connected) => Action::OpenSink(
            sink_for(profile),
        ),
        (PhaseModel::Connecting { profile, reconnect }, Event::ConnectFailed) => if reconnect {
            Action::Wait { backoff_ms: RECONNECT_BACKOFF_MS }
        } else {
            Action::Abort(SupervisorError::ConnectFailed)
        },
        (PhaseModel::Streaming { profile, session }, Event::ReadTimedOut) => Action::Read,
        (PhaseModel::Streaming { profile, session }, Event::TransportLost) => {
            Action::ReleaseAndWait { backoff_ms: RECONNECT_BACKOFF_MS }
        },
        (PhaseModel::Streaming { profile, session }, Event::SinkFailed) => Action::Abort(
            SupervisorError::SinkUnavailable,
        ),
        (PhaseModel::Disconnected { profile }, Event::BackoffElapsed) => Action::Connect(
            plan_for(profile),
        ),
        _ => Action::Ignore,
    }
}

/// The supervisor of one transport. It owns the one session there can be.
pub struct Supervisor {
    phase: Phase,
}

impl View for Supervisor {
    type V = PhaseModel;

    closed spec fn view(&self) -> PhaseModel {
        self.phase@
    }
}

impl Supervisor {
    /// A supervisor with nothing to do yet.
    pub fn new() -> (supervisor: Supervisor)
        ensures
            supervisor@ == PhaseModel::Idle,
    {
        Supervisor { phase: Phase::Idle }
    }

    /// Takes an event, moves to the next state and says what to do.
    pub fn handle(&mut self, event: Event) -> (action: Action)
        ensures
            final(self)@ == next_phase(old(self)@, event),
            action == action_for(old(self)@, event),
    {
        let mut phase = Phase::Idle;
        core::mem::swap(&mut self.phase, &mut phase);
        let (next, action) = match (phase, event) {
            (Phase::Streaming { profile, session }, Event::Stop) => {
                let send_stop = match profile.transport() {
                    TransportKind::Ble => true,
                    _ => false,
                };
                (Phase::Idle, Action::Halt { release_sink: true, send_stop })
            },
            (_, Event::Stop) => (Phase::Idle, Action::Halt { release_sink: false, send_stop: false }),
            (Phase::Idle, Event::Start(profile)) => {
                let plan = connect_plan(&profile);
                (Phase::Connecting { profile, reconnect: false }, Action::Connect(plan))
            },
            (other, Event::Start(_)) => (other, Action::Reject(SupervisorError::Busy)),
            (Phase::Connecting { profile, reconnect }, Event::Connected) => {
                let session = AcquisitionSession::new(&profile);
                let config = SinkConfig::for_profile(&profile);
                (Phase::Streaming { profile, session }, Action::OpenSink(config))
            },
            (Phase::Connecting { profile, reconnect }, Event::ConnectFailed) => {
                if reconnect {
                    (
                        Phase::Disconnected { profile },
                        Action::Wait { backoff_ms: RECONNECT_BACKOFF_MS },
                    )
                } else {
                    (Phase::Idle, Action::Abort(SupervisorError::ConnectFailed))
                }
            },
            (Phase::Streaming { profile, session }, Event::ReadTimedOut) => (
                Phase::Streaming { profile, session },
                Action::Read,
            ),
            (Phase::Streaming { profile, session }, Event::TransportLost) => (
                Phase::Disconnected { profile },
                Action::ReleaseAndWait { backoff_ms: RECONNECT_BACKOFF_MS },
            ),
            (Phase::Streaming { profile, session }, Event::SinkFailed) => (
                Phase::Idle,
                Action::Abort(SupervisorError::SinkUnavailable),
            ),
            (Phase::Disconnected { profile }, Event::BackoffElapsed) => {
                let plan = connect_plan(&profile);
                (Phase::Connecting { profile, reconnect: true }, Action::Connect(plan))
            },
            (other, _) => (other, Action::Ignore),
        };
        self.phase = next;
        action
    }

    /// Ends acquisition from any state: the session, if there is one, is
    /// destroyed.
    pub fn stop(&mut self) -> (action: Action)
        ensures
            final(self)@ == PhaseModel::Idle,
            action == action_for(old(self)@, Event::Stop),
    {
        self.handle(Event::Stop)
    }

    /// Whether a session is under way: the reader goes on while this holds.
    pub fn is_streaming(&self) -> (streaming: bool)
        ensures
            streaming == (self@ is Streaming),
    {
        match &self.phase {
            Phase::Streaming { .. } => true,
            _ => false,
        }
    }

    /// Whether the supervisor has nothing to do.
    pub fn is_idle(&self) -> (idle: bool)
        ensures
            idle == (self@ is Idle),
    {
        match &self.phase {
            Phase::Idle => true,
            _ => false,
        }
    }

    /// Takes in what one read, notification or message brought and returns
    /// the samples that go on to the sink. Outside a session the bytes are
    /// dropped.
    pub fn ingest(&mut self, bytes: &[u8]) -> (samples: Vec<Sample>)
        ensures
            sample_models(samples@) == forwarded_in(old(self)@, bytes@),
            final(self)@ == after_ingest(old(self)@, bytes@),
    {
        match &mut self.phase {
            Phase::Streaming { profile, session } => session.ingest(bytes),
            _ => {
                let none: Vec<Sample> = Vec::new();
                assert(sample_models(none@) =~= forwarded_in(old(self)@, bytes@));
                none
            },
        }
    }

    /// The counters of the session; `None` outside a session.
    pub fn metrics(&self) -> (metrics: Option<Metrics>)
        ensures
            metrics == metrics_in(self@),
    {
        match &self.phase {
            Phase::Streaming { profile, session } => Some(session.metrics()),
            _ => None,
        }
    }

    /// Hands out the counters of the session and starts them again from zero;
    /// `None` outside a session.
    pub fn take_metrics(&mut self) -> (taken: Option<Metrics>)
        ensures
            taken == metrics_in(old(self)@),
            final(self)@ == with_metrics_taken(old(self)@),
    {
        match &mut self.phase {
            Phase::Streaming { profile, session } => Some(session.take_metrics()),
            _ => None,
        }
    }

    /// Takes note of what the sink answered to a push. A sample that the sink
    /// did not take is counted and reported; the session goes on. Outside a
    /// session nothing changes.
    pub fn push_done(&mut self, delivered: bool) -> (outcome: Result<(), PushError>)
        ensures
            final(self)@ == after_push(old(self)@, delivered),
            outcome == if delivered {
                Ok::<(), PushError>(())
            } else {
                Err::<(), PushError>(PushError::Rejected)
            },
    {
        match &mut self.phase {
            Phase::Streaming { profile, session } => session.push_done(delivered),
            _ => if delivered {
                Ok(())
            } else {
                Err(PushError::Rejected)
            },
        }
    }
}

/// The counters of the session of `phase`, if there is one.
pub open spec fn metrics_in(phase: PhaseModel) -> Option<Metrics> {
    match phase {
        PhaseModel::Streaming { profile, session } => Some(session.metrics),
        _ => None,
    }
}

/// The state once the counters of the session have been taken.
pub open spec fn with_metrics_taken(phase: PhaseModel) -> PhaseModel {
    match phase {
        PhaseModel::Streaming { profile, session } => PhaseModel::Streaming {
            profile,
            session: SessionModel { metrics: Metrics::zero(), ..session },
        },
        _ => phase,
    }
}

/// The state once the sink has answered a push.
pub open spec fn after_push(phase: PhaseModel, delivered: bool) -> PhaseModel {
    match phase {
        PhaseModel::Streaming { profile, session } => PhaseModel::Streaming {
            profile,
            session: session.after_push(delivered),
        },
        _ => phase,
    }
}

/// The samples that go on to the sink when `bytes` arrive in `phase`.
pub open spec fn forwarded_in(phase: PhaseModel, bytes: Seq<u8>) -> Seq<SampleModel> {
    match phase {
        PhaseModel::Streaming { profile, session } => session.forwards(bytes),
        _ => seq![],
    }
}

/// The state once `bytes` have arrived in `phase`.
pub open spec fn after_ingest(phase: PhaseModel, bytes: Seq<u8>) -> PhaseModel {
    match phase {
        PhaseModel::Streaming { profile, session } => PhaseModel::Streaming {
            profile,
            session: session.after(bytes),
        },
        _ => phase,
    }
}

} // verus!
