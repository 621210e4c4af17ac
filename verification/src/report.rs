//! What is reported to the collaborator while a session streams, and when.

use vstd::prelude::*;
use crate::profile::TransportKind;

verus! {

/// The time between two reports.
pub const REPORT_INTERVAL_MS: u64 = 1000;

/// How long a serial session has to run before its sample rate is reported.
pub const RATE_WARMUP_MS: u64 = 2000;

/// The named events that carry the metrics.
#[derive(Clone, Copy, Debug, PartialEq, Eq, Structural)]
pub enum MetricEvent {
    Connection,
    SampleRate,
    SampleLost,
    StreamId,
}

impl MetricEvent {
    /// The name of the event, as text.
    pub open spec fn name_of(self) -> Seq<char> {
        match self {
            MetricEvent::Connection => "connection"@,
            MetricEvent::SampleRate => "samplerate"@,
            MetricEvent::SampleLost => "samplelost"@,
            MetricEvent::StreamId => "lsl"@,
        }
    }

    /// The name under which the event is emitted.
    pub fn name(self) -> (name: &'static str)
        ensures
            name@ == self.name_of(),
    {
        match self {
            MetricEvent::Connection => "connection",
            MetricEvent::SampleRate => "samplerate",
            MetricEvent::SampleLost => "samplelost",
            MetricEvent::StreamId => "lsl",
        }
    }
}

/// The stream identifier that each transport announces.
pub open spec fn announced_id_of(transport: TransportKind) -> Seq<char> {
    match transport {
        TransportKind::Serial => "uidserial007"@,
        TransportKind::Ble => "uidbluetooth007"@,
        TransportKind::WebSocket => "uidwifi007"@,
    }
}

/// The stream identifier that a transport announces with the `lsl` event.
pub fn announced_stream_id(transport: TransportKind) -> (id: &'static str)
    ensures
        id@ == announced_id_of(transport),
{
    match transport {
        TransportKind::Serial => "uidserial007",
        TransportKind::Ble => "uidbluetooth007",
        TransportKind::WebSocket => "uidwifi007",
    }
}

/// Which events a report holds.
#[derive(Clone, Copy, Debug, PartialEq, Eq, Structural)]
pub struct ReportPlan {
    pub connection: bool,
    pub sample_rate: bool,
    pub sample_lost: bool,
    pub stream_id: bool,
}

/// What the once-a-second report holds, `since_last_ms` after the last one,
/// in a session that has run for `since_start_ms`: nothing before the
/// interval is over; then, by transport, the connection status, the sample
/// rate (on serial only after the warm-up), the lost-sample count and the
/// stream identifier. What goes out with single samples is in
/// [`sample_report_at`].
pub open spec fn report_at(transport: TransportKind, since_start_ms: u64, since_last_ms: u64) -> Option<
    ReportPlan,
> {
    if since_last_ms < REPORT_INTERVAL_MS {
        None
    } else {
        Some(
            match transport {
                TransportKind::Serial => ReportPlan {
                    connection: true,
                    sample_rate: since_start_ms > RATE_WARMUP_MS,
                    sample_lost: false,
                    stream_id: true,
                },
                TransportKind::Ble => ReportPlan {
                    connection: false,
                    sample_rate: true,
                    sample_lost: true,
                    stream_id: true,
                },
                TransportKind::WebSocket => ReportPlan {
                    connection: false,
                    sample_rate: true,
                    sample_lost: false,
                    stream_id: false,
                },
            },
        )
    }
}

/// Says which events are due, if any.
pub fn report_due(transport: TransportKind, since_start_ms: u64, since_last_ms: u64) -> (plan:
    Option<ReportPlan>)
    ensures
        plan == report_at(transport, since_start_ms, since_last_ms),
{
    if since_last_ms < REPORT_INTERVAL_MS {
        return None;
    }
    Some(
        match transport {
            TransportKind::Serial => ReportPlan {
                connection: true,
                sample_rate: since_start_ms > RATE_WARMUP_MS,
                sample_lost: false,
                stream_id: true,
            },
            TransportKind::Ble => ReportPlan {
                connection: false,
                sample_rate: true,
                sample_lost: true,
                stream_id: true,
            },
            TransportKind::WebSocket => ReportPlan {
                connection: false,
                sample_rate: true,
                sample_lost: false,
                stream_id: false,
            },
        },
    )
}

/// After how many samples the WebSocket transport announces its stream
/// identifier again.
pub const STREAM_ID_EVERY: u64 = 100;

/// What goes out with one forwarded sample, the `forwarded`-th of its session,
/// where `lost` says that samples were found missing before it. Only the
/// WebSocket transport reports with single samples: the connection status
/// with every sample, the lost-sample count with every loss, the stream
/// identifier with every hundredth sample. The sample rate goes out with the
/// once-a-second report alone.
pub open spec fn sample_report_at(transport: TransportKind, forwarded: u64, lost: bool) -> ReportPlan {
    match transport {
        TransportKind::WebSocket => ReportPlan {
            connection: true,
            sample_rate: false,
            sample_lost: lost,
            stream_id: forwarded % STREAM_ID_EVERY == 0,
        },
        _ => ReportPlan {
            connection: false,
            sample_rate: false,
            sample_lost: false,
            stream_id: false,
        },
    }
}

/// Says which events go out with one forwarded sample.
pub fn sample_report(transport: TransportKind, forwarded: u64, lost: bool) -> (plan: ReportPlan)
    ensures
        plan == sample_report_at(transport, forwarded, lost),
{
    match transport {
        TransportKind::WebSocket => ReportPlan {
            connection: true,
            sample_rate: false,
            sample_lost: lost,
            stream_id: forwarded % STREAM_ID_EVERY == 0,
        },
        _ => ReportPlan {
            connection: false,
            sample_rate: false,
            sample_lost: false,
            stream_id: false,
        },
    }
}

} // verus!
