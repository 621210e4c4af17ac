//! One acquisition session: the decoder of its transport, the continuity
//! state, the counters and the outlet configuration, bound together from
//! connect to disconnect.

use vstd::prelude::*;
use crate::ble::{reassemble, reassembled};
use crate::continuity::{last_after, verdicts, ContinuityTracker};
use crate::metrics::{saturating_sum, Metrics};
use crate::pipeline::{forward, forwardable};
use crate::profile::{
    DeviceProfile,
    ProfileModel,
    TransportKind,
    BLE_SAMPLE_LEN,
    WEBSOCKET_BLOCK_LEN,
    WIRELESS_CHANNELS,
};
use crate::sample::{counters_of, sample_models, Sample, SampleModel};
use crate::serial::{decoded, remainder, SerialDecoder};
use crate::sink::{check_sample, fits, sink_for, PushError, SinkConfig};
use crate::websocket::{decode_message, message_samples};

verus! {

/// The decoder of a session, by transport. Only the serial one keeps bytes
/// from one chunk to the next.
pub enum TransportDecoder {
    Serial(SerialDecoder),
    Ble,
    WebSocket,
}

/// The live state of one session.
pub struct AcquisitionSession {
    decoder: TransportDecoder,
    tracker: ContinuityTracker,
    metrics: Metrics,
    sink: SinkConfig,
    push_failures: u64,
}

/// The mathematical value of an [`AcquisitionSession`].
pub struct SessionModel {
    pub transport: TransportKind,
    pub frame_size: usize,
    pub channel_count: usize,
    /// Bytes held back by the serial decoder.
    pub pending: Seq<u8>,
    /// The last accepted counter.
    pub last: Option<u8>,
    pub metrics: Metrics,
    pub sink: SinkConfig,
    /// Pushes that the sink did not take.
    pub push_failures: u64,
}

impl SessionModel {
    /// The session of a device that has just connected: nothing pending, the
    /// counter unknown, all counters at zero.
    pub open spec fn fresh(profile: ProfileModel) -> SessionModel {
        SessionModel {
            transport: profile.transport,
            frame_size: profile.frame_size,
            channel_count: profile.channel_count,
            pending: seq![],
            last: None,
            metrics: Metrics::zero(),
            sink: sink_for(profile),
            push_failures: 0,
        }
    }

    /// The samples that the decoder of the session takes out of `bytes`.
    pub open spec fn decodes(self, bytes: Seq<u8>) -> Seq<SampleModel> {
        match self.transport {
            TransportKind::Serial => decoded(
                self.pending + bytes,
                self.frame_size as int,
                self.channel_count as nat,
            ),
            TransportKind::Ble => reassembled(bytes),
            TransportKind::WebSocket => message_samples(bytes),
        }
    }

    /// The samples that go on to the sink when `bytes` arrive.
    pub open spec fn forwards(self, bytes: Seq<u8>) -> Seq<SampleModel> {
        forwardable(self.last, self.decodes(bytes))
    }

    /// The session once `bytes` have arrived.
    pub open spec fn after(self, bytes: Seq<u8>) -> SessionModel {
        SessionModel {
            pending: match self.transport {
                TransportKind::Serial => remainder(self.pending + bytes, self.frame_size as int),
                _ => self.pending,
            },
            last: last_after(self.last, counters_of(self.decodes(bytes))),
            metrics: self.metrics.with_message(bytes.len()).with_verdicts(
                verdicts(self.last, counters_of(self.decodes(bytes))),
            ),
            ..self
        }
    }

    /// The session once the sink has answered a push.
    pub open spec fn after_push(self, delivered: bool) -> SessionModel {
        if delivered {
            self
        } else {
            SessionModel { push_failures: saturating_sum(self.push_failures, 1), ..self }
        }
    }
}

impl View for AcquisitionSession {
    type V = SessionModel;

    closed spec fn view(&self) -> SessionModel {
        SessionModel {
            transport: match self.decoder {
                TransportDecoder::Serial(_) => TransportKind::Serial,
                TransportDecoder::Ble => TransportKind::Ble,
                TransportDecoder::WebSocket => TransportKind::WebSocket,
            },
            frame_size: match self.decoder {
                TransportDecoder::Serial(decoder) => decoder.frame_size(),
                TransportDecoder::Ble => BLE_SAMPLE_LEN,
                TransportDecoder::WebSocket => WEBSOCKET_BLOCK_LEN,
            },
            channel_count: match self.decoder {
                TransportDecoder::Serial(decoder) => decoder.channel_count(),
                _ => WIRELESS_CHANNELS,
            },
            pending: match self.decoder {
                TransportDecoder::Serial(decoder) => decoder.pending(),
                _ => seq![],
            },
            last: self.tracker.last(),
            metrics: self.metrics,
            sink: self.sink,
            push_failures: self.push_failures,
        }
    }
}

impl AcquisitionSession {
    /// The session of a device that has just connected.
    pub fn new(profile: &DeviceProfile) -> (session: AcquisitionSession)
        ensures
            session@ == SessionModel::fresh(profile@),
    {
        let decoder = match SerialDecoder::new(profile) {
            Some(serial) => TransportDecoder::Serial(serial),
            None => match profile.transport() {
                TransportKind::Ble => TransportDecoder::Ble,
                _ => TransportDecoder::WebSocket,
            },
        };
        let session = AcquisitionSession {
            decoder,
            tracker: ContinuityTracker::new(),
            metrics: Metrics::new(),
            sink: SinkConfig::for_profile(profile),
            push_failures: 0,
        };
        assert(session@.pending =~= SessionModel::fresh(profile@).pending);
        session
    }

    /// Takes in what one read, notification or message brought: decodes it,
    /// passes every sample through the continuity tracker and returns those
    /// that go on to the sink, in order.
    pub fn ingest(&mut self, bytes: &[u8]) -> (samples: Vec<Sample>)
        ensures
            sample_models(samples@) == old(self)@.forwards(bytes@),
            final(self)@ == old(self)@.after(bytes@),
    {
        self.metrics.record_message(bytes.len());
        let decoded = match &mut self.decoder {
            TransportDecoder::Serial(serial) => serial.feed(bytes),
            TransportDecoder::Ble => reassemble(bytes),
            TransportDecoder::WebSocket => decode_message(bytes),
        };
        let samples = forward(&mut self.tracker, &mut self.metrics, decoded);
        assert(self@.pending =~= old(self)@.after(bytes@).pending);
        samples
    }

    /// Checks a sample against the outlet before it is pushed.
    pub fn check_push(&self, sample: &Sample) -> (checked: Result<(), PushError>)
        ensures
            checked is Ok <==> fits(self@.sink, sample@.channels.len()),
            checked matches Err(e) ==> e == (PushError::ChannelMismatch {
                expected: self@.sink.channel_count,
                found: sample@.channels.len() as usize,
            }),
    {
        check_sample(&self.sink, sample)
    }

    /// Takes note of what the sink answered to a push. A sample that the sink
    /// did not take is counted and reported; the session goes on.
    pub fn push_done(&mut self, delivered: bool) -> (outcome: Result<(), PushError>)
        ensures
            final(self)@ == old(self)@.after_push(delivered),
            outcome == if delivered {
                Ok::<(), PushError>(())
            } else {
                Err::<(), PushError>(PushError::Rejected)
            },
    {
        if delivered {
            Ok(())
        } else {
            self.push_failures = self.push_failures.saturating_add(1);
            Err(PushError::Rejected)
        }
    }

    /// What the outlet of this session is made with.
    pub fn sink(&self) -> (config: SinkConfig)
        ensures
            config == self@.sink,
    {
        self.sink
    }

    /// The counters gathered so far.
    pub fn metrics(&self) -> (metrics: Metrics)
        ensures
            metrics == self@.metrics,
    {
        self.metrics
    }

    /// Hands out the counters and starts them again from zero.
    pub fn take_metrics(&mut self) -> (taken: Metrics)
        ensures
            taken == old(self)@.metrics,
            final(self)@ == (SessionModel { metrics: Metrics::zero(), ..old(self)@ }),
    {
        self.metrics.take()
    }

    /// The last accepted counter, `None` while it is unknown.
    pub fn last_counter(&self) -> (last: Option<u8>)
        ensures
            last == self@.last,
    {
        self.tracker.last_counter()
    }

    /// Pushes that the sink did not take.
    pub fn push_failures(&self) -> (failures: u64)
        ensures
            failures == self@.push_failures,
    {
        self.push_failures
    }
}

} // verus!
