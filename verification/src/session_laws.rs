//! What holds of a session on every input.

use vstd::prelude::*;
use crate::ble::reassembled;
use crate::continuity::{advance, classify};
use crate::pipeline::forwardable;
use crate::profile::{ProfileModel, TransportKind, WIRELESS_CHANNELS};
use crate::sample::SampleModel;
use crate::serial::decoded;
use crate::session::SessionModel;
use crate::sink::fits;
use crate::websocket::message_samples;
use crate::wire::SERIAL_OVERHEAD;

verus! {

/// Whether the parts of a session agree: the outlet has the channels that the
/// decoder reads, and a frame can hold them.
pub open spec fn coherent(session: SessionModel) -> bool {
    &&& session.sink.channel_count == session.channel_count
    &&& session.sink.transport == session.transport
    &&& (session.transport is Serial ==> session.frame_size >= SERIAL_OVERHEAD + 2
        * session.channel_count)
    &&& (!(session.transport is Serial) ==> session.channel_count == WIRELESS_CHANNELS)
}

/// The samples that pass the continuity check are samples that came in, in
/// the order in which they came.
pub proof fn lemma_forwardable_keeps_samples(last: Option<u8>, samples: Seq<SampleModel>)
    ensures
        forwardable(last, samples).len() <= samples.len(),
        forall|i: int|
            0 <= i < forwardable(last, samples).len() ==> samples.contains(
                #[trigger] forwardable(last, samples)[i],
            ),
    decreases samples.len(),
{
    if samples.len() > 0 {
        let rest = forwardable(advance(last, samples[0].counter), samples.skip(1));
        lemma_forwardable_keeps_samples(advance(last, samples[0].counter), samples.skip(1));
        assert forall|i: int| 0 <= i < forwardable(last, samples).len() implies samples.contains(
            #[trigger] forwardable(last, samples)[i],
        ) by {
            let out = forwardable(last, samples);
            if classify(last, samples[0].counter).accepted() {
                if i == 0 {
                    assert(out[0] == samples[0]);
                } else {
                    assert(out[i] == rest[i - 1]);
                    let k = choose|k: int| 0 <= k < samples.skip(1).len() && samples.skip(1)[k]
                        == rest[i - 1];
                    assert(samples[k + 1] == rest[i - 1]);
                }
            } else {
                assert(out[i] == rest[i]);
                let k = choose|k: int| 0 <= k < samples.skip(1).len() && samples.skip(1)[k]
                    == rest[i];
                assert(samples[k + 1] == rest[i]);
            }
        }
    }
}

/// The session of a consistent profile is coherent, and stays so whatever
/// arrives.
pub proof fn lemma_sessions_stay_coherent(profile: ProfileModel, session: SessionModel, bytes: Seq<u8>)
    requires
        profile.consistent(),
        coherent(session),
    ensures
        coherent(SessionModel::fresh(profile)),
        coherent(session.after(bytes)),
        coherent(session.after_push(false)),
{
}

/// Every sample that a coherent session forwards has one reading for each
/// channel of its outlet: the check before the push never fails on it.
pub proof fn lemma_forwarded_samples_fit_the_sink(session: SessionModel, bytes: Seq<u8>)
    requires
        coherent(session),
    ensures
        forall|i: int|
            0 <= i < session.forwards(bytes).len() ==> fits(
                session.sink,
                (#[trigger] session.forwards(bytes)[i]).channels.len(),
            ),
{
    let decoded_now = session.decodes(bytes);
    lemma_forwardable_keeps_samples(session.last, decoded_now);
    assert forall|i: int| 0 <= i < session.forwards(bytes).len() implies fits(
        session.sink,
        (#[trigger] session.forwards(bytes)[i]).channels.len(),
    ) by {
        let sample = session.forwards(bytes)[i];
        assert(decoded_now.contains(sample));
        let k = choose|k: int| 0 <= k < decoded_now.len() && decoded_now[k] == sample;
        match session.transport {
            TransportKind::Serial => {
                assert(decoded_now == decoded(
                    session.pending + bytes,
                    session.frame_size as int,
                    session.channel_count as nat,
                ));
            },
            TransportKind::Ble => {
                assert(decoded_now == reassembled(bytes));
            },
            TransportKind::WebSocket => {
                assert(decoded_now == message_samples(bytes));
            },
        }
        assert(decoded_now[k].channels.len() == session.channel_count);
    }
}

} // verus!
