//! The serial frame decoder: finds marker-delimited frames in a byte stream
//! and resynchronises, one byte at a time, on whatever lies between them.

use vstd::prelude::*;
use crate::profile::{DeviceProfile, TransportKind};
use crate::sample::{sample_models, Sample, SampleModel};
use crate::wire::{
    channels_at,
    read_channels,
    END_MARKER,
    SERIAL_COUNTER_OFFSET,
    SERIAL_OVERHEAD,
    SERIAL_PAYLOAD_OFFSET,
    START_MARKER_0,
    START_MARKER_1,
};

verus! {

/// Whether the `frame_size` bytes that start at `at` are all there and carry
/// the start marker in front and the end marker at the back.
pub open spec fn frame_at(bytes: Seq<u8>, at: int, frame_size: int) -> bool {
    &&& 0 <= at
    &&& at + frame_size <= bytes.len()
    &&& bytes[at] == START_MARKER_0
    &&& bytes[at + 1] == START_MARKER_1
    &&& bytes[at + frame_size - 1] == END_MARKER
}

/// The offsets at which the decoder takes a frame out of `bytes`, scanning
/// from `from`: a frame-shaped window is taken whole, any other byte is
/// dropped, and the scan stops where fewer than `frame_size` bytes are left.
pub open spec fn frame_starts(bytes: Seq<u8>, from: int, frame_size: int) -> Seq<int>
    decreases bytes.len() - from,
{
    if from < 0 || frame_size < 2 || from + frame_size > bytes.len() {
        seq![]
    } else if frame_at(bytes, from, frame_size) {
        seq![from] + frame_starts(bytes, from + frame_size, frame_size)
    } else {
        frame_starts(bytes, from + 1, frame_size)
    }
}

/// The offset at which that scan stops: the bytes from there on are kept for
/// the next chunk.
pub open spec fn scan_end(bytes: Seq<u8>, from: int, frame_size: int) -> int
    decreases bytes.len() - from,
{
    if from < 0 || frame_size < 2 || from + frame_size > bytes.len() {
        from
    } else if frame_at(bytes, from, frame_size) {
        scan_end(bytes, from + frame_size, frame_size)
    } else {
        scan_end(bytes, from + 1, frame_size)
    }
}

/// The sample held by the frame that starts at `at`: the sequence byte, then
/// `channel_count` big-endian channel values.
pub open spec fn frame_sample(bytes: Seq<u8>, at: int, channel_count: nat) -> SampleModel {
    SampleModel {
        counter: bytes[at + SERIAL_COUNTER_OFFSET as int],
        channels: channels_at(bytes, at + SERIAL_PAYLOAD_OFFSET as int, channel_count),
    }
}

/// The samples of the frames that start at `starts`.
pub open spec fn samples_at(bytes: Seq<u8>, starts: Seq<int>, channel_count: nat) -> Seq<
    SampleModel,
> {
    starts.map_values(|at: int| frame_sample(bytes, at, channel_count))
}

/// The samples that the decoder emits for `bytes`, in stream order.
pub open spec fn decoded(bytes: Seq<u8>, frame_size: int, channel_count: nat) -> Seq<SampleModel> {
    samples_at(bytes, frame_starts(bytes, 0, frame_size), channel_count)
}

/// The bytes that the decoder keeps for the next chunk.
pub open spec fn remainder(bytes: Seq<u8>, frame_size: int) -> Seq<u8> {
    bytes.skip(scan_end(bytes, 0, frame_size))
}

/// The scan stops inside the buffer, and with less than one frame left.
pub proof fn lemma_scan_end_bounds(bytes: Seq<u8>, from: int, frame_size: int)
    requires
        0 <= from <= bytes.len(),
        frame_size >= 2,
    ensures
        from <= scan_end(bytes, from, frame_size) <= bytes.len(),
        bytes.len() - scan_end(bytes, from, frame_size) < frame_size,
    decreases bytes.len() - from,
{
    if from + frame_size > bytes.len() {
    } else if frame_at(bytes, from, frame_size) {
        lemma_scan_end_bounds(bytes, from + frame_size, frame_size);
    } else {
        lemma_scan_end_bounds(bytes, from + 1, frame_size);
    }
}

/// Decodes the frame that starts at `at`.
pub fn decode_frame(bytes: &[u8], at: usize, channel_count: usize) -> (sample: Sample)
    requires
        at + SERIAL_OVERHEAD + 2 * channel_count <= bytes@.len(),
    ensures
        sample@ == frame_sample(bytes@, at as int, channel_count as nat),
{
    let len: usize = bytes.len();
    assert(at + SERIAL_OVERHEAD + 2 * channel_count <= len);
    let counter = bytes[at + SERIAL_COUNTER_OFFSET];
    let channels = read_channels(bytes, at + SERIAL_PAYLOAD_OFFSET, channel_count);
    Sample { counter, channels }
}

/// The decoder of one serial session: framing parameters and the bytes that
/// have arrived but do not make up a frame yet.
pub struct SerialDecoder {
    frame_size: usize,
    channel_count: usize,
    buffer: Vec<u8>,
}

impl SerialDecoder {
    #[verifier::type_invariant]
    spec fn well_formed(self) -> bool {
        &&& self.channel_count >= 1
        &&& self.frame_size >= SERIAL_OVERHEAD + 2 * self.channel_count
    }

    /// Bytes in one frame.
    pub closed spec fn frame_size(self) -> usize {
        self.frame_size
    }

    /// Channels in one frame.
    pub closed spec fn channel_count(self) -> usize {
        self.channel_count
    }

    /// The bytes held back for the next chunk.
    pub closed spec fn pending(self) -> Seq<u8> {
        self.buffer@
    }

    /// A decoder for the framing of `profile`, with nothing pending. `None`
    /// where the profile is not that of a serial device.
    pub fn new(profile: &DeviceProfile) -> (decoder: Option<SerialDecoder>)
        ensures
            decoder is Some <==> profile@.transport is Serial,
            decoder matches Some(d) ==> {
                &&& d.frame_size() == profile@.frame_size
                &&& d.channel_count() == profile@.channel_count
                &&& d.pending() == Seq::<u8>::empty()
            },
    {
        match profile.transport() {
            TransportKind::Serial => Some(
                SerialDecoder {
                    frame_size: profile.frame_size(),
                    channel_count: profile.channel_count(),
                    buffer: Vec::new(),
                },
            ),
            _ => None,
        }
    }

    /// How many bytes are held back for the next chunk.
    pub fn pending_len(&self) -> (len: usize)
        ensures
            len == self.pending().len(),
    {
        self.buffer.len()
    }

    /// Drops the bytes held back, as on every new connection.
    pub fn reset(&mut self)
        ensures
            final(self).frame_size() == old(self).frame_size(),
            final(self).channel_count() == old(self).channel_count(),
            final(self).pending() == Seq::<u8>::empty(),
    {
        proof {
            use_type_invariant(&*self);
        }
        self.buffer = Vec::new();
    }

    /// Appends `chunk` to the pending bytes and takes out every frame that is
    /// complete. Bytes that belong to no frame are dropped one at a time;
    /// less than one frame is held back afterwards.
    pub fn feed(&mut self, chunk: &[u8]) -> (samples: Vec<Sample>)
        ensures
            final(self).frame_size() == old(self).frame_size(),
            final(self).channel_count() == old(self).channel_count(),
            sample_models(samples@) == decoded(
                old(self).pending() + chunk@,
                old(self).frame_size() as int,
                old(self).channel_count() as nat,
            ),
            final(self).pending() == remainder(
                old(self).pending() + chunk@,
                old(self).frame_size() as int,
            ),
            final(self).pending().len() < old(self).frame_size(),
    {
        proof {
            use_type_invariant(&*self);
        }
        let frame_size: usize = self.frame_size;
        let channel_count: usize = self.channel_count;
        let mut buffer: Vec<u8> = Vec::new();
        core::mem::swap(&mut self.buffer, &mut buffer);
        buffer.extend_from_slice(chunk);
        let ghost all = buffer@;
        assert(all == old(self).pending() + chunk@);
        assert(self.frame_size == old(self).frame_size);
        let total: usize = buffer.len();
        let mut samples: Vec<Sample> = Vec::new();
        let ghost mut starts: Seq<int> = seq![];
        let mut at: usize = 0;
        proof {
            assert(starts + frame_starts(all, 0, frame_size as int) =~= frame_starts(
                all,
                0,
                frame_size as int,
            ));
        }
        while total - at >= frame_size
            invariant
                at <= total,
                total == all.len(),
                buffer@ == all,
                channel_count >= 1,
                frame_size >= SERIAL_OVERHEAD + 2 * channel_count,
                samples@.len() == starts.len(),
                sample_models(samples@) == samples_at(all, starts, channel_count as nat),
                frame_starts(all, 0, frame_size as int) == starts + frame_starts(
                    all,
                    at as int,
                    frame_size as int,
                ),
                scan_end(all, 0, frame_size as int) == scan_end(all, at as int, frame_size as int),
            decreases total - at,
        {
            if buffer[at] == START_MARKER_0 && buffer[at + 1] == START_MARKER_1 && buffer[at
                + frame_size - 1] == END_MARKER {
                let sample = decode_frame(buffer.as_slice(), at, channel_count);
                let ghost before = samples@;
                let ghost starts_before = starts;
                samples.push(sample);
                proof {
                    starts = starts.push(at as int);
                    assert(starts_before + (seq![at as int] + frame_starts(
                        all,
                        at + frame_size,
                        frame_size as int,
                    )) =~= starts + frame_starts(all, at + frame_size, frame_size as int));
                    assert forall|j: int| 0 <= j < starts.len() implies sample_models(
                        samples@,
                    )[j] == samples_at(all, starts, channel_count as nat)[j] by {
                        if j < starts.len() - 1 {
                            assert(samples@[j] == before[j]);
                            assert(sample_models(before)[j] == samples_at(
                                all,
                                starts_before,
                                channel_count as nat,
                            )[j]);
                        }
                    }
                    assert(sample_models(samples@) =~= samples_at(
                        all,
                        starts,
                        channel_count as nat,
                    ));
                }
                at += frame_size;
            } else {
                at += 1;
            }
        }
        proof {
            assert(starts + frame_starts(all, at as int, frame_size as int) =~= starts);
            lemma_scan_end_bounds(all, 0, frame_size as int);
        }
        self.buffer = buffer.split_off(at);
        assert(self.buffer@ =~= all.skip(at as int));
        samples
    }
}

} // verus!
