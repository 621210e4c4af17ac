//! Decoded samples and the fixed-size block layout of the BLE and WebSocket
//! transports.

use vstd::prelude::*;
use crate::wire::{channels_at, read_channels, BLOCK_CHANNELS, BLOCK_PAYLOAD_OFFSET};

verus! {

/// One acquisition instant: the wrapping counter that came with it and one
/// reading per channel.
#[derive(Clone, Debug, PartialEq, Eq)]
pub struct Sample {
    pub counter: u8,
    pub channels: Vec<i16>,
}

/// The mathematical value of a [`Sample`].
pub struct SampleModel {
    pub counter: u8,
    pub channels: Seq<i16>,
}

impl View for Sample {
    type V = SampleModel;

    open spec fn view(&self) -> SampleModel {
        SampleModel { counter: self.counter, channels: self.channels@ }
    }
}

/// The values of a sequence of samples.
pub open spec fn sample_models(samples: Seq<Sample>) -> Seq<SampleModel> {
    samples.map_values(|sample: Sample| sample@)
}

/// The counters of a sequence of samples.
pub open spec fn counters_of(samples: Seq<SampleModel>) -> Seq<u8> {
    samples.map_values(|sample: SampleModel| sample.counter)
}

/// The sample held by the block that starts at `start`: one counter byte, then
/// three big-endian channel values.
pub open spec fn block_sample(bytes: Seq<u8>, start: int) -> SampleModel {
    SampleModel {
        counter: bytes[start],
        channels: channels_at(bytes, start + BLOCK_PAYLOAD_OFFSET as int, BLOCK_CHANNELS as nat),
    }
}

/// The samples of the first `count` blocks of `bytes`, each `block_len` bytes
/// long.
pub open spec fn block_samples(bytes: Seq<u8>, block_len: int, count: nat) -> Seq<SampleModel> {
    Seq::new(count, |i: int| block_sample(bytes, block_len * i))
}

/// Decodes the block that starts at `start`.
pub fn decode_block(bytes: &[u8], start: usize) -> (sample: Sample)
    requires
        start + 7 <= bytes@.len(),
    ensures
        sample@ == block_sample(bytes@, start as int),
{
    let counter = bytes[start];
    let channels = read_channels(bytes, start + BLOCK_PAYLOAD_OFFSET, BLOCK_CHANNELS);
    Sample { counter, channels }
}

/// Decodes the first `count` blocks of `bytes`, each `block_len` bytes long,
/// in the order in which they lie.
pub fn decode_blocks(bytes: &[u8], block_len: usize, count: usize) -> (samples: Vec<Sample>)
    requires
        block_len >= 7,
        block_len * count <= bytes@.len(),
    ensures
        sample_models(samples@) == block_samples(bytes@, block_len as int, count as nat),
{
    let len: usize = bytes.len();
    let mut samples: Vec<Sample> = Vec::new();
    let mut i: usize = 0;
    while i < count
        invariant
            i <= count,
            block_len >= 7,
            len == bytes@.len(),
            block_len * count <= len,
            samples@.len() == i,
            sample_models(samples@) == block_samples(bytes@, block_len as int, i as nat),
        decreases count - i,
    {
        assert(block_len * i + block_len <= block_len * count) by (nonlinear_arith)
            requires
                i < count,
        ;
        let start: usize = block_len * i;
        let sample = decode_block(bytes, start);
        let ghost before = samples@;
        samples.push(sample);
        i += 1;
        assert forall|j: int| 0 <= j < i implies sample_models(samples@)[j] == block_samples(
            bytes@,
            block_len as int,
            i as nat,
        )[j] by {
            if j < i - 1 {
                assert(samples@[j] == before[j]);
                assert(sample_models(before)[j] == block_samples(
                    bytes@,
                    block_len as int,
                    (i - 1) as nat,
                )[j]);
            }
        }
        assert(sample_models(samples@) =~= block_samples(bytes@, block_len as int, i as nat));
    }
    samples
}

} // verus!
