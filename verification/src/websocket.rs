//! The WebSocket block decoder: one binary message is a run of fixed-size
//! blocks.

use vstd::prelude::*;
use crate::profile::WEBSOCKET_BLOCK_LEN;
use crate::sample::{block_samples, decode_blocks, sample_models, Sample, SampleModel};

verus! {

/// Length of one block of a message. Only the first seven bytes are read; the
/// rest is reserved.
pub const BLOCK_SIZE: usize = WEBSOCKET_BLOCK_LEN;

/// The samples of a message: one for each whole block. Bytes behind the last
/// whole block make up no sample.
pub open spec fn message_samples(message: Seq<u8>) -> Seq<SampleModel> {
    block_samples(message, BLOCK_SIZE as int, message.len() / BLOCK_SIZE as nat)
}

/// Splits one binary message into its blocks and decodes each, in the order
/// in which they lie.
pub fn decode_message(message: &[u8]) -> (samples: Vec<Sample>)
    ensures
        sample_models(samples@) == message_samples(message@),
        samples@.len() == message@.len() / BLOCK_SIZE as nat,
{
    let count: usize = message.len() / BLOCK_SIZE;
    let samples = decode_blocks(message, BLOCK_SIZE, count);
    assert(sample_models(samples@).len() == samples@.len());
    samples
}

} // verus!
