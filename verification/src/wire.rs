//! Byte-level conventions shared by the three transports.

use vstd::prelude::*;

verus! {

/// First byte of the serial start marker.
pub const START_MARKER_0: u8 = 0xC7;

/// Second byte of the serial start marker.
pub const START_MARKER_1: u8 = 0x7C;

/// Last byte of every serial frame.
pub const END_MARKER: u8 = 0x01;

/// Offset of the sequence byte inside a serial frame.
pub const SERIAL_COUNTER_OFFSET: usize = 2;

/// Offset of the first channel value inside a serial frame.
pub const SERIAL_PAYLOAD_OFFSET: usize = 3;

/// Bytes of a serial frame that are not channel data: two marker bytes, the
/// sequence byte and the end marker.
pub const SERIAL_OVERHEAD: usize = 4;

/// Offset of the first channel value inside a BLE sample or a WebSocket block.
pub const BLOCK_PAYLOAD_OFFSET: usize = 1;

/// Channels carried by a BLE sample or a WebSocket block.
pub const BLOCK_CHANNELS: usize = 3;

/// The signed 16-bit value whose big-endian encoding is `hi`, `lo`.
pub open spec fn be_i16(hi: u8, lo: u8) -> int {
    let unsigned = hi as int * 256 + lo as int;
    if unsigned >= 32768 {
        unsigned - 65536
    } else {
        unsigned
    }
}

/// `count` consecutive big-endian signed 16-bit values of `bytes`, the first
/// one starting at `offset`.
pub open spec fn channels_at(bytes: Seq<u8>, offset: int, count: nat) -> Seq<i16> {
    Seq::new(count, |i: int| be_i16(bytes[offset + 2 * i], bytes[offset + 2 * i + 1]) as i16)
}

/// Every pair of bytes is the encoding of a signed 16-bit value: nothing is
/// lost where a channel value is held as `i16`.
pub proof fn lemma_be_i16_range(hi: u8, lo: u8)
    ensures
        -32768 <= be_i16(hi, lo) <= 32767,
        be_i16(hi, lo) as i16 as int == be_i16(hi, lo),
{
}

/// Reads one big-endian signed 16-bit value.
pub fn read_be_i16(hi: u8, lo: u8) -> (value: i16)
    ensures
        value as int == be_i16(hi, lo),
{
    let unsigned: u16 = (hi as u16) * 256 + (lo as u16);
    if unsigned >= 32768 {
        ((unsigned as i32) - 65536) as i16
    } else {
        unsigned as i16
    }
}

/// Reads `count` channel values of `bytes`, starting at `offset`.
pub fn read_channels(bytes: &[u8], offset: usize, count: usize) -> (values: Vec<i16>)
    requires
        offset + 2 * count <= bytes@.len(),
    ensures
        values@ == channels_at(bytes@, offset as int, count as nat),
{
    let len: usize = bytes.len();
    let mut values: Vec<i16> = Vec::new();
    let mut i: usize = 0;
    while i < count
        invariant
            i <= count,
            len == bytes@.len(),
            offset + 2 * count <= len,
            values@ == channels_at(bytes@, offset as int, i as nat),
        decreases count - i,
    {
        let value = read_be_i16(bytes[offset + 2 * i], bytes[offset + 2 * i + 1]);
        values.push(value);
        i += 1;
        assert(values@ =~= channels_at(bytes@, offset as int, i as nat));
    }
    values
}

} // verus!
