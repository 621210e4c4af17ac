//! What holds of the serial frame decoder on every byte stream.

use vstd::prelude::*;
use crate::serial::{
    decoded,
    frame_at,
    frame_sample,
    frame_starts,
    remainder,
    samples_at,
    scan_end,
    lemma_scan_end_bounds,
};
use crate::wire::{END_MARKER, SERIAL_OVERHEAD};

verus! {

/// Every offset at which the decoder takes a frame holds a frame-shaped
/// window, lies at or after the start of the scan, and the frames taken do
/// not overlap.
pub proof fn lemma_starts_are_frames(bytes: Seq<u8>, from: int, frame_size: int)
    ensures
        forall|i: int|
            0 <= i < frame_starts(bytes, from, frame_size).len() ==> {
                let at = #[trigger] frame_starts(bytes, from, frame_size)[i];
                from <= at && frame_at(bytes, at, frame_size)
            },
        forall|i: int, j: int|
            0 <= i < j < frame_starts(bytes, from, frame_size).len() ==> #[trigger] frame_starts(
                bytes,
                from,
                frame_size,
            )[i] + frame_size <= #[trigger] frame_starts(bytes, from, frame_size)[j],
    decreases bytes.len() - from,
{
    let starts = frame_starts(bytes, from, frame_size);
    if from < 0 || frame_size < 2 || from + frame_size > bytes.len() {
    } else if frame_at(bytes, from, frame_size) {
        let rest = frame_starts(bytes, from + frame_size, frame_size);
        lemma_starts_are_frames(bytes, from + frame_size, frame_size);
        assert(starts == seq![from] + rest);
        assert forall|i: int| 0 <= i < starts.len() implies {
            let at = #[trigger] starts[i];
            from <= at && frame_at(bytes, at, frame_size)
        } by {
            if i > 0 {
                assert(starts[i] == rest[i - 1]);
            }
        }
        assert forall|i: int, j: int| 0 <= i < j < starts.len() implies #[trigger] starts[i]
            + frame_size <= #[trigger] starts[j] by {
            assert(starts[j] == rest[j - 1]);
            if i > 0 {
                assert(starts[i] == rest[i - 1]);
            }
        }
    } else {
        let rest = frame_starts(bytes, from + 1, frame_size);
        lemma_starts_are_frames(bytes, from + 1, frame_size);
        assert(starts == rest);
        assert forall|i: int| 0 <= i < starts.len() implies {
            let at = #[trigger] starts[i];
            from <= at && frame_at(bytes, at, frame_size)
        } by {
            assert(starts[i] == rest[i]);
        }
        assert forall|i: int, j: int| 0 <= i < j < starts.len() implies #[trigger] starts[i]
            + frame_size <= #[trigger] starts[j] by {
            assert(starts[i] == rest[i]);
            assert(starts[j] == rest[j]);
        }
    }
}

/// Where the first frame-shaped window at or after `from` starts at `first`,
/// the decoder drops the `first - from` bytes before it, takes that frame, and
/// goes on behind it.
pub proof fn lemma_first_frame(bytes: Seq<u8>, from: int, first: int, frame_size: int)
    requires
        0 <= from <= first,
        frame_size >= 2,
        frame_at(bytes, first, frame_size),
        forall|at: int| from <= at < first ==> !frame_at(bytes, at, frame_size),
    ensures
        frame_starts(bytes, from, frame_size) == seq![first] + frame_starts(
            bytes,
            first + frame_size,
            frame_size,
        ),
        scan_end(bytes, from, frame_size) == scan_end(bytes, first + frame_size, frame_size),
    decreases first - from,
{
    if from < first {
        lemma_first_frame(bytes, from + 1, first, frame_size);
    }
}

/// A window that has lost its end marker is never taken as a frame, wherever
/// the scan starts.
pub proof fn lemma_skips_window_without_end_marker(
    bytes: Seq<u8>,
    from: int,
    corrupted: int,
    frame_size: int,
)
    requires
        0 <= corrupted,
        corrupted + frame_size <= bytes.len(),
        bytes[corrupted + frame_size - 1] != END_MARKER,
    ensures
        !frame_starts(bytes, from, frame_size).contains(corrupted),
{
    lemma_starts_are_frames(bytes, from, frame_size);
}

/// After a window that has lost its end marker, the decoder resynchronises on
/// the next frame-shaped window: it takes the frame at `next` and drops the
/// `next - corrupted` bytes before it.
pub proof fn lemma_resynchronises_after_corrupted_window(
    bytes: Seq<u8>,
    corrupted: int,
    next: int,
    frame_size: int,
)
    requires
        frame_size >= 2,
        0 <= corrupted < next,
        corrupted + frame_size <= bytes.len(),
        bytes[corrupted + frame_size - 1] != END_MARKER,
        frame_at(bytes, next, frame_size),
        forall|at: int| corrupted < at < next ==> !frame_at(bytes, at, frame_size),
    ensures
        frame_starts(bytes, corrupted, frame_size) == seq![next] + frame_starts(
            bytes,
            next + frame_size,
            frame_size,
        ),
{
    lemma_first_frame(bytes, corrupted, next, frame_size);
}

/// The offsets `starts`, each moved forward by `by`.
pub open spec fn shifted(starts: Seq<int>, by: int) -> Seq<int> {
    starts.map_values(|at: int| at + by)
}

/// Bytes in front of the scan do not change what it finds: scanning
/// `prefix + rest` from behind `prefix` finds the frames of `rest`, each
/// `prefix.len()` further on.
pub proof fn lemma_scan_ignores_prefix(prefix: Seq<u8>, rest: Seq<u8>, from: int, frame_size: int)
    requires
        0 <= from,
    ensures
        frame_starts(prefix + rest, prefix.len() + from, frame_size) == shifted(
            frame_starts(rest, from, frame_size),
            prefix.len() as int,
        ),
        scan_end(prefix + rest, prefix.len() + from, frame_size) == prefix.len() + scan_end(
            rest,
            from,
            frame_size,
        ),
    decreases rest.len() - from,
{
    let all = prefix + rest;
    let p = prefix.len() as int;
    if frame_size < 2 || from + frame_size > rest.len() {
        assert(frame_starts(all, p + from, frame_size) =~= shifted(
            frame_starts(rest, from, frame_size),
            p,
        ));
    } else {
        assert(all[p + from] == rest[from]);
        assert(all[p + from + 1] == rest[from + 1]);
        assert(all[p + from + frame_size - 1] == rest[from + frame_size - 1]);
        assert(frame_at(all, p + from, frame_size) == frame_at(rest, from, frame_size));
        if frame_at(rest, from, frame_size) {
            lemma_scan_ignores_prefix(prefix, rest, from + frame_size, frame_size);
            assert(frame_starts(all, p + from, frame_size) =~= shifted(
                frame_starts(rest, from, frame_size),
                p,
            ));
        } else {
            lemma_scan_ignores_prefix(prefix, rest, from + 1, frame_size);
        }
    }
}

/// A frame reads the same wherever it lies: the sample at `at` in `rest` is
/// the sample at `prefix.len() + at` in `prefix + rest + suffix`.
pub proof fn lemma_sample_ignores_surroundings(
    prefix: Seq<u8>,
    rest: Seq<u8>,
    suffix: Seq<u8>,
    at: int,
    channel_count: nat,
)
    requires
        0 <= at,
        at + SERIAL_OVERHEAD + 2 * channel_count <= rest.len(),
    ensures
        frame_sample(prefix + rest + suffix, prefix.len() + at, channel_count) == frame_sample(
            rest,
            at,
            channel_count,
        ),
{
    let all = prefix + rest + suffix;
    let p = prefix.len() as int;
    assert(all[p + at + 2] == rest[at + 2]);
    let moved = frame_sample(all, p + at, channel_count).channels;
    let plain = frame_sample(rest, at, channel_count).channels;
    assert forall|i: int| 0 <= i < channel_count implies #[trigger] moved[i] == plain[i] by {
        assert(all[p + at + 3 + 2 * i] == rest[at + 3 + 2 * i]);
        assert(all[p + at + 3 + 2 * i + 1] == rest[at + 3 + 2 * i + 1]);
    }
    assert(frame_sample(all, p + at, channel_count).channels =~= frame_sample(
        rest,
        at,
        channel_count,
    ).channels);
}

/// The samples of frames found behind a prefix are those of the frames found
/// without it.
pub proof fn lemma_samples_ignore_prefix(
    prefix: Seq<u8>,
    rest: Seq<u8>,
    from: int,
    frame_size: int,
    channel_count: nat,
)
    requires
        0 <= from,
        frame_size >= SERIAL_OVERHEAD + 2 * channel_count,
    ensures
        samples_at(
            prefix + rest,
            frame_starts(prefix + rest, prefix.len() + from, frame_size),
            channel_count,
        ) == samples_at(rest, frame_starts(rest, from, frame_size), channel_count),
{
    let all = prefix + rest;
    let p = prefix.len() as int;
    let inner = frame_starts(rest, from, frame_size);
    lemma_scan_ignores_prefix(prefix, rest, from, frame_size);
    lemma_starts_are_frames(rest, from, frame_size);
    assert forall|i: int| 0 <= i < inner.len() implies samples_at(
        all,
        shifted(inner, p),
        channel_count,
    )[i] == samples_at(rest, inner, channel_count)[i] by {
        let at = inner[i];
        assert(frame_at(rest, at, frame_size));
        lemma_sample_ignores_surroundings(prefix, rest, Seq::<u8>::empty(), at, channel_count);
        assert(prefix + rest + Seq::<u8>::empty() =~= all);
    }
    assert(samples_at(all, shifted(inner, p), channel_count) =~= samples_at(
        rest,
        inner,
        channel_count,
    ));
}

/// What the decoder finds in a buffer it finds again when more bytes follow,
/// and it goes on from where the scan of the buffer alone stopped.
pub proof fn lemma_scan_of_longer_stream(first: Seq<u8>, second: Seq<u8>, from: int, frame_size: int)
    requires
        0 <= from <= first.len(),
        frame_size >= 2,
    ensures
        frame_starts(first + second, from, frame_size) == frame_starts(first, from, frame_size)
            + frame_starts(first + second, scan_end(first, from, frame_size), frame_size),
        scan_end(first + second, from, frame_size) == scan_end(
            first + second,
            scan_end(first, from, frame_size),
            frame_size,
        ),
    decreases first.len() - from,
{
    let all = first + second;
    if from + frame_size > first.len() {
        assert(frame_starts(first, from, frame_size) + frame_starts(all, from, frame_size)
            =~= frame_starts(all, from, frame_size));
    } else {
        assert(all[from] == first[from]);
        assert(all[from + 1] == first[from + 1]);
        assert(all[from + frame_size - 1] == first[from + frame_size - 1]);
        assert(frame_at(all, from, frame_size) == frame_at(first, from, frame_size));
        if frame_at(first, from, frame_size) {
            lemma_scan_of_longer_stream(first, second, from + frame_size, frame_size);
            let found = frame_starts(first, from + frame_size, frame_size);
            let later = frame_starts(all, scan_end(first, from, frame_size), frame_size);
            assert(seq![from] + (found + later) =~= (seq![from] + found) + later);
        } else {
            lemma_scan_of_longer_stream(first, second, from + 1, frame_size);
        }
    }
}

/// Chunk boundaries do not matter: decoding `first`, then what it left over
/// together with `second`, emits the samples of `first + second` decoded at
/// once, and leaves the same bytes over.
pub proof fn lemma_chunks_decode_like_the_whole(
    first: Seq<u8>,
    second: Seq<u8>,
    frame_size: int,
    channel_count: nat,
)
    requires
        frame_size >= SERIAL_OVERHEAD + 2 * channel_count,
    ensures
        decoded(first + second, frame_size, channel_count) == decoded(
            first,
            frame_size,
            channel_count,
        ) + decoded(remainder(first, frame_size) + second, frame_size, channel_count),
        remainder(first + second, frame_size) == remainder(
            remainder(first, frame_size) + second,
            frame_size,
        ),
{
    let all = first + second;
    let end = scan_end(first, 0, frame_size);
    lemma_scan_end_bounds(first, 0, frame_size);
    let taken = first.take(end);
    let kept = first.skip(end) + second;
    assert(taken + kept =~= all);
    lemma_scan_of_longer_stream(first, second, 0, frame_size);
    lemma_scan_ignores_prefix(taken, kept, 0, frame_size);
    lemma_samples_ignore_prefix(taken, kept, 0, frame_size, channel_count);
    let early = frame_starts(first, 0, frame_size);
    let late = frame_starts(all, end, frame_size);
    assert(frame_starts(all, 0, frame_size) == early + late);
    lemma_starts_are_frames(first, 0, frame_size);
    assert forall|i: int| 0 <= i < early.len() implies samples_at(all, early, channel_count)[i]
        == samples_at(first, early, channel_count)[i] by {
        let at = early[i];
        assert(frame_at(first, at, frame_size));
        lemma_sample_ignores_surroundings(Seq::<u8>::empty(), first, second, at, channel_count);
        assert(Seq::<u8>::empty() + first + second =~= all);
    }
    assert(samples_at(all, early, channel_count) =~= samples_at(first, early, channel_count));
    assert(samples_at(all, early + late, channel_count) =~= samples_at(all, early, channel_count)
        + samples_at(all, late, channel_count));
    lemma_scan_end_bounds(kept, 0, frame_size);
    assert(all.skip(end + scan_end(kept, 0, frame_size)) =~= kept.skip(
        scan_end(kept, 0, frame_size),
    ));
}

/// A valid frame behind `garbage.len()` bytes of garbage is found again: the
/// decoder drops exactly the garbage, emits the sample of the frame first, and
/// then decodes what follows the frame as if the stream began there. Garbage
/// is whatever holds no frame-shaped window of its own, alone or together with
/// the first bytes of the frame.
pub proof fn lemma_resynchronises_after_garbage(
    garbage: Seq<u8>,
    frame: Seq<u8>,
    tail: Seq<u8>,
    frame_size: int,
    channel_count: nat,
)
    requires
        frame_size >= SERIAL_OVERHEAD + 2 * channel_count,
        frame.len() == frame_size,
        frame_at(frame, 0, frame_size),
        forall|at: int| 0 <= at < garbage.len() ==> !frame_at(garbage + frame, at, frame_size),
    ensures
        frame_starts(garbage + frame + tail, 0, frame_size).len() >= 1,
        frame_starts(garbage + frame + tail, 0, frame_size)[0] == garbage.len(),
        decoded(garbage + frame + tail, frame_size, channel_count) == seq![
            frame_sample(frame, 0, channel_count),
        ] + decoded(tail, frame_size, channel_count),
        remainder(garbage + frame + tail, frame_size) == remainder(tail, frame_size),
{
    let stream = garbage + frame + tail;
    let k = garbage.len() as int;
    let head = garbage + frame;
    assert(stream[k] == frame[0]);
    assert(stream[k + 1] == frame[1]);
    assert(stream[k + frame_size - 1] == frame[frame_size - 1]);
    assert(frame_at(stream, k, frame_size));
    assert forall|at: int| 0 <= at < k implies !frame_at(stream, at, frame_size) by {
        assert(stream[at] == head[at]);
        assert(stream[at + 1] == head[at + 1]);
        assert(stream[at + frame_size - 1] == head[at + frame_size - 1]);
        assert(!frame_at(head, at, frame_size));
    }
    lemma_first_frame(stream, 0, k, frame_size);
    assert(head.len() == k + frame_size);
    lemma_scan_ignores_prefix(head, tail, 0, frame_size);
    lemma_samples_ignore_prefix(head, tail, 0, frame_size, channel_count);
    lemma_sample_ignores_surroundings(garbage, frame, tail, 0, channel_count);
    let later = frame_starts(stream, k + frame_size, frame_size);
    assert(frame_starts(stream, 0, frame_size) == seq![k] + later);
    assert(samples_at(stream, seq![k] + later, channel_count) =~= seq![
        frame_sample(stream, k, channel_count),
    ] + samples_at(stream, later, channel_count));
    lemma_scan_end_bounds(tail, 0, frame_size);
    assert(stream.skip(k + frame_size + scan_end(tail, 0, frame_size)) =~= tail.skip(
        scan_end(tail, 0, frame_size),
    ));
}

} // verus!
