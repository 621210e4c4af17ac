//! Loss and duplicate detection from the wrapping 8-bit sample counter.

use vstd::prelude::*;

verus! {

/// What one counter value says about the sample that carries it.
#[derive(Clone, Copy, Debug, PartialEq, Eq, Structural)]
pub enum Continuity {
    /// First sample since the tracker was created or reset.
    First,
    /// The counter is the successor of the previous one.
    InOrder,
    /// The counter repeats the previous one: the sample is to be dropped.
    Duplicate,
    /// `lost` samples are missing between the previous sample and this one.
    Gap { lost: u8 },
}

/// The counter that follows `previous`.
pub open spec fn successor(previous: u8) -> u8 {
    ((previous as int + 1) % 256) as u8
}

/// How many counters lie strictly between `previous` and `counter`, going
/// forward and wrapping at 256.
pub open spec fn missing_between(previous: u8, counter: u8) -> int {
    (counter as int - successor(previous) as int) % 256
}

/// The verdict on `counter` when the last accepted counter is `last`.
pub open spec fn classify(last: Option<u8>, counter: u8) -> Continuity {
    match last {
        None => Continuity::First,
        Some(previous) => if counter == successor(previous) {
            Continuity::InOrder
        } else if counter == previous {
            Continuity::Duplicate
        } else {
            Continuity::Gap { lost: missing_between(previous, counter) as u8 }
        },
    }
}

/// The last accepted counter once `counter` has been seen.
pub open spec fn advance(last: Option<u8>, counter: u8) -> Option<u8> {
    match last {
        Some(previous) if counter == previous => last,
        _ => Some(counter),
    }
}

impl Continuity {
    /// Whether the sample goes on to the sink.
    pub open spec fn accepted(self) -> bool {
        !(self is Duplicate)
    }

    /// Samples reported lost by this verdict.
    pub open spec fn lost(self) -> nat {
        match self {
            Continuity::Gap { lost } => lost as nat,
            _ => 0,
        }
    }

    /// Whether the sample goes on to the sink: everything but a duplicate.
    pub fn is_accepted(&self) -> (accepted: bool)
        ensures
            accepted == self.accepted(),
    {
        match self {
            Continuity::Duplicate => false,
            _ => true,
        }
    }

    /// How many samples are missing before this one.
    pub fn lost_count(&self) -> (lost: u8)
        ensures
            lost as nat == self.lost(),
    {
        match self {
            Continuity::Gap { lost } => *lost,
            _ => 0,
        }
    }
}

/// The continuity state of one session: the last accepted counter, unknown
/// until the first sample arrives.
#[derive(Clone, Copy, Debug, PartialEq, Eq, Structural)]
pub struct ContinuityTracker {
    last: Option<u8>,
}

impl ContinuityTracker {
    /// The last accepted counter, `None` while it is unknown.
    pub closed spec fn last(self) -> Option<u8> {
        self.last
    }

    /// A tracker that has seen no sample yet.
    pub fn new() -> (tracker: ContinuityTracker)
        ensures
            tracker.last() is None,
    {
        ContinuityTracker { last: None }
    }

    /// Forgets the last counter, as on every new connection.
    pub fn reset(&mut self)
        ensures
            final(self).last() is None,
    {
        self.last = None;
    }

    /// The last accepted counter, `None` while it is unknown.
    pub fn last_counter(&self) -> (last: Option<u8>)
        ensures
            last == self.last(),
    {
        self.last
    }

    /// Judges one counter value and moves the reference to it, unless it is a
    /// duplicate.
    pub fn check(&mut self, counter: u8) -> (verdict: Continuity)
        ensures
            verdict == classify(old(self).last(), counter),
            final(self).last() == advance(old(self).last(), counter),
    {
        match self.last {
            None => {
                self.last = Some(counter);
                Continuity::First
            },
            Some(previous) => {
                let expected: u8 = if previous == 255 {
                    0
                } else {
                    previous + 1
                };
                if counter == expected {
                    self.last = Some(counter);
                    Continuity::InOrder
                } else if counter == previous {
                    Continuity::Duplicate
                } else {
                    let lost: u8 = if counter >= expected {
                        counter - expected
                    } else {
                        (256 - (expected as u16) + (counter as u16)) as u8
                    };
                    self.last = Some(counter);
                    Continuity::Gap { lost }
                }
            },
        }
    }
}

/// The verdicts on a run of counters, starting from `last`.
pub open spec fn verdicts(last: Option<u8>, counters: Seq<u8>) -> Seq<Continuity>
    decreases counters.len(),
{
    if counters.len() == 0 {
        seq![]
    } else {
        seq![classify(last, counters[0])] + verdicts(
            advance(last, counters[0]),
            counters.skip(1),
        )
    }
}

/// The last accepted counter after a run of counters, starting from `last`.
pub open spec fn last_after(last: Option<u8>, counters: Seq<u8>) -> Option<u8>
    decreases counters.len(),
{
    if counters.len() == 0 {
        last
    } else {
        last_after(advance(last, counters[0]), counters.skip(1))
    }
}

/// `count` counters that follow one another from `start`, wrapping at 256.
pub open spec fn consecutive(start: u8, count: nat) -> Seq<u8> {
    Seq::new(count, |i: int| ((start as int + i) % 256) as u8)
}

/// One verdict for each counter.
pub proof fn lemma_verdicts_len(last: Option<u8>, counters: Seq<u8>)
    ensures
        verdicts(last, counters).len() == counters.len(),
    decreases counters.len(),
{
    if counters.len() > 0 {
        lemma_verdicts_len(advance(last, counters[0]), counters.skip(1));
    }
}

/// A run of counters that follow one another, wrapping from 255 to 0, loses
/// nothing: from an unknown state or from the predecessor of the first
/// counter, every sample is accepted and every verdict reports zero loss.
pub proof fn lemma_consecutive_run_loses_nothing(last: Option<u8>, start: u8, count: nat)
    requires
        last matches Some(previous) ==> start == successor(previous),
    ensures
        verdicts(last, consecutive(start, count)).len() == count,
        forall|i: int|
            0 <= i < count ==> {
                let verdict = #[trigger] verdicts(last, consecutive(start, count))[i];
                verdict.accepted() && verdict.lost() == 0
            },
        count > 0 ==> last_after(last, consecutive(start, count)) == Some(
            ((start as int + count - 1) % 256) as u8,
        ),
    decreases count,
{
    let run = consecutive(start, count);
    if count > 0 {
        let next = successor(start);
        let rest = (count - 1) as nat;
        assert(run[0] == start);
        assert(run.skip(1) =~= consecutive(next, rest)) by {
            assert forall|i: int| 0 <= i < rest implies run.skip(1)[i] == consecutive(next, rest)[i] by {
                assert(run.skip(1)[i] == run[i + 1]);
                assert((start as int + (i + 1)) % 256 == (next as int + i) % 256);
            }
        }
        assert(advance(last, start) == Some(start));
        lemma_consecutive_run_loses_nothing(Some(start), next, rest);
        let tail = verdicts(Some(start), consecutive(next, rest));
        let all = verdicts(last, run);
        assert(all == seq![classify(last, start)] + tail);
        assert forall|i: int| 0 <= i < count implies {
            let verdict = #[trigger] all[i];
            verdict.accepted() && verdict.lost() == 0
        } by {
            if i > 0 {
                assert(all[i] == tail[i - 1]);
            }
        }
        if rest > 0 {
            assert((next as int + rest - 1) % 256 == (start as int + count - 1) % 256);
        }
    }
}

} // verus!
