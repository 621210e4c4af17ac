//! Counters gathered while a session streams.

use std::collections::VecDeque;
use vstd::prelude::*;
use crate::continuity::Continuity;

verus! {

/// Adds `increment` to a counter that stops at `u64::MAX`.
pub open spec fn saturating_sum(counter: u64, increment: nat) -> u64 {
    if counter + increment > u64::MAX {
        u64::MAX
    } else {
        (counter + increment) as u64
    }
}

/// What a session has seen since the counters were last taken. Each counter
/// stops at `u64::MAX`.
#[derive(Clone, Copy, Debug, PartialEq, Eq, Structural)]
pub struct Metrics {
    /// Samples forwarded to the sink.
    pub samples: u64,
    /// Bytes received from the transport.
    pub bytes: u64,
    /// Reads, notifications or messages received from the transport.
    pub messages: u64,
    /// Samples that the counter shows as missing.
    pub lost: u64,
    /// Samples dropped because they repeated the previous counter.
    pub duplicates: u64,
}

impl Metrics {
    /// All counters at zero.
    pub open spec fn zero() -> Metrics {
        Metrics { samples: 0, bytes: 0, messages: 0, lost: 0, duplicates: 0 }
    }

    /// The counters after one more message of `len` bytes.
    pub open spec fn with_message(self, len: nat) -> Metrics {
        Metrics {
            bytes: saturating_sum(self.bytes, len),
            messages: saturating_sum(self.messages, 1),
            ..self
        }
    }

    /// The counters after one more continuity verdict.
    pub open spec fn with_verdict(self, verdict: Continuity) -> Metrics {
        Metrics {
            samples: saturating_sum(
                self.samples,
                if verdict.accepted() {
                    1
                } else {
                    0
                },
            ),
            lost: saturating_sum(self.lost, verdict.lost()),
            duplicates: saturating_sum(
                self.duplicates,
                if verdict is Duplicate {
                    1
                } else {
                    0
                },
            ),
            ..self
        }
    }

    /// The counters after a run of verdicts, taken in order.
    pub open spec fn with_verdicts(self, verdicts: Seq<Continuity>) -> Metrics
        decreases verdicts.len(),
    {
        if verdicts.len() == 0 {
            self
        } else {
            self.with_verdict(verdicts[0]).with_verdicts(verdicts.skip(1))
        }
    }

    /// Fresh counters.
    pub fn new() -> (metrics: Metrics)
        ensures
            metrics == Metrics::zero(),
    {
        Metrics { samples: 0, bytes: 0, messages: 0, lost: 0, duplicates: 0 }
    }

    /// Counts one read, notification or message of `len` bytes.
    pub fn record_message(&mut self, len: usize)
        ensures
            *final(self) == old(self).with_message(len as nat),
    {
        self.bytes = self.bytes.saturating_add(len as u64);
        self.messages = self.messages.saturating_add(1);
    }

    /// Counts one continuity verdict.
    pub fn record_verdict(&mut self, verdict: Continuity)
        ensures
            *final(self) == old(self).with_verdict(verdict),
    {
        match verdict {
            Continuity::Duplicate => {
                self.duplicates = self.duplicates.saturating_add(1);
            },
            Continuity::Gap { lost } => {
                self.samples = self.samples.saturating_add(1);
                self.lost = self.lost.saturating_add(lost as u64);
            },
            _ => {
                self.samples = self.samples.saturating_add(1);
            },
        }
    }

    /// Hands out the counters and starts again from zero.
    pub fn take(&mut self) -> (taken: Metrics)
        ensures
            taken == *old(self),
            *final(self) == Metrics::zero(),
    {
        let taken = *self;
        *self = Metrics::new();
        taken
    }
}

/// How many rates the window keeps.
pub const RATE_WINDOW: usize = 20;

/// The window once `rate` has been added: the oldest rate leaves where the
/// window is full.
pub open spec fn window_after(window: Seq<u64>, rate: u64) -> Seq<u64> {
    if window.len() >= RATE_WINDOW {
        window.skip(window.len() - RATE_WINDOW + 1).push(rate)
    } else {
        window.push(rate)
    }
}

/// Whether `peak` is the greatest of `rates`.
pub open spec fn is_peak(rates: Seq<u64>, peak: u64) -> bool {
    &&& rates.contains(peak)
    &&& forall|i: int| 0 <= i < rates.len() ==> rates[i] <= peak
}

/// The last sample rates, oldest first, at most [`RATE_WINDOW`] of them.
pub struct RateWindow {
    rates: VecDeque<u64>,
}

impl View for RateWindow {
    type V = Seq<u64>;

    closed spec fn view(&self) -> Seq<u64> {
        self.rates@
    }
}

impl RateWindow {
    #[verifier::type_invariant]
    spec fn well_formed(self) -> bool {
        self.rates@.len() <= RATE_WINDOW
    }

    /// An empty window.
    pub fn new() -> (window: RateWindow)
        ensures
            window@ == Seq::<u64>::empty(),
    {
        RateWindow { rates: VecDeque::new() }
    }

    /// How many rates the window holds.
    pub fn len(&self) -> (len: usize)
        ensures
            len == self@.len(),
            len <= RATE_WINDOW,
    {
        proof {
            use_type_invariant(self);
        }
        self.rates.len()
    }

    /// Adds a rate; the oldest one leaves where the window is full.
    pub fn push(&mut self, rate: u64)
        ensures
            final(self)@ == window_after(old(self)@, rate),
            final(self)@.len() <= RATE_WINDOW,
    {
        proof {
            use_type_invariant(&*self);
        }
        let mut rates: VecDeque<u64> = VecDeque::new();
        core::mem::swap(&mut self.rates, &mut rates);
        if rates.len() == RATE_WINDOW {
            let _ = rates.pop_front();
        }
        rates.push_back(rate);
        assert(rates@ =~= window_after(old(self)@, rate));
        self.rates = rates;
    }

    /// The greatest rate in the window; `None` while it is empty.
    pub fn peak(&self) -> (peak: Option<u64>)
        ensures
            peak is None <==> self@.len() == 0,
            peak matches Some(rate) ==> is_peak(self@, rate),
    {
        let len: usize = self.rates.len();
        if len == 0 {
            return None;
        }
        let mut best: u64 = self.rates[0];
        let mut i: usize = 1;
        while i < len
            invariant
                1 <= i <= len,
                len == self.rates@.len(),
                exists|k: int| 0 <= k < i && self.rates@[k] == best,
                forall|j: int| 0 <= j < i ==> self.rates@[j] <= best,
            decreases len - i,
        {
            let rate: u64 = self.rates[i];
            if rate > best {
                best = rate;
            }
            i += 1;
        }
        Some(best)
    }
}

} // verus!
