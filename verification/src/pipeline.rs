//! The stage between a transport decoder and the sink: every decoded sample
//! passes the continuity tracker, duplicates are dropped, losses are counted.

use vstd::prelude::*;
use crate::continuity::{advance, classify, last_after, verdicts, ContinuityTracker};
use crate::metrics::Metrics;
use crate::sample::{counters_of, sample_models, Sample, SampleModel};

verus! {

/// The samples that go on to the sink when `samples` arrive in this order and
/// the last accepted counter is `last`: all but the duplicates.
pub open spec fn forwardable(last: Option<u8>, samples: Seq<SampleModel>) -> Seq<SampleModel>
    decreases samples.len(),
{
    if samples.len() == 0 {
        seq![]
    } else {
        let rest = forwardable(advance(last, samples[0].counter), samples.skip(1));
        if classify(last, samples[0].counter).accepted() {
            seq![samples[0]] + rest
        } else {
            rest
        }
    }
}

/// Passes decoded samples through the tracker, in order. Returns those that go
/// on to the sink and counts every verdict.
pub fn forward(tracker: &mut ContinuityTracker, metrics: &mut Metrics, decoded: Vec<Sample>) -> (forwarded: Vec<Sample>)
    ensures
        sample_models(forwarded@) == forwardable(old(tracker).last(), sample_models(decoded@)),
        final(tracker).last() == last_after(
            old(tracker).last(),
            counters_of(sample_models(decoded@)),
        ),
        *final(metrics) == old(metrics).with_verdicts(
            verdicts(old(tracker).last(), counters_of(sample_models(decoded@))),
        ),
{
    let ghost all = sample_models(decoded@);
    let ghost first = tracker.last();
    let ghost start = *metrics;
    let mut forwarded: Vec<Sample> = Vec::new();
    proof {
        assert(all.skip(0) =~= all);
        assert(counters_of(all).skip(0) =~= counters_of(all));
        assert(sample_models(forwarded@) + forwardable(first, all) =~= forwardable(first, all));
    }
    for sample in iter: decoded
        invariant
            iter.seq() == decoded@,
            all == sample_models(decoded@),
            forwardable(first, all) == sample_models(forwarded@) + forwardable(
                tracker.last(),
                all.skip(iter.index() as int),
            ),
            last_after(first, counters_of(all)) == last_after(
                tracker.last(),
                counters_of(all).skip(iter.index() as int),
            ),
            start.with_verdicts(verdicts(first, counters_of(all))) == metrics.with_verdicts(
                verdicts(tracker.last(), counters_of(all).skip(iter.index() as int)),
            ),
    {
        let ghost i = iter.index() as int;
        let ghost before = forwarded@;
        let ghost last = tracker.last();
        proof {
            assert(all.skip(i)[0] == all[i]);
            assert(all.skip(i).skip(1) =~= all.skip(i + 1));
            assert(counters_of(all).skip(i)[0] == all[i].counter);
            assert(counters_of(all).skip(i).skip(1) =~= counters_of(all).skip(i + 1));
            assert(all[i] == sample@);
            let rest = verdicts(advance(last, all[i].counter), counters_of(all).skip(i + 1));
            let run = verdicts(last, counters_of(all).skip(i));
            assert(run == seq![classify(last, all[i].counter)] + rest);
            assert(run[0] == classify(last, all[i].counter));
            assert(run.skip(1) =~= rest);
        }
        let verdict = tracker.check(sample.counter);
        metrics.record_verdict(verdict);
        if verdict.is_accepted() {
            forwarded.push(sample);
            assert(sample_models(forwarded@) =~= sample_models(before) + seq![all[i]]);
            assert(sample_models(before) + (seq![all[i]] + forwardable(
                advance(last, all[i].counter),
                all.skip(i + 1),
            )) =~= sample_models(forwarded@) + forwardable(
                advance(last, all[i].counter),
                all.skip(i + 1),
            ));
        }
    }
    proof {
        let n = decoded@.len() as int;
        assert(all.skip(n) =~= Seq::<SampleModel>::empty());
        assert(counters_of(all).skip(n) =~= Seq::<u8>::empty());
        assert(sample_models(forwarded@) + Seq::<SampleModel>::empty() =~= sample_models(
            forwarded@,
        ));
    }
    forwarded
}

} // verus!
