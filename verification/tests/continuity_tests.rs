use exgstream::continuity::{Continuity, ContinuityTracker};

#[test]
fn first_sample_sets_the_reference_without_loss() {
    let mut tracker = ContinuityTracker::new();
    assert_eq!(tracker.last_counter(), None);
    assert_eq!(tracker.check(42), Continuity::First);
    assert_eq!(tracker.last_counter(), Some(42));
}

#[test]
fn consecutive_counters_report_zero_loss() {
    let mut tracker = ContinuityTracker::new();
    let mut counter: u8 = 250;
    for step in 0..600 {
        let verdict = tracker.check(counter);
        if step == 0 {
            assert_eq!(verdict, Continuity::First);
        } else {
            assert_eq!(verdict, Continuity::InOrder);
        }
        assert!(verdict.is_accepted());
        assert_eq!(verdict.lost_count(), 0);
        assert_eq!(tracker.last_counter(), Some(counter));
        counter = counter.wrapping_add(1);
    }
}

#[test]
fn counter_wraps_from_255_to_0_without_loss() {
    let mut tracker = ContinuityTracker::new();
    tracker.check(255);
    assert_eq!(tracker.check(0), Continuity::InOrder);
    assert_eq!(tracker.last_counter(), Some(0));
}

#[test]
fn gap_of_one_is_reported_and_reference_advances() {
    let mut tracker = ContinuityTracker::new();
    tracker.check(5);
    let verdict = tracker.check(7);
    assert_eq!(verdict, Continuity::Gap { lost: 1 });
    assert_eq!(verdict.lost_count(), 1);
    assert!(verdict.is_accepted());
    assert_eq!(tracker.last_counter(), Some(7));
}

#[test]
fn duplicate_is_reported_and_reference_stays() {
    let mut tracker = ContinuityTracker::new();
    tracker.check(5);
    let verdict = tracker.check(5);
    assert_eq!(verdict, Continuity::Duplicate);
    assert!(!verdict.is_accepted());
    assert_eq!(verdict.lost_count(), 0);
    assert_eq!(tracker.last_counter(), Some(5));
    assert_eq!(tracker.check(6), Continuity::InOrder);
}

#[test]
fn gap_across_the_wrap_counts_modulo_256() {
    let mut tracker = ContinuityTracker::new();
    tracker.check(250);
    assert_eq!(tracker.check(2), Continuity::Gap { lost: 7 });
    assert_eq!(tracker.last_counter(), Some(2));
}

#[test]
fn backward_step_counts_as_a_long_gap() {
    let mut tracker = ContinuityTracker::new();
    tracker.check(10);
    assert_eq!(tracker.check(9), Continuity::Gap { lost: 254 });
    assert_eq!(tracker.last_counter(), Some(9));
}

#[test]
fn checks_resynchronise_after_a_gap() {
    let mut tracker = ContinuityTracker::new();
    tracker.check(5);
    tracker.check(9);
    assert_eq!(tracker.check(10), Continuity::InOrder);
}

#[test]
fn reset_forgets_the_reference() {
    let mut tracker = ContinuityTracker::new();
    tracker.check(5);
    tracker.reset();
    assert_eq!(tracker.last_counter(), None);
    assert_eq!(tracker.check(200), Continuity::First);
}
