use render_harness::pacing::next_nap;
use render_harness::pacing::COARSE_NAP;
use render_harness::pacing::FINE_NAP;

#[test]
fn nap_lengths() {
    assert_eq!(COARSE_NAP, 1_000_000);
    assert_eq!(FINE_NAP, 1_000);
}

#[test]
fn coarse_naps_while_more_than_a_millisecond_is_left() {
    assert_eq!(next_nap(5_000_000, 0), Some(COARSE_NAP));
    assert_eq!(next_nap(5_000_000, 3_999_999), Some(COARSE_NAP));
    assert_eq!(next_nap(u64::MAX, u64::MAX - COARSE_NAP - 1), Some(COARSE_NAP));
}

#[test]
fn fine_naps_for_the_last_millisecond() {
    assert_eq!(next_nap(5_000_000, 4_000_000), Some(FINE_NAP));
    assert_eq!(next_nap(5_000_000, 4_999_999), Some(FINE_NAP));
    assert_eq!(next_nap(1_000_000, 0), Some(FINE_NAP));
    assert_eq!(next_nap(1, 0), Some(FINE_NAP));
    assert_eq!(next_nap(u64::MAX, u64::MAX - 1), Some(FINE_NAP));
}

#[test]
fn no_nap_once_the_target_is_reached() {
    assert_eq!(next_nap(5_000_000, 5_000_000), None);
    assert_eq!(next_nap(5_000_000, 9_000_000), None);
    assert_eq!(next_nap(0, 0), None);
}

#[test]
fn exact_naps_end_less_than_a_fine_nap_late() {
    for target in [0, 1, 999, 1_000, 1_000_000, 1_000_001, 3_456_789, 16_666_666] {
        let mut slept = 0;
        let mut fine_seen = false;
        while let Some(nap) = next_nap(target, slept) {
            if nap == FINE_NAP {
                fine_seen = true;
            } else {
                assert_eq!(nap, COARSE_NAP);
                assert!(!fine_seen);
            }
            slept += nap;
        }
        assert!(slept >= target && slept < target + FINE_NAP);
    }
}
