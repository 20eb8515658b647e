use esdump::gate::CompletionGate;
use esdump::rounds::round_count;

#[test]
fn two_more_pages_make_three_rounds() {
    assert_eq!(round_count(120000, 50000, 50000), 3);
}

#[test]
fn first_page_with_every_record_makes_one_round() {
    assert_eq!(round_count(50000, 50000, 50000), 1);
    assert_eq!(round_count(7, 7, 1), 1);
}

#[test]
fn first_page_with_more_than_reported_makes_one_round() {
    assert_eq!(round_count(10, 25, 5), 1);
    assert_eq!(round_count(1, usize::MAX, 1), 1);
}

#[test]
fn a_rest_of_one_page_makes_two_rounds() {
    assert_eq!(round_count(100000, 50000, 50000), 2);
    assert_eq!(round_count(50001, 50000, 50000), 2);
}

#[test]
fn a_rest_just_over_a_page_makes_three_rounds() {
    assert_eq!(round_count(100001, 50000, 50000), 3);
}

#[test]
fn an_empty_first_page_counts_every_record() {
    assert_eq!(round_count(10, 0, 3), 5);
    assert_eq!(round_count(9, 0, 3), 4);
}

#[test]
fn the_largest_total_does_not_overflow() {
    assert_eq!(round_count(i64::MAX, 0, 1), 9223372036854775808);
    assert_eq!(round_count(i64::MAX, 0, i64::MAX), 2);
}

#[test]
fn no_record_makes_one_round() {
    assert_eq!(round_count(0, 0, 10), 1);
    assert_eq!(round_count(-5, 0, 10), 1);
}

#[test]
fn a_fresh_gate_has_counted_nothing() {
    let gate = CompletionGate::new(3);
    assert_eq!(gate.pending(), 0);
    assert_eq!(gate.threshold(), 3);
}

#[test]
fn the_gate_fires_at_the_last_expected_page_only() {
    let mut gate = CompletionGate::new(3);
    assert!(!gate.record_completion());
    assert_eq!(gate.pending(), 1);
    assert!(!gate.record_completion());
    assert_eq!(gate.pending(), 2);
    assert!(gate.record_completion());
    assert_eq!(gate.pending(), 0);
    assert_eq!(gate.threshold(), 3);
}

#[test]
fn as_many_completions_as_expected_fire_exactly_once() {
    for expected in 1u64..40 {
        let mut gate = CompletionGate::new(expected);
        let mut fired = 0;
        for _ in 0..expected {
            if gate.record_completion() {
                fired += 1;
            }
        }
        assert_eq!(fired, 1);
        assert_eq!(gate, CompletionGate::new(expected));
    }
}

#[test]
fn a_gate_that_fired_serves_a_later_export() {
    let mut gate = CompletionGate::new(2);
    assert!(!gate.record_completion());
    assert!(gate.record_completion());
    assert!(!gate.record_completion());
    assert!(gate.record_completion());
}

#[test]
fn a_gate_for_one_page_fires_at_once() {
    let mut gate = CompletionGate::new(1);
    assert!(gate.record_completion());
    assert_eq!(gate.pending(), 0);
}
