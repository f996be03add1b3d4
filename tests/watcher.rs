use wardex::watcher::{sizes_stable, StabilityAction, StabilityCheck, StabilityPhase, MAX_STABILITY_ATTEMPTS};

fn snap(items: &[(&str, u64)]) -> Vec<(String, u64)> {
    items.iter().map(|(p, s)| (p.to_string(), *s)).collect()
}

#[test]
fn unchanged_sizes_are_stable() {
    assert!(sizes_stable(&snap(&[("/in/a", 10), ("/in/b", 3)]), &snap(&[("/in/b", 3), ("/in/a", 10)])));
}

#[test]
fn a_vanished_file_is_tolerated() {
    assert!(sizes_stable(&snap(&[("/in/a", 10), ("/in/b", 3)]), &snap(&[("/in/a", 10)])));
}

#[test]
fn a_growing_file_breaks_stability() {
    assert!(!sizes_stable(&snap(&[("/in/a", 10)]), &snap(&[("/in/a", 11)])));
}

#[test]
fn a_new_file_breaks_stability() {
    assert!(!sizes_stable(&snap(&[("/in/a", 10)]), &snap(&[("/in/a", 10), ("/in/b", 0)])));
}

#[test]
fn empty_inbox_is_stable_at_once() {
    let (mut check, first) = StabilityCheck::new(MAX_STABILITY_ATTEMPTS);
    assert_eq!(first, StabilityAction::TakeSnapshot);
    assert_eq!(check.step(Vec::new()), StabilityAction::Clean);
    assert_eq!(check.phase, StabilityPhase::Stable);
}

#[test]
fn growing_file_defers_the_clean_until_it_settles() {
    let (mut check, _) = StabilityCheck::new(MAX_STABILITY_ATTEMPTS);
    assert_eq!(check.step(snap(&[("/in/a", 10)])), StabilityAction::WaitThenSnapshot);
    assert_eq!(check.step(snap(&[("/in/a", 20)])), StabilityAction::TakeSnapshot);
    assert_eq!(check.attempt, 1);
    assert_eq!(check.step(snap(&[("/in/a", 20)])), StabilityAction::WaitThenSnapshot);
    assert_eq!(check.step(snap(&[("/in/a", 20)])), StabilityAction::Clean);
}

#[test]
fn file_that_never_settles_skips_the_cycle() {
    let (mut check, _) = StabilityCheck::new(MAX_STABILITY_ATTEMPTS);
    let mut size = 1u64;
    let mut last = StabilityAction::TakeSnapshot;
    for _ in 0..MAX_STABILITY_ATTEMPTS {
        assert_eq!(check.step(snap(&[("/in/a", size)])), StabilityAction::WaitThenSnapshot);
        size += 1;
        last = check.step(snap(&[("/in/a", size)]));
        size += 1;
    }
    assert_eq!(last, StabilityAction::Skip);
    assert_eq!(check.phase, StabilityPhase::Unstable);
    assert_eq!(check.step(Vec::new()), StabilityAction::Skip);
}

#[test]
fn no_rounds_means_no_clean() {
    let (check, first) = StabilityCheck::new(0);
    assert_eq!(first, StabilityAction::Skip);
    assert_eq!(check.phase, StabilityPhase::Unstable);
}
