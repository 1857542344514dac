use backtrace_holder::gate::{decode, enables, encode, settle, Gate, DISABLED, ENABLED, UNDECIDED};
use std::cell::Cell;
use std::sync::atomic::{AtomicUsize, Ordering};

#[test]
fn unset_switch_disables() {
    assert!(!enables(None));
}

#[test]
fn zero_switch_disables() {
    assert!(!enables(Some(b"0")));
}

#[test]
fn other_switch_values_enable() {
    assert!(enables(Some(b"1")));
    assert!(enables(Some(b"full")));
    assert!(enables(Some(b"")));
    assert!(enables(Some(b"00")));
    assert!(enables(Some(b" 0")));
}

#[test]
fn words_encode_the_three_states() {
    assert_eq!(decode(0), None);
    assert_eq!(decode(1), Some(false));
    assert_eq!(decode(2), Some(true));
    assert_eq!(decode(7), Some(true));
    assert_eq!(encode(false), 1);
    assert_eq!(encode(true), 2);
    assert_eq!((UNDECIDED, DISABLED, ENABLED), (0, 1, 2));
}

#[test]
fn settle_keeps_own_decision_after_winning() {
    assert!(settle(true, Ok(0)));
    assert!(!settle(false, Ok(0)));
}

#[test]
fn settle_reports_winner_after_losing() {
    assert!(!settle(true, Err(1)));
    assert!(settle(false, Err(2)));
    assert!(settle(true, Err(0)));
}

#[test]
fn gate_reads_switch_once_and_caches() {
    let gate = Gate::new();
    let reads = Cell::new(0u32);
    let first = gate.is_enabled(|| {
        reads.set(reads.get() + 1);
        Some(b"1".to_vec())
    });
    assert!(first);
    let second = gate.is_enabled(|| {
        reads.set(reads.get() + 1);
        None
    });
    assert!(second);
    assert_eq!(reads.get(), 1);
    assert_eq!(gate.word.load(Ordering::SeqCst), 2);
}

#[test]
fn gate_decision_survives_switch_change() {
    let gate = Gate::new();
    assert!(!gate.is_enabled(|| None));
    assert!(!gate.is_enabled(|| Some(b"1".to_vec())));
    assert_eq!(gate.word.load(Ordering::SeqCst), 1);
}

#[test]
fn gate_with_zero_switch_behaves_as_unset() {
    let zero = Gate::new();
    let unset = Gate::new();
    assert_eq!(zero.is_enabled(|| Some(b"0".to_vec())), unset.is_enabled(|| None));
    assert_eq!(zero.word.load(Ordering::SeqCst), unset.word.load(Ordering::SeqCst));
}

#[test]
fn gate_built_in_constant_form_starts_undecided() {
    let gate = Gate { word: AtomicUsize::new(UNDECIDED) };
    assert!(gate.is_enabled(|| Some(b"short".to_vec())));
}

#[test]
fn gate_keeps_a_decision_committed_elsewhere() {
    let gate = Gate::new();
    gate.word.store(DISABLED, Ordering::SeqCst);
    assert!(!gate.is_enabled(|| Some(b"1".to_vec())));
}
