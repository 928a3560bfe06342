use egui_backend_selector::backend::{Backend, NUM_BACKENDS};
use egui_backend_selector::selection::{
    code_is_launched, get_backend, is_launched, overwrite_backend, overwrite_backend_from,
    SelectionState,
};
use std::cell::Cell;

#[test]
fn new_state_is_undecided() {
    assert_eq!(SelectionState::new(), SelectionState::Undecided);
    assert_eq!(SelectionState::new().code(), 0);
    assert_eq!(SelectionState::new().backend(), None);
}

#[test]
fn is_launched_is_false_before_launch() {
    assert!(!is_launched(&SelectionState::Undecided));
    assert!(!is_launched(&SelectionState::Decided(Backend::SoftwareBackend)));
    assert!(!is_launched(&SelectionState::Decided(Backend::Eframe)));
}

#[test]
fn is_launched_is_true_after_launch() {
    assert!(is_launched(&SelectionState::Launched(Backend::SoftwareBackend)));
    assert!(is_launched(&SelectionState::Launched(Backend::Eframe)));
}

#[test]
fn codes_are_zero_to_four() {
    assert_eq!(NUM_BACKENDS, 2);
    assert_eq!(SelectionState::Undecided.code(), 0);
    assert_eq!(SelectionState::Decided(Backend::SoftwareBackend).code(), 1);
    assert_eq!(SelectionState::Decided(Backend::Eframe).code(), 2);
    assert_eq!(SelectionState::Launched(Backend::SoftwareBackend).code(), 3);
    assert_eq!(SelectionState::Launched(Backend::Eframe).code(), 4);
}

#[test]
fn codes_round_trip() {
    for code in 0..=4usize {
        let state = SelectionState::from_code(code).unwrap();
        assert_eq!(state.code(), code);
        assert_eq!(is_launched(&state), code > NUM_BACKENDS);
    }
    assert_eq!(SelectionState::from_code(5), None);
    assert_eq!(SelectionState::from_code(usize::MAX), None);
}

#[test]
fn ordinals_of_backends() {
    assert_eq!(Backend::SoftwareBackend.ordinal(), 1);
    assert_eq!(Backend::Eframe.ordinal(), 2);
    assert_eq!(Backend::from_ordinal(0), None);
    assert_eq!(Backend::from_ordinal(1), Some(Backend::SoftwareBackend));
    assert_eq!(Backend::from_ordinal(2), Some(Backend::Eframe));
    assert_eq!(Backend::from_ordinal(3), None);
}

#[test]
fn get_backend_records_the_probe_answer() {
    let mut state = SelectionState::new();
    assert_eq!(get_backend(&mut state, || Some(Backend::Eframe)), Some(Backend::Eframe));
    assert_eq!(state, SelectionState::Decided(Backend::Eframe));

    let mut state = SelectionState::new();
    assert_eq!(
        get_backend(&mut state, || Some(Backend::SoftwareBackend)),
        Some(Backend::SoftwareBackend)
    );
    assert_eq!(state, SelectionState::Decided(Backend::SoftwareBackend));
}

#[test]
fn get_backend_is_idempotent() {
    let calls = Cell::new(0u32);
    let mut state = SelectionState::new();
    let first = get_backend(&mut state, || {
        calls.set(calls.get() + 1);
        Some(Backend::Eframe)
    });
    let second = get_backend(&mut state, || {
        calls.set(calls.get() + 1);
        Some(Backend::SoftwareBackend)
    });
    assert_eq!(first, Some(Backend::Eframe));
    assert_eq!(second, first);
    assert_eq!(calls.get(), 1);
    assert_eq!(state, SelectionState::Decided(Backend::Eframe));
}

#[test]
fn get_backend_stays_undecided_without_an_answer() {
    let mut state = SelectionState::new();
    assert_eq!(get_backend(&mut state, || None), None);
    assert_eq!(state, SelectionState::Undecided);
    assert_eq!(get_backend(&mut state, || Some(Backend::Eframe)), Some(Backend::Eframe));
    assert_eq!(state, SelectionState::Decided(Backend::Eframe));
}

#[test]
fn get_backend_reports_a_launched_backend_without_probing() {
    let calls = Cell::new(0u32);
    let mut state = SelectionState::Launched(Backend::SoftwareBackend);
    let got = get_backend(&mut state, || {
        calls.set(calls.get() + 1);
        Some(Backend::Eframe)
    });
    assert_eq!(got, Some(Backend::SoftwareBackend));
    assert_eq!(calls.get(), 0);
    assert_eq!(state, SelectionState::Launched(Backend::SoftwareBackend));
}

#[test]
fn overwrite_before_launch_changes_the_choice() {
    let mut state = SelectionState::new();
    overwrite_backend(&mut state, Backend::SoftwareBackend);
    assert_eq!(state, SelectionState::Decided(Backend::SoftwareBackend));
    assert_eq!(get_backend(&mut state, || Some(Backend::Eframe)), Some(Backend::SoftwareBackend));

    overwrite_backend(&mut state, Backend::Eframe);
    assert_eq!(state, SelectionState::Decided(Backend::Eframe));
    assert_eq!(get_backend(&mut state, || None), Some(Backend::Eframe));
}

#[test]
fn overwrite_after_launch_is_a_no_op() {
    let mut state = SelectionState::Launched(Backend::Eframe);
    overwrite_backend(&mut state, Backend::SoftwareBackend);
    assert_eq!(state, SelectionState::Launched(Backend::Eframe));
    assert_eq!(get_backend(&mut state, || Some(Backend::SoftwareBackend)), Some(Backend::Eframe));
    assert!(is_launched(&state));
}

#[test]
fn stale_overwrite_is_lost() {
    let observed = SelectionState::Undecided;
    let mut state = SelectionState::Decided(Backend::Eframe);
    overwrite_backend_from(&mut state, observed, Backend::SoftwareBackend);
    assert_eq!(state, SelectionState::Decided(Backend::Eframe));

    let mut state = SelectionState::Launched(Backend::Eframe);
    overwrite_backend_from(&mut state, observed, Backend::SoftwareBackend);
    assert_eq!(state, SelectionState::Launched(Backend::Eframe));
}

#[test]
fn overwrite_from_a_current_reading_takes_effect() {
    let mut state = SelectionState::Decided(Backend::Eframe);
    let observed = state;
    overwrite_backend_from(&mut state, observed, Backend::SoftwareBackend);
    assert_eq!(state, SelectionState::Decided(Backend::SoftwareBackend));
}

#[test]
fn overwrite_from_a_launched_reading_attempts_nothing() {
    let observed = SelectionState::Launched(Backend::Eframe);
    let mut state = SelectionState::Launched(Backend::Eframe);
    overwrite_backend_from(&mut state, observed, Backend::SoftwareBackend);
    assert_eq!(state, SelectionState::Launched(Backend::Eframe));
}

#[test]
fn compare_exchange_swaps_only_on_a_match() {
    let mut state = SelectionState::Undecided;
    let swapped = state.compare_exchange(
        SelectionState::Undecided,
        SelectionState::Decided(Backend::Eframe),
    );
    assert_eq!(swapped, Ok(SelectionState::Undecided));
    assert_eq!(state, SelectionState::Decided(Backend::Eframe));

    let refused = state.compare_exchange(
        SelectionState::Undecided,
        SelectionState::Decided(Backend::SoftwareBackend),
    );
    assert_eq!(refused, Err(SelectionState::Decided(Backend::Eframe)));
    assert_eq!(state, SelectionState::Decided(Backend::Eframe));
}

#[test]
fn codes_above_the_number_of_backends_are_launched() {
    assert!(!code_is_launched(0));
    assert!(!code_is_launched(1));
    assert!(!code_is_launched(2));
    assert!(code_is_launched(3));
    assert!(code_is_launched(4));
    assert!(code_is_launched(5));
    assert!(code_is_launched(usize::MAX));
}
