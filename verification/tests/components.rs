use enigma::alphabet::{apply_offset, apply_offset_back, index_letter, letter_index};
use enigma::reflectors::{Reflector, ReflectorA, ReflectorB, ReflectorC};
use enigma::state::MachineState;

#[test]
fn test_offset_round_trip() {
    for c in 0u8..26 {
        for d in 0u8..26 {
            assert_eq!(apply_offset_back(apply_offset(c, d), d), c);
            assert_eq!(apply_offset(apply_offset_back(c, d), d), c);
        }
    }
}

#[test]
fn test_offset_values() {
    assert_eq!(apply_offset(0, 5), 5);
    assert_eq!(apply_offset(25, 1), 0);
    assert_eq!(apply_offset_back(0, 1), 25);
    assert_eq!(apply_offset_back(5, 5), 0);
}

#[test]
fn test_letter_conversions() {
    assert_eq!(letter_index('A'), 0);
    assert_eq!(letter_index('Z'), 25);
    assert_eq!(index_letter(0), 'A');
    assert_eq!(index_letter(25), 'Z');
    for c in 'A'..='Z' {
        assert_eq!(index_letter(letter_index(c)), c);
    }
}

#[test]
fn test_reflector_values() {
    let reflector = ReflectorB {};
    assert_eq!(reflector.transpose('A'), 'Y');
    assert_eq!(reflector.transpose('Y'), 'A');
    let reflector = ReflectorA {};
    assert_eq!(reflector.transpose('A'), 'E');
    let reflector = ReflectorC {};
    assert_eq!(reflector.transpose('A'), 'F');
}

#[test]
fn test_reflector_involution_no_fixed_point() {
    let reflector = ReflectorA {};
    for c in 'A'..='Z' {
        assert_eq!(reflector.transpose(reflector.transpose(c)), c);
        assert_ne!(reflector.transpose(c), c);
    }
    let reflector = ReflectorB {};
    for c in 'A'..='Z' {
        assert_eq!(reflector.transpose(reflector.transpose(c)), c);
        assert_ne!(reflector.transpose(c), c);
    }
    let reflector = ReflectorC {};
    for c in 'A'..='Z' {
        assert_eq!(reflector.transpose(reflector.transpose(c)), c);
        assert_ne!(reflector.transpose(c), c);
    }
}

#[test]
fn test_machine_state_new() {
    let state = MachineState::new(&['A', 'B', 'C']);
    assert_eq!(state.machine_state, " A B C");
    assert_eq!(state.input_state, "");
    assert_eq!(state.output_state, "");
}

#[test]
fn test_machine_state_update() {
    let mut state = MachineState::new(&['A', 'A', 'A']);
    state.update('H', 'X', &['A', 'A', 'B']);
    assert_eq!(state.machine_state, " A A B");
    assert_eq!(state.input_state, "H");
    assert_eq!(state.output_state, "X");
}

#[test]
fn test_machine_state_groups_of_five() {
    let mut state = MachineState::new(&['A', 'A', 'A']);
    let keys = ['H', 'E', 'L', 'L', 'O', 'W', 'O', 'R', 'L', 'D'];
    let outs = ['Q', 'W', 'E', 'R', 'T', 'Z', 'U', 'I', 'O', 'P'];
    for i in 0..10 {
        state.update(keys[i], outs[i], &['A', 'A', 'A']);
    }
    assert_eq!(state.input_state, "HELLO WORLD ");
    assert_eq!(state.output_state, "QWERT ZUIOP ");
}
