use hyle_verifier::expected::{parse_expected, StateArgError};
use hyle_verifier::record::HyleOutput;
use hyle_verifier::validate::{bytes_equal, validate, StateField, ValidationError};

fn record(initial: Vec<u8>, next: Vec<u8>) -> HyleOutput<()> {
    HyleOutput {
        version: 1,
        initial_state: initial,
        next_state: next,
        origin: String::new(),
        caller: String::new(),
        block_number: 0,
        block_time: 0,
        tx_hash: vec![],
        program_outputs: (),
    }
}

#[test]
fn matching_states_pass() {
    let r = record(vec![1, 2, 3], vec![4, 5, 6]);
    assert!(validate(&r, &[1, 2, 3], &[4, 5, 6]).is_ok());
}

#[test]
fn next_state_mismatch_is_reported() {
    let r = record(vec![1, 2, 3], vec![4, 5, 6]);
    match validate(&r, &[1, 2, 3], &[9, 9, 9]) {
        Err(ValidationError::StateMismatch { field, expected, actual }) => {
            assert_eq!(field, StateField::Next);
            assert_eq!(expected, vec![9, 9, 9]);
            assert_eq!(actual, vec![4, 5, 6]);
        }
        Ok(()) => panic!("mismatch not detected"),
    }
}

#[test]
fn initial_state_mismatch_is_reported_first() {
    let r = record(vec![1], vec![2]);
    match validate(&r, &[0], &[0]) {
        Err(ValidationError::StateMismatch { field, expected, actual }) => {
            assert_eq!(field, StateField::Initial);
            assert_eq!(expected, vec![0]);
            assert_eq!(actual, vec![1]);
        }
        Ok(()) => panic!("mismatch not detected"),
    }
}

#[test]
fn prefix_state_is_a_mismatch() {
    let r = record(vec![1, 2], vec![3]);
    assert!(validate(&r, &[1], &[3]).is_err());
    assert!(!bytes_equal(&[1, 2], &[1]));
    assert!(bytes_equal(&[], &[]));
}

#[test]
fn expected_states_decode_from_base64() {
    let e = parse_expected("AQID", "BAUG").unwrap();
    assert_eq!(e.initial, vec![1, 2, 3]);
    assert_eq!(e.next, vec![4, 5, 6]);
}

#[test]
fn invalid_base64_names_the_state() {
    assert_eq!(
        parse_expected("!!", "BAUG").err(),
        Some(StateArgError::InvalidBase64(StateField::Initial))
    );
    assert_eq!(
        parse_expected("AQID", "B").err(),
        Some(StateArgError::InvalidBase64(StateField::Next))
    );
}
