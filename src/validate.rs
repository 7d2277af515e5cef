//! Checking the state transition a record claims against the one the
//! caller expects.
use vstd::prelude::*;
use crate::record::HyleOutput;

verus! {

/// Which state of a record disagrees with what was expected.
#[derive(Debug, Clone, Copy, PartialEq, Eq, Structural)]
pub enum StateField {
    Initial,
    Next,
}

/// A record whose claimed transition is not the expected one.
#[derive(Debug)]
pub enum ValidationError {
    StateMismatch { field: StateField, expected: Vec<u8>, actual: Vec<u8> },
}

/// Whether `a` and `b` hold the same bytes.
pub fn bytes_equal(a: &[u8], b: &[u8]) -> (r: bool)
    ensures
        r == (a@ == b@),
{
    if a.len() != b.len() {
        return false;
    }
    let mut i: usize = 0;
    while i < a.len()
        invariant
            a@.len() == b@.len(),
            i <= a@.len(),
            forall|j: int| 0 <= j < i ==> a@[j] == b@[j],
        decreases a@.len() - i,
    {
        if a[i] != b[i] {
            return false;
        }
        i = i + 1;
    }
    assert(a@ =~= b@);
    true
}

/// A mismatch as plain values: the field, the expected bytes, the actual bytes.
pub type Mismatch = (StateField, Seq<u8>, Seq<u8>);

/// The result of a validation as plain values: `None` for success.
pub open spec fn mismatch_of(r: Result<(), ValidationError>) -> Option<Mismatch> {
    match r {
        Ok(_) => None,
        Err(ValidationError::StateMismatch { field, expected, actual }) => Some(
            (field, expected@, actual@),
        ),
    }
}

/// What validating a claimed transition `(initial, next)` against the
/// expected `(expected_initial, expected_next)` gives: success when both
/// agree byte for byte, else a mismatch on the first state that differs.
pub open spec fn transition_check(
    initial: Seq<u8>,
    next: Seq<u8>,
    expected_initial: Seq<u8>,
    expected_next: Seq<u8>,
) -> Option<Mismatch> {
    if initial != expected_initial {
        Some((StateField::Initial, expected_initial, initial))
    } else if next != expected_next {
        Some((StateField::Next, expected_next, next))
    } else {
        None
    }
}

/// A record that claims `a` to `b` passes against the expected `(a, b)`,
/// and fails with a mismatch on the next state against `(a, c)` for any
/// `c` other than `b`.
pub proof fn lemma_mismatch_detected(a: Seq<u8>, b: Seq<u8>, c: Seq<u8>)
    ensures
        transition_check(a, b, a, b) is None,
        c != b ==> transition_check(a, b, a, c) == Some((StateField::Next, c, b)),
{
}

/// Checks that `claimed` starts from `expected_initial` and ends in
/// `expected_next`.
pub fn validate<T>(claimed: &HyleOutput<T>, expected_initial: &[u8], expected_next: &[u8]) -> (r:
    Result<(), ValidationError>)
    ensures
        mismatch_of(r) == transition_check(
            claimed.initial_state@,
            claimed.next_state@,
            expected_initial@,
            expected_next@,
        ),
{
    if !bytes_equal(claimed.initial_state.as_slice(), expected_initial) {
        return Err(
            ValidationError::StateMismatch {
                field: StateField::Initial,
                expected: vstd::slice::slice_to_vec(expected_initial),
                actual: vstd::slice::slice_to_vec(claimed.initial_state.as_slice()),
            },
        );
    }
    if !bytes_equal(claimed.next_state.as_slice(), expected_next) {
        return Err(
            ValidationError::StateMismatch {
                field: StateField::Next,
                expected: vstd::slice::slice_to_vec(expected_next),
                actual: vstd::slice::slice_to_vec(claimed.next_state.as_slice()),
            },
        );
    }
    Ok(())
}

} // verus!
