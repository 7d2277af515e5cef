//! The expected state transition, as given in base64 by the caller.
use vstd::prelude::*;
use base64::Engine;
use crate::validate::StateField;

verus! {

/// What the standard base64 alphabet, with padding, decodes `s` to;
/// `None` where `s` is no such text.
pub uninterp spec fn base64_standard_decoded(s: Seq<char>) -> Option<Seq<u8>>;

/// Relies on `base64::engine::general_purpose::STANDARD.decode`: it either
/// yields the decoded bytes or fails, depending on the text alone.
#[verifier::external_body]
fn decode_base64(s: &str) -> (r: Option<Vec<u8>>)
    ensures
        match r {
            Some(v) => base64_standard_decoded(s@) == Some(v@),
            None => base64_standard_decoded(s@) is None,
        },
{
    base64::engine::general_purpose::STANDARD.decode(s).ok()
}

/// The states a record is expected to claim before and after the run.
pub struct ExpectedTransition {
    pub initial: Vec<u8>,
    pub next: Vec<u8>,
}

/// A state argument that is not valid base64.
#[derive(Debug, Clone, Copy, PartialEq, Eq, Structural)]
pub enum StateArgError {
    InvalidBase64(StateField),
}

/// Reads the expected initial and next states from their base64 texts.
pub fn parse_expected(initial_b64: &str, next_b64: &str) -> (r: Result<
    ExpectedTransition,
    StateArgError,
>)
    ensures
        match (base64_standard_decoded(initial_b64@), base64_standard_decoded(next_b64@)) {
            (Some(i), Some(n)) => r matches Ok(e) && e.initial@ == i && e.next@ == n,
            (None, _) => r == Err::<ExpectedTransition, _>(
                StateArgError::InvalidBase64(StateField::Initial),
            ),
            (Some(_), None) => r == Err::<ExpectedTransition, _>(
                StateArgError::InvalidBase64(StateField::Next),
            ),
        },
{
    let initial = match decode_base64(initial_b64) {
        Some(v) => v,
        None => return Err(StateArgError::InvalidBase64(StateField::Initial)),
    };
    let next = match decode_base64(next_b64) {
        Some(v) => v,
        None => return Err(StateArgError::InvalidBase64(StateField::Next)),
    };
    Ok(ExpectedTransition { initial, next })
}

} // verus!
