use hyle_verifier::bundle::{encode, BundleError};
use hyle_verifier::expected::ExpectedTransition;
use hyle_verifier::identifier::IdentifierError;
use hyle_verifier::orchestrator::{Orchestrator, PipelineError, Stage, Verdict};
use hyle_verifier::record::HyleOutput;
use hyle_verifier::validate::{StateField, ValidationError};

const RECORD_BYTES: [u8; 5] = [0x52, 0x45, 0x43, 0x4f, 0x44];

fn record() -> HyleOutput<()> {
    HyleOutput {
        version: 1,
        initial_state: vec![1, 2, 3],
        next_state: vec![4, 5, 6],
        origin: String::from("alice"),
        caller: String::from("bob"),
        block_number: 7,
        block_time: 8,
        tx_hash: vec![0xcc],
        program_outputs: (),
    }
}

fn artifact() -> Vec<u8> {
    encode(&[0xAA; 100], &[0xBB; 16], &RECORD_BYTES)
}

/// Drives one run: the record parser and the backend are test doubles.
/// Returns the exit code, the final stage and how often the backend ran.
fn run(
    bytes: Option<&[u8]>,
    expected: Option<ExpectedTransition>,
    verdict: fn() -> Verdict,
) -> (i32, Stage<()>, usize) {
    let mut m: Orchestrator<()> = Orchestrator::new("0a0b", expected);
    let mut backend_calls = 0usize;
    if matches!(m.stage, Stage::LoadArtifact) {
        m.on_artifact(bytes);
    }
    if let Stage::ParseRecord { record_bytes, .. } = &m.stage {
        let parsed = if record_bytes[..] == RECORD_BYTES[..] { Some(record()) } else { None };
        m.on_record(parsed);
    }
    if let Stage::Verify { proof, public_inputs, .. } = &m.stage {
        assert_eq!(proof, &vec![0xAA; 100]);
        assert_eq!(public_inputs, &vec![0xBB; 16]);
        assert_eq!(m.identifier[30..], [0x0a, 0x0b]);
        backend_calls += 1;
        m.on_verdict(verdict());
    }
    (m.exit_code(), m.stage, backend_calls)
}

fn accept() -> Verdict {
    Verdict::Accepted
}

fn reject() -> Verdict {
    Verdict::Rejected
}

fn expect(initial: Vec<u8>, next: Vec<u8>) -> Option<ExpectedTransition> {
    Some(ExpectedTransition { initial, next })
}

#[test]
fn end_to_end_success_emits_record() {
    let a = artifact();
    let (code, stage, calls) = run(Some(&a), expect(vec![1, 2, 3], vec![4, 5, 6]), accept);
    assert_eq!(code, 0);
    assert_eq!(calls, 1);
    match stage {
        Stage::Finished(Ok(r)) => {
            assert_eq!(r.version, 1);
            assert_eq!(r.initial_state, vec![1, 2, 3]);
            assert_eq!(r.next_state, vec![4, 5, 6]);
        }
        _ => panic!("run did not succeed"),
    }
}

#[test]
fn end_to_end_wrong_next_state_fails() {
    let a = artifact();
    let (code, stage, calls) = run(Some(&a), expect(vec![1, 2, 3], vec![9, 9, 9]), accept);
    assert_eq!(code, 1);
    assert_eq!(calls, 1);
    match stage {
        Stage::Finished(Err(PipelineError::Validation(ValidationError::StateMismatch {
            field,
            ..
        }))) => assert_eq!(field, StateField::Next),
        _ => panic!("expected a state mismatch"),
    }
}

#[test]
fn end_to_end_truncated_artifact_never_reaches_backend() {
    let a = artifact();
    let (code, stage, calls) = run(Some(&a[..4]), expect(vec![1, 2, 3], vec![4, 5, 6]), accept);
    assert_eq!(code, 1);
    assert_eq!(calls, 0);
    assert!(matches!(stage, Stage::Finished(Err(PipelineError::Bundle(BundleError::Truncated)))));
}

#[test]
fn rejected_proof_is_not_validated() {
    let a = artifact();
    let (code, stage, calls) = run(Some(&a), expect(vec![0], vec![0]), reject);
    assert_eq!(code, 1);
    assert_eq!(calls, 1);
    assert!(matches!(stage, Stage::Finished(Err(PipelineError::VerificationFailed))));
}

#[test]
fn backend_failure_is_reported() {
    let a = artifact();
    let (code, stage, _) = run(Some(&a), None, || Verdict::BackendFailed(String::from("no key")));
    assert_eq!(code, 1);
    match stage {
        Stage::Finished(Err(PipelineError::Backend(msg))) => assert_eq!(msg, "no key"),
        _ => panic!("expected a backend failure"),
    }
}

#[test]
fn stateless_run_skips_validation() {
    let a = artifact();
    let (code, stage, _) = run(Some(&a), None, accept);
    assert_eq!(code, 0);
    assert!(matches!(stage, Stage::Finished(Ok(_))));
}

#[test]
fn unreadable_artifact_is_io_error() {
    let (code, stage, calls) = run(None, None, accept);
    assert_eq!(code, 1);
    assert_eq!(calls, 0);
    assert!(matches!(stage, Stage::Finished(Err(PipelineError::Io))));
}

#[test]
fn unparsable_record_is_malformed() {
    let a = encode(&[1], &[2], &[3]);
    let (code, stage, calls) = run(Some(&a), None, accept);
    assert_eq!(code, 1);
    assert_eq!(calls, 0);
    assert!(matches!(stage, Stage::Finished(Err(PipelineError::Bundle(BundleError::Malformed)))));
}

#[test]
fn invalid_identifier_ends_run_at_once() {
    let m: Orchestrator<()> = Orchestrator::new("xyz", None);
    assert_eq!(m.exit_code(), 1);
    assert!(matches!(
        m.stage,
        Stage::Finished(Err(PipelineError::Identifier(IdentifierError::InvalidHex)))
    ));
}
