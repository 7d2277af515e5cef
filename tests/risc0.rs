use hyle_verifier::orchestrator::Verdict;
use hyle_verifier::risc0::{receipt_verdict, risc0_verdict};

#[test]
fn verified_receipt_with_matching_journal_is_accepted() {
    assert!(matches!(receipt_verdict(&[1, 2], &[1, 2], Ok(())), Verdict::Accepted));
}

#[test]
fn journal_other_than_record_is_rejected() {
    assert!(matches!(receipt_verdict(&[1, 2], &[1, 3], Ok(())), Verdict::Rejected));
    assert!(matches!(receipt_verdict(&[1, 2], &[1], Ok(())), Verdict::Rejected));
}

#[test]
fn failed_receipt_verification_is_rejected() {
    let v = receipt_verdict(&[1], &[1], Err(String::from("invalid proof")));
    assert!(matches!(v, Verdict::Rejected));
}

#[test]
fn proof_segment_that_is_no_receipt_fails_backend() {
    let v = risc0_verdict(b"not a receipt", &[], &[0u8; 32]);
    assert!(matches!(v, Verdict::BackendFailed(_)));
}
