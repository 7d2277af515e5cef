//! The receipt backend: a proof segment holds a RISC Zero receipt in JSON,
//! and the record segment must be the receipt's journal.
use vstd::prelude::*;
use risc0_zkvm::Receipt;
use crate::orchestrator::Verdict;
use crate::validate::bytes_equal;

verus! {

#[verifier::external_type_specification]
#[verifier::external_body]
pub struct ExReceipt(Receipt);

/// The journal of the receipt that `json` holds in JSON; `None` where
/// `json` is no receipt.
pub uninterp spec fn receipt_journal_of(json: Seq<u8>) -> Option<Seq<u8>>;

/// Relies on `serde_json::from_slice` for `risc0_zkvm::Receipt`, and on the
/// public field `Receipt::journal`: the receipt and the bytes its guest
/// committed, or `None` where the bytes are not a receipt in JSON.
#[verifier::external_body]
fn parse_receipt(bytes: &[u8]) -> (r: Option<(Receipt, Vec<u8>)>)
    ensures
        match r {
            Some((_, j)) => receipt_journal_of(bytes@) == Some(j@),
            None => receipt_journal_of(bytes@) is None,
        },
{
    serde_json::from_slice::<Receipt>(bytes).ok().map(|r| {
        let journal = r.journal.bytes.clone();
        (r, journal)
    })
}

/// Relies on `risc0_zkvm::Receipt::verify`: `Ok` when the receipt proves a
/// successful run of the program with this image ID, with this journal;
/// else the verification error, as text.
#[verifier::external_body]
fn verify_receipt(receipt: &Receipt, image_id: [u8; 32]) -> (r: Result<(), String>) {
    receipt.verify(image_id).map_err(|e| format!("{}", e))
}

/// The verdict on a receipt whose journal is `journal`, given what
/// `Receipt::verify` returned: accepted exactly when the receipt verifies
/// and its journal is the bundle's record.
pub fn receipt_verdict(journal: &[u8], record: &[u8], verified: Result<(), String>) -> (v: Verdict)
    ensures
        v is Accepted <==> (verified is Ok && journal@ == record@),
        v is Rejected <==> !(v is Accepted),
{
    if !bytes_equal(journal, record) {
        return Verdict::Rejected;
    }
    match verified {
        Ok(()) => Verdict::Accepted,
        Err(_) => Verdict::Rejected,
    }
}

/// Verifies the receipt in `proof` against `image_id`, and that its journal
/// is `record`. A proof segment that is no receipt is a backend failure; a
/// receipt whose journal is not `record` is rejected; otherwise the
/// receipt's verification decides.
pub fn risc0_verdict(proof: &[u8], record: &[u8], image_id: &[u8; 32]) -> (v: Verdict)
    ensures
        receipt_journal_of(proof@) is None <==> v is BackendFailed,
        v is Accepted ==> receipt_journal_of(proof@) == Some(record@),
        (receipt_journal_of(proof@) matches Some(j) && j != record@) ==> v is Rejected,
{
    match parse_receipt(proof) {
        None => Verdict::BackendFailed(String::from_str("proof segment is not a receipt")),
        Some((receipt, journal)) => {
            receipt_verdict(journal.as_slice(), record, verify_receipt(&receipt, *image_id))
        },
    }
}

} // verus!
