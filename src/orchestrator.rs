//! The verification pipeline as a state machine: load the artifact, decode
//! the bundle and its record, have the backend verify the proof, validate
//! the claimed transition, finish. The caller performs each outside step
//! (reading the file, parsing the record, running the backend) and reports
//! its result; every decision is taken here.
use vstd::prelude::*;
use crate::bundle::{decode, decoded, BundleError};
use crate::expected::ExpectedTransition;
use crate::identifier::{decode_identifier, identifier_of, is_identifier_text, IdentifierError};
use crate::record::HyleOutput;
use crate::validate::{mismatch_of, transition_check, validate, ValidationError};

verus! {

/// What the proving backend said of a proof.
pub enum Verdict {
    /// The proof verifies.
    Accepted,
    /// The proof does not verify.
    Rejected,
    /// The backend could not run; its message.
    BackendFailed(String),
}

/// Why a run of the pipeline failed.
pub enum PipelineError {
    /// The artifact could not be read.
    Io,
    /// The artifact is not a bundle, or its record does not decode.
    Bundle(BundleError),
    /// The program identifier is not valid.
    Identifier(IdentifierError),
    /// The backend rejected the proof.
    VerificationFailed,
    /// The backend failed before reaching a verdict.
    Backend(String),
    /// The proof verifies but claims another transition than expected.
    Validation(ValidationError),
}

/// Where a run stands.
pub enum Stage<T> {
    /// Waiting for the artifact's bytes.
    LoadArtifact,
    /// The bundle decoded; waiting for its output-record bytes to be parsed.
    ParseRecord { proof: Vec<u8>, public_inputs: Vec<u8>, record_bytes: Vec<u8> },
    /// Waiting for the backend's verdict on `proof` and `public_inputs`;
    /// `record` was parsed from `record_bytes`.
    Verify { proof: Vec<u8>, public_inputs: Vec<u8>, record_bytes: Vec<u8>, record: HyleOutput<T> },
    /// The run is over.
    Finished(Result<HyleOutput<T>, PipelineError>),
}

/// One run of the pipeline against the program `identifier`, with the
/// transition the caller expects, if any.
pub struct Orchestrator<T> {
    pub identifier: [u8; 32],
    pub expected: Option<ExpectedTransition>,
    pub stage: Stage<T>,
}

/// Whether `r` is the failure `Validation` carrying the mismatch `m`.
pub open spec fn is_validation_failure<T>(
    r: Result<HyleOutput<T>, PipelineError>,
    m: crate::validate::Mismatch,
) -> bool {
    match r {
        Err(PipelineError::Validation(v)) => mismatch_of(Err(v)) == Some(m),
        _ => false,
    }
}

/// How a run that got `verdict` on `record` ends, given what was expected.
pub open spec fn verdict_outcome<T>(
    verdict: Verdict,
    record: HyleOutput<T>,
    expected: Option<ExpectedTransition>,
    r: Result<HyleOutput<T>, PipelineError>,
) -> bool {
    match verdict {
        Verdict::Rejected => r == Err::<HyleOutput<T>, _>(PipelineError::VerificationFailed),
        Verdict::BackendFailed(msg) => r == Err::<HyleOutput<T>, _>(PipelineError::Backend(msg)),
        Verdict::Accepted => match expected {
            None => r == Ok::<_, PipelineError>(record),
            Some(e) => match transition_check(
                record.initial_state@,
                record.next_state@,
                e.initial@,
                e.next@,
            ) {
                None => r == Ok::<_, PipelineError>(record),
                Some(m) => is_validation_failure(r, m),
            },
        },
    }
}

/// A proof the backend does not accept never reaches validation: the run
/// fails as a verification failure (or with the backend's own failure),
/// whatever the record claims and whatever was expected.
pub proof fn lemma_rejection_skips_validation<T>(
    verdict: Verdict,
    record: HyleOutput<T>,
    expected: Option<ExpectedTransition>,
    r: Result<HyleOutput<T>, PipelineError>,
)
    requires
        !(verdict is Accepted),
        verdict_outcome(verdict, record, expected, r),
    ensures
        verdict_outcome(verdict, record, None, r),
        !(r matches Err(PipelineError::Validation(_))),
        r is Err,
{
}

impl<T> Orchestrator<T> {
    /// Starts a run against the program whose identifier is `identifier_hex`.
    /// A run with an invalid identifier is over before it starts.
    pub fn new(identifier_hex: &str, expected: Option<ExpectedTransition>) -> (r: Self)
        ensures
            r.expected == expected,
            is_identifier_text(identifier_hex@) ==> r.identifier@ == identifier_of(identifier_hex@)
                && r.stage is LoadArtifact,
            !is_identifier_text(identifier_hex@) ==> r.stage == Stage::<T>::Finished(
                Err(PipelineError::Identifier(IdentifierError::InvalidHex)),
            ),
    {
        match decode_identifier(identifier_hex) {
            Ok(identifier) => Orchestrator { identifier, expected, stage: Stage::LoadArtifact },
            Err(e) => Orchestrator {
                identifier: [0u8; 32],
                expected,
                stage: Stage::Finished(Err(PipelineError::Identifier(e))),
            },
        }
    }

    /// Takes the artifact's bytes, or `None` where it could not be read.
    /// A bundle that does not decode ends the run before the backend is
    /// asked anything.
    pub fn on_artifact(&mut self, artifact: Option<&[u8]>)
        requires
            old(self).stage is LoadArtifact,
        ensures
            final(self).identifier == old(self).identifier,
            final(self).expected == old(self).expected,
            match artifact {
                None => final(self).stage == Stage::<T>::Finished(Err(PipelineError::Io)),
                Some(bytes) => match decoded(bytes@) {
                    Err(e) => final(self).stage == Stage::<T>::Finished(
                        Err(PipelineError::Bundle(e)),
                    ),
                    Ok((p, i, o)) => final(self).stage matches Stage::ParseRecord {
                        proof,
                        public_inputs,
                        record_bytes,
                    } && proof@ == p && public_inputs@ == i && record_bytes@ == o,
                },
            },
    {
        match artifact {
            None => {
                self.stage = Stage::Finished(Err(PipelineError::Io));
            },
            Some(bytes) => match decode(bytes) {
                Err(e) => {
                    self.stage = Stage::Finished(Err(PipelineError::Bundle(e)));
                },
                Ok(bundle) => {
                    self.stage = Stage::ParseRecord {
                        proof: vstd::slice::slice_to_vec(bundle.proof),
                        public_inputs: vstd::slice::slice_to_vec(bundle.public_inputs),
                        record_bytes: vstd::slice::slice_to_vec(bundle.output_record),
                    };
                },
            },
        }
    }

    /// Takes the record parsed from the record bytes, or `None` where they
    /// do not parse: the bundle is then malformed.
    pub fn on_record(&mut self, record: Option<HyleOutput<T>>)
        requires
            old(self).stage is ParseRecord,
        ensures
            final(self).identifier == old(self).identifier,
            final(self).expected == old(self).expected,
            match record {
                None => final(self).stage == Stage::<T>::Finished(
                    Err(PipelineError::Bundle(BundleError::Malformed)),
                ),
                Some(rec) => match (old(self).stage, final(self).stage) {
                    (
                        Stage::ParseRecord { proof: p0, public_inputs: i0, record_bytes: b0 },
                        Stage::Verify { proof: p1, public_inputs: i1, record_bytes: b1, record: r1 },
                    ) => p1@ == p0@ && i1@ == i0@ && b1@ == b0@ && r1 == rec,
                    _ => false,
                },
            },
    {
        let mut taken: Stage<T> = Stage::LoadArtifact;
        core::mem::swap(&mut self.stage, &mut taken);
        match record {
            None => {
                self.stage = Stage::Finished(Err(PipelineError::Bundle(BundleError::Malformed)));
            },
            Some(rec) => match taken {
                Stage::ParseRecord { proof, public_inputs, record_bytes } => {
                    self.stage = Stage::Verify { proof, public_inputs, record_bytes, record: rec };
                },
                _ => {},
            },
        }
    }

    /// Takes the backend's verdict. Only an accepted proof has its
    /// transition validated; any other verdict ends the run at once.
    pub fn on_verdict(&mut self, verdict: Verdict)
        requires
            old(self).stage is Verify,
        ensures
            final(self).identifier == old(self).identifier,
            final(self).expected == old(self).expected,
            match (old(self).stage, final(self).stage) {
                (Stage::Verify { record, .. }, Stage::Finished(r)) => verdict_outcome(
                    verdict,
                    record,
                    old(self).expected,
                    r,
                ),
                _ => false,
            },
    {
        let mut taken: Stage<T> = Stage::LoadArtifact;
        core::mem::swap(&mut self.stage, &mut taken);
        let record = match taken {
            Stage::Verify { record, .. } => record,
            _ => {
                proof {
                    assert(false);
                }
                return;
            },
        };
        let r = match verdict {
            Verdict::Rejected => Err(PipelineError::VerificationFailed),
            Verdict::BackendFailed(msg) => Err(PipelineError::Backend(msg)),
            Verdict::Accepted => match &self.expected {
                None => Ok(record),
                Some(e) => match validate(&record, e.initial.as_slice(), e.next.as_slice()) {
                    Ok(()) => Ok(record),
                    Err(v) => Err(PipelineError::Validation(v)),
                },
            },
        };
        self.stage = Stage::Finished(r);
    }

    /// The process exit status: 0 for a run that finished with success,
    /// 1 for any other.
    pub fn exit_code(&self) -> (code: i32)
        ensures
            code == (if self.stage matches Stage::Finished(Ok(_)) { 0i32 } else { 1i32 }),
    {
        match &self.stage {
            Stage::Finished(Ok(_)) => 0,
            _ => 1,
        }
    }
}

} // verus!
