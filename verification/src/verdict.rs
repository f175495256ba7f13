//! Turning what the proving system says of a proof into a verdict.

use vstd::prelude::*;
use crate::error::{BackendFault, Outcome, PipelineError, VerificationResult};

verus! {

/// What the proving system returned from checking a proof.
#[derive(Clone, Copy, Debug, PartialEq, Eq, Structural)]
pub enum VerifierReport {
    /// The proof checked out.
    Accepted,
    /// The check ended with a fault.
    Refused { fault: BackendFault },
}

/// Whether a fault says that the proof itself is bad: its bytes do not
/// decode, an opening does not hold, or the final check fails.
pub open spec fn blames_proof(fault: BackendFault) -> bool {
    fault is Transcript || fault is Opening || fault is ConstraintSystemFailure
}

/// The verdict on a report: accepted, rejected because of the proof, or a
/// system error for every other fault.
pub open spec fn verdict(report: VerifierReport) -> Outcome {
    match report {
        VerifierReport::Accepted => Ok(VerificationResult::Accept),
        VerifierReport::Refused { fault } => if blames_proof(fault) {
            Ok(VerificationResult::Reject)
        } else {
            Err(PipelineError::System { fault })
        },
    }
}

/// Classifies a report of the proving system.
pub fn classify(report: VerifierReport) -> (outcome: Outcome)
    ensures
        outcome == verdict(report),
{
    match report {
        VerifierReport::Accepted => Ok(VerificationResult::Accept),
        VerifierReport::Refused { fault } => match fault {
            BackendFault::Transcript => Ok(VerificationResult::Reject),
            BackendFault::Opening => Ok(VerificationResult::Reject),
            BackendFault::ConstraintSystemFailure => Ok(VerificationResult::Reject),
            _ => Err(PipelineError::System { fault }),
        },
    }
}

} // verus!
