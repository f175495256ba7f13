//! What can go wrong in a run, and what a finished verification reports.

use vstd::prelude::*;
use vstd::string::*;
use crate::text::{append_decimal, decimal};

verus! {

/// A fault reported by the proving system, one variant per kind it reports.
#[derive(Clone, Copy, Debug, PartialEq, Eq, Structural)]
pub enum BackendFault {
    Synthesis,
    InvalidInstances,
    ConstraintSystemFailure,
    BoundsFailure,
    Opening,
    Transcript,
    NotEnoughRowsAvailable { current_k: u32 },
    InstanceTooLarge,
    NotEnoughColumnsForConstants,
    ColumnNotInPermutation,
    TableError,
    IllegalHashFromPrivatePoint,
    Unspecified,
}

/// The outcome of checking a proof. A rejection is a result, not an error.
#[derive(Clone, Copy, Debug, PartialEq, Eq, Structural)]
pub enum VerificationResult {
    Accept,
    Reject,
}

/// The ways a run fails.
#[derive(Clone, Copy, Debug, PartialEq, Eq, Structural)]
pub enum PipelineError {
    /// An argument is missing or is not a number.
    Argument,
    /// The requested block count is not in the catalog.
    UnsupportedBlockCount { requested: u64 },
    /// The requested `k` is larger than the largest the backend sets up.
    KOutOfRange { k: u32, largest: u32 },
    /// The parameter file could not be created, written, opened or read.
    ParamIo,
    /// The proving system refused the parameters or the shape.
    KeygenFailure { fault: BackendFault },
    /// The proving system failed while creating the proof.
    ProofGenerationFailure { fault: BackendFault },
    /// The proof was created but could not be written.
    ProofIo,
    /// Verification broke down for a reason other than the proof itself.
    System { fault: BackendFault },
}

/// How a run ends: with a verification result, or with an error.
pub type Outcome = Result<VerificationResult, PipelineError>;

impl PipelineError {
    /// Whether the caller can mend the error by changing the arguments.
    pub open spec fn caller_fixable(self) -> bool {
        self is Argument || self is UnsupportedBlockCount || self is KOutOfRange
    }

    /// The diagnostic text of the error.
    pub open spec fn message(self) -> Seq<char> {
        match self {
            PipelineError::Argument => "expected two numeric arguments: k and the block count"@,
            PipelineError::UnsupportedBlockCount { requested } => "unexpected sha count: "@
                + decimal(requested as nat),
            PipelineError::KOutOfRange { k, largest } => "k = "@ + decimal(
                k as nat,
            ) + " is out of range: the backend sets up k = "@ + decimal(largest as nat)
                + " at most"@,
            PipelineError::ParamIo => "could not store or load the parameters"@,
            PipelineError::KeygenFailure { .. } => "key generation failed"@,
            PipelineError::ProofGenerationFailure { .. } => "proof generation failed"@,
            PipelineError::ProofIo => "could not write the proof"@,
            PipelineError::System { .. } => "verification could not be carried out"@,
        }
    }

    pub fn is_caller_fixable(&self) -> (b: bool)
        ensures
            b == self.caller_fixable(),
    {
        match self {
            PipelineError::Argument => true,
            PipelineError::UnsupportedBlockCount { .. } => true,
            PipelineError::KOutOfRange { .. } => true,
            _ => false,
        }
    }

    /// Renders the diagnostic text; an unsupported block count names the
    /// value that was rejected, and a `k` out of range names the limit.
    pub fn describe(&self) -> (text: String)
        ensures
            text@ == self.message(),
    {
        match self {
            PipelineError::Argument => String::from_str(
                "expected two numeric arguments: k and the block count",
            ),
            PipelineError::UnsupportedBlockCount { requested } => {
                let mut text = String::from_str("unexpected sha count: ");
                append_decimal(&mut text, *requested);
                text
            },
            PipelineError::KOutOfRange { k, largest } => {
                let mut text = String::from_str("k = ");
                append_decimal(&mut text, *k as u64);
                text.append(" is out of range: the backend sets up k = ");
                append_decimal(&mut text, *largest as u64);
                text.append(" at most");
                text
            },
            PipelineError::ParamIo => String::from_str("could not store or load the parameters"),
            PipelineError::KeygenFailure { .. } => String::from_str("key generation failed"),
            PipelineError::ProofGenerationFailure { .. } => String::from_str(
                "proof generation failed",
            ),
            PipelineError::ProofIo => String::from_str("could not write the proof"),
            PipelineError::System { .. } => String::from_str(
                "verification could not be carried out",
            ),
        }
    }
}

} // verus!
