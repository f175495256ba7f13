use sha256_bench::error::{BackendFault, PipelineError};

#[test]
fn unsupported_block_count_names_the_rejected_value() {
    let error = PipelineError::UnsupportedBlockCount { requested: 4 };
    assert_eq!(error.describe(), "unexpected sha count: 4");
    let error = PipelineError::UnsupportedBlockCount { requested: u64::MAX };
    assert_eq!(error.describe(), "unexpected sha count: 18446744073709551615");
}

#[test]
fn k_out_of_range_names_the_limit() {
    let error = PipelineError::KOutOfRange { k: 32, largest: 31 };
    assert_eq!(error.describe(), "k = 32 is out of range: the backend sets up k = 31 at most");
    let error = PipelineError::KOutOfRange { k: u32::MAX, largest: 31 };
    assert_eq!(
        error.describe(),
        "k = 4294967295 is out of range: the backend sets up k = 31 at most"
    );
}

#[test]
fn every_error_has_its_own_text() {
    let errors = [
        PipelineError::Argument,
        PipelineError::UnsupportedBlockCount { requested: 4 },
        PipelineError::ParamIo,
        PipelineError::KeygenFailure { fault: BackendFault::NotEnoughRowsAvailable { current_k: 3 } },
        PipelineError::ProofGenerationFailure { fault: BackendFault::Synthesis },
        PipelineError::ProofIo,
        PipelineError::System { fault: BackendFault::InvalidInstances },
        PipelineError::KOutOfRange { k: 32, largest: 31 },
    ];
    let texts: Vec<String> = errors.iter().map(|e| e.describe()).collect();
    assert_eq!(texts[0], "expected two numeric arguments: k and the block count");
    assert_eq!(texts[2], "could not store or load the parameters");
    assert_eq!(texts[3], "key generation failed");
    assert_eq!(texts[4], "proof generation failed");
    assert_eq!(texts[5], "could not write the proof");
    assert_eq!(texts[6], "verification could not be carried out");
    for i in 0..texts.len() {
        for j in 0..i {
            assert_ne!(texts[i], texts[j]);
        }
    }
}

#[test]
fn only_argument_errors_are_for_the_caller_to_fix() {
    assert!(PipelineError::Argument.is_caller_fixable());
    assert!(PipelineError::UnsupportedBlockCount { requested: 4 }.is_caller_fixable());
    assert!(PipelineError::KOutOfRange { k: 32, largest: 31 }.is_caller_fixable());
    assert!(!PipelineError::ParamIo.is_caller_fixable());
    assert!(!PipelineError::KeygenFailure { fault: BackendFault::Synthesis }.is_caller_fixable());
    assert!(!PipelineError::ProofGenerationFailure { fault: BackendFault::Synthesis }
        .is_caller_fixable());
    assert!(!PipelineError::ProofIo.is_caller_fixable());
    assert!(!PipelineError::System { fault: BackendFault::BoundsFailure }.is_caller_fixable());
}
