use sha256_bench::config::{CommitmentBackend, Opener, RunConfig, IPA_LARGEST_K};
use sha256_bench::error::PipelineError;

fn args(values: &[&str]) -> Vec<String> {
    values.iter().map(|v| v.to_string()).collect()
}

#[test]
fn two_numeric_arguments_make_a_configuration() {
    let config = RunConfig::from_args(CommitmentBackend::Ipa, &args(&["bench", "17", "2"]))
        .expect("valid");
    assert_eq!(config.backend(), CommitmentBackend::Ipa);
    assert_eq!(config.k(), 17);
    assert_eq!(config.block_count(), 2);
}

#[test]
fn arguments_after_the_second_are_ignored() {
    let config =
        RunConfig::from_args(CommitmentBackend::Ipa, &args(&["bench", "20", "1025", "extra", "7"]))
            .expect("valid");
    assert_eq!(config.k(), 20);
    assert_eq!(config.block_count(), 1025);
}

#[test]
fn missing_arguments_are_an_argument_error() {
    for given in [&[][..], &["bench"][..], &["bench", "17"][..]] {
        assert_eq!(
            RunConfig::from_args(CommitmentBackend::Ipa, &args(given)),
            Err(PipelineError::Argument)
        );
    }
}

#[test]
fn non_numeric_arguments_are_an_argument_error() {
    for given in [
        &["bench", "k", "2"][..],
        &["bench", "17", "two"][..],
        &["bench", "", "2"][..],
        &["bench", "-17", "2"][..],
        &["bench", "17", "-2"][..],
        &["bench", "17.0", "2"][..],
        &["bench", "4294967296", "2"][..],
        &["bench", "17", "18446744073709551616"][..],
        &["bench", "seventeen", "4"][..],
    ] {
        assert_eq!(
            RunConfig::from_args(CommitmentBackend::Ipa, &args(given)),
            Err(PipelineError::Argument),
            "arguments {:?}",
            given
        );
    }
}

#[test]
fn block_count_four_is_refused_by_name() {
    assert_eq!(
        RunConfig::from_args(CommitmentBackend::Ipa, &args(&["bench", "17", "4"])),
        Err(PipelineError::UnsupportedBlockCount { requested: 4 })
    );
    assert_eq!(
        RunConfig::new(CommitmentBackend::Ipa, 17, 4),
        Err(PipelineError::UnsupportedBlockCount { requested: 4 })
    );
    assert_eq!(
        RunConfig::new(CommitmentBackend::Kzg { opener: Opener::Gwc }, 17, 0),
        Err(PipelineError::UnsupportedBlockCount { requested: 0 })
    );
}

#[test]
fn inner_product_backend_takes_k_up_to_thirty_one() {
    assert_eq!(IPA_LARGEST_K, 31);
    assert!(RunConfig::new(CommitmentBackend::Ipa, 31, 2).is_ok());
    assert!(RunConfig::new(CommitmentBackend::Ipa, 0, 2).is_ok());
    assert_eq!(
        RunConfig::new(CommitmentBackend::Ipa, 32, 2),
        Err(PipelineError::KOutOfRange { k: 32, largest: 31 })
    );
    assert_eq!(
        RunConfig::new(CommitmentBackend::Ipa, u32::MAX, 2),
        Err(PipelineError::KOutOfRange { k: u32::MAX, largest: 31 })
    );
    assert_eq!(
        RunConfig::from_args(CommitmentBackend::Ipa, &args(&["bench", "40", "1025"])),
        Err(PipelineError::KOutOfRange { k: 40, largest: 31 })
    );
}

#[test]
fn pairing_backend_has_no_limit_on_k_of_its_own_here() {
    let backend = CommitmentBackend::Kzg { opener: Opener::Shplonk };
    assert_eq!(RunConfig::new(backend, 32, 2).expect("valid").k(), 32);
    assert_eq!(RunConfig::new(backend, u32::MAX, 2).expect("valid").k(), u32::MAX);
}

#[test]
fn unlisted_block_count_is_refused_as_such_for_every_k() {
    for k in [0u32, 17, 31, 32, 33, 1000, u32::MAX] {
        for backend in [CommitmentBackend::Ipa, CommitmentBackend::Kzg { opener: Opener::Gwc }] {
            assert_eq!(
                RunConfig::new(backend, k, 4),
                Err(PipelineError::UnsupportedBlockCount { requested: 4 }),
                "k = {}",
                k
            );
        }
    }
    assert_eq!(
        RunConfig::from_args(CommitmentBackend::Ipa, &args(&["bench", "32", "4"])),
        Err(PipelineError::UnsupportedBlockCount { requested: 4 })
    );
    assert_eq!(
        RunConfig::from_args(CommitmentBackend::Ipa, &args(&["bench", "4294967295", "6"])),
        Err(PipelineError::UnsupportedBlockCount { requested: 6 })
    );
}

#[test]
fn every_cataloged_count_is_accepted_for_both_backends() {
    for backend in [
        CommitmentBackend::Ipa,
        CommitmentBackend::Kzg { opener: Opener::Gwc },
        CommitmentBackend::Kzg { opener: Opener::Shplonk },
    ] {
        for n in [2u64, 3, 5, 9, 17, 33, 65, 129, 257, 513, 1025] {
            let config = RunConfig::new(backend, 17, n).expect("valid");
            assert_eq!(config.backend(), backend);
            assert_eq!(config.k(), 17);
            assert_eq!(config.block_count(), n);
        }
    }
}
