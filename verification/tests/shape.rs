use sha256_bench::catalog::{InputCatalog, PATTERN_WORD};
use sha256_bench::error::PipelineError;
use sha256_bench::shape::build;

const LISTED: [u64; 11] = [2, 3, 5, 9, 17, 33, 65, 129, 257, 513, 1025];

#[test]
fn populated_instance_binds_the_cataloged_words() {
    let catalog = InputCatalog::new();
    let instance = build(&catalog, 3, true).expect("listed");
    assert_eq!(instance.block_count(), 3);
    assert!(instance.is_populated());
    assert_eq!(instance.words(), Some(&vec![PATTERN_WORD; 48]));
    assert_eq!(instance.word_count(), 48);
}

#[test]
fn empty_instance_has_the_shape_and_no_words() {
    let catalog = InputCatalog::new();
    let instance = build(&catalog, 3, false).expect("listed");
    assert_eq!(instance.block_count(), 3);
    assert!(!instance.is_populated());
    assert_eq!(instance.words(), None);
    assert_eq!(instance.word_count(), 48);
}

#[test]
fn empty_and_populated_instances_share_their_shape() {
    let catalog = InputCatalog::new();
    for n in LISTED {
        let empty = build(&catalog, n, false).expect("listed");
        let populated = build(&catalog, n, true).expect("listed");
        assert_eq!(empty.word_count(), populated.word_count());
        assert_eq!(empty.word_count(), 16 * n);
        assert_eq!(populated.words().expect("populated").len() as u64, empty.word_count());
        assert_eq!(populated.without_witness(), empty);
    }
}

#[test]
fn block_count_four_is_unsupported() {
    let catalog = InputCatalog::new();
    assert_eq!(
        build(&catalog, 4, true),
        Err(PipelineError::UnsupportedBlockCount { requested: 4 })
    );
    assert_eq!(
        build(&catalog, 4, false),
        Err(PipelineError::UnsupportedBlockCount { requested: 4 })
    );
}

#[test]
fn unlisted_counts_are_refused_with_the_value() {
    let catalog = InputCatalog::new();
    for n in [0u64, 1, 7, 1024, 4097, u64::MAX] {
        assert_eq!(
            build(&catalog, n, true),
            Err(PipelineError::UnsupportedBlockCount { requested: n })
        );
    }
}
