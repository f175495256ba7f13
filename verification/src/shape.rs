//! Circuit instances: a cataloged shape, with or without its input words.

use vstd::prelude::*;
use crate::catalog::{
    lemma_supported_counts, pattern_sequence, supported, BlockInputSequence, InputCatalog,
    WORDS_PER_BLOCK,
};
use crate::error::PipelineError;

verus! {

/// A circuit of one cataloged shape. A populated instance carries the input
/// words and is proved; an empty one carries none and is used to derive keys.
#[derive(Debug, PartialEq, Eq)]
pub struct CircuitInstance {
    block_count: u64,
    input: Option<BlockInputSequence>,
}

/// What an instance is, as plain values.
pub struct InstanceView {
    pub block_count: u64,
    pub witness: Option<Seq<u32>>,
}

impl View for CircuitInstance {
    type V = InstanceView;

    closed spec fn view(&self) -> InstanceView {
        InstanceView {
            block_count: self.block_count,
            witness: match self.input {
                Some(sequence) => Some(sequence@.words),
                None => None,
            },
        }
    }
}

impl InstanceView {
    /// The instance that `build` makes for a supported block count.
    pub open spec fn of(block_count: u64, populate: bool) -> InstanceView {
        InstanceView {
            block_count,
            witness: if populate {
                Some(pattern_sequence(block_count))
            } else {
                None
            },
        }
    }

    /// The number of input words the circuit lays out. It fixes the layout,
    /// and depends on the block count alone.
    pub open spec fn shape(self) -> nat {
        (WORDS_PER_BLOCK * self.block_count) as nat
    }

    pub open spec fn populated(self) -> bool {
        self.witness is Some
    }

    /// An instance is well formed when its block count is cataloged and its
    /// witness, if it has one, is the cataloged sequence.
    pub open spec fn wf(self) -> bool {
        &&& supported(self.block_count)
        &&& self.witness matches Some(words) ==> words == pattern_sequence(self.block_count)
    }
}

/// An empty and a populated instance of one block count have one shape, and
/// the populated one carries exactly as many words as the shape lays out.
pub proof fn lemma_empty_and_populated_agree(block_count: u64)
    requires
        supported(block_count),
    ensures
        InstanceView::of(block_count, false).shape() == InstanceView::of(block_count, true).shape(),
        InstanceView::of(block_count, true).witness->0.len() == InstanceView::of(
            block_count,
            false,
        ).shape(),
        InstanceView::of(block_count, false).wf(),
        InstanceView::of(block_count, true).wf(),
{
    lemma_supported_counts(block_count);
}

/// Builds the instance for `block_count`: populated with the cataloged
/// words, or shape only. Fails for a count that the catalog does not list.
pub fn build(catalog: &InputCatalog, block_count: u64, populate: bool) -> (r: Result<
    CircuitInstance,
    PipelineError,
>)
    ensures
        match r {
            Ok(instance) => supported(block_count) && instance@ == InstanceView::of(
                block_count,
                populate,
            ),
            Err(e) => !supported(block_count) && e == (PipelineError::UnsupportedBlockCount {
                requested: block_count,
            }),
        },
{
    match catalog.lookup(block_count) {
        None => Err(PipelineError::UnsupportedBlockCount { requested: block_count }),
        Some(sequence) => {
            let input = if populate {
                Some(sequence.duplicate())
            } else {
                None
            };
            proof {
                lemma_empty_and_populated_agree(block_count);
            }
            Ok(CircuitInstance { block_count, input })
        },
    }
}

impl CircuitInstance {
    /// Every instance that exists is well formed.
    #[verifier::type_invariant]
    closed spec fn inv(&self) -> bool {
        self@.wf()
    }

    pub fn block_count(&self) -> (n: u64)
        ensures
            n == self@.block_count,
            self@.wf(),
    {
        proof {
            use_type_invariant(self);
        }
        self.block_count
    }

    pub fn is_populated(&self) -> (b: bool)
        ensures
            b == self@.populated(),
    {
        self.input.is_some()
    }

    /// The number of input words of the shape.
    pub fn word_count(&self) -> (n: u64)
        ensures
            n == self@.shape(),
    {
        proof {
            use_type_invariant(self);
            lemma_supported_counts(self.block_count);
        }
        WORDS_PER_BLOCK * self.block_count
    }

    /// The input words, if the instance is populated.
    pub fn words(&self) -> (w: Option<&Vec<u32>>)
        ensures
            match w {
                Some(words) => self@.witness == Some(words@),
                None => self@.witness is None,
            },
    {
        match &self.input {
            Some(sequence) => Some(sequence.words()),
            None => None,
        }
    }

    /// The same shape with the witness left out.
    pub fn without_witness(&self) -> (empty: CircuitInstance)
        ensures
            empty@ == (InstanceView { block_count: self@.block_count, witness: None }),
    {
        proof {
            use_type_invariant(self);
        }
        CircuitInstance { block_count: self.block_count, input: None }
    }
}

} // verus!
