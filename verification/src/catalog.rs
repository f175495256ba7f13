//! The fixed table of supported block counts and their input words.

use vstd::arithmetic::power2::{lemma2_to64, lemma_pow2_strictly_increases, pow2};
use vstd::pervasive::unreached;
use vstd::prelude::*;
use crate::power::two_to_the;

verus! {

/// Words that one block of the compression function consumes.
pub const WORDS_PER_BLOCK: u64 = 16;

/// The word that every cataloged sequence repeats.
pub const PATTERN_WORD: u32 = 0x7880_0000;

/// Number of block counts in the catalog.
pub const CATALOG_SIZE: usize = 11;

/// The largest exponent `e` for which `2^e + 1` is cataloged.
pub const LARGEST_EXPONENT: u32 = 10;

/// A block count is supported when it is a power of two plus one, from
/// `2^0 + 1` up to `2^10 + 1`.
pub open spec fn supported(block_count: u64) -> bool {
    exists|e: nat| e <= LARGEST_EXPONENT && block_count == #[trigger] pow2(e) + 1
}

/// The catalog entry at position `i`, counting from the smallest.
pub open spec fn count_at(i: nat) -> nat {
    pow2(i) + 1
}

/// The words bound to a block count: the pattern word, `16 * block_count` times.
pub open spec fn pattern_sequence(block_count: u64) -> Seq<u32> {
    Seq::new((WORDS_PER_BLOCK * block_count) as nat, |i: int| PATTERN_WORD)
}

/// A sequence as plain values: the block count and the words bound to it.
pub struct SequenceView {
    pub block_count: u64,
    pub words: Seq<u32>,
}

impl SequenceView {
    /// The sequence of a block count.
    pub open spec fn of(block_count: u64) -> SequenceView {
        SequenceView { block_count, words: pattern_sequence(block_count) }
    }

    /// A sequence is well formed when its count is cataloged and its words
    /// are the pattern for that count.
    pub open spec fn wf(self) -> bool {
        &&& supported(self.block_count)
        &&& self.words == pattern_sequence(self.block_count)
    }
}

/// The whole catalog: one entry per supported block count, from the smallest
/// to the largest, each with the words bound to it.
pub open spec fn full_table() -> Seq<SequenceView> {
    Seq::new(CATALOG_SIZE as nat, |i: int| SequenceView::of(count_at(i as nat) as u64))
}

/// The supported block counts, written out.
pub proof fn lemma_supported_counts(block_count: u64)
    ensures
        supported(block_count) <==> (block_count == 2 || block_count == 3 || block_count == 5
            || block_count == 9 || block_count == 17 || block_count == 33 || block_count == 65
            || block_count == 129 || block_count == 257 || block_count == 513 || block_count
            == 1025),
{
    lemma2_to64();
    if supported(block_count) {
        let e = choose|e: nat| e <= LARGEST_EXPONENT && block_count == #[trigger] pow2(e) + 1;
        assert(e == 0 || e == 1 || e == 2 || e == 3 || e == 4 || e == 5 || e == 6 || e == 7 || e
            == 8 || e == 9 || e == 10);
    }
    assert(2 == pow2(0) + 1);
    assert(3 == pow2(1) + 1);
    assert(5 == pow2(2) + 1);
    assert(9 == pow2(3) + 1);
    assert(17 == pow2(4) + 1);
    assert(33 == pow2(5) + 1);
    assert(65 == pow2(6) + 1);
    assert(129 == pow2(7) + 1);
    assert(257 == pow2(8) + 1);
    assert(513 == pow2(9) + 1);
    assert(1025 == pow2(10) + 1);
}

/// Every cataloged sequence has exactly sixteen words per block.
pub proof fn lemma_sequence_length(block_count: u64)
    requires
        supported(block_count),
    ensures
        pattern_sequence(block_count).len() == 16 * block_count,
{
    lemma_supported_counts(block_count);
}

/// Whether `block_count` is in the catalog.
pub fn is_supported(block_count: u64) -> (b: bool)
    ensures
        b == supported(block_count),
{
    let mut e: u32 = 0;
    while e <= LARGEST_EXPONENT
        invariant
            e <= LARGEST_EXPONENT + 1,
            forall|j: nat| j < e ==> block_count != #[trigger] pow2(j) + 1,
        decreases LARGEST_EXPONENT + 1 - e,
    {
        if block_count == two_to_the(e) + 1 {
            return true;
        }
        e = e + 1;
    }
    false
}

/// The input words of one circuit shape.
#[derive(Debug, PartialEq, Eq)]
pub struct BlockInputSequence {
    block_count: u64,
    words: Vec<u32>,
}

impl View for BlockInputSequence {
    type V = SequenceView;

    closed spec fn view(&self) -> SequenceView {
        SequenceView { block_count: self.block_count, words: self.words@ }
    }
}

impl BlockInputSequence {
    /// Every sequence that exists is well formed.
    #[verifier::type_invariant]
    closed spec fn inv(&self) -> bool {
        self@.wf()
    }

    /// Generates the sequence for a supported block count; `None` for any other.
    pub fn generate(block_count: u64) -> (r: Option<BlockInputSequence>)
        ensures
            r is Some <==> supported(block_count),
            r matches Some(s) ==> s@ == SequenceView::of(block_count),
    {
        if !is_supported(block_count) {
            return None;
        }
        proof {
            lemma_supported_counts(block_count);
        }
        let total: u64 = WORDS_PER_BLOCK * block_count;
        let mut words: Vec<u32> = Vec::new();
        let mut i: u64 = 0;
        while i < total
            invariant
                i <= total,
                words@ == Seq::new(i as nat, |j: int| PATTERN_WORD),
            decreases total - i,
        {
            words.push(PATTERN_WORD);
            i = i + 1;
        }
        Some(BlockInputSequence { block_count, words })
    }

    pub fn block_count(&self) -> (n: u64)
        ensures
            n == self@.block_count,
            self@.wf(),
    {
        proof {
            use_type_invariant(self);
        }
        self.block_count
    }

    pub fn words(&self) -> (w: &Vec<u32>)
        ensures
            w@ == self@.words,
            self@.wf(),
    {
        proof {
            use_type_invariant(self);
        }
        &self.words
    }

    /// An independent copy of this sequence.
    pub fn duplicate(&self) -> (copy: BlockInputSequence)
        ensures
            copy@ == self@,
    {
        proof {
            use_type_invariant(self);
        }
        let mut words: Vec<u32> = Vec::new();
        let mut i: usize = 0;
        while i < self.words.len()
            invariant
                i <= self.words.len(),
                words@ == self.words@.subrange(0, i as int),
            decreases self.words.len() - i,
        {
            words.push(self.words[i]);
            i = i + 1;
        }
        assert(self.words@.subrange(0, self.words.len() as int) == self.words@);
        BlockInputSequence { block_count: self.block_count, words }
    }
}

/// The table from supported block counts to their input sequences.
#[derive(Debug)]
pub struct InputCatalog {
    entries: Vec<BlockInputSequence>,
}

/// A catalog is seen as its entries in their order.
impl View for InputCatalog {
    type V = Seq<SequenceView>;

    closed spec fn view(&self) -> Seq<SequenceView> {
        Seq::new(self.entries.len() as nat, |i: int| self.entries[i]@)
    }
}

impl InputCatalog {
    /// Every catalog that exists is the whole table.
    #[verifier::type_invariant]
    closed spec fn inv(&self) -> bool {
        self@ == full_table()
    }

    /// Builds the whole table: the sequence of every supported block count,
    /// generated anew.
    pub fn new() -> (catalog: InputCatalog)
        ensures
            catalog@ == full_table(),
    {
        let mut entries: Vec<BlockInputSequence> = Vec::new();
        let mut e: u32 = 0;
        while e <= LARGEST_EXPONENT
            invariant
                e <= LARGEST_EXPONENT + 1,
                entries.len() == e,
                forall|i: int|
                    0 <= i < entries.len() ==> (#[trigger] entries[i])@ == SequenceView::of(
                        count_at(i as nat) as u64,
                    ),
            decreases LARGEST_EXPONENT + 1 - e,
        {
            let block_count = two_to_the(e) + 1;
            assert(supported(block_count)) by {
                assert(block_count == pow2(e as nat) + 1);
            }
            match BlockInputSequence::generate(block_count) {
                Some(sequence) => entries.push(sequence),
                None => unreached(),
            }
            e = e + 1;
        }
        assert(Seq::new(entries.len() as nat, |i: int| entries[i]@) =~= full_table());
        InputCatalog { entries }
    }

    /// Looks a block count up; `None` when the catalog does not list it.
    pub fn lookup(&self, block_count: u64) -> (r: Option<&BlockInputSequence>)
        ensures
            r is Some <==> supported(block_count),
            r matches Some(s) ==> s@ == SequenceView::of(block_count),
    {
        proof {
            use_type_invariant(self);
            lemma2_to64();
            assert(self@.len() == self.entries.len());
        }
        let mut i: usize = 0;
        while i < self.entries.len()
            invariant
                self@ == full_table(),
                self.entries.len() == CATALOG_SIZE,
                pow2(11) == 2048,
                i <= self.entries.len(),
                forall|j: nat| j < i ==> block_count != #[trigger] pow2(j) + 1,
            decreases self.entries.len() - i,
        {
            proof {
                lemma_pow2_strictly_increases(i as nat, 11);
                assert(self.entries[i as int]@ == self@[i as int]);
            }
            if self.entries[i].block_count == block_count {
                return Some(&self.entries[i]);
            }
            i = i + 1;
        }
        None
    }
}

} // verus!
