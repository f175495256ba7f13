//! The names of the persisted files and the lines a run prints.

use vstd::prelude::*;
use vstd::string::*;
use crate::text::{
    append_decimal, decimal, digit_value, lemma_decimal_digits, lemma_decimal_is_injective,
};

verus! {

/// The phases of a run that are timed.
#[derive(Clone, Copy, Debug, PartialEq, Eq, Structural)]
pub enum Phase {
    Setup,
    Keygen,
    Prove,
    Verify,
}

/// Name of the parameter file for `k`.
pub open spec fn params_file_name(k: u32) -> Seq<char> {
    "./sha256_params_k_"@ + decimal(k as nat)
}

/// Name under which freshly generated parameters are written before they
/// are published under their final name.
pub open spec fn params_staging_name(k: u32) -> Seq<char> {
    params_file_name(k) + ".partial"@
}

/// Name of the proof file for `k` and `block_count`.
pub open spec fn proof_file_name(k: u32, block_count: u64) -> Seq<char> {
    "./sha256_proof_k_"@ + decimal(k as nat) + "_count_"@ + decimal(block_count as nat)
}

/// The line that announces a run.
pub open spec fn progress_line(k: u32, block_count: u64) -> Seq<char> {
    "process sha, k:"@ + decimal(k as nat) + ", sha count:"@ + decimal(block_count as nat)
}

/// The label under which a phase is timed.
pub open spec fn phase_label(phase: Phase, k: u32) -> Seq<char> {
    match phase {
        Phase::Setup => "build params with K = "@ + decimal(k as nat),
        Phase::Keygen => "build pk vk"@,
        Phase::Prove => "create proof"@,
        Phase::Verify => "verify"@,
    }
}

/// A parameter file belongs to one `k`: different exponents never share a
/// name.
pub proof fn lemma_params_name_fixes_k(k1: u32, k2: u32)
    requires
        params_file_name(k1) == params_file_name(k2),
    ensures
        k1 == k2,
{
    let prefix = "./sha256_params_k_"@;
    assert(params_file_name(k1).skip(prefix.len() as int) == decimal(k1 as nat));
    assert(params_file_name(k2).skip(prefix.len() as int) == decimal(k2 as nat));
    lemma_decimal_is_injective(k1 as nat, k2 as nat);
}

/// A proof file belongs to one pair of `k` and block count: different pairs
/// never share a name.
pub proof fn lemma_proof_name_fixes_k_and_block_count(k1: u32, n1: u64, k2: u32, n2: u64)
    requires
        proof_file_name(k1, n1) == proof_file_name(k2, n2),
    ensures
        k1 == k2,
        n1 == n2,
{
    reveal_strlit("_count_");
    let prefix = "./sha256_proof_k_"@;
    let middle = "_count_"@;
    let a1 = decimal(k1 as nat);
    let a2 = decimal(k2 as nat);
    let b1 = decimal(n1 as nat);
    let b2 = decimal(n2 as nat);
    let tail1 = a1 + middle + b1;
    let tail2 = a2 + middle + b2;
    assert(proof_file_name(k1, n1).skip(prefix.len() as int) == tail1);
    assert(proof_file_name(k2, n2).skip(prefix.len() as int) == tail2);
    lemma_decimal_digits(k1 as nat);
    lemma_decimal_digits(k2 as nat);
    assert(digit_value(middle[0]) is None);
    if a1.len() < a2.len() {
        assert(tail1[a1.len() as int] == middle[0]);
        assert(tail2[a1.len() as int] == a2[a1.len() as int]);
        assert(digit_value(a2[a1.len() as int]) is Some);
    }
    if a2.len() < a1.len() {
        assert(tail2[a2.len() as int] == middle[0]);
        assert(tail1[a2.len() as int] == a1[a2.len() as int]);
        assert(digit_value(a1[a2.len() as int]) is Some);
    }
    assert(tail1.subrange(0, a1.len() as int) == a1);
    assert(tail2.subrange(0, a2.len() as int) == a2);
    lemma_decimal_is_injective(k1 as nat, k2 as nat);
    assert(tail1.skip((a1.len() + middle.len()) as int) == b1);
    assert(tail2.skip((a2.len() + middle.len()) as int) == b2);
    lemma_decimal_is_injective(n1 as nat, n2 as nat);
}

/// Parameter files, staging files and proof files never share a name,
/// whatever runs they belong to.
pub proof fn lemma_names_differ(k: u32, block_count: u64, other_k: u32)
    ensures
        params_file_name(other_k) != params_staging_name(k),
        proof_file_name(k, block_count) != params_file_name(other_k),
        proof_file_name(k, block_count) != params_staging_name(other_k),
{
    reveal_strlit("./sha256_params_k_");
    reveal_strlit("./sha256_proof_k_");
    reveal_strlit(".partial");
    reveal_strlit("_count_");
    assert(params_file_name(other_k)[10] == 'a');
    assert(params_staging_name(other_k)[10] == 'a');
    assert(proof_file_name(k, block_count)[10] == 'r');
    lemma_decimal_digits(other_k as nat);
    let name = params_file_name(other_k);
    let staging = params_staging_name(k);
    assert(digit_value(name.last()) is Some) by {
        assert(name.last() == decimal(other_k as nat).last());
    }
    assert(staging.last() == 'l');
}

pub fn params_path(k: u32) -> (name: String)
    ensures
        name@ == params_file_name(k),
{
    let mut name = String::from_str("./sha256_params_k_");
    append_decimal(&mut name, k as u64);
    name
}

pub fn params_staging_path(k: u32) -> (name: String)
    ensures
        name@ == params_staging_name(k),
{
    let mut name = params_path(k);
    name.append(".partial");
    name
}

pub fn proof_path(k: u32, block_count: u64) -> (name: String)
    ensures
        name@ == proof_file_name(k, block_count),
{
    let mut name = String::from_str("./sha256_proof_k_");
    append_decimal(&mut name, k as u64);
    name.append("_count_");
    append_decimal(&mut name, block_count);
    name
}

pub fn progress_text(k: u32, block_count: u64) -> (line: String)
    ensures
        line@ == progress_line(k, block_count),
{
    let mut line = String::from_str("process sha, k:");
    append_decimal(&mut line, k as u64);
    line.append(", sha count:");
    append_decimal(&mut line, block_count);
    line
}

pub fn label(phase: Phase, k: u32) -> (text: String)
    ensures
        text@ == phase_label(phase, k),
{
    match phase {
        Phase::Setup => {
            let mut text = String::from_str("build params with K = ");
            append_decimal(&mut text, k as u64);
            text
        },
        Phase::Keygen => String::from_str("build pk vk"),
        Phase::Prove => String::from_str("create proof"),
        Phase::Verify => String::from_str("verify"),
    }
}

} // verus!
