//! Setup parameters as bytes: how they are framed, and how the
//! inner-product backend produces them.

use halo2_proofs::poly::commitment::Params;
use halo2curves::pasta::EqAffine;
use vstd::arithmetic::power2::pow2;
use vstd::prelude::*;
use crate::config::{CommitmentBackend, IPA_LARGEST_K};
use crate::power::two_to_the;

verus! {

/// Bytes of the size exponent at the head of encoded parameters.
pub const HEADER_BYTES: u64 = 4;

/// Bytes of one encoded curve point.
pub const POINT_BYTES: u64 = 32;

/// Length of the inner-product parameters for `k`: the header, two tables
/// of `2^k` points, and two more points.
pub open spec fn ipa_encoded_len(k: u32) -> nat {
    HEADER_BYTES as nat + POINT_BYTES as nat * (2 * pow2(k as nat) + 2)
}

/// The number that the first four bytes hold, least significant byte first.
pub open spec fn header_value(bytes: Seq<u8>) -> nat
    recommends
        bytes.len() >= HEADER_BYTES,
{
    bytes[0] as nat + 0x100 * bytes[1] as nat + 0x1_0000 * bytes[2] as nat + 0x100_0000
        * bytes[3] as nat
}

/// Whether `bytes` has the frame of parameters for `k`. Inner-product
/// parameters carry `k` in their header and have a length that `k` fixes, so
/// a truncated or mislabelled file is refused. The layout of pairing-based
/// parameters is left to their backend.
pub open spec fn frame_ok(backend: CommitmentBackend, k: u32, bytes: Seq<u8>) -> bool {
    match backend {
        CommitmentBackend::Ipa => {
            &&& k <= IPA_LARGEST_K
            &&& bytes.len() == ipa_encoded_len(k)
            &&& header_value(bytes) == k
        },
        CommitmentBackend::Kzg { .. } => true,
    }
}

/// The encoded inner-product parameters for `k`.
pub uninterp spec fn ipa_params_encoding(k: u32) -> Seq<u8>;

/// Runs `halo2_proofs::poly::commitment::Params::<EqAffine>::new(k)` and
/// encodes the result with `Params::write`.
///
/// Trusted: the encoding depends on `k` alone (the generators are hashed from
/// fixed labels); `write` puts `k` first, least significant byte first, then
/// `2^k` generators, `2^k` Lagrange-basis generators and two further points,
/// each as 32 bytes. `new` asserts `k < 32`.
#[verifier::external_body]
fn ipa_setup_encoded(k: u32) -> (bytes: Vec<u8>)
    requires
        k <= IPA_LARGEST_K,
    ensures
        bytes@ == ipa_params_encoding(k),
        bytes@.len() == ipa_encoded_len(k),
        header_value(bytes@) == k,
{
    let mut bytes = Vec::new();
    Params::<EqAffine>::new(k).write(&mut bytes).expect("writing to memory");
    bytes
}

/// Sets up inner-product parameters for `k` and returns them encoded;
/// `None` when `k` is out of the backend's range.
pub fn ipa_setup(k: u32) -> (r: Option<Vec<u8>>)
    ensures
        r is Some <==> k <= IPA_LARGEST_K,
        r matches Some(bytes) ==> bytes@ == ipa_params_encoding(k) && frame_ok(
            CommitmentBackend::Ipa,
            k,
            bytes@,
        ),
{
    if k <= IPA_LARGEST_K {
        Some(ipa_setup_encoded(k))
    } else {
        None
    }
}

/// Checks the frame of parameter bytes before they are used or stored.
pub fn check_frame(backend: CommitmentBackend, k: u32, bytes: &Vec<u8>) -> (ok: bool)
    ensures
        ok == frame_ok(backend, k, bytes@),
{
    match backend {
        CommitmentBackend::Kzg { .. } => true,
        CommitmentBackend::Ipa => {
            if k > IPA_LARGEST_K {
                return false;
            }
            let points: u64 = 2 * two_to_the(k) + 2;
            let expected: u64 = HEADER_BYTES + POINT_BYTES * points;
            let len: u64 = bytes.len() as u64;
            if len != expected {
                return false;
            }
            let header: u64 = bytes[0] as u64 + 0x100 * (bytes[1] as u64) + 0x1_0000 * (
            bytes[2] as u64) + 0x100_0000 * (bytes[3] as u64);
            header == k as u64
        },
    }
}

} // verus!
