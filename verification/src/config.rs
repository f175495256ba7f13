//! The commitment backends and the validated configuration of one run.

use vstd::prelude::*;
use crate::catalog::{is_supported, supported};
use crate::error::PipelineError;
use crate::text::{parse_bounded, parse_decimal};

verus! {

/// The opening protocol of a pairing-based backend.
#[derive(Clone, Copy, Debug, PartialEq, Eq, Structural)]
pub enum Opener {
    Gwc,
    Shplonk,
}

/// The commitment scheme a run proves and verifies with.
#[derive(Clone, Copy, Debug, PartialEq, Eq, Structural)]
pub enum CommitmentBackend {
    /// Inner-product argument; its setup is a function of `k` alone.
    Ipa,
    /// Pairing-based commitments with the given opener; its setup draws
    /// randomness.
    Kzg { opener: Opener },
}

/// The largest `k` the inner-product backend sets up.
pub const IPA_LARGEST_K: u32 = 31;

/// The largest `k` that the backend sets up, where the library knows of one.
pub open spec fn largest_k(backend: CommitmentBackend) -> Option<u32> {
    match backend {
        CommitmentBackend::Ipa => Some(IPA_LARGEST_K),
        CommitmentBackend::Kzg { .. } => None,
    }
}

/// Whether the backend can set up parameters for `2^k` rows.
pub open spec fn k_in_range(backend: CommitmentBackend, k: u32) -> bool {
    largest_k(backend) matches Some(largest) ==> k <= largest
}

/// What a run is about: the backend, the size exponent and the block count.
#[derive(Clone, Copy, Debug, PartialEq, Eq, Structural)]
pub struct RunConfig {
    backend: CommitmentBackend,
    k: u32,
    block_count: u64,
}

/// What the two positional arguments say, read as numbers; the first entry
/// of `args` is the program's name.
pub open spec fn parsed_arguments(args: Seq<Seq<char>>) -> Option<(u32, u64)> {
    if args.len() < 3 {
        None
    } else {
        match (
            parse_decimal(args[1], u32::MAX as nat),
            parse_decimal(args[2], u64::MAX as nat),
        ) {
            (Some(k), Some(block_count)) => Some((k as u32, block_count as u64)),
            _ => None,
        }
    }
}

/// Why `backend`, `k` and `block_count` make no configuration, if they make
/// none. A block count that the catalog does not list is refused as such
/// for every `k`; the range of `k` is tested after it.
pub open spec fn refusal(backend: CommitmentBackend, k: u32, block_count: u64) -> Option<
    PipelineError,
> {
    if !supported(block_count) {
        Some(PipelineError::UnsupportedBlockCount { requested: block_count })
    } else {
        match largest_k(backend) {
            Some(largest) if k > largest => Some(
                PipelineError::KOutOfRange { k, largest },
            ),
            _ => None,
        }
    }
}

/// What validating `backend`, `k` and `block_count` returns.
pub open spec fn validated(
    r: Result<RunConfig, PipelineError>,
    backend: CommitmentBackend,
    k: u32,
    block_count: u64,
) -> bool {
    match r {
        Ok(config) => {
            &&& refusal(backend, k, block_count) is None
            &&& config == RunConfig::of(backend, k, block_count)
            &&& config.backend_spec() == backend
            &&& config.k_spec() == k
            &&& config.block_count_spec() == block_count
        },
        Err(e) => refusal(backend, k, block_count) == Some(e),
    }
}

/// A block count that the catalog does not list is refused under its value,
/// whatever the backend and whatever `k`.
pub proof fn lemma_unlisted_count_is_refused(backend: CommitmentBackend, k: u32, block_count: u64)
    requires
        !supported(block_count),
    ensures
        refusal(backend, k, block_count) == Some(
            PipelineError::UnsupportedBlockCount { requested: block_count },
        ),
{
}

impl RunConfig {
    /// The configuration that the three values make where nothing refuses
    /// them.
    pub closed spec fn of(backend: CommitmentBackend, k: u32, block_count: u64) -> RunConfig {
        RunConfig { backend, k, block_count }
    }

    /// A configuration holds the three values it was made of.
    pub proof fn lemma_of(backend: CommitmentBackend, k: u32, block_count: u64)
        ensures
            Self::of(backend, k, block_count).backend_spec() == backend,
            Self::of(backend, k, block_count).k_spec() == k,
            Self::of(backend, k, block_count).block_count_spec() == block_count,
    {
    }

    pub closed spec fn backend_spec(self) -> CommitmentBackend {
        self.backend
    }

    pub closed spec fn k_spec(self) -> u32 {
        self.k
    }

    pub closed spec fn block_count_spec(self) -> u64 {
        self.block_count
    }

    /// A configuration is well formed when its block count is cataloged and
    /// its `k` is in the backend's range. Every configuration that exists is.
    pub open spec fn wf(self) -> bool {
        &&& supported(self.block_count_spec())
        &&& k_in_range(self.backend_spec(), self.k_spec())
    }

    #[verifier::type_invariant]
    closed spec fn inv(self) -> bool {
        self.wf()
    }

    /// Validates the three values of a run.
    pub fn new(backend: CommitmentBackend, k: u32, block_count: u64) -> (r: Result<
        RunConfig,
        PipelineError,
    >)
        ensures
            validated(r, backend, k, block_count),
            r matches Ok(config) ==> config.wf(),
    {
        if !is_supported(block_count) {
            return Err(PipelineError::UnsupportedBlockCount { requested: block_count });
        }
        match backend {
            CommitmentBackend::Ipa => {
                if k > IPA_LARGEST_K {
                    return Err(
                        PipelineError::KOutOfRange { k, largest: IPA_LARGEST_K },
                    );
                }
            },
            CommitmentBackend::Kzg { .. } => {},
        }
        Ok(RunConfig { backend, k, block_count })
    }

    /// Reads `k` and the block count from the command line and validates
    /// them. Arguments after the second are ignored.
    pub fn from_args(backend: CommitmentBackend, args: &Vec<String>) -> (r: Result<
        RunConfig,
        PipelineError,
    >)
        ensures
            match parsed_arguments(args.deep_view()) {
                Some((k, block_count)) => validated(r, backend, k, block_count),
                None => r == Err::<RunConfig, PipelineError>(PipelineError::Argument),
            },
            r matches Ok(config) ==> config.wf(),
    {
        if args.len() < 3 {
            return Err(PipelineError::Argument);
        }
        assert(args.deep_view()[1] == args[1]@);
        assert(args.deep_view()[2] == args[2]@);
        let k = parse_bounded(args[1].as_str(), u32::MAX as u64);
        let block_count = parse_bounded(args[2].as_str(), u64::MAX);
        match (k, block_count) {
            (Some(k), Some(block_count)) => RunConfig::new(backend, k as u32, block_count),
            _ => Err(PipelineError::Argument),
        }
    }

    pub fn backend(&self) -> (b: CommitmentBackend)
        ensures
            b == self.backend_spec(),
            self.wf(),
    {
        proof {
            use_type_invariant(self);
        }
        self.backend
    }

    pub fn k(&self) -> (k: u32)
        ensures
            k == self.k_spec(),
            self.wf(),
    {
        proof {
            use_type_invariant(self);
        }
        self.k
    }

    pub fn block_count(&self) -> (n: u64)
        ensures
            n == self.block_count_spec(),
            self.wf(),
    {
        proof {
            use_type_invariant(self);
        }
        self.block_count
    }
}

} // verus!
