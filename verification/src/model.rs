//! A model of a whole run: the state machine driven against storage and
//! collaborators that answer as the model says. The laws of the pipeline are
//! stated and proved over it.

use vstd::prelude::*;
use crate::catalog::supported;
use crate::config::{refusal, CommitmentBackend, RunConfig};
use crate::error::{BackendFault, Outcome, PipelineError, VerificationResult};
use crate::naming::{
    lemma_names_differ, params_file_name, params_staging_name, proof_file_name,
};
use crate::params::frame_ok;
use crate::pipeline::{opening, transition, ActionView, Content, EventView, Stage};
use crate::verdict::{blames_proof, verdict, VerifierReport};

verus! {

/// Durable storage: the bytes held under each file name.
pub type Files = Map<Seq<char>, Seq<u8>>;

/// What the collaborators of a run answer when they are asked, storage's
/// faults among them.
pub struct Collaborators {
    /// Whether looking for the parameter file fails.
    pub probe_fails: bool,
    /// The names that cannot be written in full.
    pub unwritable: Set<Seq<char>>,
    /// What a write that fails leaves under the name.
    pub debris: Seq<u8>,
    /// Whether moving the staged parameters to their final name fails.
    pub rename_fails: bool,
    /// The encoded parameters that the backend's setup produces.
    pub setup: Seq<u8>,
    /// Whether the parameter bytes in use decode.
    pub params_decode: bool,
    /// The fault that key generation ends with, if it ends with one.
    pub keygen_fault: Option<BackendFault>,
    /// The proof that proving creates, or the fault it ends with.
    pub proof: Result<Seq<u8>, BackendFault>,
    /// What checking the proof reports.
    pub report: VerifierReport,
}

/// A run in progress.
pub struct Run {
    pub stage: Stage,
    /// The action that the driver carries out next.
    pub pending: ActionView,
    pub files: Files,
    /// The actions carried out so far, in their order.
    pub history: Seq<ActionView>,
    /// Whether the backend's setup has been run.
    pub setup_ran: bool,
    /// The parameter bytes handed to key generation, once it was asked for.
    pub params: Option<Seq<u8>>,
}

/// The bytes that the driver holds for `content`, if it holds any.
pub open spec fn in_hand(content: Content, world: Collaborators) -> Option<Seq<u8>> {
    match content {
        Content::Parameters => Some(world.setup),
        Content::Proof => match world.proof {
            Ok(proof) => Some(proof),
            Err(_) => None,
        },
    }
}

/// Carrying out `action`: the event it is answered with, and storage after
/// it. A write that fails leaves debris under the name it was to write.
pub open spec fn perform(action: ActionView, files: Files, world: Collaborators) -> (
    EventView,
    Files,
) {
    match action {
        ActionView::Announce { .. } => (EventView::Done, files),
        ActionView::ProbeParams { path } => if world.probe_fails {
            (EventView::Failed, files)
        } else if files.contains_key(path) {
            (EventView::ParamsFound { bytes: files[path] }, files)
        } else {
            (EventView::ParamsAbsent, files)
        },
        ActionView::RunSetup { .. } => (EventView::SetupDone { bytes: world.setup }, files),
        ActionView::WriteFile { path, content } => match in_hand(content, world) {
            None => (EventView::Failed, files),
            Some(bytes) => if world.unwritable.contains(path) {
                (EventView::Failed, files.insert(path, world.debris))
            } else {
                (EventView::Done, files.insert(path, bytes))
            },
        },
        ActionView::Rename { from, to } => if world.rename_fails || !files.contains_key(from) {
            (EventView::Failed, files)
        } else {
            (EventView::Done, files.remove(from).insert(to, files[from]))
        },
        ActionView::RemoveFile { path } => (EventView::Done, files.remove(path)),
        ActionView::GenerateKeys { .. } => if !world.params_decode {
            (EventView::ParamsUnreadable, files)
        } else {
            match world.keygen_fault {
                None => (EventView::Done, files),
                Some(fault) => (EventView::BackendRefused { fault }, files),
            }
        },
        ActionView::CreateProof { .. } => match world.proof {
            Ok(_) => (EventView::ProofCreated, files),
            Err(fault) => (EventView::BackendRefused { fault }, files),
        },
        ActionView::Verify { .. } => (EventView::Verified { report: world.report }, files),
        ActionView::Stop { .. } => (EventView::Done, files),
    }
}

/// Whether storage serves the run without a fault.
pub open spec fn storage_sound(config: RunConfig, world: Collaborators) -> bool {
    &&& !world.probe_fails
    &&& !world.rename_fails
    &&& !world.unwritable.contains(params_staging_name(config.k_spec()))
    &&& !world.unwritable.contains(
        proof_file_name(config.k_spec(), config.block_count_spec()),
    )
}

/// Whether the parameters that the run comes to use have a well-formed
/// frame: the stored ones where there are any, else the ones that the setup
/// produces.
pub open spec fn parameters_usable(config: RunConfig, world: Collaborators, files: Files) -> bool {
    let name = params_file_name(config.k_spec());
    frame_ok(
        config.backend_spec(),
        config.k_spec(),
        if files.contains_key(name) {
            files[name]
        } else {
            world.setup
        },
    )
}

/// Whether nothing stands in the way of a proof: storage is sound, the
/// parameters are usable and decode, keys are derived and a proof is created.
pub open spec fn sound(config: RunConfig, world: Collaborators, files: Files) -> bool {
    &&& storage_sound(config, world)
    &&& parameters_usable(config, world, files)
    &&& world.params_decode
    &&& world.keygen_fault is None
    &&& world.proof is Ok
}

/// The run as it opens on `files`.
pub open spec fn begin(config: RunConfig, files: Files) -> Run {
    Run {
        stage: Stage::Announcing,
        pending: opening(config),
        files,
        history: Seq::empty(),
        setup_ran: false,
        params: None,
    }
}

/// One turn of the driver: it carries out the pending action and hands the
/// event to the state machine. A run that has stopped stays as it is.
pub open spec fn advance(config: RunConfig, world: Collaborators, run: Run) -> Run {
    if run.pending is Stop {
        run
    } else {
        let (event, files) = perform(run.pending, run.files, world);
        let (stage, pending) = transition(config, run.stage, event);
        Run {
            stage,
            pending,
            files,
            history: run.history.push(run.pending),
            setup_ran: run.setup_ran || run.pending is RunSetup,
            params: if run.pending is GenerateKeys {
                Some(run.files[params_file_name(config.k_spec())])
            } else {
                run.params
            },
        }
    }
}

/// The run after `turns` turns of the driver.
pub open spec fn after(config: RunConfig, world: Collaborators, run: Run, turns: nat) -> Run
    decreases turns,
{
    if turns == 0 {
        run
    } else {
        after(config, world, advance(config, world, run), (turns - 1) as nat)
    }
}

/// The number of turns of the longest run.
pub open spec fn longest_run() -> nat {
    9
}

/// A whole run on `files`.
pub open spec fn run(config: RunConfig, world: Collaborators, files: Files) -> Run {
    after(config, world, begin(config, files), longest_run())
}

/// The outcome of a run that has stopped.
pub open spec fn outcome_of(run: Run) -> Option<Outcome> {
    match run.pending {
        ActionView::Stop { outcome } => Some(outcome),
        _ => None,
    }
}

/// What becomes of a request: refused, it ends with the refusal and storage
/// is as it was; else it ends as the run of its configuration does.
pub open spec fn attempt(
    backend: CommitmentBackend,
    k: u32,
    block_count: u64,
    world: Collaborators,
    files: Files,
) -> (Option<Outcome>, Files) {
    match refusal(backend, k, block_count) {
        Some(error) => (Some(Err(error)), files),
        None => {
            let end = run(RunConfig::of(backend, k, block_count), world, files);
            (outcome_of(end), end.files)
        },
    }
}

/// A request for a block count that the catalog does not list ends as
/// unsupported, whatever `k` and the backend, and no file is made or changed.
pub proof fn lemma_unlisted_count_changes_nothing(
    backend: CommitmentBackend,
    k: u32,
    block_count: u64,
    world: Collaborators,
    files: Files,
)
    requires
        !supported(block_count),
    ensures
        attempt(backend, k, block_count, world, files) == (
            Some(
                Err::<VerificationResult, PipelineError>(
                    PipelineError::UnsupportedBlockCount { requested: block_count },
                ),
            ),
            files,
        ),
{
}

/// Every run stops: after the longest run's turns the driver is told to
/// stop, with the outcome that the pipeline ended in.
pub proof fn lemma_run_stops(config: RunConfig, world: Collaborators, files: Files)
    ensures
        run(config, world, files).pending is Stop,
        run(config, world, files).stage == (Stage::Finished {
            outcome: outcome_of(run(config, world, files))->0,
        }),
{
    reveal_with_fuel(after, 10);
}

/// Whether two actions ask the backend for the same piece of work.
pub open spec fn same_backend_work(a: ActionView, b: ActionView) -> bool {
    ||| a is RunSetup && b is RunSetup
    ||| a is GenerateKeys && b is GenerateKeys
    ||| a is CreateProof && b is CreateProof
    ||| a is Verify && b is Verify
}

/// Nothing is retried: a run asks the backend at most once for a setup, for
/// keys, for a proof and for a check of the proof, whatever comes back.
pub proof fn lemma_nothing_is_retried(
    config: RunConfig,
    world: Collaborators,
    files: Files,
    i: int,
    j: int,
)
    requires
        0 <= i < j < run(config, world, files).history.len(),
    ensures
        !same_backend_work(
            run(config, world, files).history[i],
            run(config, world, files).history[j],
        ),
{
    reveal_with_fuel(after, 10);
    assert(run(config, world, files).history.len() <= 9);
}

/// The setup runs exactly when the history of the run holds the request
/// for it.
pub proof fn lemma_setup_ran_means_it_was_asked(
    config: RunConfig,
    world: Collaborators,
    files: Files,
)
    ensures
        run(config, world, files).setup_ran <==> exists|i: int|
            0 <= i < run(config, world, files).history.len() && (#[trigger] run(
                config,
                world,
                files,
            ).history[i]) is RunSetup,
{
    reveal_with_fuel(after, 10);
    let end = run(config, world, files);
    if end.setup_ran {
        assert(end.history[2] is RunSetup);
    }
}

/// A second run finds what the first one left: whenever a run got as far as
/// handing parameters to key generation, the next run on the storage it
/// left runs no setup, and hands over the same bytes unless it cannot look
/// the file up.
pub proof fn lemma_second_run_reuses_parameters(
    config: RunConfig,
    first_world: Collaborators,
    second_world: Collaborators,
    files: Files,
)
    ensures
        run(config, first_world, files).params matches Some(content) ==> {
            let second = run(config, second_world, run(config, first_world, files).files);
            &&& !second.setup_ran
            &&& second_world.probe_fails || second.params == Some(content)
        },
{
    reveal_with_fuel(after, 10);
    lemma_names_differ(config.k_spec(), config.block_count_spec(), config.k_spec());
}

/// A parameter file that is present is never written over or regenerated:
/// a run leaves the entry as it found it and runs no setup.
pub proof fn lemma_present_parameters_are_kept(
    config: RunConfig,
    world: Collaborators,
    files: Files,
)
    requires
        files.contains_key(params_file_name(config.k_spec())),
    ensures
        !run(config, world, files).setup_ran,
        run(config, world, files).files.contains_key(params_file_name(config.k_spec())),
        run(config, world, files).files[params_file_name(config.k_spec())]
            == files[params_file_name(config.k_spec())],
{
    reveal_with_fuel(after, 10);
    lemma_names_differ(config.k_spec(), config.block_count_spec(), config.k_spec());
}

/// Parameters appear under their final name only whole, whatever fails:
/// where a run starts without the entry, it ends without it or with the
/// complete setup result, whose frame is well formed; and it leaves no
/// staging file behind that was not there before.
pub proof fn lemma_parameters_are_published_whole(
    config: RunConfig,
    world: Collaborators,
    files: Files,
)
    requires
        !files.contains_key(params_file_name(config.k_spec())),
    ensures
        ({
            let end = run(config, world, files);
            let name = params_file_name(config.k_spec());
            let staging = params_staging_name(config.k_spec());
            &&& end.files.contains_key(name) ==> end.files[name] == world.setup && frame_ok(
                config.backend_spec(),
                config.k_spec(),
                world.setup,
            )
            &&& !files.contains_key(staging) ==> !end.files.contains_key(staging)
        }),
{
    reveal_with_fuel(after, 10);
    lemma_names_differ(config.k_spec(), config.block_count_spec(), config.k_spec());
}

/// A run touches the files of its own `k` and block count only: every other
/// name holds after the run what it held before.
pub proof fn lemma_run_keeps_other_files(
    config: RunConfig,
    world: Collaborators,
    files: Files,
    name: Seq<char>,
)
    requires
        name != params_file_name(config.k_spec()),
        name != params_staging_name(config.k_spec()),
        name != proof_file_name(config.k_spec(), config.block_count_spec()),
    ensures
        run(config, world, files).files.contains_key(name) == files.contains_key(name),
        files.contains_key(name) ==> run(config, world, files).files[name] == files[name],
{
    reveal_with_fuel(after, 10);
}

/// No proof, no proof file: when proving fails, the run ends with the
/// fault of the prover at the latest, and the proof file is as it was.
pub proof fn lemma_failed_proof_writes_nothing(
    config: RunConfig,
    world: Collaborators,
    files: Files,
)
    requires
        world.proof is Err,
    ensures
        ({
            let end = run(config, world, files);
            let name = proof_file_name(config.k_spec(), config.block_count_spec());
            &&& outcome_of(end) matches Some(outcome) && outcome is Err
            &&& end.files.contains_key(name) == files.contains_key(name)
            &&& files.contains_key(name) ==> end.files[name] == files[name]
        }),
{
    reveal_with_fuel(after, 10);
    lemma_names_differ(config.k_spec(), config.block_count_spec(), config.k_spec());
}

/// When nothing stands in the way of a proof, the run ends with the verdict
/// on the verifier's report, the proof file holds the proof that was
/// created, and the setup has run exactly if no parameters were stored.
pub proof fn lemma_run_ends_with_the_verdict(
    config: RunConfig,
    world: Collaborators,
    files: Files,
)
    requires
        sound(config, world, files),
    ensures
        ({
            let end = run(config, world, files);
            let name = proof_file_name(config.k_spec(), config.block_count_spec());
            &&& outcome_of(end) == Some(verdict(world.report))
            &&& end.files.contains_key(name)
            &&& end.files[name] == world.proof->Ok_0
            &&& end.setup_ran == !files.contains_key(params_file_name(config.k_spec()))
        }),
{
    reveal_with_fuel(after, 10);
    lemma_names_differ(config.k_spec(), config.block_count_spec(), config.k_spec());
}

/// A sound run whose proof the verifier accepts ends with `Accept`.
pub proof fn lemma_accepted_proof_ends_in_accept(
    config: RunConfig,
    world: Collaborators,
    files: Files,
)
    requires
        sound(config, world, files),
        world.report is Accepted,
    ensures
        outcome_of(run(config, world, files)) == Some(
            Ok::<VerificationResult, PipelineError>(VerificationResult::Accept),
        ),
{
    lemma_run_ends_with_the_verdict(config, world, files);
}

/// A sound run whose proof the verifier blames ends with `Reject`: a
/// result, and no error.
pub proof fn lemma_blamed_proof_ends_in_reject(
    config: RunConfig,
    world: Collaborators,
    files: Files,
    fault: BackendFault,
)
    requires
        sound(config, world, files),
        world.report == (VerifierReport::Refused { fault }),
        blames_proof(fault),
    ensures
        outcome_of(run(config, world, files)) == Some(
            Ok::<VerificationResult, PipelineError>(VerificationResult::Reject),
        ),
{
    lemma_run_ends_with_the_verdict(config, world, files);
}

} // verus!
