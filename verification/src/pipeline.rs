//! The state machine of one run. It decides what is done next; the driver
//! does it and reports what happened.

use vstd::pervasive::unreached;
use vstd::prelude::*;
use crate::catalog::InputCatalog;
use crate::config::RunConfig;
use crate::error::{BackendFault, Outcome, PipelineError};
use crate::naming::{
    label, params_file_name, params_path, params_staging_name, params_staging_path, phase_label,
    progress_line, progress_text, proof_file_name, proof_path, Phase,
};
use crate::params::{check_frame, frame_ok};
use crate::shape::{build, CircuitInstance, InstanceView};
use crate::verdict::{classify, verdict, VerifierReport};

verus! {

/// Which bytes in the driver's hands a file is written from.
#[derive(Clone, Copy, Debug, PartialEq, Eq, Structural)]
pub enum Content {
    /// The parameters that the setup just produced.
    Parameters,
    /// The proof that was just created.
    Proof,
}

/// Where a run stands: what it waits for, or how it ended.
#[derive(Clone, Copy, Debug, PartialEq, Eq)]
pub enum Stage {
    /// The line that announces the run is being printed.
    Announcing,
    /// The parameter cache is being looked up.
    Probing,
    /// Nothing was cached: the backend's setup is running.
    SettingUp,
    /// The fresh parameters are being written under the staging name.
    WritingParams,
    /// The staged parameters are being moved to their final name.
    Publishing,
    /// Storing the parameters failed: the staging file is being removed.
    Discarding,
    /// Keys are being derived from the parameters and the empty shape.
    GeneratingKeys,
    /// The proof of the populated instance is being created.
    Proving,
    /// The proof is being written to its file.
    WritingProof,
    /// The proof is being checked.
    Verifying,
    /// The run is over.
    Finished { outcome: Outcome },
}

/// What the driver reports after it has carried out an action.
#[derive(Debug, PartialEq, Eq)]
pub enum Event {
    /// The action succeeded and has nothing to report.
    Done,
    /// The action failed.
    Failed,
    /// Storage holds no parameter file under the probed name.
    ParamsAbsent,
    /// Storage holds these bytes under the probed name.
    ParamsFound { bytes: Vec<u8> },
    /// The setup produced these encoded parameters.
    SetupDone { bytes: Vec<u8> },
    /// The parameter bytes did not decode.
    ParamsUnreadable,
    /// The proving system refused to generate keys or to prove.
    BackendRefused { fault: BackendFault },
    /// The proving system created a proof.
    ProofCreated,
    /// The proving system checked the proof.
    Verified { report: VerifierReport },
}

/// An event as plain values.
pub enum EventView {
    Done,
    Failed,
    ParamsAbsent,
    ParamsFound { bytes: Seq<u8> },
    SetupDone { bytes: Seq<u8> },
    ParamsUnreadable,
    BackendRefused { fault: BackendFault },
    ProofCreated,
    Verified { report: VerifierReport },
}

impl View for Event {
    type V = EventView;

    open spec fn view(&self) -> EventView {
        match self {
            Event::Done => EventView::Done,
            Event::Failed => EventView::Failed,
            Event::ParamsAbsent => EventView::ParamsAbsent,
            Event::ParamsFound { bytes } => EventView::ParamsFound { bytes: bytes@ },
            Event::SetupDone { bytes } => EventView::SetupDone { bytes: bytes@ },
            Event::ParamsUnreadable => EventView::ParamsUnreadable,
            Event::BackendRefused { fault } => EventView::BackendRefused { fault: *fault },
            Event::ProofCreated => EventView::ProofCreated,
            Event::Verified { report } => EventView::Verified { report: *report },
        }
    }
}

/// What the driver is asked to do next. Timed phases carry their label.
#[derive(Debug, PartialEq, Eq)]
pub enum Action {
    /// Print the line that announces the run.
    Announce { line: String },
    /// Look for the parameter file.
    ProbeParams { path: String },
    /// Run the backend's setup.
    RunSetup { label: String },
    /// Write the named content to a file.
    WriteFile { path: String, content: Content },
    /// Move a file to its final name in one step.
    Rename { from: String, to: String },
    /// Remove a file that must not stay behind.
    RemoveFile { path: String },
    /// Decode the parameters and derive the keys from the empty shape.
    GenerateKeys { label: String, shape: CircuitInstance },
    /// Create the proof of the populated instance.
    CreateProof { label: String, instance: CircuitInstance },
    /// Check the proof.
    Verify { label: String },
    /// The run is over.
    Stop { outcome: Outcome },
}

/// An action as plain values.
pub enum ActionView {
    Announce { line: Seq<char> },
    ProbeParams { path: Seq<char> },
    RunSetup { label: Seq<char> },
    WriteFile { path: Seq<char>, content: Content },
    Rename { from: Seq<char>, to: Seq<char> },
    RemoveFile { path: Seq<char> },
    GenerateKeys { label: Seq<char>, shape: InstanceView },
    CreateProof { label: Seq<char>, instance: InstanceView },
    Verify { label: Seq<char> },
    Stop { outcome: Outcome },
}

impl View for Action {
    type V = ActionView;

    open spec fn view(&self) -> ActionView {
        match self {
            Action::Announce { line } => ActionView::Announce { line: line@ },
            Action::ProbeParams { path } => ActionView::ProbeParams { path: path@ },
            Action::RunSetup { label } => ActionView::RunSetup { label: label@ },
            Action::WriteFile { path, content } => ActionView::WriteFile {
                path: path@,
                content: *content,
            },
            Action::Rename { from, to } => ActionView::Rename { from: from@, to: to@ },
            Action::RemoveFile { path } => ActionView::RemoveFile { path: path@ },
            Action::GenerateKeys { label, shape } => ActionView::GenerateKeys {
                label: label@,
                shape: shape@,
            },
            Action::CreateProof { label, instance } => ActionView::CreateProof {
                label: label@,
                instance: instance@,
            },
            Action::Verify { label } => ActionView::Verify { label: label@ },
            Action::Stop { outcome } => ActionView::Stop { outcome: *outcome },
        }
    }
}

/// The run ends with `outcome`.
pub open spec fn finish(outcome: Outcome) -> (Stage, ActionView) {
    (Stage::Finished { outcome }, ActionView::Stop { outcome })
}

/// The action that opens a run.
pub open spec fn opening(config: RunConfig) -> ActionView {
    ActionView::Announce { line: progress_line(config.k_spec(), config.block_count_spec()) }
}

/// The request to derive keys, which follows usable parameters.
pub open spec fn ask_for_keys(config: RunConfig) -> (Stage, ActionView) {
    (
        Stage::GeneratingKeys,
        ActionView::GenerateKeys {
            label: phase_label(Phase::Keygen, config.k_spec()),
            shape: InstanceView::of(config.block_count_spec(), false),
        },
    )
}

/// The request to remove the staged parameter file after a failed store.
pub open spec fn ask_to_discard(config: RunConfig) -> (Stage, ActionView) {
    (Stage::Discarding, ActionView::RemoveFile { path: params_staging_name(config.k_spec()) })
}

/// The next stage and action, given the stage a run is in and what the
/// driver reports. While a run waits for something, any report but the ones
/// named counts as the failure of what it waits for.
pub open spec fn transition(config: RunConfig, stage: Stage, event: EventView) -> (
    Stage,
    ActionView,
) {
    let k = config.k_spec();
    let block_count = config.block_count_spec();
    match stage {
        Stage::Announcing => (
            Stage::Probing,
            ActionView::ProbeParams { path: params_file_name(k) },
        ),
        Stage::Probing => match event {
            EventView::ParamsFound { bytes } => if frame_ok(config.backend_spec(), k, bytes) {
                ask_for_keys(config)
            } else {
                finish(Err(PipelineError::ParamIo))
            },
            EventView::ParamsAbsent => (
                Stage::SettingUp,
                ActionView::RunSetup { label: phase_label(Phase::Setup, k) },
            ),
            _ => finish(Err(PipelineError::ParamIo)),
        },
        Stage::SettingUp => match event {
            EventView::SetupDone { bytes } => if frame_ok(config.backend_spec(), k, bytes) {
                (
                    Stage::WritingParams,
                    ActionView::WriteFile {
                        path: params_staging_name(k),
                        content: Content::Parameters,
                    },
                )
            } else {
                finish(Err(PipelineError::ParamIo))
            },
            _ => finish(Err(PipelineError::ParamIo)),
        },
        Stage::WritingParams => match event {
            EventView::Done => (
                Stage::Publishing,
                ActionView::Rename { from: params_staging_name(k), to: params_file_name(k) },
            ),
            _ => ask_to_discard(config),
        },
        Stage::Publishing => match event {
            EventView::Done => ask_for_keys(config),
            _ => ask_to_discard(config),
        },
        Stage::Discarding => finish(Err(PipelineError::ParamIo)),
        Stage::GeneratingKeys => match event {
            EventView::Done => (
                Stage::Proving,
                ActionView::CreateProof {
                    label: phase_label(Phase::Prove, k),
                    instance: InstanceView::of(block_count, true),
                },
            ),
            EventView::ParamsUnreadable => finish(Err(PipelineError::ParamIo)),
            EventView::BackendRefused { fault } => finish(
                Err(PipelineError::KeygenFailure { fault }),
            ),
            _ => finish(Err(PipelineError::KeygenFailure { fault: BackendFault::Unspecified })),
        },
        Stage::Proving => match event {
            EventView::ProofCreated => (
                Stage::WritingProof,
                ActionView::WriteFile {
                    path: proof_file_name(k, block_count),
                    content: Content::Proof,
                },
            ),
            EventView::BackendRefused { fault } => finish(
                Err(PipelineError::ProofGenerationFailure { fault }),
            ),
            _ => finish(
                Err(PipelineError::ProofGenerationFailure { fault: BackendFault::Unspecified }),
            ),
        },
        Stage::WritingProof => match event {
            EventView::Done => (
                Stage::Verifying,
                ActionView::Verify { label: phase_label(Phase::Verify, k) },
            ),
            _ => finish(Err(PipelineError::ProofIo)),
        },
        Stage::Verifying => match event {
            EventView::Verified { report } => finish(verdict(report)),
            _ => finish(Err(PipelineError::System { fault: BackendFault::Unspecified })),
        },
        Stage::Finished { outcome } => finish(outcome),
    }
}

/// The driver is told to stop exactly when the run is finished, with the
/// outcome it finished in; and a finished run stays finished.
pub proof fn lemma_stop_means_finished(config: RunConfig, stage: Stage, event: EventView)
    ensures
        transition(config, stage, event).1 is Stop <==> transition(config, stage, event).0
            is Finished,
        transition(config, stage, event).1 matches ActionView::Stop { outcome }
            ==> transition(config, stage, event).0 == (Stage::Finished { outcome }),
        stage is Finished ==> transition(config, stage, event).0 == stage,
{
}

/// One run of the benchmark.
#[derive(Debug)]
pub struct Pipeline {
    config: RunConfig,
    catalog: InputCatalog,
    stage: Stage,
}

impl Pipeline {
    pub closed spec fn config_spec(&self) -> RunConfig {
        self.config
    }

    pub closed spec fn stage_spec(&self) -> Stage {
        self.stage
    }

    /// Opens a run: the pipeline waits for the announcement to be printed.
    pub fn start(config: RunConfig) -> (r: (Pipeline, Action))
        ensures
            r.0.config_spec() == config,
            r.0.stage_spec() == Stage::Announcing,
            r.1@ == opening(config),
    {
        let pipeline = Pipeline { config, catalog: InputCatalog::new(), stage: Stage::Announcing };
        let line = progress_text(config.k(), config.block_count());
        (pipeline, Action::Announce { line })
    }

    pub fn config(&self) -> (c: RunConfig)
        ensures
            c == self.config_spec(),
    {
        self.config
    }

    pub fn stage(&self) -> (s: Stage)
        ensures
            s == self.stage_spec(),
    {
        self.stage
    }

    /// How the run ended, once it has.
    pub fn outcome(&self) -> (o: Option<Outcome>)
        ensures
            o == match self.stage_spec() {
                Stage::Finished { outcome } => Some(outcome),
                _ => None,
            },
    {
        match self.stage {
            Stage::Finished { outcome } => Some(outcome),
            _ => None,
        }
    }

    fn end(&mut self, outcome: Outcome) -> (action: Action)
        ensures
            final(self).config == old(self).config,
            final(self).catalog == old(self).catalog,
            (final(self).stage, action@) == finish(outcome),
    {
        self.stage = Stage::Finished { outcome };
        Action::Stop { outcome }
    }

    fn request_keys(&mut self) -> (action: Action)
        ensures
            final(self).config == old(self).config,
            final(self).catalog == old(self).catalog,
            (final(self).stage, action@) == ask_for_keys(old(self).config),
    {
        self.stage = Stage::GeneratingKeys;
        match build(&self.catalog, self.config.block_count(), false) {
            Ok(shape) => Action::GenerateKeys { label: label(Phase::Keygen, self.config.k()), shape },
            Err(_) => unreached(),
        }
    }

    fn request_discard(&mut self) -> (action: Action)
        ensures
            final(self).config == old(self).config,
            final(self).catalog == old(self).catalog,
            (final(self).stage, action@) == ask_to_discard(old(self).config),
    {
        self.stage = Stage::Discarding;
        Action::RemoveFile { path: params_staging_path(self.config.k()) }
    }

    /// Takes the driver's report on the last action and says what to do next.
    pub fn step(&mut self, event: &Event) -> (action: Action)
        ensures
            final(self).config_spec() == old(self).config_spec(),
            (final(self).stage_spec(), action@) == transition(
                old(self).config_spec(),
                old(self).stage_spec(),
                event@,
            ),
    {
        let k = self.config.k();
        let block_count = self.config.block_count();
        match self.stage {
            Stage::Announcing => {
                self.stage = Stage::Probing;
                Action::ProbeParams { path: params_path(k) }
            },
            Stage::Probing => match event {
                Event::ParamsFound { bytes } => {
                    if check_frame(self.config.backend(), k, bytes) {
                        self.request_keys()
                    } else {
                        self.end(Err(PipelineError::ParamIo))
                    }
                },
                Event::ParamsAbsent => {
                    self.stage = Stage::SettingUp;
                    Action::RunSetup { label: label(Phase::Setup, k) }
                },
                _ => self.end(Err(PipelineError::ParamIo)),
            },
            Stage::SettingUp => match event {
                Event::SetupDone { bytes } => {
                    if check_frame(self.config.backend(), k, bytes) {
                        self.stage = Stage::WritingParams;
                        Action::WriteFile {
                            path: params_staging_path(k),
                            content: Content::Parameters,
                        }
                    } else {
                        self.end(Err(PipelineError::ParamIo))
                    }
                },
                _ => self.end(Err(PipelineError::ParamIo)),
            },
            Stage::WritingParams => match event {
                Event::Done => {
                    self.stage = Stage::Publishing;
                    Action::Rename { from: params_staging_path(k), to: params_path(k) }
                },
                _ => self.request_discard(),
            },
            Stage::Publishing => match event {
                Event::Done => self.request_keys(),
                _ => self.request_discard(),
            },
            Stage::Discarding => self.end(Err(PipelineError::ParamIo)),
            Stage::GeneratingKeys => match event {
                Event::Done => {
                    self.stage = Stage::Proving;
                    match build(&self.catalog, block_count, true) {
                        Ok(instance) => Action::CreateProof {
                            label: label(Phase::Prove, k),
                            instance,
                        },
                        Err(_) => unreached(),
                    }
                },
                Event::ParamsUnreadable => self.end(Err(PipelineError::ParamIo)),
                Event::BackendRefused { fault } => self.end(
                    Err(PipelineError::KeygenFailure { fault: *fault }),
                ),
                _ => self.end(
                    Err(PipelineError::KeygenFailure { fault: BackendFault::Unspecified }),
                ),
            },
            Stage::Proving => match event {
                Event::ProofCreated => {
                    self.stage = Stage::WritingProof;
                    Action::WriteFile { path: proof_path(k, block_count), content: Content::Proof }
                },
                Event::BackendRefused { fault } => self.end(
                    Err(PipelineError::ProofGenerationFailure { fault: *fault }),
                ),
                _ => self.end(
                    Err(PipelineError::ProofGenerationFailure { fault: BackendFault::Unspecified }),
                ),
            },
            Stage::WritingProof => match event {
                Event::Done => {
                    self.stage = Stage::Verifying;
                    Action::Verify { label: label(Phase::Verify, k) }
                },
                _ => self.end(Err(PipelineError::ProofIo)),
            },
            Stage::Verifying => match event {
                Event::Verified { report } => self.end(classify(*report)),
                _ => self.end(Err(PipelineError::System { fault: BackendFault::Unspecified })),
            },
            Stage::Finished { outcome } => self.end(outcome),
        }
    }
}

} // verus!
