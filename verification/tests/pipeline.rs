use std::collections::HashMap;

use sha256_bench::config::{CommitmentBackend, RunConfig};
use sha256_bench::error::{BackendFault, Outcome, PipelineError, VerificationResult};
use sha256_bench::params::ipa_setup;
use sha256_bench::pipeline::{Action, Content, Event, Pipeline, Stage};
use sha256_bench::verdict::VerifierReport;

/// Storage and collaborators that answer as told.
struct World {
    files: HashMap<String, Vec<u8>>,
    setup: Vec<u8>,
    params_decode: bool,
    keygen_fault: Option<BackendFault>,
    proof: Result<Vec<u8>, BackendFault>,
    report: VerifierReport,
    unwritable: Vec<String>,
    rename_fails: bool,
    probe_fails: bool,
}

/// What a run did.
struct Record {
    outcome: Outcome,
    actions: Vec<String>,
    printed: Vec<String>,
    labels: Vec<String>,
    params_in_use: Option<Vec<u8>>,
    key_shape_words: Option<u64>,
    proved_words: Option<Vec<u32>>,
}

fn framed(k: u32) -> Vec<u8> {
    let mut bytes = vec![0u8; 4 + 32 * (2 * (1usize << k) + 2)];
    bytes[..4].copy_from_slice(&k.to_le_bytes());
    bytes
}

fn world(k: u32) -> World {
    World {
        files: HashMap::new(),
        setup: framed(k),
        params_decode: true,
        keygen_fault: None,
        proof: Ok(vec![7u8, 7, 7]),
        report: VerifierReport::Accepted,
        unwritable: Vec::new(),
        rename_fails: false,
        probe_fails: false,
    }
}

fn drive(config: RunConfig, world: &mut World) -> Record {
    let (mut pipeline, mut action) = Pipeline::start(config);
    assert_eq!(pipeline.stage(), Stage::Announcing);
    assert_eq!(pipeline.config(), config);
    let mut record = Record {
        outcome: Err(PipelineError::Argument),
        actions: Vec::new(),
        printed: Vec::new(),
        labels: Vec::new(),
        params_in_use: None,
        key_shape_words: None,
        proved_words: None,
    };
    let mut found: Option<Vec<u8>> = None;
    for _ in 0..32 {
        let event = match &action {
            Action::Announce { line } => {
                record.actions.push("announce".to_string());
                record.printed.push(line.clone());
                Event::Done
            }
            Action::ProbeParams { path } => {
                record.actions.push(format!("probe {}", path));
                if world.probe_fails {
                    Event::Failed
                } else {
                    match world.files.get(path) {
                        Some(bytes) => {
                            found = Some(bytes.clone());
                            Event::ParamsFound { bytes: bytes.clone() }
                        }
                        None => Event::ParamsAbsent,
                    }
                }
            }
            Action::RunSetup { label } => {
                record.actions.push("setup".to_string());
                record.labels.push(label.clone());
                found = Some(world.setup.clone());
                Event::SetupDone { bytes: world.setup.clone() }
            }
            Action::WriteFile { path, content } => {
                record.actions.push(format!("write {}", path));
                let bytes = match content {
                    Content::Parameters => Some(world.setup.clone()),
                    Content::Proof => world.proof.clone().ok(),
                };
                match bytes {
                    None => Event::Failed,
                    Some(bytes) => {
                        if world.unwritable.contains(path) {
                            world.files.insert(path.clone(), vec![0xde, 0xad]);
                            Event::Failed
                        } else {
                            world.files.insert(path.clone(), bytes);
                            Event::Done
                        }
                    }
                }
            }
            Action::Rename { from, to } => {
                record.actions.push(format!("rename {} {}", from, to));
                if world.rename_fails {
                    Event::Failed
                } else {
                    match world.files.remove(from) {
                        Some(bytes) => {
                            world.files.insert(to.clone(), bytes);
                            Event::Done
                        }
                        None => Event::Failed,
                    }
                }
            }
            Action::RemoveFile { path } => {
                record.actions.push(format!("remove {}", path));
                world.files.remove(path);
                Event::Done
            }
            Action::GenerateKeys { label, shape } => {
                record.actions.push("keys".to_string());
                record.labels.push(label.clone());
                assert!(!shape.is_populated());
                assert_eq!(shape.block_count(), config.block_count());
                record.key_shape_words = Some(shape.word_count());
                record.params_in_use = found.clone();
                if !world.params_decode {
                    Event::ParamsUnreadable
                } else {
                    match world.keygen_fault {
                        None => Event::Done,
                        Some(fault) => Event::BackendRefused { fault },
                    }
                }
            }
            Action::CreateProof { label, instance } => {
                record.actions.push("prove".to_string());
                record.labels.push(label.clone());
                assert!(instance.is_populated());
                assert_eq!(instance.block_count(), config.block_count());
                record.proved_words = instance.words().cloned();
                match &world.proof {
                    Ok(_) => Event::ProofCreated,
                    Err(fault) => Event::BackendRefused { fault: *fault },
                }
            }
            Action::Verify { label } => {
                record.actions.push("verify".to_string());
                record.labels.push(label.clone());
                Event::Verified { report: world.report }
            }
            Action::Stop { outcome } => {
                record.actions.push("stop".to_string());
                record.outcome = *outcome;
                assert_eq!(pipeline.outcome(), Some(*outcome));
                assert_eq!(pipeline.stage(), Stage::Finished { outcome: *outcome });
                return record;
            }
        };
        assert_eq!(pipeline.outcome(), None);
        action = pipeline.step(&event);
    }
    panic!("the run did not stop");
}

fn ipa(k: u32, block_count: u64) -> RunConfig {
    RunConfig::new(CommitmentBackend::Ipa, k, block_count).expect("valid")
}

#[test]
fn first_run_sets_up_stores_proves_and_accepts() {
    let mut world = world(17);
    let record = drive(ipa(17, 2), &mut world);
    assert_eq!(record.outcome, Ok(VerificationResult::Accept));
    assert_eq!(
        record.actions,
        vec![
            "announce",
            "probe ./sha256_params_k_17",
            "setup",
            "write ./sha256_params_k_17.partial",
            "rename ./sha256_params_k_17.partial ./sha256_params_k_17",
            "keys",
            "prove",
            "write ./sha256_proof_k_17_count_2",
            "verify",
            "stop",
        ]
    );
    assert_eq!(record.printed, vec!["process sha, k:17, sha count:2"]);
    assert_eq!(
        record.labels,
        vec!["build params with K = 17", "build pk vk", "create proof", "verify"]
    );
    assert_eq!(world.files.len(), 2);
    assert_eq!(world.files.get("./sha256_params_k_17"), Some(&framed(17)));
    assert_eq!(world.files.get("./sha256_proof_k_17_count_2"), Some(&vec![7u8, 7, 7]));
    assert_eq!(record.key_shape_words, Some(32));
    assert_eq!(record.proved_words, Some(vec![0x7880_0000u32; 32]));
}

#[test]
fn second_run_reuses_the_stored_parameters() {
    let mut world = world(17);
    let first = drive(ipa(17, 2), &mut world);
    assert_eq!(first.outcome, Ok(VerificationResult::Accept));
    world.setup = vec![1u8, 2, 3];
    world.proof = Ok(vec![8u8, 8]);
    let second = drive(ipa(17, 2), &mut world);
    assert_eq!(second.outcome, Ok(VerificationResult::Accept));
    assert_eq!(
        second.actions,
        vec![
            "announce",
            "probe ./sha256_params_k_17",
            "keys",
            "prove",
            "write ./sha256_proof_k_17_count_2",
            "verify",
            "stop",
        ]
    );
    assert_eq!(second.labels, vec!["build pk vk", "create proof", "verify"]);
    assert_eq!(second.params_in_use, first.params_in_use);
    assert_eq!(second.params_in_use, Some(framed(17)));
    assert_eq!(world.files.get("./sha256_params_k_17"), Some(&framed(17)));
    assert_eq!(world.files.get("./sha256_proof_k_17_count_2"), Some(&vec![8u8, 8]));
    assert_eq!(world.files.len(), 2);
}

#[test]
fn unsupported_block_count_stops_before_any_file_is_made() {
    let arguments: Vec<String> = vec!["bench".to_string(), "17".to_string(), "4".to_string()];
    let refused = RunConfig::from_args(CommitmentBackend::Ipa, &arguments);
    assert_eq!(refused, Err(PipelineError::UnsupportedBlockCount { requested: 4 }));
    assert_eq!(
        refused.expect_err("refused").describe(),
        "unexpected sha count: 4"
    );
}

#[test]
fn run_with_the_backends_own_setup_stores_its_encoding() {
    let mut world = world(5);
    world.setup = ipa_setup(5).expect("in range");
    let record = drive(ipa(5, 3), &mut world);
    assert_eq!(record.outcome, Ok(VerificationResult::Accept));
    assert_eq!(world.files.get("./sha256_params_k_5"), ipa_setup(5).as_ref());
    assert_eq!(record.params_in_use, ipa_setup(5));
    assert_eq!(record.proved_words.expect("populated").len(), 48);
    let again = drive(ipa(5, 3), &mut world);
    assert!(!again.actions.contains(&"setup".to_string()));
    assert_eq!(again.params_in_use, ipa_setup(5));
}

#[test]
fn every_cataloged_count_is_proved_with_its_words() {
    for n in [2u64, 3, 5, 9, 17, 33, 65, 129, 257, 513, 1025] {
        let mut world = world(4);
        let record = drive(ipa(4, n), &mut world);
        assert_eq!(record.outcome, Ok(VerificationResult::Accept));
        assert_eq!(record.key_shape_words, Some(16 * n));
        assert_eq!(record.proved_words.expect("populated"), vec![0x7880_0000u32; 16 * n as usize]);
        assert!(world.files.contains_key(&format!("./sha256_proof_k_4_count_{}", n)));
    }
}

#[test]
fn truncated_parameter_file_is_an_error_and_is_left_alone() {
    let mut world = world(6);
    let mut stored = framed(6);
    stored.truncate(1000);
    world.files.insert("./sha256_params_k_6".to_string(), stored.clone());
    let record = drive(ipa(6, 2), &mut world);
    assert_eq!(record.outcome, Err(PipelineError::ParamIo));
    assert_eq!(record.actions, vec!["announce", "probe ./sha256_params_k_6", "stop"]);
    assert_eq!(world.files.get("./sha256_params_k_6"), Some(&stored));
    assert_eq!(world.files.len(), 1);
}

#[test]
fn parameters_of_another_k_under_the_name_are_an_error() {
    let mut world = world(6);
    world.files.insert("./sha256_params_k_6".to_string(), framed(5));
    let record = drive(ipa(6, 2), &mut world);
    assert_eq!(record.outcome, Err(PipelineError::ParamIo));
    assert_eq!(record.params_in_use, None);
}

#[test]
fn malformed_setup_result_is_not_stored() {
    let mut world = world(6);
    world.setup = vec![6u8, 0, 0, 0];
    let record = drive(ipa(6, 2), &mut world);
    assert_eq!(record.outcome, Err(PipelineError::ParamIo));
    assert_eq!(record.actions, vec!["announce", "probe ./sha256_params_k_6", "setup", "stop"]);
    assert!(world.files.is_empty());
}

#[test]
fn failed_staging_write_is_cleaned_up() {
    let mut world = world(6);
    world.unwritable.push("./sha256_params_k_6.partial".to_string());
    let record = drive(ipa(6, 2), &mut world);
    assert_eq!(record.outcome, Err(PipelineError::ParamIo));
    assert_eq!(
        record.actions,
        vec![
            "announce",
            "probe ./sha256_params_k_6",
            "setup",
            "write ./sha256_params_k_6.partial",
            "remove ./sha256_params_k_6.partial",
            "stop",
        ]
    );
    assert!(world.files.is_empty());
}

#[test]
fn failed_publish_is_cleaned_up() {
    let mut world = world(6);
    world.rename_fails = true;
    let record = drive(ipa(6, 2), &mut world);
    assert_eq!(record.outcome, Err(PipelineError::ParamIo));
    assert_eq!(
        record.actions,
        vec![
            "announce",
            "probe ./sha256_params_k_6",
            "setup",
            "write ./sha256_params_k_6.partial",
            "rename ./sha256_params_k_6.partial ./sha256_params_k_6",
            "remove ./sha256_params_k_6.partial",
            "stop",
        ]
    );
    assert!(world.files.is_empty());
}

#[test]
fn failed_probe_is_a_parameter_error() {
    let mut world = world(6);
    world.probe_fails = true;
    let record = drive(ipa(6, 2), &mut world);
    assert_eq!(record.outcome, Err(PipelineError::ParamIo));
    assert_eq!(record.actions, vec!["announce", "probe ./sha256_params_k_6", "stop"]);
}

#[test]
fn undecodable_parameters_are_a_parameter_error() {
    let mut world = world(6);
    world.params_decode = false;
    let record = drive(ipa(6, 2), &mut world);
    assert_eq!(record.outcome, Err(PipelineError::ParamIo));
    assert_eq!(record.actions.last().map(|a| a.as_str()), Some("stop"));
    assert!(!record.actions.contains(&"prove".to_string()));
}

#[test]
fn refused_key_generation_surfaces_the_fault() {
    let mut world = world(6);
    world.keygen_fault = Some(BackendFault::NotEnoughRowsAvailable { current_k: 6 });
    let record = drive(ipa(6, 2), &mut world);
    assert_eq!(
        record.outcome,
        Err(PipelineError::KeygenFailure {
            fault: BackendFault::NotEnoughRowsAvailable { current_k: 6 }
        })
    );
    assert!(!record.actions.contains(&"prove".to_string()));
    assert!(!world.files.contains_key("./sha256_proof_k_6_count_2"));
}

#[test]
fn failed_proving_writes_no_proof_file() {
    let mut world = world(6);
    world.proof = Err(BackendFault::Synthesis);
    let record = drive(ipa(6, 2), &mut world);
    assert_eq!(
        record.outcome,
        Err(PipelineError::ProofGenerationFailure { fault: BackendFault::Synthesis })
    );
    assert!(!record.actions.iter().any(|a| a.starts_with("write ./sha256_proof")));
    assert!(!record.actions.contains(&"verify".to_string()));
    assert!(!world.files.contains_key("./sha256_proof_k_6_count_2"));
    assert!(world.files.contains_key("./sha256_params_k_6"));
}

#[test]
fn failed_proof_write_is_a_proof_io_error() {
    let mut world = world(6);
    world.unwritable.push("./sha256_proof_k_6_count_2".to_string());
    let record = drive(ipa(6, 2), &mut world);
    assert_eq!(record.outcome, Err(PipelineError::ProofIo));
    assert!(!record.actions.contains(&"verify".to_string()));
}

#[test]
fn tampered_proof_is_rejected_without_an_error() {
    for fault in [
        BackendFault::Transcript,
        BackendFault::Opening,
        BackendFault::ConstraintSystemFailure,
    ] {
        let mut world = world(6);
        world.report = VerifierReport::Refused { fault };
        let record = drive(ipa(6, 2), &mut world);
        assert_eq!(record.outcome, Ok(VerificationResult::Reject));
    }
}

#[test]
fn verifier_breakdown_is_a_system_error() {
    let mut world = world(6);
    world.report = VerifierReport::Refused { fault: BackendFault::InvalidInstances };
    let record = drive(ipa(6, 2), &mut world);
    assert_eq!(
        record.outcome,
        Err(PipelineError::System { fault: BackendFault::InvalidInstances })
    );
}

#[test]
fn finished_pipeline_stays_finished() {
    let (mut pipeline, _) = Pipeline::start(ipa(6, 2));
    let stop = pipeline.step(&Event::Done);
    assert_eq!(stop, Action::ProbeParams { path: "./sha256_params_k_6".to_string() });
    let stop = pipeline.step(&Event::Failed);
    assert_eq!(stop, Action::Stop { outcome: Err(PipelineError::ParamIo) });
    for event in [
        Event::Done,
        Event::ParamsAbsent,
        Event::ProofCreated,
        Event::Verified { report: VerifierReport::Accepted },
    ] {
        assert_eq!(pipeline.step(&event), Action::Stop { outcome: Err(PipelineError::ParamIo) });
        assert_eq!(pipeline.stage(), Stage::Finished { outcome: Err(PipelineError::ParamIo) });
    }
}

#[test]
fn unexpected_report_fails_the_phase_that_waits() {
    let (mut pipeline, _) = Pipeline::start(ipa(6, 2));
    pipeline.step(&Event::Done);
    pipeline.step(&Event::ParamsFound { bytes: framed(6) });
    assert_eq!(pipeline.stage(), Stage::GeneratingKeys);
    assert_eq!(
        pipeline.step(&Event::ProofCreated),
        Action::Stop {
            outcome: Err(PipelineError::KeygenFailure { fault: BackendFault::Unspecified })
        }
    );

    let (mut pipeline, _) = Pipeline::start(ipa(6, 2));
    pipeline.step(&Event::Done);
    pipeline.step(&Event::ParamsFound { bytes: framed(6) });
    pipeline.step(&Event::Done);
    assert_eq!(pipeline.stage(), Stage::Proving);
    assert_eq!(
        pipeline.step(&Event::Done),
        Action::Stop {
            outcome: Err(PipelineError::ProofGenerationFailure {
                fault: BackendFault::Unspecified
            })
        }
    );

    let (mut pipeline, _) = Pipeline::start(ipa(6, 2));
    pipeline.step(&Event::Done);
    pipeline.step(&Event::ParamsFound { bytes: framed(6) });
    pipeline.step(&Event::Done);
    pipeline.step(&Event::ProofCreated);
    assert_eq!(pipeline.step(&Event::Done), Action::Verify { label: "verify".to_string() });
    assert_eq!(
        pipeline.step(&Event::Done),
        Action::Stop { outcome: Err(PipelineError::System { fault: BackendFault::Unspecified }) }
    );
}

#[test]
fn run_leaves_the_files_of_other_runs_alone() {
    let mut world = world(6);
    world.files.insert("./sha256_params_k_7".to_string(), vec![1u8]);
    world.files.insert("./sha256_proof_k_6_count_3".to_string(), vec![2u8]);
    world.files.insert("./sha256_proof_k_16_count_2".to_string(), vec![3u8]);
    world.files.insert("notes".to_string(), vec![4u8]);
    let record = drive(ipa(6, 2), &mut world);
    assert_eq!(record.outcome, Ok(VerificationResult::Accept));
    assert_eq!(world.files.get("./sha256_params_k_7"), Some(&vec![1u8]));
    assert_eq!(world.files.get("./sha256_proof_k_6_count_3"), Some(&vec![2u8]));
    assert_eq!(world.files.get("./sha256_proof_k_16_count_2"), Some(&vec![3u8]));
    assert_eq!(world.files.get("notes"), Some(&vec![4u8]));
    assert_eq!(world.files.len(), 6);
}
