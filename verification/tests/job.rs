use icr_pipeline::artifact::{ProofArtifact, ProofSystem};
use icr_pipeline::error::PipelineError;
use icr_pipeline::fixture::build_response;
use icr_pipeline::guest::run_guest;
use icr_pipeline::job::{advance, JobAction, JobEvent, JobState, ProvingContext, Stage};
use icr_pipeline::kernel::compute;
use icr_pipeline::public_values::parse_public_values;
use icr_pipeline::request::{encode_request, CollateralRequest};

fn request(id: u32, address: &str, collateral: u32, debt: u32, price: u32) -> CollateralRequest {
    CollateralRequest {
        id,
        user_address: address.to_string(),
        created_at: "2025-05-07T17:57:00Z".to_string(),
        collateral_amount_sats: collateral,
        debt_amount: debt,
        btc_price_usd_cents: price,
    }
}

fn scenario_request() -> CollateralRequest {
    request(1, "abc", 1_000_000, 300, 6_000_000)
}

fn submitted(request: CollateralRequest, proof_system: ProofSystem, dry_run: bool) -> JobEvent {
    JobEvent::Submitted { request, proof_system, dry_run }
}

fn shared_keys() -> ProvingContext {
    ProvingContext { verification_key_id: "0x00c0ffee".to_string() }
}

/// Stands for the backend: does the work that an action asks for and says
/// what came of it.
fn perform(action: &JobAction, derived_key: &str) -> Option<JobEvent> {
    match action {
        JobAction::DeriveKeys => {
            Some(JobEvent::KeysReady { verification_key_id: derived_key.to_string() })
        }
        JobAction::Execute { input } => match run_guest(input) {
            Ok(public_values) => Some(JobEvent::Executed { public_values }),
            Err(_) => Some(JobEvent::ExecutionFailed),
        },
        JobAction::Prove { input, proof_system } => match run_guest(input) {
            Ok(public_values) => {
                let tag: u8 = match proof_system {
                    ProofSystem::Plonk => 1,
                    ProofSystem::Groth16 => 2,
                };
                let mut proof_bytes: Vec<u8> = vec![tag];
                proof_bytes.extend_from_slice(&public_values);
                Some(JobEvent::Proved { proof_bytes, public_values })
            }
            Err(_) => Some(JobEvent::ExecutionFailed),
        },
        JobAction::Deliver | JobAction::Report { .. } | JobAction::Nothing => None,
    }
}

/// Runs a job to its end and returns the stages it went through.
fn run(first: JobEvent, keys: Option<&ProvingContext>, derived_key: &str) -> (JobState, Vec<Stage>) {
    let mut stages: Vec<Stage> = vec![Stage::Idle];
    let (mut state, mut action) = advance(JobState::new(), first, keys);
    stages.push(state.stage());
    while let Some(event) = perform(&action, derived_key) {
        let (next, then) = advance(state, event, keys);
        state = next;
        action = then;
        stages.push(state.stage());
    }
    (state, stages)
}

fn artifact_of(state: &JobState) -> ProofArtifact {
    match state {
        JobState::Completed { artifact } => artifact.clone(),
        other => panic!("the job is not completed: {:?}", other),
    }
}

#[test]
fn end_to_end_outputs_match_the_kernel() {
    let (state, stages) = run(submitted(scenario_request(), ProofSystem::Groth16, true), None, "0xkey");
    assert_eq!(
        stages,
        vec![Stage::Idle, Stage::Setup, Stage::Executing, Stage::Proving, Stage::Completed]
    );
    let artifact = artifact_of(&state);
    assert_eq!(parse_public_values(&artifact.public_values), compute(1_000_000, 300, 6_000_000));
    assert_eq!(artifact.public_values, vec![0x15, 0x16, 0x05, 0x00, 0x60, 0xEA, 0x00, 0x00]);
    assert_eq!(artifact.verification_key_id, "0xkey");
    assert_eq!(artifact.proof_system, ProofSystem::Groth16);
    assert_eq!(artifact.proof_bytes[0], 2);

    let response = build_response(&artifact).unwrap();
    assert_eq!(response.icr, 333_333);
    assert_eq!(response.collateral_amount_usd, 60_000);
    assert_eq!(response.vkey, "0xkey");
}

#[test]
fn the_steps_ask_for_the_work_in_order() {
    let state = JobState::new();
    assert_eq!(state.stage(), Stage::Idle);

    let (state, action) = advance(state, submitted(scenario_request(), ProofSystem::Plonk, true), None);
    assert_eq!(state.stage(), Stage::Setup);
    assert_eq!(action, JobAction::DeriveKeys);

    let input = encode_request(&scenario_request()).unwrap();
    let (state, action) =
        advance(state, JobEvent::KeysReady { verification_key_id: "vk".to_string() }, None);
    assert_eq!(state.stage(), Stage::Executing);
    assert_eq!(action, JobAction::Execute { input: input.clone() });

    let published = run_guest(&input).unwrap();
    let (state, action) =
        advance(state, JobEvent::Executed { public_values: published.clone() }, None);
    assert_eq!(state.stage(), Stage::Proving);
    assert_eq!(action, JobAction::Prove { input: input.clone(), proof_system: ProofSystem::Plonk });

    let (state, action) = advance(
        state,
        JobEvent::Proved { proof_bytes: vec![9, 9], public_values: published.clone() },
        None,
    );
    assert_eq!(action, JobAction::Deliver);
    assert_eq!(
        state,
        JobState::Completed {
            artifact: ProofArtifact {
                proof_bytes: vec![9, 9],
                public_values: published,
                verification_key_id: "vk".to_string(),
                proof_system: ProofSystem::Plonk,
            }
        }
    );
}

#[test]
fn without_a_dry_run_proving_follows_setup() {
    let (state, stages) = run(submitted(scenario_request(), ProofSystem::Plonk, false), None, "vk");
    assert_eq!(stages, vec![Stage::Idle, Stage::Setup, Stage::Proving, Stage::Completed]);
    let artifact = artifact_of(&state);
    assert_eq!(artifact.proof_system, ProofSystem::Plonk);
    assert_eq!(artifact.proof_bytes[0], 1);
}

#[test]
fn shared_keys_pass_over_setup() {
    let keys = shared_keys();
    let (state, stages) =
        run(submitted(scenario_request(), ProofSystem::Groth16, true), Some(&keys), "unused");
    assert_eq!(stages, vec![Stage::Idle, Stage::Executing, Stage::Proving, Stage::Completed]);
    assert_eq!(artifact_of(&state).verification_key_id, "0x00c0ffee");

    let (state, stages) =
        run(submitted(scenario_request(), ProofSystem::Groth16, false), Some(&keys), "unused");
    assert_eq!(stages, vec![Stage::Idle, Stage::Proving, Stage::Completed]);
    assert_eq!(artifact_of(&state).verification_key_id, "0x00c0ffee");
}

#[test]
fn the_proof_system_does_not_change_the_values() {
    let (plonk, _) = run(submitted(scenario_request(), ProofSystem::Plonk, true), None, "vk");
    let (groth, _) = run(submitted(scenario_request(), ProofSystem::Groth16, true), None, "vk");
    assert_eq!(artifact_of(&plonk).public_values, artifact_of(&groth).public_values);
    assert_ne!(artifact_of(&plonk).proof_system, artifact_of(&groth).proof_system);
}

#[test]
fn two_jobs_with_shared_keys_do_not_mix() {
    let keys = shared_keys();
    let first_request = request(1, "abc", 1_000_000, 300, 6_000_000);
    let second_request = request(2, "xyz", 250_000_000, 7, 6_200_000);

    // The two jobs take their steps in turn.
    let (first, first_action) =
        advance(JobState::new(), submitted(first_request, ProofSystem::Groth16, true), Some(&keys));
    let (second, second_action) =
        advance(JobState::new(), submitted(second_request, ProofSystem::Plonk, true), Some(&keys));
    let second_event = perform(&second_action, "unused").unwrap();
    let first_event = perform(&first_action, "unused").unwrap();
    let (second, second_action) = advance(second, second_event, Some(&keys));
    let (first, first_action) = advance(first, first_event, Some(&keys));
    let first_event = perform(&first_action, "unused").unwrap();
    let second_event = perform(&second_action, "unused").unwrap();
    let (first, first_action) = advance(first, first_event, Some(&keys));
    let (second, second_action) = advance(second, second_event, Some(&keys));

    assert_eq!(first_action, JobAction::Deliver);
    assert_eq!(second_action, JobAction::Deliver);
    let first_artifact = artifact_of(&first);
    let second_artifact = artifact_of(&second);
    assert_eq!(
        parse_public_values(&first_artifact.public_values),
        compute(1_000_000, 300, 6_000_000)
    );
    assert_eq!(
        parse_public_values(&second_artifact.public_values),
        compute(250_000_000, 7, 6_200_000)
    );
    assert_ne!(first_artifact.public_values, second_artifact.public_values);
    assert_eq!(first_artifact.verification_key_id, keys.verification_key_id);
    assert_eq!(second_artifact.verification_key_id, keys.verification_key_id);
    assert_eq!(first_artifact.proof_system, ProofSystem::Groth16);
    assert_eq!(second_artifact.proof_system, ProofSystem::Plonk);
    // The shared keys are as they were.
    assert_eq!(keys, shared_keys());
}

#[test]
fn a_job_alone_and_a_job_among_others_end_alike() {
    let keys = shared_keys();
    let (alone, _) = run(submitted(scenario_request(), ProofSystem::Groth16, true), Some(&keys), "x");
    let (_, _) = run(
        submitted(request(9, "other", 5, 5, 5), ProofSystem::Plonk, false),
        Some(&keys),
        "x",
    );
    let (again, _) = run(submitted(scenario_request(), ProofSystem::Groth16, true), Some(&keys), "x");
    assert_eq!(alone, again);
}

#[test]
fn an_oversized_request_is_refused_before_any_work() {
    let mut bad = scenario_request();
    bad.user_address = "a".repeat(1025);
    let (state, action) = advance(JobState::new(), submitted(bad, ProofSystem::Groth16, true), None);
    assert_eq!(state, JobState::Failed { error: PipelineError::EncodingError, retryable: true });
    assert_eq!(action, JobAction::Report { error: PipelineError::EncodingError });
}

#[test]
fn a_zero_debt_is_refused_before_any_work() {
    let (state, action) = advance(
        JobState::new(),
        submitted(request(1, "abc", 1_000_000, 0, 6_000_000), ProofSystem::Groth16, true),
        Some(&shared_keys()),
    );
    assert_eq!(state, JobState::Failed { error: PipelineError::DivisionByZero, retryable: true });
    assert_eq!(action, JobAction::Report { error: PipelineError::DivisionByZero });
}

#[test]
fn a_refused_request_can_be_mended_and_submitted_again() {
    let (state, _) = advance(
        JobState::new(),
        submitted(request(1, "abc", 1_000_000, 0, 6_000_000), ProofSystem::Groth16, true),
        None,
    );
    assert_eq!(state.stage(), Stage::Failed);
    let (state, action) = advance(state, submitted(scenario_request(), ProofSystem::Groth16, true), None);
    assert_eq!(state.stage(), Stage::Setup);
    assert_eq!(action, JobAction::DeriveKeys);
}

#[test]
fn a_failed_dry_run_leaves_room_for_another_attempt() {
    let keys = shared_keys();
    let (state, _) =
        advance(JobState::new(), submitted(scenario_request(), ProofSystem::Groth16, true), Some(&keys));
    assert_eq!(state.stage(), Stage::Executing);
    let (state, action) = advance(state, JobEvent::ExecutionFailed, Some(&keys));
    assert_eq!(state, JobState::Failed { error: PipelineError::TruncatedInput, retryable: true });
    assert_eq!(action, JobAction::Report { error: PipelineError::TruncatedInput });
    let (state, _) =
        advance(state, submitted(scenario_request(), ProofSystem::Groth16, true), Some(&keys));
    assert_eq!(state.stage(), Stage::Executing);
}

#[test]
fn backend_failures_are_reported() {
    let (setup, _) =
        advance(JobState::new(), submitted(scenario_request(), ProofSystem::Groth16, true), None);
    let (state, action) = advance(setup, JobEvent::BackendFailed, None);
    assert_eq!(state, JobState::Failed { error: PipelineError::ProvingBackendError, retryable: true });
    assert_eq!(action, JobAction::Report { error: PipelineError::ProvingBackendError });

    let keys = shared_keys();
    let (executing, _) =
        advance(JobState::new(), submitted(scenario_request(), ProofSystem::Groth16, true), Some(&keys));
    let (state, _) = advance(executing, JobEvent::BackendFailed, Some(&keys));
    assert_eq!(state, JobState::Failed { error: PipelineError::ProvingBackendError, retryable: true });

    let (proving, _) =
        advance(JobState::new(), submitted(scenario_request(), ProofSystem::Groth16, false), Some(&keys));
    assert_eq!(proving.stage(), Stage::Proving);
    let (state, action) = advance(proving, JobEvent::BackendFailed, Some(&keys));
    assert_eq!(state, JobState::Failed { error: PipelineError::ProvingBackendError, retryable: false });
    assert_eq!(action, JobAction::Report { error: PipelineError::ProvingBackendError });
}

#[test]
fn a_failure_while_proving_is_final() {
    let keys = shared_keys();
    let (proving, _) =
        advance(JobState::new(), submitted(scenario_request(), ProofSystem::Groth16, false), Some(&keys));
    let (failed, _) = advance(proving, JobEvent::BackendFailed, Some(&keys));
    let (state, action) =
        advance(failed.clone(), submitted(scenario_request(), ProofSystem::Groth16, false), Some(&keys));
    assert_eq!(state, failed);
    assert_eq!(action, JobAction::Nothing);
    let (state, action) = advance(
        failed.clone(),
        JobEvent::Proved { proof_bytes: vec![1], public_values: vec![0; 8] },
        Some(&keys),
    );
    assert_eq!(state, failed);
    assert_eq!(action, JobAction::Nothing);
}

#[test]
fn published_bytes_that_do_not_decode_end_the_job() {
    let keys = shared_keys();
    let (executing, _) =
        advance(JobState::new(), submitted(scenario_request(), ProofSystem::Groth16, true), Some(&keys));
    let (state, action) =
        advance(executing, JobEvent::Executed { public_values: vec![1, 2, 3] }, Some(&keys));
    assert_eq!(state, JobState::Failed { error: PipelineError::InvalidPublicValues, retryable: false });
    assert_eq!(action, JobAction::Report { error: PipelineError::InvalidPublicValues });

    let (proving, _) =
        advance(JobState::new(), submitted(scenario_request(), ProofSystem::Groth16, false), Some(&keys));
    let (state, action) = advance(
        proving,
        JobEvent::Proved { proof_bytes: vec![1, 2], public_values: vec![0; 7] },
        Some(&keys),
    );
    assert_eq!(state, JobState::Failed { error: PipelineError::InvalidPublicValues, retryable: false });
    assert_eq!(action, JobAction::Report { error: PipelineError::InvalidPublicValues });
}

#[test]
fn a_completed_job_never_changes() {
    let (completed, _) = run(submitted(scenario_request(), ProofSystem::Groth16, true), None, "vk");
    let events: Vec<JobEvent> = vec![
        submitted(request(5, "late", 1, 1, 1), ProofSystem::Plonk, false),
        JobEvent::KeysReady { verification_key_id: "other".to_string() },
        JobEvent::Executed { public_values: vec![0; 8] },
        JobEvent::ExecutionFailed,
        JobEvent::Proved { proof_bytes: vec![7], public_values: vec![1; 8] },
        JobEvent::BackendFailed,
    ];
    for event in events {
        let (state, action) = advance(completed.clone(), event, None);
        assert_eq!(state, completed);
        assert_eq!(action, JobAction::Nothing);
    }
}

#[test]
fn events_out_of_turn_are_ignored() {
    let (state, action) = advance(JobState::new(), JobEvent::BackendFailed, None);
    assert_eq!(state, JobState::Idle);
    assert_eq!(action, JobAction::Nothing);
    let (state, action) = advance(
        JobState::new(),
        JobEvent::Proved { proof_bytes: vec![1], public_values: vec![0; 8] },
        None,
    );
    assert_eq!(state, JobState::Idle);
    assert_eq!(action, JobAction::Nothing);

    let (setup, _) =
        advance(JobState::new(), submitted(scenario_request(), ProofSystem::Groth16, true), None);
    let (state, action) =
        advance(setup.clone(), JobEvent::Executed { public_values: vec![0; 8] }, None);
    assert_eq!(state, setup);
    assert_eq!(action, JobAction::Nothing);
    let (state, action) =
        advance(setup.clone(), submitted(request(3, "again", 1, 1, 1), ProofSystem::Plonk, true), None);
    assert_eq!(state, setup);
    assert_eq!(action, JobAction::Nothing);
}
