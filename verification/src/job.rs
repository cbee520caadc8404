//! The decisions of one proving job.
//!
//! A job moves from `Idle` through `Setup`, `Executing` and `Proving` to
//! `Completed`, or to `Failed`. The work itself (deriving keys, running the
//! guest, proving) happens outside: [`advance`] takes the job's state and the
//! outcome of the last piece of work and returns the next state together with
//! the next piece of work to do. It reads nothing but its arguments, so jobs
//! that run side by side cannot disturb each other, and one set of keys can
//! serve all of them.
//!
//! No event stops a job that has started: a caller who gives up waiting
//! leaves the job to run to its end, and whatever arrives after the end is
//! ignored.

use vstd::prelude::*;
use vstd::slice::slice_to_vec;
use crate::artifact::{ArtifactView, ProofArtifact, ProofSystem};
use crate::error::PipelineError;
use crate::guest::{guest_output, lemma_pipeline_agrees_with_kernel};
use crate::kernel::kernel_result;
use crate::public_values::{decoded_public_values, parse_public_values};
use crate::request::{
    encode_request,
    lemma_parsed_iff_layout_prefix,
    lemma_request_round_trip,
    parsed_request,
    CollateralRequest,
    RequestView,
};

verus! {

/// Where a job stands.
#[derive(Clone, Copy, Debug, PartialEq, Eq, Structural)]
pub enum Stage {
    Idle,
    Setup,
    Executing,
    Proving,
    Completed,
    Failed,
}

/// The keys of the guest program, derived once and then shared, unchanged,
/// by every job. The library reads only the verification key's identifier;
/// the keys themselves stay with the caller.
#[derive(Clone, Debug, PartialEq, Eq)]
pub struct ProvingContext {
    pub verification_key_id: String,
}

/// The state of a job.
#[derive(Clone, Debug, PartialEq, Eq)]
pub enum JobState {
    /// Nothing was submitted yet.
    Idle,
    /// The request was accepted and laid out; the keys are being derived.
    Setup { input: Vec<u8>, proof_system: ProofSystem, dry_run: bool },
    /// The guest runs on the input without proving.
    Executing { input: Vec<u8>, proof_system: ProofSystem, verification_key_id: String },
    /// The guest runs on the input under the selected proof system.
    Proving { input: Vec<u8>, proof_system: ProofSystem, verification_key_id: String },
    /// The proof is there.
    Completed { artifact: ProofArtifact },
    /// The job failed. Where `retryable` holds, a new submission is accepted.
    Failed { error: PipelineError, retryable: bool },
}

/// What happened outside since the last step.
#[derive(Clone, Debug, PartialEq, Eq)]
pub enum JobEvent {
    /// A caller submits a request, selects the proof system and says whether
    /// the guest is to be run once without proving first.
    Submitted { request: CollateralRequest, proof_system: ProofSystem, dry_run: bool },
    /// The keys were derived.
    KeysReady { verification_key_id: String },
    /// The run without proving finished and published these bytes.
    Executed { public_values: Vec<u8> },
    /// The guest did not run to its end.
    ExecutionFailed,
    /// Proving finished.
    Proved { proof_bytes: Vec<u8>, public_values: Vec<u8> },
    /// The backend failed.
    BackendFailed,
}

/// The work that a job asks for next.
#[derive(Clone, Debug, PartialEq, Eq)]
pub enum JobAction {
    /// Derive the keys of the guest program.
    DeriveKeys,
    /// Run the guest on `input` without proving.
    Execute { input: Vec<u8> },
    /// Run the guest on `input` and prove the run.
    Prove { input: Vec<u8>, proof_system: ProofSystem },
    /// Hand the artifact in the job's state to the caller.
    Deliver,
    /// Tell the caller that the job failed.
    Report { error: PipelineError },
    /// The event does not concern the job as it stands.
    Nothing,
}

/// A job's state as a mathematical value.
pub enum JobStateView {
    Idle,
    Setup { input: Seq<u8>, proof_system: ProofSystem, dry_run: bool },
    Executing { input: Seq<u8>, proof_system: ProofSystem, verification_key_id: Seq<char> },
    Proving { input: Seq<u8>, proof_system: ProofSystem, verification_key_id: Seq<char> },
    Completed { artifact: ArtifactView },
    Failed { error: PipelineError, retryable: bool },
}

/// An event as a mathematical value.
pub enum JobEventView {
    Submitted { request: RequestView, proof_system: ProofSystem, dry_run: bool },
    KeysReady { verification_key_id: Seq<char> },
    Executed { public_values: Seq<u8> },
    ExecutionFailed,
    Proved { proof_bytes: Seq<u8>, public_values: Seq<u8> },
    BackendFailed,
}

/// An action as a mathematical value.
pub enum JobActionView {
    DeriveKeys,
    Execute { input: Seq<u8> },
    Prove { input: Seq<u8>, proof_system: ProofSystem },
    Deliver,
    Report { error: PipelineError },
    Nothing,
}

impl View for JobState {
    type V = JobStateView;

    open spec fn view(&self) -> JobStateView {
        match *self {
            JobState::Idle => JobStateView::Idle,
            JobState::Setup { input, proof_system, dry_run } => JobStateView::Setup {
                input: input@,
                proof_system,
                dry_run,
            },
            JobState::Executing {
                input,
                proof_system,
                verification_key_id,
            } => JobStateView::Executing {
                input: input@,
                proof_system,
                verification_key_id: verification_key_id@,
            },
            JobState::Proving { input, proof_system, verification_key_id } => JobStateView::Proving {
                input: input@,
                proof_system,
                verification_key_id: verification_key_id@,
            },
            JobState::Completed { artifact } => JobStateView::Completed { artifact: artifact@ },
            JobState::Failed { error, retryable } => JobStateView::Failed { error, retryable },
        }
    }
}

impl View for JobEvent {
    type V = JobEventView;

    open spec fn view(&self) -> JobEventView {
        match *self {
            JobEvent::Submitted { request, proof_system, dry_run } => JobEventView::Submitted {
                request: request@,
                proof_system,
                dry_run,
            },
            JobEvent::KeysReady { verification_key_id } => JobEventView::KeysReady {
                verification_key_id: verification_key_id@,
            },
            JobEvent::Executed { public_values } => JobEventView::Executed {
                public_values: public_values@,
            },
            JobEvent::ExecutionFailed => JobEventView::ExecutionFailed,
            JobEvent::Proved { proof_bytes, public_values } => JobEventView::Proved {
                proof_bytes: proof_bytes@,
                public_values: public_values@,
            },
            JobEvent::BackendFailed => JobEventView::BackendFailed,
        }
    }
}

impl View for JobAction {
    type V = JobActionView;

    open spec fn view(&self) -> JobActionView {
        match *self {
            JobAction::DeriveKeys => JobActionView::DeriveKeys,
            JobAction::Execute { input } => JobActionView::Execute { input: input@ },
            JobAction::Prove { input, proof_system } => JobActionView::Prove {
                input: input@,
                proof_system,
            },
            JobAction::Deliver => JobActionView::Deliver,
            JobAction::Report { error } => JobActionView::Report { error },
            JobAction::Nothing => JobActionView::Nothing,
        }
    }
}

/// Whether `input` is the layout of a request that a job accepts: one whose
/// strings fit and whose debt is not zero, with no byte after it.
pub open spec fn admitted_input(input: Seq<u8>) -> bool {
    match parsed_request(input) {
        None => false,
        Some(request) => request.debt_amount != 0 && request.layout() == input,
    }
}

impl JobActionView {
    /// The input that the action asks to run the guest on, if it asks for a
    /// run.
    pub open spec fn input(self) -> Option<Seq<u8>> {
        match self {
            JobActionView::Execute { input } => Some(input),
            JobActionView::Prove { input, .. } => Some(input),
            _ => None,
        }
    }
}

impl JobStateView {
    /// What holds of every state that a job reaches from `Idle`: the input
    /// it works on is the layout of an accepted request, and the published
    /// bytes of its artifact decode.
    pub open spec fn well_formed(self) -> bool {
        match self {
            JobStateView::Setup { input, .. } => admitted_input(input),
            JobStateView::Executing { input, .. } => admitted_input(input),
            JobStateView::Proving { input, .. } => admitted_input(input),
            JobStateView::Completed { artifact } => decoded_public_values(
                artifact.public_values,
            ) is Ok,
            _ => true,
        }
    }

    /// Whether nothing can change the state any more: the job is completed,
    /// or it failed for good.
    pub open spec fn is_final(self) -> bool {
        match self {
            JobStateView::Completed { .. } => true,
            JobStateView::Failed { retryable, .. } => !retryable,
            _ => false,
        }
    }

    /// The stage of the state.
    pub open spec fn stage(self) -> Stage {
        match self {
            JobStateView::Idle => Stage::Idle,
            JobStateView::Setup { .. } => Stage::Setup,
            JobStateView::Executing { .. } => Stage::Executing,
            JobStateView::Proving { .. } => Stage::Proving,
            JobStateView::Completed { .. } => Stage::Completed,
            JobStateView::Failed { .. } => Stage::Failed,
        }
    }

    /// Whether the state accepts a submission: a job that has not started,
    /// or one that failed in a way that leaves room for another attempt.
    pub open spec fn accepts_submission(self) -> bool {
        match self {
            JobStateView::Idle => true,
            JobStateView::Failed { retryable, .. } => retryable,
            _ => false,
        }
    }
}

/// The step into `Failed`: the error is stored and reported.
pub open spec fn failure(error: PipelineError, retryable: bool) -> (JobStateView, JobActionView) {
    (JobStateView::Failed { error, retryable }, JobActionView::Report { error })
}

/// The step that follows once the keys are there: a run without proving
/// where one was asked for, else proving at once.
pub open spec fn begin_run(
    input: Seq<u8>,
    proof_system: ProofSystem,
    dry_run: bool,
    verification_key_id: Seq<char>,
) -> (JobStateView, JobActionView) {
    if dry_run {
        (
            JobStateView::Executing { input, proof_system, verification_key_id },
            JobActionView::Execute { input },
        )
    } else {
        (
            JobStateView::Proving { input, proof_system, verification_key_id },
            JobActionView::Prove { input, proof_system },
        )
    }
}

/// The step on a submission. A request whose strings do not fit is refused
/// with `EncodingError`, and one with a zero debt with `DivisionByZero`,
/// before any work is asked for; both leave room for another attempt. An
/// accepted request is laid out; with shared keys at hand the run begins at
/// once, without them the keys are derived first.
pub open spec fn admission(
    request: RequestView,
    proof_system: ProofSystem,
    dry_run: bool,
    keys: Option<Seq<char>>,
) -> (JobStateView, JobActionView) {
    if !request.encodable() {
        failure(PipelineError::EncodingError, true)
    } else if request.debt_amount == 0 {
        failure(PipelineError::DivisionByZero, true)
    } else {
        match keys {
            None => (
                JobStateView::Setup { input: request.layout(), proof_system, dry_run },
                JobActionView::DeriveKeys,
            ),
            Some(verification_key_id) => begin_run(
                request.layout(),
                proof_system,
                dry_run,
                verification_key_id,
            ),
        }
    }
}

/// The next state of a job and the work it asks for, given its state, what
/// happened, and the shared keys if there are any.
///
/// - A submission is taken where the job accepts one (see [`admission`]).
/// - In `Setup`, the keys start the run; a backend failure ends the job and
///   leaves room for another attempt.
/// - In `Executing`, published bytes that decode lead to `Proving`; bytes
///   that do not decode end the job for good with `InvalidPublicValues`; a
///   guest that did not finish (`TruncatedInput`) or a backend failure ends
///   it and leaves room for another attempt.
/// - In `Proving`, a proof whose published bytes decode completes the job;
///   every failure ends it for good.
/// - Every other event leaves the state as it is and asks for nothing. In
///   particular a completed job never changes.
pub open spec fn transition(state: JobStateView, event: JobEventView, keys: Option<Seq<char>>) -> (
    JobStateView,
    JobActionView,
) {
    match (state, event) {
        (
            JobStateView::Idle,
            JobEventView::Submitted { request, proof_system, dry_run },
        ) => admission(request, proof_system, dry_run, keys),
        (
            JobStateView::Failed { error, retryable: true },
            JobEventView::Submitted { request, proof_system, dry_run },
        ) => admission(request, proof_system, dry_run, keys),
        (
            JobStateView::Setup { input, proof_system, dry_run },
            JobEventView::KeysReady { verification_key_id },
        ) => begin_run(input, proof_system, dry_run, verification_key_id),
        (JobStateView::Setup { .. }, JobEventView::BackendFailed) => failure(
            PipelineError::ProvingBackendError,
            true,
        ),
        (
            JobStateView::Executing { input, proof_system, verification_key_id },
            JobEventView::Executed { public_values },
        ) => if decoded_public_values(public_values) is Ok {
            (
                JobStateView::Proving { input, proof_system, verification_key_id },
                JobActionView::Prove { input, proof_system },
            )
        } else {
            failure(PipelineError::InvalidPublicValues, false)
        },
        (JobStateView::Executing { .. }, JobEventView::ExecutionFailed) => failure(
            PipelineError::TruncatedInput,
            true,
        ),
        (JobStateView::Executing { .. }, JobEventView::BackendFailed) => failure(
            PipelineError::ProvingBackendError,
            true,
        ),
        (
            JobStateView::Proving { input, proof_system, verification_key_id },
            JobEventView::Proved { proof_bytes, public_values },
        ) => if decoded_public_values(public_values) is Ok {
            (
                JobStateView::Completed {
                    artifact: ArtifactView {
                        proof_bytes,
                        public_values,
                        verification_key_id,
                        proof_system,
                    },
                },
                JobActionView::Deliver,
            )
        } else {
            failure(PipelineError::InvalidPublicValues, false)
        },
        (JobStateView::Proving { .. }, JobEventView::ExecutionFailed) => failure(
            PipelineError::TruncatedInput,
            false,
        ),
        (JobStateView::Proving { .. }, JobEventView::BackendFailed) => failure(
            PipelineError::ProvingBackendError,
            false,
        ),
        (unchanged, _) => (unchanged, JobActionView::Nothing),
    }
}

/// The identifier in the shared keys, if there are any.
pub open spec fn shared_key_id(keys: Option<&ProvingContext>) -> Option<Seq<char>> {
    match keys {
        None => None,
        Some(context) => Some(context.verification_key_id@),
    }
}

impl JobState {
    /// A job to which nothing was submitted yet.
    pub fn new() -> (state: JobState)
        ensures
            state@ == JobStateView::Idle,
    {
        JobState::Idle
    }

    /// The stage of the job.
    pub fn stage(&self) -> (stage: Stage)
        ensures
            stage == self@.stage(),
    {
        match self {
            JobState::Idle => Stage::Idle,
            JobState::Setup { .. } => Stage::Setup,
            JobState::Executing { .. } => Stage::Executing,
            JobState::Proving { .. } => Stage::Proving,
            JobState::Completed { .. } => Stage::Completed,
            JobState::Failed { .. } => Stage::Failed,
        }
    }
}

/// A failed job and the report of its failure.
fn fail(error: PipelineError, retryable: bool) -> (next: (JobState, JobAction))
    ensures
        (next.0@, next.1@) == failure(error, retryable),
{
    (JobState::Failed { error, retryable }, JobAction::Report { error })
}

/// The state and the action with which a run begins.
fn begin(input: Vec<u8>, proof_system: ProofSystem, dry_run: bool, verification_key_id: String) -> (next:
    (JobState, JobAction))
    ensures
        (next.0@, next.1@) == begin_run(input@, proof_system, dry_run, verification_key_id@),
{
    let work: Vec<u8> = slice_to_vec(input.as_slice());
    if dry_run {
        (
            JobState::Executing { input, proof_system, verification_key_id },
            JobAction::Execute { input: work },
        )
    } else {
        (
            JobState::Proving { input, proof_system, verification_key_id },
            JobAction::Prove { input: work, proof_system },
        )
    }
}

/// Takes a submission.
fn take_submission(
    request: &CollateralRequest,
    proof_system: ProofSystem,
    dry_run: bool,
    keys: Option<&ProvingContext>,
) -> (next: (JobState, JobAction))
    ensures
        (next.0@, next.1@) == admission(request@, proof_system, dry_run, shared_key_id(keys)),
{
    let input = match encode_request(request) {
        Err(_) => {
            return fail(PipelineError::EncodingError, true);
        },
        Ok(input) => input,
    };
    if request.debt_amount == 0 {
        return fail(PipelineError::DivisionByZero, true);
    }
    match keys {
        None => (JobState::Setup { input, proof_system, dry_run }, JobAction::DeriveKeys),
        Some(context) => begin(input, proof_system, dry_run, context.verification_key_id.clone()),
    }
}

/// Advances a job by one event: returns its next state and the work to do
/// next, as [`transition`] gives them.
pub fn advance(state: JobState, event: JobEvent, keys: Option<&ProvingContext>) -> (next: (
    JobState,
    JobAction,
))
    ensures
        (next.0@, next.1@) == transition(state@, event@, shared_key_id(keys)),
        state@.well_formed() ==> next.0@.well_formed(),
{
    proof {
        if state@.well_formed() {
            lemma_step_keeps_well_formed(state@, event@, shared_key_id(keys));
        }
    }
    match state {
        JobState::Idle => match event {
            JobEvent::Submitted { request, proof_system, dry_run } => take_submission(
                &request,
                proof_system,
                dry_run,
                keys,
            ),
            _ => (JobState::Idle, JobAction::Nothing),
        },
        JobState::Failed { error, retryable } => match event {
            JobEvent::Submitted { request, proof_system, dry_run } => {
                if retryable {
                    take_submission(&request, proof_system, dry_run, keys)
                } else {
                    (JobState::Failed { error, retryable }, JobAction::Nothing)
                }
            },
            _ => (JobState::Failed { error, retryable }, JobAction::Nothing),
        },
        JobState::Setup { input, proof_system, dry_run } => match event {
            JobEvent::KeysReady { verification_key_id } => begin(
                input,
                proof_system,
                dry_run,
                verification_key_id,
            ),
            JobEvent::BackendFailed => fail(PipelineError::ProvingBackendError, true),
            _ => (JobState::Setup { input, proof_system, dry_run }, JobAction::Nothing),
        },
        JobState::Executing { input, proof_system, verification_key_id } => match event {
            JobEvent::Executed { public_values } => {
                match parse_public_values(public_values.as_slice()) {
                    Ok(_) => {
                        let work: Vec<u8> = slice_to_vec(input.as_slice());
                        (
                            JobState::Proving { input, proof_system, verification_key_id },
                            JobAction::Prove { input: work, proof_system },
                        )
                    },
                    Err(_) => fail(PipelineError::InvalidPublicValues, false),
                }
            },
            JobEvent::ExecutionFailed => fail(PipelineError::TruncatedInput, true),
            JobEvent::BackendFailed => fail(PipelineError::ProvingBackendError, true),
            _ => (
                JobState::Executing { input, proof_system, verification_key_id },
                JobAction::Nothing,
            ),
        },
        JobState::Proving { input, proof_system, verification_key_id } => match event {
            JobEvent::Proved { proof_bytes, public_values } => {
                match parse_public_values(public_values.as_slice()) {
                    Ok(_) => (
                        JobState::Completed {
                            artifact: ProofArtifact {
                                proof_bytes,
                                public_values,
                                verification_key_id,
                                proof_system,
                            },
                        },
                        JobAction::Deliver,
                    ),
                    Err(_) => fail(PipelineError::InvalidPublicValues, false),
                }
            },
            JobEvent::ExecutionFailed => fail(PipelineError::TruncatedInput, false),
            JobEvent::BackendFailed => fail(PipelineError::ProvingBackendError, false),
            _ => (
                JobState::Proving { input, proof_system, verification_key_id },
                JobAction::Nothing,
            ),
        },
        JobState::Completed { artifact } => (JobState::Completed { artifact }, JobAction::Nothing),
    }
}

/// Whether a job may go from stage `from` to stage `to` in one step: it
/// stays, fails, or moves forward in the order `Idle`, `Setup`, `Executing`,
/// `Proving`, `Completed`, where `Setup` is passed over with shared keys and
/// `Executing` without a dry run; a failed job starts again like an idle one.
pub open spec fn stage_may_follow(from: Stage, to: Stage) -> bool {
    to == from || match from {
        Stage::Idle => to != Stage::Completed,
        Stage::Failed => to != Stage::Completed && to != Stage::Idle,
        Stage::Setup => to == Stage::Executing || to == Stage::Proving || to == Stage::Failed,
        Stage::Executing => to == Stage::Proving || to == Stage::Failed,
        Stage::Proving => to == Stage::Completed || to == Stage::Failed,
        Stage::Completed => false,
    }
}

/// The layout of an accepted request is an input that a job works on.
proof fn lemma_layout_is_admitted(request: RequestView)
    requires
        request.encodable(),
        request.debt_amount != 0,
    ensures
        admitted_input(request.layout()),
{
    lemma_request_round_trip(request, Seq::empty());
    assert(request.layout() + Seq::<u8>::empty() =~= request.layout());
}

/// Every step keeps a job well formed: the input in its state stays the
/// layout of the accepted request, and a completed job holds published bytes
/// that decode.
pub proof fn lemma_step_keeps_well_formed(
    state: JobStateView,
    event: JobEventView,
    keys: Option<Seq<char>>,
)
    requires
        state.well_formed(),
    ensures
        transition(state, event, keys).0.well_formed(),
{
    if state.accepts_submission() {
        if let JobEventView::Submitted { request, proof_system, dry_run } = event {
            if request.encodable() && request.debt_amount != 0 {
                lemma_layout_is_admitted(request);
            }
        }
    }
}

/// A job moves through its stages in order and never backwards.
pub proof fn lemma_stages_follow_order(
    state: JobStateView,
    event: JobEventView,
    keys: Option<Seq<char>>,
)
    ensures
        stage_may_follow(state.stage(), transition(state, event, keys).0.stage()),
{
}

/// A completed job and a job that failed for good never change and ask for
/// no further work, whatever happens.
pub proof fn lemma_final_states_stay(
    state: JobStateView,
    event: JobEventView,
    keys: Option<Seq<char>>,
)
    requires
        state.is_final(),
    ensures
        transition(state, event, keys) == (state, JobActionView::Nothing),
{
}

/// Whether the guest, run on `input`, finishes and publishes bytes that
/// decode to the outputs which the kernel computes from the amounts of the
/// request that the input carries.
pub open spec fn run_publishes_kernel_outputs(input: Seq<u8>) -> bool {
    &&& parsed_request(input) matches Some(request)
    &&& guest_output(input) matches Ok(published)
    &&& decoded_public_values(published) == kernel_result(
        request.collateral_amount_sats,
        request.debt_amount,
        request.btc_price_usd_cents,
    )
}

/// A job asks for a run of the guest only on the layout of a request that
/// passed validation, so no proving work is spent on a request that the
/// encoder or the kernel refuses: on the input of every `Execute` and every
/// `Prove` the guest finishes, and what it publishes decodes to the kernel's
/// outputs for that request.
pub proof fn lemma_work_is_asked_on_admitted_input(
    state: JobStateView,
    event: JobEventView,
    keys: Option<Seq<char>>,
)
    requires
        state.well_formed(),
    ensures
        transition(state, event, keys).1.input() matches Some(input) ==> admitted_input(input)
            && run_publishes_kernel_outputs(input),
{
    if let Some(input) = transition(state, event, keys).1.input() {
        if state.accepts_submission() {
            if let JobEventView::Submitted { request, proof_system, dry_run } = event {
                if request.encodable() && request.debt_amount != 0 {
                    lemma_layout_is_admitted(request);
                }
            }
        }
        let request = parsed_request(input)->Some_0;
        lemma_parsed_iff_layout_prefix(input, request);
        lemma_pipeline_agrees_with_kernel(request);
    }
}

/// The state of a job after a run in which nothing fails: the request is
/// submitted to an idle job, the keys are derived where none are shared, the
/// guest publishes `published` in the dry run, where one is asked for, and
/// again under proof, and proving yields `proof_bytes`.
pub open spec fn state_after_run(
    request: RequestView,
    proof_system: ProofSystem,
    dry_run: bool,
    keys: Option<Seq<char>>,
    derived_key_id: Seq<char>,
    published: Seq<u8>,
    proof_bytes: Seq<u8>,
) -> JobStateView {
    let submitted = transition(
        JobStateView::Idle,
        JobEventView::Submitted { request, proof_system, dry_run },
        keys,
    ).0;
    let keyed = transition(
        submitted,
        JobEventView::KeysReady { verification_key_id: derived_key_id },
        keys,
    ).0;
    let executed = transition(keyed, JobEventView::Executed { public_values: published }, keys).0;
    transition(executed, JobEventView::Proved { proof_bytes, public_values: published }, keys).0
}

/// A run in which nothing fails completes, and its artifact is the job's
/// own: for a request whose strings fit and whose debt is not zero, with a
/// backend that publishes what the guest publishes on the job's input, the
/// job ends in `Completed`; the artifact holds the proof and the selected
/// proof system, the identifier of the shared keys (of the derived ones
/// where none are shared), and published bytes that decode to the outputs
/// which the kernel computes from this request's amounts. Nothing of any
/// other job enters it.
pub proof fn lemma_faithful_run_completes(
    request: RequestView,
    proof_system: ProofSystem,
    dry_run: bool,
    keys: Option<Seq<char>>,
    derived_key_id: Seq<char>,
    proof_bytes: Seq<u8>,
)
    requires
        request.encodable(),
        request.debt_amount != 0,
    ensures
        guest_output(request.layout()) is Ok,
        state_after_run(
            request,
            proof_system,
            dry_run,
            keys,
            derived_key_id,
            guest_output(request.layout())->Ok_0,
            proof_bytes,
        ) matches JobStateView::Completed { artifact } && artifact.proof_bytes == proof_bytes
            && artifact.proof_system == proof_system && artifact.verification_key_id == (match keys {
            Some(shared) => shared,
            None => derived_key_id,
        }) && decoded_public_values(artifact.public_values) == kernel_result(
            request.collateral_amount_sats,
            request.debt_amount,
            request.btc_price_usd_cents,
        ),
{
    lemma_pipeline_agrees_with_kernel(request);
}

} // verus!
