//! Collateral-ratio proofs: the deterministic kernel that turns a borrower's
//! collateral, debt and the bitcoin price into the two published outputs, the
//! byte layouts that carry a request into the isolated run and the outputs
//! back out of it, and the decisions of a proving job.
//!
//! Every function here is verified against its contract. The proving backend
//! itself is not part of the crate: a caller performs the actions that a job
//! asks for and feeds the outcomes back as events.

pub mod amount;
pub mod artifact;
pub mod error;
pub mod fixture;
pub mod guest;
pub mod hexcode;
pub mod job;
pub mod kernel;
pub mod public_values;
pub mod request;
pub mod wire;

pub use crate::amount::parse_amount;
pub use crate::artifact::{ProofArtifact, ProofSystem};
pub use crate::error::PipelineError;
pub use crate::fixture::{build_fixture, build_response, fixture_file_name, Fixture, ProofResponse};
pub use crate::guest::run_guest;
pub use crate::job::{advance, JobAction, JobEvent, JobState, ProvingContext, Stage};
pub use crate::kernel::{calculate_icr, compute, PublicOutputs};
pub use crate::public_values::{encode_public_values, parse_public_values};
pub use crate::request::{decode_request, encode_request, CollateralRequest};
