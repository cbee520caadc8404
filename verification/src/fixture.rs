//! The records that leave the pipeline: the answer of a service and the
//! fixture that is stored for a verifier.
//!
//! Both take the two outputs from the published bytes of the artifact and
//! from nowhere else: the proof vouches for those bytes, so nothing is
//! computed a second time.

use vstd::prelude::*;
use vstd::string::StringExecFns;
use crate::artifact::{ArtifactView, ProofArtifact};
use crate::error::PipelineError;
use crate::hexcode::{hex_encode, hex_text, prefixed_hex_text, to_prefixed_hex};
use crate::public_values::{decoded_public_values, parse_public_values};
use crate::request::{CollateralRequest, RequestView};

verus! {

/// What a service answers for a proved request.
#[derive(Clone, Debug, PartialEq, Eq)]
pub struct ProofResponse {
    pub proof: String,
    pub icr: u32,
    pub collateral_amount_usd: u32,
    pub vkey: String,
}

/// A response as a mathematical value.
pub struct ResponseView {
    pub proof: Seq<char>,
    pub icr: u32,
    pub collateral_amount_usd: u32,
    pub vkey: Seq<char>,
}

impl View for ProofResponse {
    type V = ResponseView;

    open spec fn view(&self) -> ResponseView {
        ResponseView {
            proof: self.proof@,
            icr: self.icr,
            collateral_amount_usd: self.collateral_amount_usd,
            vkey: self.vkey@,
        }
    }
}

/// The stored record of one proved request.
#[derive(Clone, Debug, PartialEq, Eq)]
pub struct Fixture {
    pub user_id: u32,
    pub user_address: String,
    pub icr: u32,
    pub collateral_amount: u32,
    pub vkey: String,
    pub public_values: String,
    pub proof: String,
}

/// A fixture as a mathematical value.
pub struct FixtureModel {
    pub user_id: u32,
    pub user_address: Seq<char>,
    pub icr: u32,
    pub collateral_amount: u32,
    pub vkey: Seq<char>,
    pub public_values: Seq<char>,
    pub proof: Seq<char>,
}

impl View for Fixture {
    type V = FixtureModel;

    open spec fn view(&self) -> FixtureModel {
        FixtureModel {
            user_id: self.user_id,
            user_address: self.user_address@,
            icr: self.icr,
            collateral_amount: self.collateral_amount,
            vkey: self.vkey@,
            public_values: self.public_values@,
            proof: self.proof@,
        }
    }
}

/// The response for an artifact: the decoded outputs, the proof as
/// hexadecimal text and the verification key's identifier; no response where
/// the published bytes do not decode.
pub open spec fn response_of(artifact: ArtifactView) -> Result<ResponseView, PipelineError> {
    match decoded_public_values(artifact.public_values) {
        Err(e) => Err(e),
        Ok(outputs) => Ok(
            ResponseView {
                proof: hex_text(artifact.proof_bytes),
                icr: outputs.icr,
                collateral_amount_usd: outputs.collateral_amount_usd,
                vkey: artifact.verification_key_id,
            },
        ),
    }
}

/// The fixture for a request and its artifact: the request's identity and
/// address, the decoded outputs, the verification key's identifier, and the
/// published bytes and the proof as hexadecimal text behind `0x`; no fixture
/// where the published bytes do not decode.
pub open spec fn fixture_of(request: RequestView, artifact: ArtifactView) -> Result<
    FixtureModel,
    PipelineError,
> {
    match decoded_public_values(artifact.public_values) {
        Err(e) => Err(e),
        Ok(outputs) => Ok(
            FixtureModel {
                user_id: request.id,
                user_address: request.user_address,
                icr: outputs.icr,
                collateral_amount: outputs.collateral_amount_usd,
                vkey: artifact.verification_key_id,
                public_values: prefixed_hex_text(artifact.public_values),
                proof: prefixed_hex_text(artifact.proof_bytes),
            },
        ),
    }
}

/// Builds the answer of a service from an artifact.
///
/// Fails with `InvalidPublicValues` exactly where the artifact's published
/// bytes are fewer than eight.
pub fn build_response(artifact: &ProofArtifact) -> (r: Result<ProofResponse, PipelineError>)
    ensures
        match r {
            Ok(response) => response_of(artifact@) == Ok::<ResponseView, PipelineError>(
                response@,
            ),
            Err(e) => response_of(artifact@) == Err::<ResponseView, PipelineError>(e),
        },
{
    let outputs = match parse_public_values(artifact.public_values.as_slice()) {
        Err(e) => {
            return Err(e);
        },
        Ok(outputs) => outputs,
    };
    Ok(
        ProofResponse {
            proof: hex_encode(artifact.proof_bytes.as_slice()),
            icr: outputs.icr,
            collateral_amount_usd: outputs.collateral_amount_usd,
            vkey: artifact.verification_key_id.clone(),
        },
    )
}

/// Builds the stored record of a proved request.
///
/// Fails with `InvalidPublicValues` exactly where the artifact's published
/// bytes are fewer than eight.
pub fn build_fixture(request: &CollateralRequest, artifact: &ProofArtifact) -> (r: Result<
    Fixture,
    PipelineError,
>)
    ensures
        match r {
            Ok(fixture) => fixture_of(request@, artifact@) == Ok::<FixtureModel, PipelineError>(
                fixture@,
            ),
            Err(e) => fixture_of(request@, artifact@) == Err::<FixtureModel, PipelineError>(e),
        },
{
    let outputs = match parse_public_values(artifact.public_values.as_slice()) {
        Err(e) => {
            return Err(e);
        },
        Ok(outputs) => outputs,
    };
    Ok(
        Fixture {
            user_id: request.id,
            user_address: request.user_address.clone(),
            icr: outputs.icr,
            collateral_amount: outputs.collateral_amount_usd,
            vkey: artifact.verification_key_id.clone(),
            public_values: to_prefixed_hex(artifact.public_values.as_slice()),
            proof: to_prefixed_hex(artifact.proof_bytes.as_slice()),
        },
    )
}

/// The character that stands in a file name for `c`: a colon becomes an
/// underscore, every other character stays.
pub open spec fn file_name_char(c: char) -> char {
    if c == ':' {
        '_'
    } else {
        c
    }
}

/// The name of the file that holds the fixture of the borrower with this
/// address: the address with every colon replaced, then `-proof.json`.
pub open spec fn file_name_text(user_address: Seq<char>) -> Seq<char> {
    user_address.map_values(|c: char| file_name_char(c)) + "-proof.json"@
}

/// `String::push` of std: appends one character to the end of the string.
#[verifier::external_body]
fn push_char(text: &mut String, c: char)
    ensures
        final(text)@ == old(text)@.push(c),
{
    text.push(c)
}

/// Names the file for a borrower's fixture. The name depends on the address
/// alone, so proving again for the same borrower replaces the earlier file.
pub fn fixture_file_name(user_address: &str) -> (name: String)
    ensures
        name@ == file_name_text(user_address@),
{
    let mut name = String::new();
    for c in it: user_address.chars()
        invariant
            it.seq() == user_address@,
            name@ == user_address@.subrange(0, it.index() as int).map_values(
                |c: char| file_name_char(c),
            ),
    {
        let replaced: char = if c == ':' {
            '_'
        } else {
            c
        };
        push_char(&mut name, replaced);
    }
    name.append("-proof.json");
    name
}

} // verus!
