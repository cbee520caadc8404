//! The program that runs inside the isolated environment, as a function from
//! the bytes of its input stream to the bytes it publishes.
//!
//! It reads the request, hands the amounts to the kernel and lays the two
//! outputs out. It touches nothing else, so the same input always publishes
//! the same bytes.

use vstd::prelude::*;
use crate::error::PipelineError;
use crate::kernel::{calculate_icr, kernel_result, PublicOutputs};
use crate::public_values::{
    decoded_public_values,
    encode_public_values,
    lemma_public_values_round_trip,
    public_values_layout,
};
use crate::request::{decode_request, lemma_request_round_trip, parsed_request, RequestView};

verus! {

/// What a run on `input` publishes: the laid-out outputs of the kernel on the
/// request that the input carries. The run fails with `TruncatedInput` where
/// the input carries no request, and with the kernel's error where the kernel
/// refuses the request.
pub open spec fn guest_output(input: Seq<u8>) -> Result<Seq<u8>, PipelineError> {
    match parsed_request(input) {
        None => Err(PipelineError::TruncatedInput),
        Some(request) => match kernel_result(
            request.collateral_amount_sats,
            request.debt_amount,
            request.btc_price_usd_cents,
        ) {
            Err(e) => Err(e),
            Ok(outputs) => Ok(public_values_layout(outputs)),
        },
    }
}

/// Runs the guest program on its input stream and returns the bytes to
/// publish: eight bytes, the ratio first.
pub fn run_guest(input: &[u8]) -> (r: Result<Vec<u8>, PipelineError>)
    ensures
        match r {
            Ok(published) => guest_output(input@) == Ok::<Seq<u8>, PipelineError>(published@),
            Err(e) => guest_output(input@) == Err::<Seq<u8>, PipelineError>(e),
        },
{
    let request = match decode_request(input) {
        Err(e) => {
            return Err(e);
        },
        Ok(request) => request,
    };
    let (icr, collateral_amount_usd) = match calculate_icr(
        request.id,
        request.user_address,
        request.created_at,
        request.collateral_amount_sats,
        request.debt_amount,
        request.btc_price_usd_cents,
    ) {
        Err(e) => {
            return Err(e);
        },
        Ok(pair) => pair,
    };
    Ok(encode_public_values(&PublicOutputs { icr, collateral_amount_usd }))
}

/// What the host decodes at the end of the pipeline for `request`: the
/// request is laid out, the guest runs on the layout, and the bytes it
/// publishes are decoded.
pub open spec fn pipeline_outputs(request: RequestView) -> Result<PublicOutputs, PipelineError> {
    match guest_output(request.layout()) {
        Err(e) => Err(e),
        Ok(published) => decoded_public_values(published),
    }
}

/// The outputs that come out of the pipeline are the ones that the kernel
/// computes directly from the request's amounts: for every request whose
/// strings fit, encoding, running and decoding neither change nor lose them,
/// and a zero debt comes out as `DivisionByZero`.
pub proof fn lemma_pipeline_agrees_with_kernel(request: RequestView)
    requires
        request.encodable(),
    ensures
        pipeline_outputs(request) == kernel_result(
            request.collateral_amount_sats,
            request.debt_amount,
            request.btc_price_usd_cents,
        ),
{
    lemma_request_round_trip(request, Seq::empty());
    assert(request.layout() + Seq::<u8>::empty() =~= request.layout());
    match kernel_result(
        request.collateral_amount_sats,
        request.debt_amount,
        request.btc_price_usd_cents,
    ) {
        Err(_) => {},
        Ok(outputs) => {
            lemma_public_values_round_trip(outputs, Seq::empty());
        },
    }
}

} // verus!
