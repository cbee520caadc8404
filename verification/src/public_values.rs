//! The layout of the published outputs: the ratio, then the value, each as
//! four little-endian bytes.

use vstd::prelude::*;
use crate::error::PipelineError;
use crate::kernel::PublicOutputs;
use crate::wire::{get_u32_le, lemma_u32_le_round_trip, put_u32_le, u32_from_le, u32_le};

verus! {

/// Number of bytes that the two outputs take.
pub const PUBLIC_VALUES_LEN: usize = 8;

/// The eight bytes that a run publishes for `outputs`.
pub open spec fn public_values_layout(outputs: PublicOutputs) -> Seq<u8> {
    u32_le(outputs.icr) + u32_le(outputs.collateral_amount_usd)
}

/// What published bytes decode to: nothing where fewer than eight are there,
/// else the two numbers laid out in the first eight. Bytes after the eighth
/// are left for later extensions of the layout and are never looked at.
pub open spec fn decoded_public_values(bytes: Seq<u8>) -> Result<PublicOutputs, PipelineError> {
    if bytes.len() < 8 {
        Err(PipelineError::InvalidPublicValues)
    } else {
        Ok(
            PublicOutputs {
                icr: u32_from_le(bytes.subrange(0, 4)),
                collateral_amount_usd: u32_from_le(bytes.subrange(4, 8)),
            },
        )
    }
}

/// Lays the outputs out as the bytes to publish.
pub fn encode_public_values(outputs: &PublicOutputs) -> (bytes: Vec<u8>)
    ensures
        bytes@ == public_values_layout(*outputs),
{
    let mut bytes: Vec<u8> = Vec::new();
    put_u32_le(&mut bytes, outputs.icr);
    put_u32_le(&mut bytes, outputs.collateral_amount_usd);
    bytes
}

/// Decodes published bytes into the two outputs.
///
/// Fails with `InvalidPublicValues` exactly where fewer than eight bytes are
/// given; otherwise returns the numbers in the first eight bytes and ignores
/// the rest.
pub fn parse_public_values(values: &[u8]) -> (r: Result<PublicOutputs, PipelineError>)
    ensures
        r == decoded_public_values(values@),
{
    if values.len() < PUBLIC_VALUES_LEN {
        return Err(PipelineError::InvalidPublicValues);
    }
    let icr: u32 = get_u32_le(values, 0);
    let collateral_amount_usd: u32 = get_u32_le(values, 4);
    Ok(PublicOutputs { icr, collateral_amount_usd })
}

/// Decoding what was encoded gives back the outputs, for every pair of
/// numbers, and also where further bytes follow the eight.
pub proof fn lemma_public_values_round_trip(outputs: PublicOutputs, rest: Seq<u8>)
    ensures
        public_values_layout(outputs).len() == 8,
        decoded_public_values(public_values_layout(outputs)) == Ok::<
            PublicOutputs,
            PipelineError,
        >(outputs),
        decoded_public_values(public_values_layout(outputs) + rest) == Ok::<
            PublicOutputs,
            PipelineError,
        >(outputs),
{
    let bytes = public_values_layout(outputs) + rest;
    lemma_u32_le_round_trip(outputs.icr, Seq::empty());
    lemma_u32_le_round_trip(outputs.collateral_amount_usd, Seq::empty());
    assert(bytes.subrange(0, 4) =~= u32_le(outputs.icr) + Seq::<u8>::empty());
    assert(bytes.subrange(4, 8) =~= u32_le(outputs.collateral_amount_usd) + Seq::<u8>::empty());
    assert(public_values_layout(outputs).subrange(0, 4) =~= u32_le(outputs.icr) + Seq::<
        u8,
    >::empty());
    assert(public_values_layout(outputs).subrange(4, 8) =~= u32_le(
        outputs.collateral_amount_usd,
    ) + Seq::<u8>::empty());
}

/// Sequences shorter than eight bytes are the ones that are refused.
pub proof fn lemma_short_values_rejected(bytes: Seq<u8>)
    ensures
        bytes.len() < 8 <==> decoded_public_values(bytes) == Err::<PublicOutputs, PipelineError>(
            PipelineError::InvalidPublicValues,
        ),
        bytes.len() >= 8 <==> decoded_public_values(bytes) is Ok,
{
}

/// Decoding depends on the first eight bytes alone: two sequences that agree
/// there decode alike, whatever follows.
pub proof fn lemma_decoding_reads_eight_bytes(first: Seq<u8>, second: Seq<u8>)
    requires
        first.len() >= 8,
        second.len() >= 8,
        first.subrange(0, 8) == second.subrange(0, 8),
    ensures
        decoded_public_values(first) == decoded_public_values(second),
{
    assert(first.subrange(0, 4) =~= first.subrange(0, 8).subrange(0, 4));
    assert(first.subrange(4, 8) =~= first.subrange(0, 8).subrange(4, 8));
    assert(second.subrange(0, 4) =~= second.subrange(0, 8).subrange(0, 4));
    assert(second.subrange(4, 8) =~= second.subrange(0, 8).subrange(4, 8));
}

} // verus!
