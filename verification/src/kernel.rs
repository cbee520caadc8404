//! The computation kernel: collateral, debt and price in, ratio and value out.
//!
//! All arithmetic is on integers, so every platform computes the same
//! outputs bit for bit.

use vstd::prelude::*;
use crate::error::PipelineError;

verus! {

/// Satoshis in one bitcoin: dividing sats times price by it gives the
/// collateral's value in the unit of the price.
pub const SATS_PER_BTC: u64 = 100_000_000;

/// Factor that turns a ratio into a percentage.
pub const PERCENT: u64 = 100;

/// What a run publishes: the collateral ratio as a percentage and the value
/// of the collateral, both rounded down to an integer.
#[derive(Clone, Copy, Debug, PartialEq, Eq, Structural)]
pub struct PublicOutputs {
    pub icr: u32,
    pub collateral_amount_usd: u32,
}

/// `x` as a `u32`, with everything above the largest `u32` mapped to it.
pub open spec fn saturate_u32(x: nat) -> u32 {
    if x > u32::MAX {
        u32::MAX
    } else {
        x as u32
    }
}

/// The collateral ratio in percent, rounded down: `100 * collateral / debt`.
pub open spec fn icr_percent(collateral: u32, debt: u32) -> nat
    recommends
        debt != 0,
{
    (100 * collateral as nat) / (debt as nat)
}

/// The collateral's value, rounded down: `collateral * price / 100_000_000`.
pub open spec fn collateral_value(collateral: u32, price: u32) -> nat {
    (collateral as nat * price as nat) / 100_000_000
}

/// What the kernel returns on each input: an error exactly where the debt is
/// zero, else the two outputs, each capped at the largest `u32`.
pub open spec fn kernel_result(collateral: u32, debt: u32, price: u32) -> Result<
    PublicOutputs,
    PipelineError,
> {
    if debt == 0 {
        Err(PipelineError::DivisionByZero)
    } else {
        Ok(
            PublicOutputs {
                icr: saturate_u32(icr_percent(collateral, debt)),
                collateral_amount_usd: saturate_u32(collateral_value(collateral, price)),
            },
        )
    }
}

/// The product of two `u32` fits a `u64`.
proof fn lemma_product_fits(a: u32, b: u32)
    ensures
        a as nat * b as nat <= 0xFFFF_FFFE_0000_0001,
{
    assert(a as nat * b as nat <= 0xFFFF_FFFFnat * 0xFFFF_FFFFnat) by (nonlinear_arith)
        requires
            a <= 0xFFFF_FFFF,
            b <= 0xFFFF_FFFF,
    ;
}

/// Caps a wide value at the largest `u32`.
fn saturating_narrow(x: u64) -> (r: u32)
    ensures
        r == saturate_u32(x as nat),
{
    if x > 0xFFFF_FFFF {
        u32::MAX
    } else {
        x as u32
    }
}

/// Computes the collateral ratio and the collateral's value.
///
/// A zero debt is rejected with `DivisionByZero`; on every other input the
/// call succeeds. A ratio or a value beyond the largest `u32` is published as
/// that largest value.
pub fn compute(collateral_amount: u32, debt_amount: u32, btc_price_usd: u32) -> (r: Result<
    PublicOutputs,
    PipelineError,
>)
    ensures
        r == kernel_result(collateral_amount, debt_amount, btc_price_usd),
{
    if debt_amount == 0 {
        return Err(PipelineError::DivisionByZero);
    }
    let collateral: u64 = collateral_amount as u64;
    let scaled: u64 = PERCENT * collateral;
    let ratio: u64 = scaled / (debt_amount as u64);
    proof {
        lemma_product_fits(collateral_amount, btc_price_usd);
    }
    let worth: u64 = collateral * (btc_price_usd as u64);
    let value: u64 = worth / SATS_PER_BTC;
    Ok(
        PublicOutputs {
            icr: saturating_narrow(ratio),
            collateral_amount_usd: saturating_narrow(value),
        },
    )
}

/// Computes the two outputs for one request. The request's identity, the
/// borrower's address and the creation time travel with the amounts but do
/// not enter the result, which is that of [`compute`] on the three amounts.
pub fn calculate_icr(
    id: u32,
    user_address: String,
    created_at: String,
    collateral_amount: u32,
    debt_amount: u32,
    btc_price_usd: u32,
) -> (r: Result<(u32, u32), PipelineError>)
    ensures
        r == match kernel_result(collateral_amount, debt_amount, btc_price_usd) {
            Ok(outputs) => Ok((outputs.icr, outputs.collateral_amount_usd)),
            Err(e) => Err(e),
        },
{
    match compute(collateral_amount, debt_amount, btc_price_usd) {
        Ok(outputs) => Ok((outputs.icr, outputs.collateral_amount_usd)),
        Err(e) => Err(e),
    }
}

/// The kernel is a function of its inputs: two runs on the same amounts, with
/// a debt that is not zero, both succeed and publish the same outputs.
pub proof fn lemma_compute_deterministic(
    collateral: u32,
    debt: u32,
    price: u32,
    first: Result<PublicOutputs, PipelineError>,
    second: Result<PublicOutputs, PipelineError>,
)
    requires
        debt != 0,
        first == kernel_result(collateral, debt, price),
        second == kernel_result(collateral, debt, price),
    ensures
        first is Ok,
        first == second,
{
}

/// A zero debt is refused whatever the collateral and the price are, and no
/// other input is refused.
pub proof fn lemma_zero_debt_rejected(collateral: u32, debt: u32, price: u32)
    ensures
        debt == 0 <==> kernel_result(collateral, debt, price) == Err::<
            PublicOutputs,
            PipelineError,
        >(PipelineError::DivisionByZero),
        debt != 0 <==> kernel_result(collateral, debt, price) is Ok,
{
}

} // verus!
