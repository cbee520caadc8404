//! Amounts that arrive as decimal text.

use vstd::prelude::*;
use vstd::utf8::{encode_utf8, is_ascii_chars, is_ascii_chars_encode_utf8};
use crate::error::PipelineError;
use crate::request::CollateralRequest;

verus! {

/// Whether `c` is one of the ten decimal digits.
pub open spec fn is_digit(c: char) -> bool {
    '0' <= c <= '9'
}

/// The value of a decimal digit; zero for every other character.
pub open spec fn digit_value(c: char) -> nat {
    if is_digit(c) {
        (c as int - '0' as int) as nat
    } else {
        0
    }
}

/// Whether `text` consists of decimal digits only.
pub open spec fn all_digits(text: Seq<char>) -> bool {
    forall|i: int| 0 <= i < text.len() ==> is_digit(#[trigger] text[i])
}

/// The number that a sequence of decimal digits denotes.
pub open spec fn decimal_value(digits: Seq<char>) -> nat
    decreases digits.len(),
{
    if digits.len() == 0 {
        0
    } else {
        10 * decimal_value(digits.drop_last()) + digit_value(digits.last())
    }
}

/// `text` without the plus sign that may stand in front of an amount.
pub open spec fn unsigned_part(text: Seq<char>) -> Seq<char> {
    if text.len() > 0 && text[0] == '+' {
        text.drop_first()
    } else {
        text
    }
}

/// The amount that `text` denotes: an optional plus sign followed by one or
/// more decimal digits whose value fits a `u32`. Any other text, the empty
/// one and a lone sign among them, denotes no amount.
pub open spec fn parsed_amount(text: Seq<char>) -> Option<u32> {
    let digits = unsigned_part(text);
    if digits.len() > 0 && all_digits(digits) && decimal_value(digits) <= u32::MAX {
        Some(decimal_value(digits) as u32)
    } else {
        None
    }
}

/// The digits read so far never denote more than all of them.
proof fn lemma_decimal_value_grows(digits: Seq<char>, k: int)
    requires
        0 <= k <= digits.len(),
    ensures
        decimal_value(digits.subrange(0, k)) <= decimal_value(digits),
    decreases digits.len() - k,
{
    if k < digits.len() {
        lemma_decimal_value_grows(digits.drop_last(), k);
        assert(digits.drop_last().subrange(0, k) =~= digits.subrange(0, k));
    } else {
        assert(digits.subrange(0, k) =~= digits);
    }
}

/// Text with a character outside ASCII denotes no amount.
proof fn lemma_amounts_are_ascii(text: Seq<char>)
    requires
        !is_ascii_chars(text),
    ensures
        parsed_amount(text) is None,
{
    let i = choose|i: int| 0 <= i < text.len() && !('\0' <= #[trigger] text[i] <= '\u{7f}');
    let digits = unsigned_part(text);
    if text[0] == '+' {
        assert(!is_digit(digits[i - 1]));
    } else {
        assert(!is_digit(digits[i]));
    }
}

/// Reads an amount from decimal text.
///
/// Fails with `EncodingError` exactly where the text is not an optional plus
/// sign followed by one or more decimal digits, or denotes a number above
/// the largest `u32`.
pub fn parse_amount(text: &str) -> (r: Result<u32, PipelineError>)
    ensures
        r == match parsed_amount(text@) {
            Some(amount) => Ok::<u32, PipelineError>(amount),
            None => Err::<u32, PipelineError>(PipelineError::EncodingError),
        },
{
    if !text.is_ascii() {
        proof {
            lemma_amounts_are_ascii(text@);
        }
        return Err(PipelineError::EncodingError);
    }
    let bytes = text.as_bytes();
    let n: usize = bytes.len();
    proof {
        is_ascii_chars_encode_utf8(text@);
    }
    let start: usize = if n > 0 && bytes[0] == 43 {
        1
    } else {
        0
    };
    let ghost digits = unsigned_part(text@);
    if start == n {
        return Err(PipelineError::EncodingError);
    }
    let mut value: u64 = 0;
    let mut i: usize = start;
    while i < n
        invariant
            start <= i <= n,
            n == text@.len(),
            n == bytes@.len(),
            is_ascii_chars(text@),
            forall|k: int| 0 <= k < n ==> text@[k] as u8 == #[trigger] bytes@[k],
            digits == unsigned_part(text@),
            digits == text@.subrange(start as int, n as int),
            all_digits(digits.subrange(0, i - start)),
            value == decimal_value(digits.subrange(0, i - start)),
            value <= u32::MAX,
        decreases n - i,
    {
        let b: u8 = bytes[i];
        if b < 48 || b > 57 {
            assert(!is_digit(digits[i - start]));
            return Err(PipelineError::EncodingError);
        }
        let ghost read = digits.subrange(0, i - start + 1);
        assert(read.drop_last() =~= digits.subrange(0, i - start));
        value = value * 10 + (b - 48) as u64;
        if value > 0xFFFF_FFFF {
            proof {
                lemma_decimal_value_grows(digits, i - start + 1);
            }
            return Err(PipelineError::EncodingError);
        }
        i += 1;
    }
    assert(digits.subrange(0, n - start) =~= digits);
    Ok(value as u32)
}

impl CollateralRequest {
    /// Makes a request from a borrower's record, in which the minted debt is
    /// decimal text.
    ///
    /// Fails with `EncodingError` exactly where the debt is not an amount
    /// (see [`parsed_amount`]); the other fields are taken as they are.
    pub fn from_record(
        id: u32,
        user_address: String,
        created_at: String,
        collateral_amount_sats: u32,
        minted_debt: &str,
        btc_price_usd_cents: u32,
    ) -> (r: Result<CollateralRequest, PipelineError>)
        ensures
            match r {
                Ok(request) => parsed_amount(minted_debt@) == Some(request.debt_amount)
                    && request.id == id && request.user_address@ == user_address@
                    && request.created_at@ == created_at@ && request.collateral_amount_sats
                    == collateral_amount_sats && request.btc_price_usd_cents
                    == btc_price_usd_cents,
                Err(e) => parsed_amount(minted_debt@) is None && e == PipelineError::EncodingError,
            },
    {
        let debt_amount: u32 = match parse_amount(minted_debt) {
            Err(e) => {
                return Err(e);
            },
            Ok(amount) => amount,
        };
        Ok(
            CollateralRequest {
                id,
                user_address,
                created_at,
                collateral_amount_sats,
                debt_amount,
                btc_price_usd_cents,
            },
        )
    }
}

} // verus!
