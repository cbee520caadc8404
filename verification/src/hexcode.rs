//! Bytes as hexadecimal text, for transport in text formats.

use vstd::prelude::*;
use vstd::string::StringExecFns;

verus! {

/// The sixteen digits, in the order of their values.
pub open spec fn hex_alphabet() -> Seq<char> {
    seq!['0', '1', '2', '3', '4', '5', '6', '7', '8', '9', 'a', 'b', 'c', 'd', 'e', 'f']
}

/// The text of `bytes`: two lower-case digits for each byte, the high half
/// of the byte first.
pub open spec fn hex_text(bytes: Seq<u8>) -> Seq<char> {
    Seq::new(
        2 * bytes.len(),
        |i: int|
            if i % 2 == 0 {
                hex_alphabet()[bytes[i / 2] as int / 16]
            } else {
                hex_alphabet()[bytes[i / 2] as int % 16]
            },
    )
}

/// The text of `bytes` behind the marker `0x`.
pub open spec fn prefixed_hex_text(bytes: Seq<u8>) -> Seq<char> {
    seq!['0', 'x'] + hex_text(bytes)
}

/// `hex::encode` of the crate hex. Its result holds, for each byte in turn,
/// the digit of the byte's high four bits and then the digit of its low four
/// bits, taken from the lower-case alphabet `0123456789abcdef`.
#[verifier::external_body]
pub(crate) fn hex_encode(bytes: &[u8]) -> (text: String)
    ensures
        text@ == hex_text(bytes@),
{
    hex::encode(bytes)
}

/// Writes `bytes` as lower-case hexadecimal text behind the marker `0x`.
pub fn to_prefixed_hex(bytes: &[u8]) -> (text: String)
    ensures
        text@ == prefixed_hex_text(bytes@),
        text@.len() == 2 + 2 * bytes@.len(),
{
    let digits = hex_encode(bytes);
    let marker = String::from_str("0x");
    proof {
        reveal_strlit("0x");
    }
    marker.concat(digits.as_str())
}

} // verus!
