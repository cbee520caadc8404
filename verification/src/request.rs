//! A request and the layout of the input stream that carries it into the
//! isolated run.
//!
//! The fields travel in one fixed order: the identity, the borrower's
//! address, the creation time, then the collateral, the debt and the price.
//! A number takes four little-endian bytes. A string takes its length in
//! bytes as eight little-endian bytes, then its UTF-8 bytes.

use vstd::prelude::*;
use vstd::slice::{slice_subrange, slice_to_vec};
use vstd::utf8::{
    decode_utf8,
    decode_utf8_encode_utf8,
    encode_utf8,
    encode_utf8_decode_utf8,
    encode_utf8_valid_utf8,
    valid_utf8,
};
use crate::error::PipelineError;
use crate::wire::{
    get_u32_le,
    get_u64_le,
    lemma_u32_from_le_inverse,
    lemma_u32_le_round_trip,
    lemma_u64_from_le_inverse,
    lemma_u64_le_round_trip,
    put_u32_le,
    put_u64_le,
    u32_from_le,
    u32_le,
    u64_from_le,
    u64_le,
};

verus! {

/// The most bytes that a string of a request may take in UTF-8. A longer one
/// is refused before it reaches the input stream, and a stream that announces
/// a longer one is malformed.
pub const MAX_STRING_BYTES: usize = 1024;

/// One borrower's position, as handed to the isolated run.
#[derive(Clone, Debug, PartialEq, Eq)]
pub struct CollateralRequest {
    pub id: u32,
    pub user_address: String,
    pub created_at: String,
    pub collateral_amount_sats: u32,
    pub debt_amount: u32,
    pub btc_price_usd_cents: u32,
}

/// A request as a mathematical value: its strings are sequences of
/// characters.
pub struct RequestView {
    pub id: u32,
    pub user_address: Seq<char>,
    pub created_at: Seq<char>,
    pub collateral_amount_sats: u32,
    pub debt_amount: u32,
    pub btc_price_usd_cents: u32,
}

impl View for CollateralRequest {
    type V = RequestView;

    open spec fn view(&self) -> RequestView {
        RequestView {
            id: self.id,
            user_address: self.user_address@,
            created_at: self.created_at@,
            collateral_amount_sats: self.collateral_amount_sats,
            debt_amount: self.debt_amount,
            btc_price_usd_cents: self.btc_price_usd_cents,
        }
    }
}

/// Whether a string is short enough to travel.
pub open spec fn string_fits(text: Seq<char>) -> bool {
    encode_utf8(text).len() <= MAX_STRING_BYTES
}

/// A string on the wire: the count of its UTF-8 bytes, then those bytes.
pub open spec fn string_layout(text: Seq<char>) -> Seq<u8> {
    u64_le(encode_utf8(text).len() as u64) + encode_utf8(text)
}

impl RequestView {
    /// Whether both strings of the request are short enough to travel.
    pub open spec fn encodable(self) -> bool {
        string_fits(self.user_address) && string_fits(self.created_at)
    }

    /// The input stream that carries the request.
    pub open spec fn layout(self) -> Seq<u8> {
        u32_le(self.id) + string_layout(self.user_address) + string_layout(self.created_at)
            + u32_le(self.collateral_amount_sats) + u32_le(self.debt_amount) + u32_le(
            self.btc_price_usd_cents,
        )
    }
}

/// The number laid out in the four bytes of `bytes` from position `at` on.
pub open spec fn u32_at(bytes: Seq<u8>, at: int) -> u32 {
    u32_from_le(bytes.subrange(at, at + 4))
}

/// The string laid out in `bytes` from position `at` on, with the position
/// after it; nothing where the count or the announced bytes are not all
/// there, where the count is above the limit, or where the bytes are not
/// UTF-8.
pub open spec fn string_at(bytes: Seq<u8>, at: int) -> Option<(Seq<char>, int)> {
    if at < 0 || at + 8 > bytes.len() {
        None
    } else {
        let count = u64_from_le(bytes.subrange(at, at + 8)) as int;
        let end = at + 8 + count;
        if count > MAX_STRING_BYTES || end > bytes.len() {
            None
        } else if !valid_utf8(bytes.subrange(at + 8, end)) {
            None
        } else {
            Some((decode_utf8(bytes.subrange(at + 8, end)), end))
        }
    }
}

/// The request that an input stream carries: its fields read one after the
/// other from the start of the stream. Bytes after the last field are not
/// looked at. Nothing is read from a stream that ends before the last field
/// does or holds a malformed string.
pub open spec fn parsed_request(bytes: Seq<u8>) -> Option<RequestView> {
    if bytes.len() < 4 {
        None
    } else {
        match string_at(bytes, 4) {
            None => None,
            Some((user_address, after_address)) => match string_at(bytes, after_address) {
                None => None,
                Some((created_at, after_created)) => if after_created + 12 > bytes.len() {
                    None
                } else {
                    Some(
                        RequestView {
                            id: u32_at(bytes, 0),
                            user_address,
                            created_at,
                            collateral_amount_sats: u32_at(bytes, after_created),
                            debt_amount: u32_at(bytes, after_created + 4),
                            btc_price_usd_cents: u32_at(bytes, after_created + 8),
                        },
                    )
                },
            },
        }
    }
}

/// `String::from_utf8` of std. It accepts exactly the byte sequences that are
/// UTF-8, and the string it returns consists of the bytes it was given.
#[verifier::external_body]
fn string_from_utf8(bytes: Vec<u8>) -> (r: Option<String>)
    ensures
        r is Some <==> valid_utf8(bytes@),
        r matches Some(text) ==> encode_utf8(text@) == bytes@,
{
    String::from_utf8(bytes).ok()
}

/// Appends `bytes` to `out`.
fn put_bytes(out: &mut Vec<u8>, bytes: &[u8])
    ensures
        final(out)@ == old(out)@ + bytes@,
{
    let ghost before = out@;
    let n: usize = bytes.len();
    let mut i: usize = 0;
    while i < n
        invariant
            i <= n,
            n == bytes@.len(),
            out@ == before + bytes@.subrange(0, i as int),
        decreases n - i,
    {
        out.push(bytes[i]);
        i += 1;
    }
}

/// Appends the layout of `text` to `out`.
fn put_string(out: &mut Vec<u8>, text: &str)
    requires
        string_fits(text@),
    ensures
        final(out)@ == old(out)@ + string_layout(text@),
{
    let bytes = text.as_bytes();
    let count: usize = bytes.len();
    put_u64_le(out, count as u64);
    put_bytes(out, bytes);
}

/// Whether `text` is short enough to travel.
fn fits(text: &str) -> (b: bool)
    ensures
        b == string_fits(text@),
{
    text.as_bytes().len() <= MAX_STRING_BYTES
}

/// Lays a request out as the input stream of the isolated run.
///
/// Fails with `EncodingError`, before a byte is written, exactly where the
/// address or the creation time takes more than [`MAX_STRING_BYTES`] bytes.
pub fn encode_request(request: &CollateralRequest) -> (r: Result<Vec<u8>, PipelineError>)
    ensures
        match r {
            Ok(bytes) => request@.encodable() && bytes@ == request@.layout(),
            Err(e) => !request@.encodable() && e == PipelineError::EncodingError,
        },
{
    if !fits(request.user_address.as_str()) || !fits(request.created_at.as_str()) {
        return Err(PipelineError::EncodingError);
    }
    let mut bytes: Vec<u8> = Vec::new();
    put_u32_le(&mut bytes, request.id);
    put_string(&mut bytes, request.user_address.as_str());
    put_string(&mut bytes, request.created_at.as_str());
    put_u32_le(&mut bytes, request.collateral_amount_sats);
    put_u32_le(&mut bytes, request.debt_amount);
    put_u32_le(&mut bytes, request.btc_price_usd_cents);
    Ok(bytes)
}

/// Reads the string laid out in `bytes` from position `at` on.
fn take_string(bytes: &[u8], at: usize) -> (r: Option<(String, usize)>)
    requires
        at <= bytes.len(),
    ensures
        match r {
            Some((text, next)) => string_at(bytes@, at as int) == Some((text@, next as int)),
            None => string_at(bytes@, at as int) is None,
        },
{
    let len: usize = bytes.len();
    if len - at < 8 {
        return None;
    }
    let announced: u64 = get_u64_le(bytes, at);
    if announced > MAX_STRING_BYTES as u64 {
        return None;
    }
    let count: usize = announced as usize;
    let start: usize = at + 8;
    if len - start < count {
        return None;
    }
    let end: usize = start + count;
    let body: Vec<u8> = slice_to_vec(slice_subrange(bytes, start, end));
    match string_from_utf8(body) {
        None => None,
        Some(text) => {
            proof {
                encode_utf8_decode_utf8(text@);
            }
            Some((text, end))
        },
    }
}

/// Reads a request from the input stream of the isolated run.
///
/// Fails with `TruncatedInput` exactly where the stream ends before the last
/// field does, announces a string above the limit, or holds a string that is
/// not UTF-8. Bytes after the last field are ignored.
pub fn decode_request(bytes: &[u8]) -> (r: Result<CollateralRequest, PipelineError>)
    ensures
        match r {
            Ok(request) => parsed_request(bytes@) == Some(request@),
            Err(e) => parsed_request(bytes@) is None && e == PipelineError::TruncatedInput,
        },
{
    let len: usize = bytes.len();
    if len < 4 {
        return Err(PipelineError::TruncatedInput);
    }
    let id: u32 = get_u32_le(bytes, 0);
    let (user_address, after_address) = match take_string(bytes, 4) {
        None => {
            return Err(PipelineError::TruncatedInput);
        },
        Some(found) => found,
    };
    let (created_at, after_created) = match take_string(bytes, after_address) {
        None => {
            return Err(PipelineError::TruncatedInput);
        },
        Some(found) => found,
    };
    if len - after_created < 12 {
        return Err(PipelineError::TruncatedInput);
    }
    let collateral_amount_sats: u32 = get_u32_le(bytes, after_created);
    let debt_amount: u32 = get_u32_le(bytes, after_created + 4);
    let btc_price_usd_cents: u32 = get_u32_le(bytes, after_created + 8);
    Ok(
        CollateralRequest {
            id,
            user_address,
            created_at,
            collateral_amount_sats,
            debt_amount,
            btc_price_usd_cents,
        },
    )
}

/// A laid-out number is read back from where it was put, whatever stands
/// before and after it.
proof fn lemma_u32_at_layout(before: Seq<u8>, x: u32, after: Seq<u8>)
    ensures
        u32_at(before + u32_le(x) + after, before.len() as int) == x,
{
    let bytes = before + u32_le(x) + after;
    let at = before.len() as int;
    lemma_u32_le_round_trip(x, Seq::empty());
    assert(bytes.subrange(at, at + 4) =~= u32_le(x) + Seq::<u8>::empty());
}

/// A laid-out string is read back from where it was put, whatever stands
/// before and after it.
proof fn lemma_string_at_layout(before: Seq<u8>, text: Seq<char>, after: Seq<u8>)
    requires
        string_fits(text),
    ensures
        string_layout(text).len() == 8 + encode_utf8(text).len(),
        string_at(before + string_layout(text) + after, before.len() as int) == Some(
            (text, (before.len() + string_layout(text).len()) as int),
        ),
{
    let bytes = before + string_layout(text) + after;
    let at = before.len() as int;
    let body = encode_utf8(text);
    let count = body.len() as u64;
    lemma_u64_le_round_trip(count, Seq::empty());
    assert(bytes.subrange(at, at + 8) =~= u64_le(count) + Seq::<u8>::empty());
    assert(bytes.subrange(at + 8, at + 8 + count) =~= body);
    encode_utf8_valid_utf8(text);
    encode_utf8_decode_utf8(text);
}

/// A string that was read stands laid out where it was read from.
proof fn lemma_string_at_is_layout(bytes: Seq<u8>, at: int, text: Seq<char>, next: int)
    requires
        string_at(bytes, at) == Some((text, next)),
    ensures
        string_fits(text),
        0 <= at <= next <= bytes.len(),
        next == at + string_layout(text).len(),
        string_layout(text) == bytes.subrange(at, next),
{
    let head = bytes.subrange(at, at + 8);
    let count = u64_from_le(head);
    let body = bytes.subrange(at + 8, at + 8 + count);
    decode_utf8_encode_utf8(body);
    lemma_u64_from_le_inverse(head);
}

/// A number that was read stands laid out where it was read from.
proof fn lemma_u32_at_is_layout(bytes: Seq<u8>, at: int)
    requires
        0 <= at,
        at + 4 <= bytes.len(),
    ensures
        u32_le(u32_at(bytes, at)) == bytes.subrange(at, at + 4),
{
    let window = bytes.subrange(at, at + 4);
    lemma_u32_from_le_inverse(window);
}

/// Seven pieces put together one after the other can be seen as any one of
/// them between what stands before it and what stands after it.
proof fn lemma_regroup(
    a: Seq<u8>,
    b: Seq<u8>,
    c: Seq<u8>,
    d: Seq<u8>,
    e: Seq<u8>,
    f: Seq<u8>,
    g: Seq<u8>,
)
    ensures
        a + b + c + d + e + f + g == Seq::<u8>::empty() + a + (b + c + d + e + f + g),
        a + b + c + d + e + f + g == a + b + (c + d + e + f + g),
        a + b + c + d + e + f + g == (a + b) + c + (d + e + f + g),
        a + b + c + d + e + f + g == (a + b + c) + d + (e + f + g),
        a + b + c + d + e + f + g == (a + b + c + d) + e + (f + g),
        a + b + c + d + e + f + g == (a + b + c + d + e) + f + g,
{
}

/// The layout of a request whose strings fit is read back as that request,
/// whatever follows it in the stream: what the host writes is what the
/// isolated run reads, field for field.
pub proof fn lemma_request_round_trip(request: RequestView, rest: Seq<u8>)
    requires
        request.encodable(),
    ensures
        parsed_request(request.layout() + rest) == Some(request),
{
    let bytes = request.layout() + rest;
    let id = u32_le(request.id);
    let address = string_layout(request.user_address);
    let created = string_layout(request.created_at);
    let collateral = u32_le(request.collateral_amount_sats);
    let debt = u32_le(request.debt_amount);
    let price = u32_le(request.btc_price_usd_cents);
    lemma_regroup(id, address, created, collateral, debt, price, rest);
    lemma_u32_le_round_trip(request.id, Seq::empty());
    lemma_u32_le_round_trip(request.collateral_amount_sats, Seq::empty());
    lemma_u32_le_round_trip(request.debt_amount, Seq::empty());
    lemma_u32_le_round_trip(request.btc_price_usd_cents, Seq::empty());
    lemma_u32_at_layout(
        Seq::empty(),
        request.id,
        address + created + collateral + debt + price + rest,
    );
    lemma_string_at_layout(id, request.user_address, created + collateral + debt + price + rest);
    lemma_string_at_layout(id + address, request.created_at, collateral + debt + price + rest);
    lemma_u32_at_layout(
        id + address + created,
        request.collateral_amount_sats,
        debt + price + rest,
    );
    lemma_u32_at_layout(id + address + created + collateral, request.debt_amount, price + rest);
    lemma_u32_at_layout(
        id + address + created + collateral + debt,
        request.btc_price_usd_cents,
        rest,
    );
}

/// A stream is read as a request exactly where it starts with the layout of
/// that request and the request's strings fit: the reader accepts what the
/// writer produces and nothing else.
pub proof fn lemma_parsed_iff_layout_prefix(bytes: Seq<u8>, request: RequestView)
    ensures
        parsed_request(bytes) == Some(request) <==> request.encodable()
            && request.layout().is_prefix_of(bytes),
{
    if parsed_request(bytes) == Some(request) {
        let (user_address, after_address) = string_at(bytes, 4).unwrap();
        let (created_at, after_created) = string_at(bytes, after_address).unwrap();
        lemma_u32_at_is_layout(bytes, 0);
        lemma_string_at_is_layout(bytes, 4, user_address, after_address);
        lemma_string_at_is_layout(bytes, after_address, created_at, after_created);
        lemma_u32_at_is_layout(bytes, after_created);
        lemma_u32_at_is_layout(bytes, after_created + 4);
        lemma_u32_at_is_layout(bytes, after_created + 8);
    }
    if request.encodable() && request.layout().is_prefix_of(bytes) {
        let rest = bytes.subrange(request.layout().len() as int, bytes.len() as int);
        assert(bytes =~= request.layout() + rest);
        lemma_request_round_trip(request, rest);
    }
}

/// No stream carries two requests: requests with the same layout, or with
/// layouts that both start one stream, are the same request.
pub proof fn lemma_layout_is_one_to_one(first: RequestView, second: RequestView, bytes: Seq<u8>)
    requires
        first.encodable(),
        second.encodable(),
        first.layout().is_prefix_of(bytes),
        second.layout().is_prefix_of(bytes),
    ensures
        first == second,
{
    lemma_parsed_iff_layout_prefix(bytes, first);
    lemma_parsed_iff_layout_prefix(bytes, second);
}

} // verus!
