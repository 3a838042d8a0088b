//! Byte encodings: base64 through the `base64` crate and hexadecimal through the `hex` crate.
use crate::bignum::{be_bytes, be_value, lemma_be_round_trip, BigUint};
use crate::error::{fails, APWError, Result};
use crate::text::{begins_with, strip_prefix_or_all, without_prefix};
use crate::types::Status;
use base64::Engine;
use vstd::prelude::*;

verus! {

/// The standard base64 text of bytes, with padding.
pub uninterp spec fn base64_text(bytes: Seq<u8>) -> Seq<char>;

/// The bytes that standard base64 text writes, where it is such text.
pub uninterp spec fn base64_bytes(text: Seq<char>) -> Option<Seq<u8>>;

/// `base64::engine::general_purpose::STANDARD.encode`: four characters for every three bytes
/// begun, which decode to the bytes.
#[verifier::external_body]
fn base64_encode(bytes: &[u8]) -> (r: String)
    ensures
        r@ == base64_text(bytes@),
        r@.len() == (bytes@.len() + 2) / 3 * 4,
        base64_bytes(r@) == Some(bytes@),
{
    base64::engine::general_purpose::STANDARD.encode(bytes)
}

/// `base64::engine::general_purpose::STANDARD.decode`.
#[verifier::external_body]
pub(crate) fn base64_decode(text: &str) -> (r: Option<Vec<u8>>)
    ensures
        r is Some == (base64_bytes(text@) is Some),
        r is Some ==> base64_bytes(text@) == Some(r->0@),
{
    base64::engine::general_purpose::STANDARD.decode(text).ok()
}

/// The lower-case hexadecimal digit of a value below sixteen.
pub open spec fn hex_digit(n: int) -> char {
    if n < 10 {
        ('0' as int + n) as char
    } else {
        ('a' as int + n - 10) as char
    }
}

/// Two lower-case hexadecimal digits for each byte, the high one first.
pub open spec fn hex_text(bytes: Seq<u8>) -> Seq<char> {
    Seq::new(
        bytes.len() * 2,
        |i: int|
            if i % 2 == 0 {
                hex_digit(bytes[i / 2] as int / 16)
            } else {
                hex_digit(bytes[i / 2] as int % 16)
            },
    )
}

/// Whether `c` is a hexadecimal digit of either case.
pub open spec fn is_hex(c: char) -> bool {
    ('0' <= c && c <= '9') || ('a' <= c && c <= 'f') || ('A' <= c && c <= 'F')
}

/// The value of a hexadecimal digit.
pub open spec fn hex_value(c: char) -> int {
    if '0' <= c && c <= '9' {
        c as int - '0' as int
    } else if 'a' <= c && c <= 'f' {
        c as int - 'a' as int + 10
    } else {
        c as int - 'A' as int + 10
    }
}

/// The bytes that hexadecimal text writes: an even number of digits, two to a byte.
pub open spec fn hex_bytes(text: Seq<char>) -> Option<Seq<u8>> {
    if text.len() % 2 == 0 && forall|i: int| 0 <= i < text.len() ==> is_hex(#[trigger] text[i]) {
        Some(
            Seq::new(
                text.len() / 2,
                |i: int| (hex_value(text[2 * i]) * 16 + hex_value(text[2 * i + 1])) as u8,
            ),
        )
    } else {
        None
    }
}

/// `hex::encode`.
#[verifier::external_body]
fn hex_encode(bytes: &[u8]) -> (r: String)
    ensures
        r@ == hex_text(bytes@),
{
    hex::encode(bytes)
}

/// `hex::decode`.
#[verifier::external_body]
fn hex_decode(text: &str) -> (r: Option<Vec<u8>>)
    ensures
        r is Some == (hex_bytes(text@) is Some),
        r is Some ==> hex_bytes(text@) == Some(r->0@),
{
    hex::decode(text).ok()
}

/// Decoding the hexadecimal text of bytes gives the bytes back.
pub proof fn law_hex_round_trip(bytes: Seq<u8>)
    ensures
        hex_bytes(hex_text(bytes)) == Some(bytes),
{
    let text = hex_text(bytes);
    assert forall|i: int| 0 <= i < text.len() implies is_hex(#[trigger] text[i]) by {
        let b = bytes[i / 2];
        assert(0 <= b as int / 16 < 16);
        assert(0 <= b as int % 16 < 16);
    }
    assert forall|i: int| 0 <= i < bytes.len() implies hex_bytes(text)->0[i] == #[trigger] bytes[i] by {
        let b = bytes[i];
        assert((2 * i) / 2 == i);
        assert((2 * i + 1) / 2 == i);
        assert(text[2 * i] == hex_digit(b as int / 16));
        assert(text[2 * i + 1] == hex_digit(b as int % 16));
        assert(hex_value(text[2 * i]) == b as int / 16);
        assert(hex_value(text[2 * i + 1]) == b as int % 16);
    }
    assert(hex_bytes(text)->0 =~= bytes);
}

/// The base64 text of bytes.
pub fn to_base64(bytes: &[u8]) -> (r: String)
    ensures
        r@ == base64_text(bytes@),
        r@.len() == (bytes@.len() + 2) / 3 * 4,
        base64_bytes(r@) == Some(bytes@),
{
    base64_encode(bytes)
}

/// The hexadecimal text of bytes.
pub fn to_hex(bytes: &[u8]) -> (r: String)
    ensures
        r@ == hex_text(bytes@),
{
    hex_encode(bytes)
}

/// The number whose big-endian bytes base64 text writes.
pub fn read_bigint(input: &str) -> (r: Result<BigUint>)
    ensures
        match base64_bytes(input@) {
            Some(bytes) => r is Ok && r->Ok_0@ == be_value(bytes),
            None => fails(r, Status::InvalidConfig, "Invalid config payload format."@),
        },
{
    match base64_decode(input) {
        Some(bytes) => Ok(BigUint::from_bytes_be(bytes.as_slice())),
        None => Err(APWError::new(Status::InvalidConfig, "Invalid config payload format.")),
    }
}

/// The base64 text of a number's big-endian bytes. Reading it gives the number back.
pub fn bigint_to_base64(value: &BigUint) -> (r: String)
    ensures
        r@ == base64_text(be_bytes(value@)),
        r@.len() > 0,
        base64_bytes(r@) == Some(be_bytes(value@)),
        be_value(base64_bytes(r@)->0) == value@,
{
    proof {
        lemma_be_round_trip(value@);
        assert(be_bytes(value@).len() > 0);
    }
    let bytes = value.to_bytes_be();
    base64_encode(bytes.as_slice())
}

/// The bytes that text writes, tried as base64 and as hexadecimal behind an optional `0x`, in
/// the order that `as_base64` says.
pub open spec fn fallback_bytes(input: Seq<char>, as_base64: bool) -> Option<Seq<u8>> {
    let hex = hex_bytes(without_prefix(input, "0x"@));
    let base = base64_bytes(input);
    if as_base64 {
        if base is Some {
            base
        } else {
            hex
        }
    } else {
        if hex is Some {
            hex
        } else {
            base
        }
    }
}

/// The bytes that text writes in either encoding; `message` where it is neither.
pub fn decode_with_fallback(input: &str, as_base64: bool, message: &str) -> (r: Result<Vec<u8>>)
    ensures
        match fallback_bytes(input@, as_base64) {
            Some(bytes) => r is Ok && r->Ok_0@ == bytes,
            None => fails(r, Status::ProtoInvalidResponse, message@),
        },
{
    let normalized = strip_prefix_or_all(input, "0x");
    let hex = hex_decode(normalized.as_str());
    let base = base64_decode(input);
    let found = if as_base64 {
        match base {
            Some(bytes) => Some(bytes),
            None => hex,
        }
    } else {
        match hex {
            Some(bytes) => Some(bytes),
            None => base,
        }
    };
    match found {
        Some(bytes) => Ok(bytes),
        None => Err(APWError::new(Status::ProtoInvalidResponse, message)),
    }
}

/// The number whose big-endian bytes text writes in either encoding.
pub fn decode_base64_or_hex(input: &str, as_base64: bool) -> (r: Result<BigUint>)
    ensures
        match fallback_bytes(input@, as_base64) {
            Some(bytes) => r is Ok && r->Ok_0@ == be_value(bytes),
            None => fails(r, Status::ProtoInvalidResponse, "Invalid bigint encoding."@),
        },
{
    match decode_with_fallback(input, as_base64, "Invalid bigint encoding.") {
        Ok(bytes) => Ok(BigUint::from_bytes_be(bytes.as_slice())),
        Err(error) => Err(error),
    }
}

/// Hexadecimal digits decode to the bytes that they write.
pub proof fn law_bare_hex_decodes(bytes: Seq<u8>)
    ensures
        fallback_bytes(hex_text(bytes), false) == Some(bytes),
{
    law_hex_round_trip(bytes);
    reveal_strlit("0x");
    let text = hex_text(bytes);
    if begins_with(text, "0x"@) {
        assert(text.subrange(0, 2)[1] == "0x"@[1]);
        assert(text[1] == hex_digit(bytes[0] as int % 16));
    }
}

/// Text in the form `0x` and hexadecimal digits decodes to the bytes that it writes.
pub proof fn law_prefixed_hex_decodes(bytes: Seq<u8>)
    ensures
        fallback_bytes("0x"@ + hex_text(bytes), false) == Some(bytes),
{
    law_hex_round_trip(bytes);
    let text = "0x"@ + hex_text(bytes);
    assert(text.subrange(0, "0x"@.len() as int) =~= "0x"@);
    assert(begins_with(text, "0x"@));
    assert(text.subrange("0x"@.len() as int, text.len() as int) =~= hex_text(bytes));
}

} // verus!
