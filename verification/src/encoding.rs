//! The two text encodings of the library: hexadecimal and unpadded URL-safe Base64.

use base64::engine::general_purpose::URL_SAFE_NO_PAD;
use base64::Engine;
use crate::text::ascii_lower_text;
use vstd::prelude::*;

verus! {

/// The lower-case hexadecimal digit of a value below sixteen.
pub open spec fn hex_digit(value: int) -> char {
    if value < 10 {
        ('0' as int + value) as char
    } else {
        ('a' as int + (value - 10)) as char
    }
}

/// The value of a hexadecimal digit of either case, or `None` for any other character.
pub open spec fn hex_value(digit: char) -> Option<int> {
    if '0' <= digit <= '9' {
        Some(digit as int - '0' as int)
    } else if 'a' <= digit <= 'f' {
        Some(digit as int - 'a' as int + 10)
    } else if 'A' <= digit <= 'F' {
        Some(digit as int - 'A' as int + 10)
    } else {
        None
    }
}

/// The hexadecimal text of `bytes`: two lower-case digits for each byte, the high one first.
pub open spec fn hex_text(bytes: Seq<u8>) -> Seq<char> {
    Seq::new(
        2 * bytes.len(),
        |i: int|
            if i % 2 == 0 {
                hex_digit(bytes[i / 2] as int / 16)
            } else {
                hex_digit(bytes[i / 2] as int % 16)
            },
    )
}

/// The bytes that a hexadecimal text stands for. A text of odd length, or one that holds
/// anything but hexadecimal digits, stands for none.
pub open spec fn hex_bytes(text: Seq<char>) -> Option<Seq<u8>> {
    if text.len() % 2 == 0 && forall|i: int| 0 <= i < text.len() ==> hex_value(#[trigger] text[i]) is Some {
        Some(
            Seq::new(
                text.len() / 2,
                |i: int| (hex_value(text[2 * i])->0 * 16 + hex_value(text[2 * i + 1])->0) as u8,
            ),
        )
    } else {
        None
    }
}

/// The byte at position `i`, or zero past the end.
pub open spec fn byte_or_zero(bytes: Seq<u8>, i: int) -> int {
    if i < bytes.len() {
        bytes[i] as int
    } else {
        0
    }
}

/// The `i`-th group of six bits of `bytes`, read from the most significant bit of the first
/// byte on, with zero bits past the end.
pub open spec fn sextet(bytes: Seq<u8>, i: int) -> int {
    let start: int = (i / 4) * 3;
    if i % 4 == 0 {
        byte_or_zero(bytes, start) / 4
    } else if i % 4 == 1 {
        (byte_or_zero(bytes, start) % 4) * 16 + byte_or_zero(bytes, start + 1) / 16
    } else if i % 4 == 2 {
        (byte_or_zero(bytes, start + 1) % 16) * 4 + byte_or_zero(bytes, start + 2) / 64
    } else {
        byte_or_zero(bytes, start + 2) % 64
    }
}

/// The symbol of the URL-safe Base64 alphabet for a six-bit value.
pub open spec fn base64_symbol(value: int) -> char {
    if value < 26 {
        ('A' as int + value) as char
    } else if value < 52 {
        ('a' as int + (value - 26)) as char
    } else if value < 62 {
        ('0' as int + (value - 52)) as char
    } else if value == 62 {
        '-'
    } else {
        '_'
    }
}

/// How many symbols the unpadded Base64 text of `len` bytes has.
pub open spec fn base64_len(len: nat) -> nat {
    (4 * len + 2) / 3
}

/// The URL-safe Base64 text of `bytes` without padding.
pub open spec fn base64_text(bytes: Seq<u8>) -> Seq<char> {
    Seq::new(base64_len(bytes.len()), |i: int| base64_symbol(sextet(bytes, i)))
}

/// The bytes whose Base64 text is `text`, if there are any.
pub open spec fn base64_bytes(text: Seq<char>) -> Option<Seq<u8>> {
    if exists|bytes: Seq<u8>| #[trigger] base64_text(bytes) == text {
        Some(choose|bytes: Seq<u8>| #[trigger] base64_text(bytes) == text)
    } else {
        None
    }
}

/// Whether a character belongs to the URL-safe Base64 alphabet.
pub open spec fn is_base64_symbol(symbol: char) -> bool {
    ||| 'A' <= symbol <= 'Z'
    ||| 'a' <= symbol <= 'z'
    ||| '0' <= symbol <= '9'
    ||| symbol == '-'
    ||| symbol == '_'
}

/// Reading back a hexadecimal text gives the bytes it was made from.
pub proof fn hex_round_trip(bytes: Seq<u8>)
    ensures
        hex_bytes(hex_text(bytes)) == Some(bytes),
{
    let text = hex_text(bytes);
    assert forall|i: int| 0 <= i < text.len() implies hex_value(#[trigger] text[i]) is Some by {
        let b: u8 = bytes[i / 2];
        assert(0 <= b as int / 16 < 16);
    }
    let back = hex_bytes(text)->0;
    assert forall|i: int| 0 <= i < bytes.len() implies back[i] == bytes[i] by {
        assert((2 * i) / 2 == i && (2 * i + 1) / 2 == i);
        assert((2 * i) % 2 == 0 && (2 * i + 1) % 2 == 1);
        let b: int = bytes[i] as int;
        assert(text[2 * i] == hex_digit(b / 16));
        assert(text[2 * i + 1] == hex_digit(b % 16));
        assert(hex_value(text[2 * i]) == Some(b / 16));
        assert(hex_value(text[2 * i + 1]) == Some(b % 16));
    }
    assert(back =~= bytes);
}

/// Whether a character is a decimal digit or one of the letters `a` to `f`.
pub open spec fn is_lower_hex(digit: char) -> bool {
    '0' <= digit <= '9' || 'a' <= digit <= 'f'
}

/// A hexadecimal text consists of lower-case digits only, two for each byte.
pub proof fn hex_text_is_lower_case(bytes: Seq<u8>)
    ensures
        hex_text(bytes).len() == 2 * bytes.len(),
        forall|i: int| 0 <= i < hex_text(bytes).len() ==> is_lower_hex(#[trigger] hex_text(bytes)[i]),
{
    assert forall|i: int| 0 <= i < hex_text(bytes).len() implies is_lower_hex(
        #[trigger] hex_text(bytes)[i],
    ) by {
        let b: u8 = bytes[i / 2];
        assert(0 <= b as int / 16 < 16);
    }
}

/// A text stands for bytes exactly if it consists of pairs of hexadecimal digits, of either case,
/// and then for those bytes whose hexadecimal text it is in lower case.
pub proof fn hex_bytes_are_those_spelled(text: Seq<char>)
    ensures
        hex_bytes(text) is Some <==> text.len() % 2 == 0 && forall|i: int|
            0 <= i < text.len() ==> ('0' <= #[trigger] text[i] <= '9' || 'a' <= text[i] <= 'f'
                || 'A' <= text[i] <= 'F'),
        hex_bytes(text) matches Some(bytes) ==> hex_text(bytes) == ascii_lower_text(text),
{
    if hex_bytes(text) is None && text.len() % 2 == 0 {
        let i = choose|i: int| 0 <= i < text.len() && hex_value(#[trigger] text[i]) is None;
        assert(!('0' <= text[i] <= '9' || 'a' <= text[i] <= 'f' || 'A' <= text[i] <= 'F'));
    }
    if let Some(bytes) = hex_bytes(text) {
        assert forall|i: int| 0 <= i < text.len() implies ('0' <= #[trigger] text[i] <= '9' || 'a'
            <= text[i] <= 'f' || 'A' <= text[i] <= 'F') by {
            assert(hex_value(text[i]) is Some);
        }
        assert forall|i: int| 0 <= i < text.len() implies #[trigger] hex_text(bytes)[i]
            == ascii_lower_text(text)[i] by {
            let k: int = i / 2;
            let high = hex_value(text[2 * k])->0;
            let low = hex_value(text[2 * k + 1])->0;
            assert(hex_value(text[2 * k]) is Some && hex_value(text[2 * k + 1]) is Some);
            assert(0 <= high < 16 && 0 <= low < 16);
            assert(bytes[k] as int == high * 16 + low);
            assert(bytes[k] as int / 16 == high && bytes[k] as int % 16 == low);
            assert(i == 2 * k || i == 2 * k + 1);
        }
        assert(hex_text(bytes) =~= ascii_lower_text(text));
    }
}

/// A Base64 text stands for bytes only if it is the text of those bytes.
pub proof fn base64_bytes_are_those_encoded(text: Seq<char>)
    ensures
        base64_bytes(text) matches Some(bytes) ==> base64_text(bytes) == text,
{
}

proof fn sextet_range(bytes: Seq<u8>, i: int)
    requires
        0 <= i < base64_len(bytes.len()),
    ensures
        0 <= sextet(bytes, i) < 64,
{
}

proof fn base64_symbol_injective(a: int, b: int)
    requires
        0 <= a < 64,
        0 <= b < 64,
        base64_symbol(a) == base64_symbol(b),
    ensures
        a == b,
{
}

/// A Base64 text consists of symbols of the URL-safe alphabet only.
pub proof fn base64_text_is_url_safe(bytes: Seq<u8>)
    ensures
        base64_text(bytes).len() == base64_len(bytes.len()),
        forall|i: int|
            0 <= i < base64_text(bytes).len() ==> is_base64_symbol(#[trigger] base64_text(bytes)[i]),
{
    assert forall|i: int| 0 <= i < base64_text(bytes).len() implies is_base64_symbol(
        #[trigger] base64_text(bytes)[i],
    ) by {
        sextet_range(bytes, i);
    }
}

/// Different bytes have different Base64 texts.
pub proof fn base64_text_injective(a: Seq<u8>, b: Seq<u8>)
    requires
        base64_text(a) == base64_text(b),
    ensures
        a == b,
{
    assert(base64_text(a).len() == base64_len(a.len()));
    assert(base64_text(b).len() == base64_len(b.len()));
    assert(a.len() == b.len());
    assert forall|i: int| 0 <= i < base64_len(a.len()) implies #[trigger] sextet(a, i) == sextet(
        b,
        i,
    ) by {
        sextet_range(a, i);
        sextet_range(b, i);
        assert(base64_text(a)[i] == base64_symbol(sextet(a, i)));
        assert(base64_text(b)[i] == base64_symbol(sextet(b, i)));
        base64_symbol_injective(sextet(a, i), sextet(b, i));
    }
    assert forall|k: int| 0 <= k < a.len() implies a[k] == b[k] by {
        let q: int = k / 3;
        let low: int = 4 * q + k % 3;
        assert(low + 1 < base64_len(a.len()));
        assert(low / 4 == q && low % 4 == k % 3);
        assert((low + 1) / 4 == q && (low + 1) % 4 == k % 3 + 1);
        assert(sextet(a, low) == sextet(b, low));
        assert(sextet(a, low + 1) == sextet(b, low + 1));
    }
    assert(a =~= b);
}

/// Reading back a Base64 text gives the bytes it was made from.
pub proof fn base64_round_trip(bytes: Seq<u8>)
    ensures
        base64_bytes(base64_text(bytes)) == Some(bytes),
{
    let text = base64_text(bytes);
    let back = choose|b: Seq<u8>| #[trigger] base64_text(b) == text;
    base64_text_injective(back, bytes);
}

/// The error of `hex::decode`.
#[verifier::external_type_specification]
#[verifier::external_body]
pub struct ExFromHexError(hex::FromHexError);

/// The error of Base64 decoding.
#[verifier::external_type_specification]
#[verifier::external_body]
pub struct ExDecodeError(base64::DecodeError);

/// Calls `hex::encode`, which writes each byte as two lower-case digits.
#[verifier::external_body]
pub(crate) fn hex_encode(bytes: &[u8]) -> (text: String)
    ensures
        text@ == hex_text(bytes@),
{
    hex::encode(bytes)
}

/// Calls `hex::decode`, which accepts digits of either case and refuses a text of odd length
/// or with any other character.
#[verifier::external_body]
pub(crate) fn hex_decode(text: &str) -> (res: Result<Vec<u8>, hex::FromHexError>)
    ensures
        match res {
            Ok(bytes) => hex_bytes(text@) == Some(bytes@),
            Err(_) => hex_bytes(text@) is None,
        },
{
    hex::decode(text)
}

/// Calls `Engine::encode` of `URL_SAFE_NO_PAD`.
#[verifier::external_body]
pub(crate) fn base64_encode(bytes: &[u8]) -> (text: String)
    ensures
        text@ == base64_text(bytes@),
{
    URL_SAFE_NO_PAD.encode(bytes)
}

/// Calls `Engine::decode` of `URL_SAFE_NO_PAD`. That engine takes no padding and no set bits
/// after the last byte, so it accepts a text only where encoding the result gives it again.
#[verifier::external_body]
pub(crate) fn base64_decode(text: &str) -> (res: Result<Vec<u8>, base64::DecodeError>)
    ensures
        match res {
            Ok(bytes) => base64_text(bytes@) == text@,
            Err(_) => base64_bytes(text@) is None,
        },
{
    URL_SAFE_NO_PAD.decode(text)
}

} // verus!
