//! Lowercase hexadecimal text for byte strings, through the `hex` crate.
use vstd::prelude::*;

verus! {

/// The lowercase hexadecimal digit for a nibble.
pub open spec fn hex_digit(n: int) -> char {
    if n < 10 {
        (48 + n) as char
    } else {
        (87 + n) as char
    }
}

/// Two lowercase hexadecimal digits per byte, high nibble first.
pub open spec fn hex_encode_spec(bytes: Seq<u8>) -> Seq<char> {
    Seq::new(
        2 * bytes.len(),
        |i: int|
            if i % 2 == 0 {
                hex_digit(bytes[i / 2] as int / 16)
            } else {
                hex_digit(bytes[i / 2] as int % 16)
            },
    )
}

/// The value of a hexadecimal digit of either case.
pub open spec fn hex_value(c: char) -> Option<int> {
    if '0' <= c && c <= '9' {
        Some(c as int - 48)
    } else if 'a' <= c && c <= 'f' {
        Some(c as int - 87)
    } else if 'A' <= c && c <= 'F' {
        Some(c as int - 55)
    } else {
        None
    }
}

/// Bytes of an even-length text made only of hexadecimal digits; `None` otherwise.
pub open spec fn hex_decode_spec(text: Seq<char>) -> Option<Seq<u8>> {
    if text.len() % 2 == 0 && (forall|i: int| 0 <= i < text.len() ==> #[trigger] hex_value(text[i]) is Some) {
        Some(
            Seq::new(
                text.len() / 2,
                |i: int| (hex_value(text[2 * i])->0 * 16 + hex_value(text[2 * i + 1])->0) as u8,
            ),
        )
    } else {
        None
    }
}

/// `hex::encode`: two lowercase hexadecimal digits per byte, high nibble first.
#[verifier::external_body]
pub(crate) fn hex_encode(bytes: &[u8]) -> (r: String)
    ensures
        r@ == hex_encode_spec(bytes@),
{
    hex::encode(bytes)
}

/// `hex::decode`: the bytes of an even-length text of hexadecimal digits of either case; any
/// other text is refused.
#[verifier::external_body]
pub(crate) fn hex_decode(text: &str) -> (r: Option<Vec<u8>>)
    ensures
        match r {
            Some(bytes) => hex_decode_spec(text@) == Some(bytes@),
            None => hex_decode_spec(text@) is None,
        },
{
    hex::decode(text).ok()
}

/// Decoding the hexadecimal text of any bytes gives back those bytes.
pub proof fn lemma_hex_round_trip(bytes: Seq<u8>)
    ensures
        hex_decode_spec(hex_encode_spec(bytes)) == Some(bytes),
{
    let text = hex_encode_spec(bytes);
    assert forall|i: int| 0 <= i < text.len() implies #[trigger] hex_value(text[i]) is Some by {
        let b = bytes[i / 2] as int;
        assert(0 <= b / 16 < 16 && 0 <= b % 16 < 16);
    }
    let decoded = hex_decode_spec(text)->0;
    assert forall|i: int| 0 <= i < bytes.len() implies decoded[i] == bytes[i] by {
        let b = bytes[i] as int;
        assert((2 * i) / 2 == i && (2 * i + 1) / 2 == i);
        assert((2 * i) % 2 == 0 && (2 * i + 1) % 2 == 1);
        assert(hex_value(text[2 * i])->0 == b / 16);
        assert(hex_value(text[2 * i + 1])->0 == b % 16);
        assert(b / 16 * 16 + b % 16 == b);
    }
    assert(decoded =~= bytes);
}

} // verus!
