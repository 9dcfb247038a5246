//! Lower-case hexadecimal text for bytes, and bytes for hexadecimal text.

use vstd::prelude::*;
use vstd::string::*;
use vstd::utf8::*;

verus! {

/// The sixteen digits, by value.
pub open spec fn hex_digits() -> Seq<char> {
    seq!['0', '1', '2', '3', '4', '5', '6', '7', '8', '9', 'a', 'b', 'c', 'd', 'e', 'f']
}

/// The text of `bytes`: two lower-case digits for each byte, the high half first.
pub open spec fn hex_string(bytes: Seq<u8>) -> Seq<char> {
    Seq::new(
        2 * bytes.len(),
        |i: int|
            if i % 2 == 0 {
                hex_digits()[bytes[i / 2] as int / 16]
            } else {
                hex_digits()[bytes[i / 2] as int % 16]
            },
    )
}

/// The value of a hexadecimal digit of either case.
pub open spec fn hex_value(c: char) -> Option<u8> {
    if '0' <= c <= '9' {
        Some((c as u8 - 48) as u8)
    } else if 'a' <= c <= 'f' {
        Some((c as u8 - 87) as u8)
    } else if 'A' <= c <= 'F' {
        Some((c as u8 - 55) as u8)
    } else {
        None
    }
}

/// True when `text` is made of hexadecimal digits only.
pub open spec fn is_hex(text: Seq<char>) -> bool {
    forall|i: int| 0 <= i < text.len() ==> hex_value(#[trigger] text[i]) is Some
}

/// True when `text` is made of the digits that `hex_string` writes.
pub open spec fn is_lower_hex(text: Seq<char>) -> bool {
    forall|i: int|
        0 <= i < text.len() ==> ('0' <= #[trigger] text[i] <= '9' || 'a' <= text[i] <= 'f')
}

/// The bytes that `text` stands for: `None` unless it is an even number of
/// hexadecimal digits.
pub open spec fn parse_hex(text: Seq<char>) -> Option<Seq<u8>> {
    if text.len() % 2 == 0 && is_hex(text) {
        Some(
            Seq::new(
                text.len() / 2,
                |i: int| (hex_value(text[2 * i])->0 * 16 + hex_value(text[2 * i + 1])->0) as u8,
            ),
        )
    } else {
        None
    }
}

/// The text of bytes has two digits for each byte, all of them lower-case digits.
pub proof fn lemma_hex_string_shape(bytes: Seq<u8>)
    ensures
        hex_string(bytes).len() == 2 * bytes.len(),
        is_lower_hex(hex_string(bytes)),
        is_hex(hex_string(bytes)),
        is_ascii_chars(hex_string(bytes)),
{
    let text = hex_string(bytes);
    assert forall|i: int| 0 <= i < text.len() implies ('0' <= #[trigger] text[i] <= '9' || 'a'
        <= text[i] <= 'f') by {}
}

/// Reading the text of bytes gives the bytes back.
pub proof fn lemma_parse_hex_of_hex_string(bytes: Seq<u8>)
    ensures
        parse_hex(hex_string(bytes)) == Some(bytes),
{
    let text = hex_string(bytes);
    let back = parse_hex(text)->0;
    assert forall|i: int| 0 <= i < bytes.len() implies back[i] == bytes[i] by {}
}

/// Texts of different bytes differ.
pub proof fn lemma_hex_string_injective(a: Seq<u8>, b: Seq<u8>)
    requires
        hex_string(a) == hex_string(b),
    ensures
        a == b,
{
    lemma_parse_hex_of_hex_string(a);
    lemma_parse_hex_of_hex_string(b);
}

/// The one-digit text for a value below sixteen.
pub fn digit_text(n: u8) -> (text: &'static str)
    requires
        n < 16,
    ensures
        text@ == seq![hex_digits()[n as int]],
{
    proof {
        reveal_strlit("0");
        reveal_strlit("1");
        reveal_strlit("2");
        reveal_strlit("3");
        reveal_strlit("4");
        reveal_strlit("5");
        reveal_strlit("6");
        reveal_strlit("7");
        reveal_strlit("8");
        reveal_strlit("9");
        reveal_strlit("a");
        reveal_strlit("b");
        reveal_strlit("c");
        reveal_strlit("d");
        reveal_strlit("e");
        reveal_strlit("f");
    }
    let text = match n {
        0 => "0",
        1 => "1",
        2 => "2",
        3 => "3",
        4 => "4",
        5 => "5",
        6 => "6",
        7 => "7",
        8 => "8",
        9 => "9",
        10 => "a",
        11 => "b",
        12 => "c",
        13 => "d",
        14 => "e",
        _ => "f",
    };
    text
}

/// Writes `bytes` as lower-case hexadecimal text.
pub fn to_hex(bytes: &[u8]) -> (text: String)
    ensures
        text@ == hex_string(bytes@),
{
    let mut text = String::new();
    let mut i: usize = 0;
    while i < bytes.len()
        invariant
            i <= bytes.len(),
            text@ == hex_string(bytes@.take(i as int)),
        decreases bytes.len() - i,
    {
        let b: u8 = bytes[i];
        text.append(digit_text(b / 16));
        text.append(digit_text(b % 16));
        i += 1;
    }
    text
}

/// The value of the hexadecimal digit whose ASCII code is `code`.
fn digit_value(code: u8) -> (value: Option<u8>)
    ensures
        value == hex_value(code as char),
{
    if 48 <= code && code <= 57 {
        Some(code - 48)
    } else if 97 <= code && code <= 102 {
        Some(code - 87)
    } else if 65 <= code && code <= 70 {
        Some(code - 55)
    } else {
        None
    }
}

/// Reads hexadecimal text of either case: `None` unless `text` is an even number
/// of hexadecimal digits.
pub fn from_hex(text: &str) -> (res: Option<Vec<u8>>)
    ensures
        match parse_hex(text@) {
            Some(bytes) => res matches Some(found) && found@ == bytes,
            None => res is None,
        },
{
    if !text.is_ascii() {
        proof {
            if is_hex(text@) {
                assert forall|i: int| 0 <= i < text@.len() implies '\0' <= #[trigger] text@[i]
                    <= '\u{7f}' by {}
            }
        }
        return None;
    }
    let codes = text.as_bytes();
    if codes.len() % 2 != 0 {
        return None;
    }
    let mut found: Vec<u8> = Vec::new();
    let mut i: usize = 0;
    while i < codes.len() / 2
        invariant
            codes@ == encode_utf8(text@),
            codes@.len() == text@.len(),
            codes@.len() % 2 == 0,
            is_ascii_chars(text@),
            forall|k: int| 0 <= k < text@.len() ==> #[trigger] text@[k] as u8 == codes@[k],
            i <= codes.len() / 2,
            found.len() == i,
            forall|k: int| 0 <= k < 2 * i ==> hex_value(#[trigger] text@[k]) is Some,
            forall|k: int|
                0 <= k < i ==> #[trigger] found[k] == (hex_value(text@[2 * k])->0 * 16 + hex_value(
                    text@[2 * k + 1],
                )->0) as u8,
        decreases codes.len() / 2 - i,
    {
        let high = digit_value(codes[2 * i]);
        let low = digit_value(codes[2 * i + 1]);
        proof {
            assert(codes@[2 * i] as char == text@[2 * i]);
            assert(codes@[2 * i + 1] as char == text@[2 * i + 1]);
        }
        match (high, low) {
            (Some(h), Some(l)) => {
                found.push(h * 16 + l);
            },
            _ => {
                return None;
            },
        }
        i += 1;
    }
    Some(found)
}

} // verus!
