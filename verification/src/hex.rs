//! Lowercase hexadecimal text of bytes.
//!
//! Each byte gives two characters, the upper four bits first, with the digits
//! `0` to `9` and `a` to `f`. Nothing stands before, between or after them.

use crate::digest::{lemma_digest_length, Message, MESSAGE_SIZE};
use vstd::prelude::*;
use vstd::string::StringExecFns;

verus! {

/// The character that stands for the four-bit value `n`.
pub open spec fn hex_digit(n: int) -> char {
    if n == 0 {
        '0'
    } else if n == 1 {
        '1'
    } else if n == 2 {
        '2'
    } else if n == 3 {
        '3'
    } else if n == 4 {
        '4'
    } else if n == 5 {
        '5'
    } else if n == 6 {
        '6'
    } else if n == 7 {
        '7'
    } else if n == 8 {
        '8'
    } else if n == 9 {
        '9'
    } else if n == 10 {
        'a'
    } else if n == 11 {
        'b'
    } else if n == 12 {
        'c'
    } else if n == 13 {
        'd'
    } else if n == 14 {
        'e'
    } else {
        'f'
    }
}

/// Whether `c` is one of the sixteen digits of lowercase hexadecimal text.
pub open spec fn is_lower_hex_digit(c: char) -> bool {
    ('0' <= c && c <= '9') || ('a' <= c && c <= 'f')
}

/// The four-bit value that the digit `c` stands for.
pub open spec fn hex_value(c: char) -> int
    recommends
        is_lower_hex_digit(c),
{
    if '0' <= c && c <= '9' {
        c as int - '0' as int
    } else {
        c as int - 'a' as int + 10
    }
}

/// The hexadecimal text of `bytes`: two digits for each byte, in the order of
/// the bytes, the digit of the upper four bits before that of the lower four.
pub open spec fn lower_hex(bytes: Seq<u8>) -> Seq<char> {
    Seq::new(
        2 * bytes.len(),
        |i: int|
            if i % 2 == 0 {
                hex_digit(bytes[i / 2] as int / 16)
            } else {
                hex_digit(bytes[i / 2] as int % 16)
            },
    )
}

/// The bytes that a hexadecimal text of even length stands for.
pub open spec fn hex_decoded(text: Seq<char>) -> Seq<u8>
    recommends
        text.len() % 2 == 0,
        forall|i: int| 0 <= i < text.len() ==> is_lower_hex_digit(text[i]),
{
    Seq::new(
        text.len() / 2,
        |i: int| (16 * hex_value(text[2 * i]) + hex_value(text[2 * i + 1])) as u8,
    )
}

/// Every digit is a lowercase hexadecimal one and stands for the value that it
/// was made from.
pub proof fn lemma_hex_digit(n: int)
    requires
        0 <= n < 16,
    ensures
        is_lower_hex_digit(hex_digit(n)),
        hex_value(hex_digit(n)) == n,
{
}

/// The text of `bytes` has two characters for each byte, all of them lowercase
/// hexadecimal digits, and decoding it gives `bytes` back.
pub proof fn lemma_lower_hex_reversible(bytes: Seq<u8>)
    ensures
        lower_hex(bytes).len() == 2 * bytes.len(),
        forall|i: int|
            0 <= i < lower_hex(bytes).len() ==> is_lower_hex_digit(#[trigger] lower_hex(bytes)[i]),
        hex_decoded(lower_hex(bytes)) == bytes,
{
    let text = lower_hex(bytes);
    assert forall|i: int| 0 <= i < text.len() implies is_lower_hex_digit(#[trigger] text[i]) by {
        let b = bytes[i / 2] as int;
        lemma_hex_digit(b / 16);
        lemma_hex_digit(b % 16);
    }
    assert forall|i: int| 0 <= i < bytes.len() implies hex_decoded(text)[i] == bytes[i] by {
        let b = bytes[i] as int;
        lemma_hex_digit(b / 16);
        lemma_hex_digit(b % 16);
        assert((2 * i) / 2 == i && (2 * i) % 2 == 0);
        assert((2 * i + 1) / 2 == i && (2 * i + 1) % 2 == 1);
        assert(text[2 * i] == hex_digit(b / 16));
        assert(text[2 * i + 1] == hex_digit(b % 16));
        assert(16 * (b / 16) + b % 16 == b);
    }
    assert(hex_decoded(text) =~= bytes);
}

/// The text of a digest has 64 characters, all of them lowercase hexadecimal
/// digits, and decoding it gives the bytes of the digest back.
pub proof fn lemma_digest_text(m: Message)
    ensures
        lower_hex(m@).len() == 64,
        forall|i: int| 0 <= i < 64 ==> is_lower_hex_digit(#[trigger] lower_hex(m@)[i]),
        hex_decoded(lower_hex(m@)) == m@,
{
    lemma_digest_length(m);
    lemma_lower_hex_reversible(m@);
}

/// The digit of a four-bit value, as a string of one character.
fn digit_str(n: u8) -> (s: &'static str)
    requires
        n < 16,
    ensures
        s@ == seq![hex_digit(n as int)],
{
    proof {
        reveal_strlit("0");
        reveal_strlit("1");
        reveal_strlit("2");
        reveal_strlit("3");
        reveal_strlit("4");
        reveal_strlit("5");
        reveal_strlit("6");
        reveal_strlit("7");
        reveal_strlit("8");
        reveal_strlit("9");
        reveal_strlit("a");
        reveal_strlit("b");
        reveal_strlit("c");
        reveal_strlit("d");
        reveal_strlit("e");
        reveal_strlit("f");
    }
    let s = match n {
        0 => "0",
        1 => "1",
        2 => "2",
        3 => "3",
        4 => "4",
        5 => "5",
        6 => "6",
        7 => "7",
        8 => "8",
        9 => "9",
        10 => "a",
        11 => "b",
        12 => "c",
        13 => "d",
        14 => "e",
        _ => "f",
    };
    assert(s@ =~= seq![hex_digit(n as int)]);
    s
}

impl Message {
    /// The digest as text: 64 lowercase hexadecimal digits, two for each byte,
    /// the first byte first, with no prefix, separator or line end.
    pub fn to_lower_hex_string(&self) -> (text: String)
        ensures
            text@ == lower_hex(self@),
    {
        let bytes = self.to_byte_array();
        let mut text = String::new();
        let mut i: usize = 0;
        while i < MESSAGE_SIZE
            invariant
                i <= MESSAGE_SIZE,
                bytes@ == self@,
                text@.len() == 2 * i,
                forall|j: int| 0 <= j < 2 * i ==> text@[j] == lower_hex(bytes@)[j],
            decreases MESSAGE_SIZE - i,
        {
            let b: u8 = bytes[i];
            let ghost before = text@;
            text.append(digit_str(b / 16));
            text.append(digit_str(b % 16));
            proof {
                assert(text@ =~= before.push(hex_digit(b as int / 16)).push(
                    hex_digit(b as int % 16),
                ));
                assert((2 * i) / 2 == i && (2 * i) % 2 == 0);
                assert((2 * i + 1) / 2 == i && (2 * i + 1) % 2 == 1);
            }
            i += 1;
        }
        assert(text@ =~= lower_hex(bytes@));
        text
    }
}

} // verus!
