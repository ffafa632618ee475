//! Hexadecimal text.

use vstd::prelude::*;

verus! {

/// The sixteen digits, lower case.
pub open spec fn digits() -> Seq<char> {
    seq!['0', '1', '2', '3', '4', '5', '6', '7', '8', '9', 'a', 'b', 'c', 'd', 'e', 'f']
}

/// Two digits for every byte, the higher one first.
pub open spec fn hex_text(bytes: Seq<u8>) -> Seq<char> {
    Seq::new(
        2 * bytes.len(),
        |i: int|
            if i % 2 == 0 {
                digits()[bytes[i / 2] as int / 16]
            } else {
                digits()[bytes[i / 2] as int % 16]
            },
    )
}

/// The text of one digit.
pub(crate) fn digit(value: u8) -> (text: &'static str)
    requires
        value < 16,
    ensures
        text@ == seq![digits()[value as int]],
{
    proof {
        reveal_strlit("0");
        reveal_strlit("1");
        reveal_strlit("2");
        reveal_strlit("3");
        reveal_strlit("4");
        reveal_strlit("5");
        reveal_strlit("6");
        reveal_strlit("7");
        reveal_strlit("8");
        reveal_strlit("9");
        reveal_strlit("a");
        reveal_strlit("b");
        reveal_strlit("c");
        reveal_strlit("d");
        reveal_strlit("e");
        reveal_strlit("f");
    }
    let text = match value {
        0 => "0",
        1 => "1",
        2 => "2",
        3 => "3",
        4 => "4",
        5 => "5",
        6 => "6",
        7 => "7",
        8 => "8",
        9 => "9",
        10 => "a",
        11 => "b",
        12 => "c",
        13 => "d",
        14 => "e",
        _ => "f",
    };
    assert(text@ =~= seq![digits()[value as int]]);
    text
}

/// The bytes as lower-case hexadecimal text.
pub fn encode(bytes: &[u8]) -> (text: String)
    ensures
        text@ == hex_text(bytes@),
        text@.len() == 2 * bytes@.len(),
{
    let mut text = String::new();
    assert(text@ =~= hex_text(bytes@.take(0)));
    for i in 0..bytes.len()
        invariant
            text@ == hex_text(bytes@.take(i as int)),
    {
        let byte: u8 = bytes[i];
        text.append(digit(byte / 16));
        text.append(digit(byte % 16));
        assert(text@ =~= hex_text(bytes@.take(i + 1)));
    }
    assert(bytes@.take(bytes@.len() as int) =~= bytes@);
    text
}

/// A digit below ten has the character code 48 more than its value, and one
/// from ten on has the code 87 more: `0` to `9`, then `a` to `f`.
pub proof fn law_digit_codes(value: int)
    requires
        0 <= value < 16,
    ensures
        digits()[value] as int == if value < 10 {
            48 + value
        } else {
            87 + value
        },
{
}

/// In the text each byte has two digits, in the order of the bytes: the one for
/// its sixteens, then the one for its units. So the bytes can be read back.
pub proof fn law_hex_text_shows_each_byte(bytes: Seq<u8>, index: int)
    requires
        0 <= index < bytes.len(),
    ensures
        hex_text(bytes).len() == 2 * bytes.len(),
        hex_text(bytes)[2 * index] as int == if bytes[index] < 160 {
            48 + bytes[index] as int / 16
        } else {
            87 + bytes[index] as int / 16
        },
        hex_text(bytes)[2 * index + 1] as int == if bytes[index] as int % 16 < 10 {
            48 + bytes[index] as int % 16
        } else {
            87 + bytes[index] as int % 16
        },
{
    law_digit_codes(bytes[index] as int / 16);
    law_digit_codes(bytes[index] as int % 16);
}

} // verus!
