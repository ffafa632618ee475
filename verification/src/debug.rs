//! Short descriptions of keys and signatures for diagnostics.

use crate::falcon::{law_public_key_length, FalconPublicKey, FalconSignature};
use crate::hex::{digit, digits, encode, hex_text, law_digit_codes};
use vstd::prelude::*;
use vstd::slice::slice_subrange;

verus! {

/// A number as decimal text.
pub open spec fn decimal_text(value: nat) -> Seq<char>
    decreases value,
{
    if value < 10 {
        seq![digits()[value as int]]
    } else {
        decimal_text(value / 10).push(digits()[(value % 10) as int])
    }
}

/// The decimal text of a number.
pub fn decimal(value: usize) -> (text: String)
    ensures
        text@ == decimal_text(value as nat),
    decreases value,
{
    let mut text = if value < 10 {
        String::new()
    } else {
        decimal(value / 10)
    };
    text.append(digit((value % 10) as u8));
    assert(text@ =~= decimal_text(value as nat));
    text
}

/// How many bytes a description shows.
pub open spec fn shown(len: nat) -> int {
    if len < 8 {
        len as int
    } else {
        8
    }
}

impl FalconPublicKey {
    /// `FalconPublicKey(xx..)` with the first eight bytes in hexadecimal.
    pub fn debug_string(&self) -> (text: String)
        ensures
            text@ == "FalconPublicKey("@ + hex_text(self@.take(8)) + "..)"@,
    {
        proof {
            law_public_key_length(*self);
        }
        let prefix = slice_subrange(self.as_bytes().as_slice(), 0, 8);
        assert(prefix@ =~= self@.take(8));
        let mut text = "FalconPublicKey(".to_owned();
        text.append(encode(prefix).as_str());
        text.append("..)");
        text
    }
}

impl FalconSignature {
    /// `FalconSignature(len=n, xx..)` with at most the first eight bytes of the
    /// signature in hexadecimal.
    pub fn debug_string(&self) -> (text: String)
        ensures
            text@ == "FalconSignature(len="@ + decimal_text(self@.len()) + ", "@ + hex_text(
                self@.take(shown(self@.len())),
            ) + "..)"@,
    {
        let bytes = self.as_bytes();
        let count: usize = if bytes.len() < 8 {
            bytes.len()
        } else {
            8
        };
        let prefix = slice_subrange(bytes, 0, count);
        assert(prefix@ =~= self@.take(shown(self@.len())));
        let mut text = "FalconSignature(len=".to_owned();
        text.append(decimal(self.len()).as_str());
        text.append(", ");
        text.append(encode(prefix).as_str());
        text.append("..)");
        text
    }
}

/// The last character of a decimal text is the digit of the units, and those
/// before it are the text of the number of tens, if there are any.
pub proof fn law_decimal_text(value: nat)
    ensures
        decimal_text(value).len() >= 1,
        decimal_text(value).last() as int == 48 + value % 10,
        value < 10 ==> decimal_text(value).len() == 1,
        value >= 10 ==> decimal_text(value).drop_last() == decimal_text(value / 10),
{
    law_digit_codes((value % 10) as int);
    if value >= 10 {
        assert(decimal_text(value).drop_last() =~= decimal_text(value / 10));
    }
}

/// A description shows eight bytes, or all of them if there are fewer.
pub proof fn law_shown(len: nat)
    ensures
        len >= 8 ==> shown(len) == 8,
        len <= 8 ==> shown(len) == len,
{
}

} // verus!
