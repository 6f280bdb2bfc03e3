//! Text out of bytes that may not be valid UTF-8.

use vstd::prelude::*;
use vstd::utf8::{
    decode_utf8, encode_utf8, encode_utf8_decode_utf8, encode_utf8_valid_utf8,
    is_ascii_chars, is_ascii_chars_encode_utf8, valid_utf8,
};
use crate::bytes::{field_text, text_end};

verus! {

/// The text that lossy UTF-8 decoding makes of `bytes`: the decoded
/// characters where `bytes` is valid UTF-8, and otherwise the same with a
/// replacement character for each invalid sequence.
pub uninterp spec fn lossy_text(bytes: Seq<u8>) -> Seq<char>;

/// Calls `String::from_utf8_lossy`, which is trusted to return `lossy_text`
/// of its argument, and the argument's own text where that is valid UTF-8.
#[verifier::external_body]
pub(crate) fn decode_lossy(bytes: &[u8]) -> (s: String)
    ensures
        s@ == lossy_text(bytes@),
        valid_utf8(bytes@) ==> s@ == decode_utf8(bytes@),
{
    String::from_utf8_lossy(bytes).into_owned()
}

/// The text that `bytes` stand for: their characters where they are valid
/// UTF-8, and what lossy decoding makes of them where they are not.
pub open spec fn text_of(bytes: Seq<u8>) -> Seq<char> {
    if valid_utf8(bytes) {
        decode_utf8(bytes)
    } else {
        lossy_text(bytes)
    }
}

/// The text of bytes that may or may not be valid UTF-8.
pub fn lossy_string(bytes: &[u8]) -> (s: String)
    ensures
        s@ == text_of(bytes@),
{
    decode_lossy(bytes)
}

/// The text that a receiver reads out of a fixed-width field.
pub open spec fn field_string(field: Seq<u8>) -> Seq<char> {
    text_of(field_text(field))
}

/// The text of a fixed-width field: what stands before its first NUL, or
/// the entire field, decoded lossily.
pub fn read_string(field: &[u8]) -> (s: String)
    ensures
        s@ == field_string(field@),
{
    let end: usize = text_end(field);
    proof {
        crate::bytes::lemma_text_len(field@);
    }
    lossy_string(vstd::slice::slice_subrange(field, 0, end))
}

/// The characters that ASCII bytes stand for, one for one.
pub open spec fn ascii_text(bytes: Seq<u8>) -> Seq<char> {
    Seq::new(bytes.len(), |i: int| bytes[i] as char)
}

/// Every byte is an ASCII character.
pub open spec fn all_ascii(bytes: Seq<u8>) -> bool {
    forall|i: int| 0 <= i < bytes.len() ==> bytes[i] < 0x80
}

/// ASCII bytes are valid UTF-8, and are the UTF-8 form of their characters.
pub proof fn lemma_ascii_is_utf8(bytes: Seq<u8>)
    requires
        all_ascii(bytes),
    ensures
        valid_utf8(bytes),
        decode_utf8(bytes) == ascii_text(bytes),
        encode_utf8(ascii_text(bytes)) == bytes,
{
    let chars = ascii_text(bytes);
    assert(is_ascii_chars(chars));
    is_ascii_chars_encode_utf8(chars);
    assert forall|i: int| 0 <= i < bytes.len() implies encode_utf8(chars)[i] == bytes[i] by {
        assert(chars[i] as u8 == encode_utf8(chars)[i]);
        assert((bytes[i] as char) as u8 == bytes[i]);
    }
    assert(encode_utf8(chars) =~= bytes);
    encode_utf8_valid_utf8(chars);
    encode_utf8_decode_utf8(chars);
}

/// The character of the decimal digit `d`.
pub open spec fn digit(d: nat) -> char
    recommends
        d < 10,
{
    (0x30 + d) as u8 as char
}

/// `n` in decimal digits, without a sign or leading zeros.
pub open spec fn decimal(n: nat) -> Seq<char>
    decreases n,
{
    if n < 10 {
        seq![digit(n)]
    } else {
        decimal(n / 10).push(digit(n % 10))
    }
}

/// Every character of a number in decimal is a digit, and there is at least
/// one.
pub proof fn lemma_decimal_digits(n: nat)
    ensures
        decimal(n).len() >= 1,
        n >= 10 ==> decimal(n).len() >= 2,
        forall|i: int| 0 <= i < decimal(n).len() ==> 0x30 <= #[trigger] decimal(n)[i] as u8 <= 0x39,
    decreases n,
{
    if n >= 10 {
        lemma_decimal_digits(n / 10);
    }
}

/// Two numbers with the same decimal digits are the same number.
pub proof fn lemma_decimal_injective(a: nat, b: nat)
    requires
        decimal(a) == decimal(b),
    ensures
        a == b,
    decreases a,
{
    lemma_decimal_digits(a);
    lemma_decimal_digits(b);
    if a < 10 {
        assert(decimal(a)[0] == digit(a));
        if b >= 10 {
            assert(false);
        }
        assert(decimal(b)[0] == digit(b));
        assert(digit(a) as u8 == 0x30 + a);
        assert(digit(b) as u8 == 0x30 + b);
    } else {
        if b < 10 {
            assert(false);
        }
        let s = decimal(a / 10);
        let t = decimal(b / 10);
        assert(s.push(digit(a % 10)).drop_last() =~= s);
        assert(t.push(digit(b % 10)).drop_last() =~= t);
        assert(s.push(digit(a % 10)).last() == digit(a % 10));
        assert(t.push(digit(b % 10)).last() == digit(b % 10));
        lemma_decimal_injective(a / 10, b / 10);
        assert(digit(a % 10) as u8 == 0x30 + a % 10);
        assert(digit(b % 10) as u8 == 0x30 + b % 10);
    }
}

/// The digits of `n`, then the characters of `bytes` from the last to the
/// first: the whole number, while `bytes` holds its low digits, lowest first,
/// and `n` what is left above them.
spec fn digits_above(n: nat, bytes: Seq<u8>) -> Seq<char> {
    decimal(n) + ascii_text(bytes).reverse()
}

/// `n` in decimal digits.
pub fn decimal_string(n: u64) -> (s: String)
    ensures
        s@ == decimal(n as nat),
{
    let mut low_first: Vec<u8> = Vec::new();
    let mut rest: u64 = n;
    while rest >= 10
        invariant
            all_ascii(low_first@),
            digits_above(rest as nat, low_first@) == decimal(n as nat),
        decreases rest,
    {
        let d: u8 = (rest % 10) as u8;
        let ghost before = low_first@;
        low_first.push(0x30 + d);
        proof {
            let after = low_first@;
            assert(ascii_text(after).reverse() =~= seq![digit((rest % 10) as nat)] + ascii_text(
                before,
            ).reverse());
            assert(decimal(rest as nat) == decimal((rest / 10) as nat).push(
                digit((rest % 10) as nat),
            ));
            assert(digits_above((rest / 10) as nat, after) =~= digits_above(rest as nat, before));
        }
        rest = rest / 10;
    }
    low_first.push(0x30 + (rest as u8));
    proof {
        let before = low_first@.drop_last();
        assert(ascii_text(low_first@).reverse() =~= seq![digit(rest as nat)] + ascii_text(
            before,
        ).reverse());
        assert(decimal(rest as nat) =~= seq![digit(rest as nat)]);
        assert(ascii_text(low_first@).reverse() =~= digits_above(rest as nat, before));
    }
    let mut digits: Vec<u8> = Vec::new();
    let mut i: usize = low_first.len();
    while i > 0
        invariant
            i <= low_first@.len(),
            all_ascii(low_first@),
            digits@.len() == low_first@.len() - i,
            forall|j: int|
                0 <= j < digits@.len() ==> digits@[j] == low_first@[low_first@.len() - 1 - j],
        decreases i,
    {
        i -= 1;
        digits.push(low_first[i]);
    }
    proof {
        assert(ascii_text(digits@) =~= ascii_text(low_first@).reverse());
        lemma_ascii_is_utf8(digits@);
    }
    lossy_string(digits.as_slice())
}

} // verus!
