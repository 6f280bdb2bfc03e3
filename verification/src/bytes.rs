//! Little-endian integers and fixed-width, NUL-padded text fields.

use vstd::prelude::*;

verus! {

/// The four bytes of `x`, least significant first.
pub open spec fn u32_le(x: u32) -> Seq<u8> {
    seq![
        (x % 0x100) as u8,
        (x / 0x100 % 0x100) as u8,
        (x / 0x1_0000 % 0x100) as u8,
        (x / 0x100_0000 % 0x100) as u8,
    ]
}

/// The number whose least significant byte is `b[0]`; `b` holds four bytes.
pub open spec fn u32_from_le(b: Seq<u8>) -> u32
    recommends
        b.len() == 4,
{
    (b[0] + b[1] * 0x100 + b[2] * 0x1_0000 + b[3] * 0x100_0000) as u32
}

/// The eight bytes of `x`, least significant first: the low half, then the
/// high half.
pub open spec fn u64_le(x: u64) -> Seq<u8> {
    u32_le((x % 0x1_0000_0000) as u32) + u32_le((x / 0x1_0000_0000) as u32)
}

/// The number whose least significant byte is `b[0]`; `b` holds eight bytes.
pub open spec fn u64_from_le(b: Seq<u8>) -> u64
    recommends
        b.len() == 8,
{
    (u32_from_le(b.subrange(0, 4)) + u32_from_le(b.subrange(4, 8)) * 0x1_0000_0000) as u64
}

/// Decoding the bytes of a 32-bit number gives the number back.
pub proof fn lemma_u32_le_inverse(x: u32)
    ensures
        u32_le(x).len() == 4,
        u32_from_le(u32_le(x)) == x,
{
}

proof fn lemma_digits(b0: int, b1: int, b2: int, b3: int)
    requires
        0 <= b0 < 0x100,
        0 <= b1 < 0x100,
        0 <= b2 < 0x100,
        0 <= b3 < 0x100,
    ensures
        ({
            let x = b0 + b1 * 0x100 + b2 * 0x1_0000 + b3 * 0x100_0000;
            &&& 0 <= x <= u32::MAX
            &&& x % 0x100 == b0
            &&& x / 0x100 % 0x100 == b1
            &&& x / 0x1_0000 % 0x100 == b2
            &&& x / 0x100_0000 % 0x100 == b3
        }),
{
    let x = b0 + b1 * 0x100 + b2 * 0x1_0000 + b3 * 0x100_0000;
    let q1 = b1 + 0x100 * (b2 + 0x100 * b3);
    let q2 = b2 + 0x100 * b3;
    assert(x == b0 + 0x100 * q1);
    assert(x / 0x100 == q1);
    assert(x == (b0 + 0x100 * b1) + 0x1_0000 * q2);
    assert(x / 0x1_0000 == q2);
    assert(x == (b0 + 0x100 * b1 + 0x1_0000 * b2) + 0x100_0000 * b3);
    assert(x / 0x100_0000 == b3);
}

/// Encoding the number read from four bytes gives the bytes back.
pub proof fn lemma_u32_from_le_inverse(b: Seq<u8>)
    requires
        b.len() == 4,
    ensures
        u32_le(u32_from_le(b)) == b,
{
    lemma_digits(b[0] as int, b[1] as int, b[2] as int, b[3] as int);
    assert(u32_le(u32_from_le(b)) =~= b);
}

/// Decoding the bytes of a 64-bit number gives the number back.
pub proof fn lemma_u64_le_inverse(x: u64)
    ensures
        u64_le(x).len() == 8,
        u64_from_le(u64_le(x)) == x,
{
    let lo: u32 = (x % 0x1_0000_0000) as u32;
    let hi: u32 = (x / 0x1_0000_0000) as u32;
    lemma_u32_le_inverse(lo);
    lemma_u32_le_inverse(hi);
    assert(u64_le(x).subrange(0, 4) =~= u32_le(lo));
    assert(u64_le(x).subrange(4, 8) =~= u32_le(hi));
}

proof fn lemma_halves(lo: u32, hi: u32)
    ensures
        (lo + hi * 0x1_0000_0000) % 0x1_0000_0000 == lo,
        (lo + hi * 0x1_0000_0000) / 0x1_0000_0000 == hi,
        lo + hi * 0x1_0000_0000 <= u64::MAX,
{
}

/// Encoding the number read from eight bytes gives the bytes back.
pub proof fn lemma_u64_from_le_inverse(b: Seq<u8>)
    requires
        b.len() == 8,
    ensures
        u64_le(u64_from_le(b)) == b,
{
    let lo: u32 = u32_from_le(b.subrange(0, 4));
    let hi: u32 = u32_from_le(b.subrange(4, 8));
    let x: u64 = u64_from_le(b);
    assert(u32_le(lo) == b.subrange(0, 4)) by {
        lemma_u32_from_le_inverse(b.subrange(0, 4));
    }
    assert(u32_le(hi) == b.subrange(4, 8)) by {
        lemma_u32_from_le_inverse(b.subrange(4, 8));
    }
    assert((x % 0x1_0000_0000) as u32 == lo && (x / 0x1_0000_0000) as u32 == hi) by {
        lemma_halves(lo, hi);
    }
    assert(b.subrange(0, 4) + b.subrange(4, 8) =~= b);
}

/// Encodes `x` as four little-endian bytes.
pub fn u32_to_le(x: u32) -> (b: [u8; 4])
    ensures
        b@ == u32_le(x),
{
    let b: [u8; 4] = [
        (x % 0x100) as u8,
        (x / 0x100 % 0x100) as u8,
        (x / 0x1_0000 % 0x100) as u8,
        (x / 0x100_0000 % 0x100) as u8,
    ];
    assert(b@ =~= u32_le(x));
    b
}

/// Encodes `x` as eight little-endian bytes.
pub fn u64_to_le(x: u64) -> (b: [u8; 8])
    ensures
        b@ == u64_le(x),
{
    let lo: [u8; 4] = u32_to_le((x % 0x1_0000_0000) as u32);
    let hi: [u8; 4] = u32_to_le((x / 0x1_0000_0000) as u32);
    let b: [u8; 8] = [lo[0], lo[1], lo[2], lo[3], hi[0], hi[1], hi[2], hi[3]];
    assert(b@ =~= u64_le(x));
    b
}

/// Reads the 32-bit little-endian number that starts at byte `at`.
pub fn read_u32(buf: &[u8], at: usize) -> (x: u32)
    requires
        at + 4 <= buf@.len(),
    ensures
        x == u32_from_le(buf@.subrange(at as int, at + 4)),
{
    let b0: u32 = buf[at] as u32;
    let b1: u32 = buf[at + 1] as u32;
    let b2: u32 = buf[at + 2] as u32;
    let b3: u32 = buf[at + 3] as u32;
    b0 + b1 * 0x100 + b2 * 0x1_0000 + b3 * 0x100_0000
}

/// Reads the 64-bit little-endian number that starts at byte `at`.
pub fn read_u64(buf: &[u8], at: usize) -> (x: u64)
    requires
        at + 8 <= buf@.len(),
    ensures
        x == u64_from_le(buf@.subrange(at as int, at + 8)),
{
    assert(buf@.len() == buf.len() <= usize::MAX) by {
        broadcast use vstd::slice::group_slice_axioms;

    }
    let lo: u32 = read_u32(buf, at);
    let hi: u32 = read_u32(buf, at + 4);
    proof {
        let b = buf@.subrange(at as int, at + 8);
        assert(b.subrange(0, 4) =~= buf@.subrange(at as int, at + 4));
        assert(b.subrange(4, 8) =~= buf@.subrange(at + 4, at + 8));
        lemma_halves(lo, hi);
    }
    lo as u64 + hi as u64 * 0x1_0000_0000
}

/// `region` with the `bytes.len()` bytes from `at` on replaced by `bytes`.
pub open spec fn patched(region: Seq<u8>, at: int, bytes: Seq<u8>) -> Seq<u8> {
    Seq::new(
        region.len(),
        |i: int| if at <= i < at + bytes.len() { bytes[i - at] } else { region[i] },
    )
}

/// Writes `x` as four little-endian bytes from byte `at` on.
pub fn write_u32(buf: &mut [u8], at: usize, x: u32)
    requires
        at + 4 <= old(buf)@.len(),
    ensures
        final(buf)@ == patched(old(buf)@, at as int, u32_le(x)),
{
    let b: [u8; 4] = u32_to_le(x);
    buf[at] = b[0];
    buf[at + 1] = b[1];
    buf[at + 2] = b[2];
    buf[at + 3] = b[3];
    assert(buf@ =~= patched(old(buf)@, at as int, u32_le(x)));
}

/// The bytes of a run of 32-bit words, each little-endian.
pub open spec fn words_le(words: Seq<u32>) -> Seq<u8> {
    Seq::new(4 * words.len(), |k: int| u32_le(words[k / 4])[k % 4])
}

/// The `i`-th 32-bit word of `b`.
pub open spec fn word(b: Seq<u8>, i: int) -> u32 {
    u32_from_le(b.subrange(4 * i, 4 * i + 4))
}

/// The `i`-th word of the bytes of a run of words is the `i`-th of the run.
pub proof fn lemma_word_of_words(words: Seq<u32>, i: int)
    requires
        0 <= i < words.len(),
    ensures
        words_le(words).len() == 4 * words.len(),
        words_le(words).subrange(4 * i, 4 * i + 4) == u32_le(words[i]),
        word(words_le(words), i) == words[i],
{
    let chunk = words_le(words).subrange(4 * i, 4 * i + 4);
    assert forall|k: int| 0 <= k < 4 implies chunk[k] == u32_le(words[i])[k] by {
        assert((4 * i + k) / 4 == i);
        assert((4 * i + k) % 4 == k);
    }
    assert(chunk =~= u32_le(words[i]));
    lemma_u32_le_inverse(words[i]);
}

/// The `i`-th word of a region is the `i`-th of the words that were written
/// to its start.
pub proof fn lemma_word_written(region: Seq<u8>, words: Seq<u32>, i: int)
    requires
        0 <= i < words.len(),
        4 * words.len() <= region.len(),
    ensures
        word(patched(region, 0, words_le(words)), i) == words[i],
{
    lemma_word_of_words(words, i);
    assert(patched(region, 0, words_le(words)).subrange(4 * i, 4 * i + 4) =~= words_le(
        words,
    ).subrange(4 * i, 4 * i + 4));
}

/// Writes the first `count` of `words` from byte `at` on, each
/// little-endian.
pub fn write_words(region: &mut [u8], at: usize, words: &[u32], count: usize)
    requires
        count <= words@.len(),
        at + 4 * count <= old(region)@.len(),
    ensures
        final(region)@ == patched(old(region)@, at as int, words_le(words@.take(count as int))),
{
    assert(region@.len() == region.len() <= usize::MAX) by {
        broadcast use vstd::slice::group_slice_axioms;

    }
    let mut i: usize = 0;
    while i < count
        invariant
            i <= count <= words@.len(),
            region@.len() == old(region)@.len(),
            region@.len() <= usize::MAX,
            at + 4 * count <= region@.len(),
            region@ == patched(old(region)@, at as int, words_le(words@.take(i as int))),
        decreases count - i,
    {
        let ghost before = region@;
        write_u32(region, at + 4 * i, words[i]);
        i += 1;
        assert(region@ =~= patched(old(region)@, at as int, words_le(words@.take(i as int)))) by {
            let done = words_le(words@.take(i - 1));
            let next = words_le(words@.take(i as int));
            assert forall|k: int| 0 <= k < region@.len() implies region@[k] == patched(
                old(region)@,
                at as int,
                next,
            )[k] by {
                if at <= k < at + 4 * (i - 1) {
                    assert(before[k] == done[k - at]);
                    assert(words@.take(i - 1)[(k - at) / 4] == words@.take(i as int)[(k - at)
                        / 4]);
                } else if at + 4 * (i - 1) <= k < at + 4 * i {
                    assert((k - at) / 4 == i - 1);
                    assert((k - at) % 4 == k - (at + 4 * (i - 1)));
                }
            }
        }
    }
}

/// Appends `src` to `buf`.
pub fn append(buf: &mut Vec<u8>, src: &[u8])
    ensures
        final(buf)@ == old(buf)@ + src@,
{
    let mut i: usize = 0;
    while i < src.len()
        invariant
            i <= src@.len(),
            buf@ == old(buf)@ + src@.subrange(0, i as int),
        decreases src@.len() - i,
    {
        buf.push(src[i]);
        i += 1;
        assert(buf@ =~= old(buf)@ + src@.subrange(0, i as int));
    }
    assert(src@.subrange(0, i as int) =~= src@);
}

/// How many bytes stand before the first NUL of `field`; its whole length
/// where it holds none.
pub open spec fn text_len(field: Seq<u8>) -> nat
    decreases field.len(),
{
    if field.len() == 0 || field[0] == 0 {
        0
    } else {
        1 + text_len(field.drop_first())
    }
}

/// What a receiver reads out of a fixed-width field: the bytes up to the
/// first NUL, or the entire field.
pub open spec fn field_text(field: Seq<u8>) -> Seq<u8> {
    field.subrange(0, text_len(field) as int)
}

/// A field of `width` bytes as the sender fills it: `text` cut at
/// `width - 1` bytes, then NUL up to the end.
pub open spec fn fixed_field(text: Seq<u8>, width: nat) -> Seq<u8> {
    Seq::new(width, |i: int| if i < text.len() && i < width - 1 { text[i] } else { 0u8 })
}

/// `text` cut to at most `limit` bytes.
pub open spec fn truncated(text: Seq<u8>, limit: nat) -> Seq<u8> {
    if text.len() <= limit {
        text
    } else {
        text.subrange(0, limit as int)
    }
}

/// No byte of `text` is NUL.
pub open spec fn nul_free(text: Seq<u8>) -> bool {
    forall|i: int| 0 <= i < text.len() ==> text[i] != 0
}

/// `text_len` is the one position that has only non-NUL bytes before it and
/// either a NUL or the end of the field at it.
pub proof fn lemma_text_len(field: Seq<u8>)
    ensures
        text_len(field) <= field.len(),
        forall|i: int| 0 <= i < text_len(field) ==> field[i] != 0,
        text_len(field) < field.len() ==> field[text_len(field) as int] == 0,
    decreases field.len(),
{
    if field.len() == 0 || field[0] == 0 {
    } else {
        let rest = field.drop_first();
        lemma_text_len(rest);
        assert forall|i: int| 0 <= i < text_len(field) implies field[i] != 0 by {
            if i > 0 {
                assert(field[i] == rest[i - 1]);
            }
        }
        if text_len(field) < field.len() {
            assert(field[text_len(field) as int] == rest[text_len(rest) as int]);
        }
    }
}

/// A position with only non-NUL bytes before it, and a NUL or the end of
/// the field at it, is `text_len`.
pub proof fn lemma_text_len_is(field: Seq<u8>, n: nat)
    requires
        n <= field.len(),
        forall|i: int| 0 <= i < n ==> field[i] != 0,
        n < field.len() ==> field[n as int] == 0,
    ensures
        text_len(field) == n,
    decreases field.len(),
{
    if field.len() == 0 || field[0] == 0 {
    } else {
        let rest = field.drop_first();
        assert forall|i: int| 0 <= i < n - 1 implies rest[i] != 0 by {
            assert(rest[i] == field[i + 1]);
        }
        lemma_text_len_is(rest, (n - 1) as nat);
    }
}

/// Reading a field that was filled from `text` gives back `text` cut at
/// `width - 1` bytes, where that holds no NUL.
pub proof fn lemma_field_round_trip(text: Seq<u8>, width: nat)
    requires
        width >= 1,
        nul_free(truncated(text, (width - 1) as nat)),
    ensures
        field_text(fixed_field(text, width)) == truncated(text, (width - 1) as nat),
{
    let kept = truncated(text, (width - 1) as nat);
    let field = fixed_field(text, width);
    assert forall|i: int| 0 <= i < kept.len() implies field[i] != 0 by {
        assert(field[i] == kept[i]);
    }
    lemma_text_len_is(field, kept.len());
    assert(field_text(field) =~= kept);
}

/// The length of the text in `field`.
pub fn text_end(field: &[u8]) -> (n: usize)
    ensures
        n == text_len(field@),
{
    let mut i: usize = 0;
    while i < field.len() && field[i] != 0
        invariant
            i <= field@.len(),
            forall|j: int| 0 <= j < i ==> field@[j] != 0,
        decreases field@.len() - i,
    {
        i += 1;
    }
    proof {
        lemma_text_len_is(field@, i as nat);
    }
    i
}

/// Fills `field` from `text`: as much of it as leaves one NUL at the end,
/// then NUL bytes.
pub fn fill_field(field: &mut [u8], text: &[u8])
    ensures
        final(field)@ == fixed_field(text@, old(field)@.len()),
{
    let width: usize = field.len();
    let mut i: usize = 0;
    while i < width
        invariant
            width == old(field)@.len(),
            field@.len() == width,
            i <= width,
            forall|j: int| 0 <= j < i ==> field@[j] == fixed_field(text@, width as nat)[j],
        decreases width - i,
    {
        if i < text.len() && i < width - 1 {
            field[i] = text[i];
        } else {
            field[i] = 0;
        }
        i += 1;
    }
    assert(field@ =~= fixed_field(text@, width as nat));
}

} // verus!
