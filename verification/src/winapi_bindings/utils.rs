use vstd::prelude::*;

verus! {

/// The `LPARAM` that carries `low` in its low word and `high` above it.
pub open spec fn lparam_of(low: i32, high: i32) -> isize {
    ((high as isize) << 16) | ((low as isize) & 0xFFFF)
}

/// Packs two words into an `LPARAM`. Only the low 16 bits of `low` are kept.
pub fn make_lparam(low: i32, high: i32) -> (r: isize)
    ensures
        r == lparam_of(low, high),
        0 <= low < 0x1_0000 && -0x8000 <= high < 0x8000 ==> r == high * 0x1_0000 + low,
{
    proof {
        lemma_lparam_of_words(low, high);
    }
    ((high as isize) << 16) | (low as isize & 0xFFFF)
}

/// The low word of a packed `LPARAM` is the low word of `low`, whatever
/// `high` is.
pub proof fn lemma_lparam_low_word(low: i32, high: i32)
    ensures
        lparam_of(low, high) & 0xFFFF == (low as isize) & 0xFFFF,
{
    assert((((high as isize) << 16) | ((low as isize) & 0xFFFF)) & 0xFFFF == (low as isize)
        & 0xFFFF) by (bit_vector);
}

/// A `high` that fits in a signed word is read back by shifting the packed
/// value right by 16.
pub proof fn lemma_lparam_high_word(low: i32, high: i32)
    requires
        -0x8000 <= high < 0x8000,
    ensures
        lparam_of(low, high) >> 16 == high,
{
    assert((((high as isize) << 16) | ((low as isize) & 0xFFFF)) >> 16 == high) by (bit_vector)
        requires
            -0x8000 <= high < 0x8000,
    ;
}

/// With `low` an unsigned word and `high` a signed word, packing is
/// `high * 65536 + low`.
pub proof fn lemma_lparam_of_words(low: i32, high: i32)
    ensures
        0 <= low < 0x1_0000 && -0x8000 <= high < 0x8000 ==> lparam_of(low, high) == high
            * 0x1_0000 + low,
{
    if 0 <= low < 0x1_0000 && -0x8000 <= high < 0x8000 {
        assert((((high as isize) << 16) | ((low as isize) & 0xFFFF)) == high * 0x1_0000 + low)
            by (bit_vector)
            requires
                0 <= low < 0x1_0000,
                -0x8000 <= high < 0x8000,
        ;
    }
}

/// The UTF-16 code units of a text, in order, without a byte-order mark.
pub uninterp spec fn utf16_of(text: Seq<char>) -> Seq<u16>;

/// `str::encode_utf16`, collected: the text as UTF-16 code units.
#[verifier::external_body]
fn encode_utf16(text: &str) -> (units: Vec<u16>)
    ensures
        units@ == utf16_of(text@),
{
    text.encode_utf16().collect()
}

/// The text as a wide string: its UTF-16 code units, closed by a zero.
pub fn to_wide_string(rust_string: &str) -> (wide: Vec<u16>)
    ensures
        wide@ == utf16_of(rust_string@).push(0),
{
    let mut wide = encode_utf16(rust_string);
    wide.push(0);
    wide
}

} // verus!
