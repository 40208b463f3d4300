//! Artwork of the heads-up display, as pixel data ready to be streamed: two
//! pixels of four bits per colour channel in every three bytes, rows from
//! top to bottom, every glyph eight pixels high.

use vstd::prelude::*;
use vstd::slice::slice_subrange;

verus! {

/// Height of every glyph in pixels.
pub const TEXT_HEIGHT: u8 = 8;

/// Width of one digit in pixels.
pub const NUMBER_CHAR_WIDTH: u8 = 4;

/// Width of the word "SCORE" in pixels.
pub const SCORE_TEXT_WIDTH: u8 = 24;

/// Width of the word "LEVEL" in pixels. Its artwork carries one blank
/// column more, so that every row holds a whole number of pixel pairs.
pub const LEVEL_TEXT_WIDTH: u8 = 25;

/// Number of bytes in the artwork of one digit.
pub const BYTES_IN_NUM_TEXT: usize = 48;

/// The word "LEVEL", twenty-six pixels wide.
pub const LEVEL_TEXT: [u8; 312] = [
    0xF0, 0x0F, 0xFF, 0xFF, 0xFF, 0xFF, 0xFF, 0xFF, 0x00, 0xF0, 0x0F, 0x00, 0xF0, 0x0F, 0xFF, 0xF0, 0x0F, 0xFF, 0xFF, 0xFF, 0xFF, 0xF0, 0x0F, 0xFF, 0xF0, 0x0F, 0x00, 0xF0, 0x0F, 0x00, 0xFF, 0xFF, 0x00, 0xFF, 0xFF, 0xFF, 0xFF, 0xFF, 0xFF,
    0xF0, 0x0F, 0xFF, 0xFF, 0xFF, 0xFF, 0xFF, 0xFF, 0x00, 0xFF, 0xFF, 0xFF, 0xFF, 0xFF, 0xFF, 0xF0, 0x0F, 0xFF, 0xFF, 0xFF, 0xFF, 0xF0, 0x0F, 0xFF, 0xF0, 0x0F, 0xFF, 0xFF, 0xFF, 0xFF, 0xFF, 0xFF, 0x00, 0xFF, 0xFF, 0xFF, 0xFF, 0xFF, 0xFF,
    0xF0, 0x0F, 0xFF, 0xFF, 0xFF, 0xFF, 0xFF, 0xFF, 0x00, 0xFF, 0xFF, 0xFF, 0xFF, 0xFF, 0xFF, 0xF0, 0x0F, 0xFF, 0xFF, 0xFF, 0xFF, 0xF0, 0x0F, 0xFF, 0xF0, 0x0F, 0xFF, 0xFF, 0xFF, 0xFF, 0xFF, 0xFF, 0x00, 0xFF, 0xFF, 0xFF, 0xFF, 0xFF, 0xFF,
    0xF0, 0x0F, 0xFF, 0xFF, 0xFF, 0xFF, 0xFF, 0xFF, 0x00, 0xF0, 0x0F, 0xFF, 0xFF, 0xFF, 0xFF, 0xF0, 0x0F, 0xFF, 0xFF, 0xFF, 0xFF, 0xF0, 0x0F, 0xFF, 0xF0, 0x0F, 0x00, 0xFF, 0xFF, 0xFF, 0xFF, 0xFF, 0x00, 0xFF, 0xFF, 0xFF, 0xFF, 0xFF, 0xFF,
    0xF0, 0x0F, 0xFF, 0xFF, 0xFF, 0xFF, 0xFF, 0xFF, 0x00, 0xFF, 0xFF, 0xFF, 0xFF, 0xFF, 0xFF, 0xF0, 0x0F, 0xFF, 0xFF, 0xFF, 0xFF, 0xF0, 0x0F, 0xFF, 0xF0, 0x0F, 0xFF, 0xFF, 0xFF, 0xFF, 0xFF, 0xFF, 0x00, 0xFF, 0xFF, 0xFF, 0xFF, 0xFF, 0xFF,
    0xF0, 0x0F, 0xFF, 0xFF, 0xFF, 0xFF, 0xFF, 0xFF, 0x00, 0xFF, 0xFF, 0xFF, 0xFF, 0xFF, 0xFF, 0xFF, 0xFF, 0x00, 0xFF, 0xFF, 0x00, 0xFF, 0xFF, 0xFF, 0xF0, 0x0F, 0xFF, 0xFF, 0xFF, 0xFF, 0xFF, 0xFF, 0x00, 0xFF, 0xFF, 0xFF, 0xFF, 0xFF, 0xFF,
    0xF0, 0x0F, 0xFF, 0xFF, 0xFF, 0xFF, 0xFF, 0xFF, 0x00, 0xFF, 0xFF, 0xFF, 0xFF, 0xFF, 0xFF, 0xFF, 0xFF, 0x00, 0xFF, 0xFF, 0x00, 0xFF, 0xFF, 0xFF, 0xF0, 0x0F, 0xFF, 0xFF, 0xFF, 0xFF, 0xFF, 0xFF, 0x00, 0xFF, 0xFF, 0xFF, 0xFF, 0xFF, 0xFF,
    0xF0, 0x0F, 0x00, 0xF0, 0x0F, 0x00, 0xFF, 0xFF, 0x00, 0xF0, 0x0F, 0x00, 0xF0, 0x0F, 0xFF, 0xFF, 0xFF, 0xFF, 0xF0, 0x0F, 0xFF, 0xFF, 0xFF, 0xFF, 0xF0, 0x0F, 0x00, 0xF0, 0x0F, 0x00, 0xFF, 0xFF, 0x00, 0xF0, 0x0F, 0x00, 0xF0, 0x0F, 0xFF,
];

/// The word "SCORE", twenty-four pixels wide.
pub const SCORE_TEXT: [u8; 288] = [
    0xFF, 0xFF, 0x00, 0xF0, 0x0F, 0xFF, 0xFF, 0xFF, 0xFF, 0xF0, 0x0F, 0x00, 0xFF, 0xFF, 0xFF, 0xFF, 0xFF, 0x00, 0xF0, 0x0F, 0xFF, 0xFF, 0xFF, 0xFF, 0xF0, 0x0F, 0x00, 0xFF, 0xFF, 0xFF, 0xF0, 0x0F, 0x00, 0xF0, 0x0F, 0x00,
    0xF0, 0x0F, 0xFF, 0xFF, 0xFF, 0x00, 0xFF, 0xFF, 0x00, 0xFF, 0xFF, 0xFF, 0xF0, 0x0F, 0xFF, 0xF0, 0x0F, 0xFF, 0xFF, 0xFF, 0x00, 0xFF, 0xFF, 0x00, 0xFF, 0xFF, 0xFF, 0xF0, 0x0F, 0xFF, 0xF0, 0x0F, 0xFF, 0xFF, 0xFF, 0xFF,
    0xF0, 0x0F, 0xFF, 0xFF, 0xFF, 0xFF, 0xFF, 0xFF, 0x00, 0xFF, 0xFF, 0xFF, 0xFF, 0xFF, 0xFF, 0xF0, 0x0F, 0xFF, 0xFF, 0xFF, 0x00, 0xFF, 0xFF, 0x00, 0xFF, 0xFF, 0xFF, 0xF0, 0x0F, 0xFF, 0xF0, 0x0F, 0xFF, 0xFF, 0xFF, 0xFF,
    0xF0, 0x0F, 0xFF, 0xFF, 0xFF, 0xFF, 0xFF, 0xFF, 0x00, 0xFF, 0xFF, 0xFF, 0xFF, 0xFF, 0xFF, 0xF0, 0x0F, 0xFF, 0xFF, 0xFF, 0x00, 0xFF, 0xFF, 0x00, 0xFF, 0xFF, 0x00, 0xFF, 0xFF, 0xFF, 0xF0, 0x0F, 0x00, 0xFF, 0xFF, 0xFF,
    0xFF, 0xFF, 0x00, 0xF0, 0x0F, 0xFF, 0xFF, 0xFF, 0x00, 0xFF, 0xFF, 0xFF, 0xFF, 0xFF, 0xFF, 0xF0, 0x0F, 0xFF, 0xFF, 0xFF, 0x00, 0xFF, 0xFF, 0x00, 0xF0, 0x0F, 0x00, 0xFF, 0xFF, 0xFF, 0xF0, 0x0F, 0xFF, 0xFF, 0xFF, 0xFF,
    0xFF, 0xFF, 0xFF, 0xFF, 0xFF, 0x00, 0xFF, 0xFF, 0x00, 0xFF, 0xFF, 0xFF, 0xFF, 0xFF, 0xFF, 0xF0, 0x0F, 0xFF, 0xFF, 0xFF, 0x00, 0xFF, 0xFF, 0x00, 0xFF, 0xFF, 0xFF, 0xF0, 0x0F, 0xFF, 0xF0, 0x0F, 0xFF, 0xFF, 0xFF, 0xFF,
    0xF0, 0x0F, 0xFF, 0xFF, 0xFF, 0x00, 0xFF, 0xFF, 0x00, 0xFF, 0xFF, 0xFF, 0xF0, 0x0F, 0xFF, 0xF0, 0x0F, 0xFF, 0xFF, 0xFF, 0x00, 0xFF, 0xFF, 0x00, 0xFF, 0xFF, 0xFF, 0xF0, 0x0F, 0xFF, 0xF0, 0x0F, 0xFF, 0xFF, 0xFF, 0xFF,
    0xFF, 0xFF, 0x00, 0xF0, 0x0F, 0xFF, 0xFF, 0xFF, 0xFF, 0xF0, 0x0F, 0x00, 0xFF, 0xFF, 0xFF, 0xFF, 0xFF, 0x00, 0xF0, 0x0F, 0xFF, 0xFF, 0xFF, 0x00, 0xFF, 0xFF, 0xFF, 0xF0, 0x0F, 0xFF, 0xF0, 0x0F, 0x00, 0xF0, 0x0F, 0x00,
];

/// The digits `0` to `9`, one after the other, each four pixels wide.
pub const NUMBER_TEXT: [u8; 480] = [
    0xFF, 0xFF, 0x00, 0xF0, 0x0F, 0xFF,
    0xF0, 0x0F, 0xFF, 0xFF, 0xFF, 0x00,
    0xF0, 0x0F, 0xFF, 0xFF, 0xFF, 0x00,
    0xF0, 0x0F, 0xFF, 0xFF, 0xFF, 0x00,
    0xF0, 0x0F, 0xFF, 0xFF, 0xFF, 0x00,
    0xF0, 0x0F, 0xFF, 0xFF, 0xFF, 0x00,
    0xF0, 0x0F, 0xFF, 0xFF, 0xFF, 0x00,
    0xFF, 0xFF, 0x00, 0xF0, 0x0F, 0xFF,
    0xFF, 0xFF, 0xFF, 0xF0, 0x0F, 0xFF,
    0xFF, 0xFF, 0x00, 0xF0, 0x0F, 0xFF,
    0xFF, 0xFF, 0xFF, 0xF0, 0x0F, 0xFF,
    0xFF, 0xFF, 0xFF, 0xF0, 0x0F, 0xFF,
    0xFF, 0xFF, 0xFF, 0xF0, 0x0F, 0xFF,
    0xFF, 0xFF, 0xFF, 0xF0, 0x0F, 0xFF,
    0xFF, 0xFF, 0xFF, 0xF0, 0x0F, 0xFF,
    0xFF, 0xFF, 0x00, 0xF0, 0x0F, 0x00,
    0xFF, 0xFF, 0x00, 0xF0, 0x0F, 0xFF,
    0xF0, 0x0F, 0xFF, 0xFF, 0xFF, 0x00,
    0xFF, 0xFF, 0xFF, 0xFF, 0xFF, 0x00,
    0xFF, 0xFF, 0xFF, 0xFF, 0xFF, 0x00,
    0xFF, 0xFF, 0x00, 0xF0, 0x0F, 0xFF,
    0xF0, 0x0F, 0xFF, 0xFF, 0xFF, 0xFF,
    0xF0, 0x0F, 0xFF, 0xFF, 0xFF, 0xFF,
    0xF0, 0x0F, 0x00, 0xF0, 0x0F, 0x00,
    0xFF, 0xFF, 0x00, 0xF0, 0x0F, 0xFF,
    0xF0, 0x0F, 0xFF, 0xFF, 0xFF, 0x00,
    0xFF, 0xFF, 0xFF, 0xFF, 0xFF, 0x00,
    0xFF, 0xFF, 0xFF, 0xFF, 0xFF, 0x00,
    0xFF, 0xFF, 0xFF, 0xF0, 0x0F, 0xFF,
    0xFF, 0xFF, 0xFF, 0xFF, 0xFF, 0x00,
    0xF0, 0x0F, 0xFF, 0xFF, 0xFF, 0x00,
    0xFF, 0xFF, 0x00, 0xF0, 0x0F, 0xFF,
    0xFF, 0xFF, 0xFF, 0xF0, 0x0F, 0xFF,
    0xF0, 0x0F, 0xFF, 0xF0, 0x0F, 0xFF,
    0xF0, 0x0F, 0xFF, 0xF0, 0x0F, 0xFF,
    0xF0, 0x0F, 0xFF, 0xF0, 0x0F, 0xFF,
    0xF0, 0x0F, 0x00, 0xF0, 0x0F, 0x00,
    0xFF, 0xFF, 0xFF, 0xF0, 0x0F, 0xFF,
    0xFF, 0xFF, 0xFF, 0xF0, 0x0F, 0xFF,
    0xFF, 0xFF, 0xFF, 0xF0, 0x0F, 0xFF,
    0xF0, 0x0F, 0x00, 0xF0, 0x0F, 0x00,
    0xF0, 0x0F, 0xFF, 0xFF, 0xFF, 0xFF,
    0xF0, 0x0F, 0xFF, 0xFF, 0xFF, 0xFF,
    0xF0, 0x0F, 0xFF, 0xFF, 0xFF, 0xFF,
    0xFF, 0xFF, 0x00, 0xF0, 0x0F, 0xFF,
    0xFF, 0xFF, 0xFF, 0xFF, 0xFF, 0x00,
    0xF0, 0x0F, 0xFF, 0xFF, 0xFF, 0x00,
    0xFF, 0xFF, 0x00, 0xF0, 0x0F, 0xFF,
    0xFF, 0xFF, 0x00, 0xF0, 0x0F, 0xFF,
    0xF0, 0x0F, 0xFF, 0xFF, 0xFF, 0x00,
    0xF0, 0x0F, 0xFF, 0xFF, 0xFF, 0xFF,
    0xF0, 0x0F, 0x00, 0xF0, 0x0F, 0xFF,
    0xF0, 0x0F, 0xFF, 0xFF, 0xFF, 0x00,
    0xF0, 0x0F, 0xFF, 0xFF, 0xFF, 0x00,
    0xF0, 0x0F, 0xFF, 0xFF, 0xFF, 0x00,
    0xFF, 0xFF, 0x00, 0xF0, 0x0F, 0xFF,
    0xF0, 0x0F, 0x00, 0xF0, 0x0F, 0x00,
    0xFF, 0xFF, 0xFF, 0xFF, 0xFF, 0x00,
    0xFF, 0xFF, 0xFF, 0xFF, 0xFF, 0x00,
    0xFF, 0xFF, 0xFF, 0xF0, 0x0F, 0xFF,
    0xFF, 0xFF, 0x00, 0xFF, 0xFF, 0xFF,
    0xFF, 0xFF, 0x00, 0xFF, 0xFF, 0xFF,
    0xFF, 0xFF, 0x00, 0xFF, 0xFF, 0xFF,
    0xFF, 0xFF, 0x00, 0xFF, 0xFF, 0xFF,
    0xFF, 0xFF, 0x00, 0xF0, 0x0F, 0xFF,
    0xF0, 0x0F, 0xFF, 0xFF, 0xFF, 0x00,
    0xF0, 0x0F, 0xFF, 0xFF, 0xFF, 0x00,
    0xF0, 0x0F, 0xFF, 0xFF, 0xFF, 0x00,
    0xFF, 0xFF, 0x00, 0xF0, 0x0F, 0xFF,
    0xF0, 0x0F, 0xFF, 0xFF, 0xFF, 0x00,
    0xF0, 0x0F, 0xFF, 0xFF, 0xFF, 0x00,
    0xFF, 0xFF, 0x00, 0xF0, 0x0F, 0xFF,
    0xFF, 0xFF, 0x00, 0xF0, 0x0F, 0xFF,
    0xF0, 0x0F, 0xFF, 0xFF, 0xFF, 0x00,
    0xF0, 0x0F, 0xFF, 0xFF, 0xFF, 0x00,
    0xF0, 0x0F, 0xFF, 0xFF, 0xFF, 0x00,
    0xFF, 0xFF, 0x00, 0xF0, 0x0F, 0x00,
    0xFF, 0xFF, 0xFF, 0xFF, 0xFF, 0x00,
    0xF0, 0x0F, 0xFF, 0xFF, 0xFF, 0x00,
    0xFF, 0xFF, 0x00, 0xF0, 0x0F, 0xFF,
];

/// The artwork of the word "LEVEL".
#[verifier::opaque]
pub open spec fn level_glyph() -> Seq<u8> {
    LEVEL_TEXT@
}

/// The artwork of the word "SCORE".
#[verifier::opaque]
pub open spec fn score_glyph() -> Seq<u8> {
    SCORE_TEXT@
}

/// The artwork of one digit.
#[verifier::opaque]
pub open spec fn digit_glyph(digit: nat) -> Seq<u8> {
    NUMBER_TEXT@.subrange(digit * BYTES_IN_NUM_TEXT, (digit + 1) * BYTES_IN_NUM_TEXT)
}

/// Hands out the artwork of the word "LEVEL".
pub fn level_text() -> (glyph: &'static [u8])
    ensures
        glyph@ == level_glyph(),
{
    reveal(level_glyph);
    &LEVEL_TEXT
}

/// Hands out the artwork of the word "SCORE".
pub fn score_text() -> (glyph: &'static [u8])
    ensures
        glyph@ == score_glyph(),
{
    reveal(score_glyph);
    &SCORE_TEXT
}

/// Hands out the artwork of one digit.
pub fn number_text(digit: usize) -> (glyph: &'static [u8])
    requires
        digit <= 9,
    ensures
        glyph@ == digit_glyph(digit as nat),
{
    reveal(digit_glyph);
    slice_subrange(&NUMBER_TEXT, digit * BYTES_IN_NUM_TEXT, (digit + 1) * BYTES_IN_NUM_TEXT)
}

} // verus!
