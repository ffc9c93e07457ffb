//! The calls into bracket-lib that the game's rules make: random numbers,
//! the code-page-437 glyph table, and colour pairs.

use vstd::prelude::*;
use bracket_lib::prelude::{to_cp437, ColorPair, RandomNumberGenerator};

verus! {

/// A pair of colours, foreground and background (bracket-lib).
#[verifier::external_type_specification]
#[verifier::external_body]
pub struct ExColorPair(ColorPair);

/// bracket-lib's random number generator.
#[verifier::external_type_specification]
#[verifier::external_body]
pub struct ExRandomNumberGenerator(RandomNumberGenerator);

/// White, as red, green and blue.
pub const WHITE: (u8, u8, u8) = (255, 255, 255);
/// Black, as red, green and blue.
pub const BLACK: (u8, u8, u8) = (0, 0, 0);

/// The glyph that bracket-lib's `to_cp437` gives a character.
pub uninterp spec fn cp437(c: char) -> u16;

/// Calls bracket-lib's `to_cp437`, a fixed table from characters to
/// code-page-437 glyphs. Its result is named `cp437`; beside that, the table
/// maps each printable ASCII character (' ' to '~') to its own code.
#[verifier::external_body]
pub(crate) fn glyph_of(c: char) -> (g: u16)
    ensures
        g == cp437(c),
        ' ' <= c <= '~' ==> g == c as u16,
{
    to_cp437(c)
}

/// Calls bracket-lib's `ColorPair::new` on two colours given as red, green
/// and blue. The pair is opaque here: nothing is stated of it.
#[verifier::external_body]
pub(crate) fn color_pair(fg: (u8, u8, u8), bg: (u8, u8, u8)) -> ColorPair {
    ColorPair::new(fg, bg)
}

/// Calls bracket-lib's `RandomNumberGenerator::range`, which draws a number
/// from `min` (included) to `max` (excluded). Which number comes out depends
/// on the generator's state, so only the range is stated; the generator
/// panics on an empty range, which `requires` leaves out.
#[verifier::external_body]
pub(crate) fn rng_range(rng: &mut RandomNumberGenerator, min: i32, max: i32) -> (r: i32)
    requires
        min < max,
    ensures
        min <= r < max,
{
    rng.range(min, max)
}

/// A generator seeded from the clock (bracket-lib's
/// `RandomNumberGenerator::new`). Nothing is stated of its state.
#[verifier::external_body]
pub(crate) fn new_rng() -> RandomNumberGenerator {
    RandomNumberGenerator::new()
}

} // verus!
