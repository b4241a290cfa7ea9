//! The luminance ramp: a fixed run of glyphs, densest first, and the rule
//! that quantizes a pixel's brightness into one of them.

use vstd::prelude::*;

verus! {

/// The glyphs of the standard ramp, from the visually densest to the sparsest.
pub const BRIGHTNESS: &'static str = "Ñ@#W$9876543210?!abc;:+=-,._      ";

/// Number of glyphs in [`BRIGHTNESS`].
pub const BRIGHTNESS_LEN: usize = 34;

/// Sum of the three colour channels of a pixel, from 0 to 765; a third
/// of it is the pixel's luminance on the scale from 0 to 255.
pub open spec fn channel_sum(r: u8, g: u8, b: u8) -> int {
    r as int + g as int + b as int
}

/// The step of a ramp of `len` glyphs that lies nearest to the luminance
/// `sum / 3`, scaled from the range 0 to 255 onto the steps 0 to `len - 1`.
///
/// In exact arithmetic this is `sum * (len - 1) / 765` rounded to the
/// nearest integer. No luminance falls halfway between two steps, see
/// [`lemma_step_is_nearest`].
pub open spec fn ramp_step(sum: int, len: int) -> int {
    (2 * (sum * (len - 1)) + 765) / 1530
}

/// The place in a ramp of `len` glyphs that a pixel with the given channel
/// sum selects: the ramp is walked from its far end, so that step 0 takes
/// the last glyph.
pub open spec fn ramp_position(sum: int, len: int) -> int {
    len - 1 - ramp_step(sum, len)
}

proof fn lemma_scaled_bounds(sum: int, len: int)
    requires
        0 <= sum <= 765,
        1 <= len,
    ensures
        0 <= sum * (len - 1) <= 765 * (len - 1),
{
    assert(0 <= sum * (len - 1) <= 765 * (len - 1)) by (nonlinear_arith)
        requires
            0 <= sum <= 765,
            0 <= len - 1,
    ;
}

/// A ramp step never leaves the ramp: for every luminance the step, and
/// with it the selected position, is a valid index into a ramp of `len`
/// glyphs.
pub proof fn lemma_step_in_bounds(sum: int, len: int)
    requires
        0 <= sum <= 765,
        1 <= len,
    ensures
        0 <= ramp_step(sum, len) <= len - 1,
        0 <= ramp_position(sum, len) <= len - 1,
{
    lemma_scaled_bounds(sum, len);
}

/// The ramp step is the integer nearest to the scaled luminance
/// `sum * (len - 1) / 765`: the two differ by less than one half. The
/// inequalities are strict, so rounding never has to break a tie.
pub proof fn lemma_step_is_nearest(sum: int, len: int)
    requires
        0 <= sum <= 765,
        1 <= len,
    ensures
        -765 < 2 * (sum * (len - 1)) - 1530 * ramp_step(sum, len) < 765,
{
    lemma_scaled_bounds(sum, len);
    let p = sum * (len - 1);
    // 2 * p is even and 765 is odd, so 2 * p + 765 is no multiple of 1530.
    assert((2 * p + 765) % 1530 != 0);
}

/// Brightness and ramp step rise together: a pixel that is at least as
/// bright as another takes a step at least as high, and hence a position
/// at least as near to the front of the ramp, where the denser glyphs
/// stand.
pub proof fn lemma_step_monotonic(dim: int, bright: int, len: int)
    requires
        0 <= dim <= bright <= 765,
        1 <= len,
    ensures
        ramp_step(dim, len) <= ramp_step(bright, len),
        ramp_position(bright, len) <= ramp_position(dim, len),
{
    assert(dim * (len - 1) <= bright * (len - 1)) by (nonlinear_arith)
        requires
            dim <= bright,
            0 <= len - 1,
    ;
}

/// A luminance ramp: at least one glyph, the densest first.
#[derive(Debug, PartialEq, Eq)]
pub struct Ramp {
    glyphs: Vec<char>,
}

impl View for Ramp {
    type V = Seq<char>;

    closed spec fn view(&self) -> Seq<char> {
        self.glyphs@
    }
}

impl Clone for Ramp {
    fn clone(&self) -> (copy: Self)
        ensures
            copy@ == self@,
    {
        proof {
            use_type_invariant(self);
        }
        let glyphs = self.glyphs.clone();
        Ramp { glyphs }
    }
}

impl Ramp {
    #[verifier::type_invariant]
    spec fn nonempty(self) -> bool {
        self.glyphs@.len() >= 1
    }

    /// The standard ramp, holding the glyphs of [`BRIGHTNESS`] in order.
    pub fn standard() -> (ramp: Ramp)
        ensures
            ramp@ == BRIGHTNESS@,
            ramp@.len() == BRIGHTNESS_LEN,
    {
        proof {
            reveal_strlit("Ñ@#W$9876543210?!abc;:+=-,._      ");
        }
        let mut glyphs: Vec<char> = Vec::new();
        let mut i: usize = 0;
        while i < BRIGHTNESS_LEN
            invariant
                i <= BRIGHTNESS_LEN,
                BRIGHTNESS@.len() == BRIGHTNESS_LEN,
                glyphs@ == BRIGHTNESS@.subrange(0, i as int),
            decreases BRIGHTNESS_LEN - i,
        {
            glyphs.push(BRIGHTNESS.get_char(i));
            i += 1;
        }
        Ramp { glyphs }
    }

    /// A ramp of the given glyphs, densest first; `None` when there are
    /// none, since a ramp must offer at least one glyph.
    pub fn from_glyphs(glyphs: Vec<char>) -> (made: Option<Ramp>)
        ensures
            made is None <==> glyphs@.len() == 0,
            made matches Some(ramp) ==> ramp@ == glyphs@,
    {
        if glyphs.len() == 0 {
            None
        } else {
            Some(Ramp { glyphs })
        }
    }

    /// Number of glyphs, never zero.
    pub fn len(&self) -> (n: usize)
        ensures
            n == self@.len(),
            n >= 1,
    {
        proof {
            use_type_invariant(self);
        }
        self.glyphs.len()
    }

    /// The glyph at `position`, counted from the dense end.
    pub fn glyph_at(&self, position: usize) -> (glyph: char)
        requires
            position < self@.len(),
        ensures
            glyph == self@[position as int],
    {
        self.glyphs[position]
    }

    /// The ramp step for a pixel of the given colour: its luminance, the
    /// mean of the three channels, scaled onto the steps of this ramp and
    /// rounded to the nearest one. The step is always a valid index.
    pub fn step_for(&self, r: u8, g: u8, b: u8) -> (step: usize)
        ensures
            step == ramp_step(channel_sum(r, g, b), self@.len() as int),
            step < self@.len(),
    {
        proof {
            use_type_invariant(self);
            lemma_step_in_bounds(channel_sum(r, g, b), self@.len() as int);
            lemma_scaled_bounds(channel_sum(r, g, b), self@.len() as int);
        }
        let sum: u128 = r as u128 + g as u128 + b as u128;
        let span: u128 = (self.glyphs.len() - 1) as u128;
        let scaled: u128 = sum * span;
        ((2 * scaled + 765) / 1530) as usize
    }

    /// The glyph for a pixel of the given colour: the ramp is read from
    /// its far end, so step 0 selects the last glyph and the highest step
    /// the first.
    pub fn glyph_for(&self, r: u8, g: u8, b: u8) -> (glyph: char)
        ensures
            0 <= ramp_position(channel_sum(r, g, b), self@.len() as int) < self@.len(),
            glyph == self@[ramp_position(channel_sum(r, g, b), self@.len() as int)],
    {
        let step = self.step_for(r, g, b);
        self.glyphs[self.glyphs.len() - 1 - step]
    }
}

} // verus!
