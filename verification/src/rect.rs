//! The record that the second program keeps in its buffer.

use vstd::prelude::*;
use crate::mix::{mix, sheeeech};

verus! {

/// A rectangle of four unsigned 32-bit fields, in the order in which the device
/// program declares them.
#[derive(Clone, Copy, Debug, PartialEq, Eq, Structural)]
pub struct Rect {
    pub pos_x: u32,
    pub pos_y: u32,
    pub width: u32,
    pub height: u32,
}

impl Rect {
    /// The record of the number `n`: the mixing step applied to `n` gives
    /// `pos_x`, and each further field is the mixing step applied to the field
    /// before it.
    pub open spec fn derived(n: int) -> Rect {
        let pos_x = mix(n);
        let pos_y = mix(pos_x);
        let width = mix(pos_y);
        let height = mix(width);
        Rect { pos_x: pos_x as u32, pos_y: pos_y as u32, width: width as u32, height: height as u32 }
    }

    /// Derives the record of `n`.
    pub fn from_number(n: u32) -> (r: Rect)
        ensures
            r == Rect::derived(n as int),
    {
        let pos_x = sheeeech(n);
        let pos_y = sheeeech(pos_x);
        let width = sheeeech(pos_y);
        let height = sheeeech(width);
        Rect { pos_x, pos_y, width, height }
    }

    /// The record as the device program reads it: four 32-bit words, the
    /// fields in the order of their declaration.
    pub open spec fn words(self) -> Seq<u32> {
        seq![self.pos_x, self.pos_y, self.width, self.height]
    }

    /// The record that the device program sees in the four words `w`.
    pub open spec fn of_words(w: Seq<u32>) -> Rect {
        Rect { pos_x: w[0], pos_y: w[1], width: w[2], height: w[3] }
    }

    /// Lays the record out for the device.
    pub fn to_words(&self) -> (w: [u32; 4])
        ensures
            w@ == self.words(),
    {
        [self.pos_x, self.pos_y, self.width, self.height]
    }

    /// Reads a record back from the device's layout.
    pub fn from_words(w: &[u32; 4]) -> (r: Rect)
        ensures
            r == Rect::of_words(w@),
    {
        Rect { pos_x: w[0], pos_y: w[1], width: w[2], height: w[3] }
    }
}

/// The two layouts agree: a record laid out for the device and read back is
/// the same record, and four words read as a record and laid out again are the
/// same four words.
pub proof fn lemma_words_round_trip(r: Rect, w: Seq<u32>)
    requires
        w.len() == 4,
    ensures
        r.words().len() == 4,
        Rect::of_words(r.words()) == r,
        Rect::of_words(w).words() == w,
{
    assert(Rect::of_words(w).words() =~= w);
}

/// Every field of a derived record lies in `[0, 128)`, and the fields are
/// chained: each one after `pos_x` is the mixing step of its predecessor.
pub proof fn lemma_derived_fields(n: int)
    ensures
        Rect::derived(n).pos_x == mix(n),
        Rect::derived(n).pos_y == mix(Rect::derived(n).pos_x as int),
        Rect::derived(n).width == mix(Rect::derived(n).pos_y as int),
        Rect::derived(n).height == mix(Rect::derived(n).width as int),
        Rect::derived(n).pos_x < 128,
        Rect::derived(n).pos_y < 128,
        Rect::derived(n).width < 128,
        Rect::derived(n).height < 128,
{
}

/// Derivation is a function of the number alone: two records derived from the
/// same number are the same in all four fields.
pub proof fn lemma_derivation_deterministic(i: u32, first: Rect, second: Rect)
    requires
        first == Rect::derived(i as int),
        second == Rect::derived(i as int),
    ensures
        first == second,
        first.pos_x == second.pos_x,
        first.pos_y == second.pos_y,
        first.width == second.width,
        first.height == second.height,
{
}

} // verus!
