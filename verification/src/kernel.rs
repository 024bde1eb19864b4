//! What the two device programs compute, stated on the host. Each invocation
//! works on the one element at its own index; unsigned arithmetic on the
//! device wraps around at 32 bits.

use vstd::prelude::*;
use crate::buffer::{number_seed, rect_seed, BUFFER_LEN};
use crate::rect::Rect;

verus! {

/// The factor by which the first program scales each number.
pub const SCALE: u32 = 12;

/// One invocation of the first program: the element times twelve, modulo 2^32.
pub open spec fn scaled(x: u32) -> u32 {
    ((x * SCALE) % 0x1_0000_0000) as u32
}

/// One invocation of the second program: `pos_x` times two, modulo 2^32, the
/// other three fields as they were.
pub open spec fn doubled(r: Rect) -> Rect {
    Rect { pos_x: ((r.pos_x * 2) % 0x1_0000_0000) as u32, ..r }
}

/// The first program's buffer after a dispatch over all of `s`.
pub open spec fn scaled_all(s: Seq<u32>) -> Seq<u32> {
    Seq::new(s.len(), |i: int| scaled(s[i]))
}

/// The second program's buffer after a dispatch over all of `s`.
pub open spec fn doubled_all(s: Seq<Rect>) -> Seq<Rect> {
    Seq::new(s.len(), |i: int| doubled(s[i]))
}

/// Scales one number as one invocation of the first program does.
pub fn scale(x: u32) -> (y: u32)
    ensures
        y == scaled(x),
{
    x.wrapping_mul(SCALE)
}

/// Changes one record as one invocation of the second program does.
pub fn double_pos_x(r: Rect) -> (out: Rect)
    ensures
        out == doubled(r),
{
    Rect { pos_x: r.pos_x.wrapping_mul(2), pos_y: r.pos_y, width: r.width, height: r.height }
}

/// Runs the first program over the whole of `buf`: every element is scaled
/// once, in place; none moves, none is added or lost.
pub fn scale_all(buf: &mut Vec<u32>)
    ensures
        final(buf)@ == scaled_all(old(buf)@),
{
    let mut i: usize = 0;
    while i < buf.len()
        invariant
            i <= buf@.len(),
            buf@.len() == old(buf)@.len(),
            forall|j: int| 0 <= j < i ==> buf@[j] == scaled(old(buf)@[j]),
            forall|j: int| i <= j < buf@.len() ==> buf@[j] == old(buf)@[j],
        decreases buf@.len() - i,
    {
        let y = scale(buf[i]);
        buf.set(i, y);
        i += 1;
    }
}

/// Runs the second program over the whole of `buf`: `pos_x` of every record is
/// doubled once, in place; none moves, none is added or lost.
pub fn double_all(buf: &mut Vec<Rect>)
    ensures
        final(buf)@ == doubled_all(old(buf)@),
{
    let mut i: usize = 0;
    while i < buf.len()
        invariant
            i <= buf@.len(),
            buf@.len() == old(buf)@.len(),
            forall|j: int| 0 <= j < i ==> buf@[j] == doubled(old(buf)@[j]),
            forall|j: int| i <= j < buf@.len() ==> buf@[j] == old(buf)@[j],
        decreases buf@.len() - i,
    {
        let out = double_pos_x(buf[i]);
        buf.set(i, out);
        i += 1;
    }
}

/// After the first program has run on its starting buffer, the element at
/// every index is exactly twelve times the index: nothing wraps in that range.
pub proof fn lemma_numbers_after_dispatch(i: int)
    requires
        0 <= i < BUFFER_LEN,
    ensures
        scaled_all(number_seed())[i] == i * 12,
{
}

/// After the second program has run on its starting buffer, `pos_x` at every
/// index is exactly twice the derived `pos_x`, and `pos_y`, `width` and
/// `height` are the derived values, unchanged.
pub proof fn lemma_rects_after_dispatch(i: int)
    requires
        0 <= i < BUFFER_LEN,
    ensures
        doubled_all(rect_seed())[i].pos_x == 2 * Rect::derived(i).pos_x,
        doubled_all(rect_seed())[i].pos_y == Rect::derived(i).pos_y,
        doubled_all(rect_seed())[i].width == Rect::derived(i).width,
        doubled_all(rect_seed())[i].height == Rect::derived(i).height,
{
}

/// Both buffers hold exactly 1024 elements before and after a dispatch, and a
/// dispatch takes the element at each index to the element at the same index.
pub proof fn lemma_dispatch_keeps_shape(numbers: Seq<u32>, rects: Seq<Rect>)
    ensures
        number_seed().len() == 1024,
        rect_seed().len() == 1024,
        scaled_all(number_seed()).len() == 1024,
        doubled_all(rect_seed()).len() == 1024,
        scaled_all(numbers).len() == numbers.len(),
        doubled_all(rects).len() == rects.len(),
        forall|i: int| 0 <= i < numbers.len() ==> #[trigger] scaled_all(numbers)[i] == scaled(numbers[i]),
        forall|i: int| 0 <= i < rects.len() ==> #[trigger] doubled_all(rects)[i] == doubled(rects[i]),
{
}

} // verus!
