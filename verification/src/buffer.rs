//! The contents with which the two buffers start.

use vstd::prelude::*;
use crate::rect::Rect;

verus! {

/// Number of elements in either buffer.
pub const BUFFER_LEN: usize = 1024;

/// The first program's buffer before the dispatch: the numbers from zero up, in
/// order, one per index.
pub open spec fn number_seed() -> Seq<u32> {
    Seq::new(BUFFER_LEN as nat, |i: int| i as u32)
}

/// The second program's buffer before the dispatch: at each index the record
/// derived from that index.
pub open spec fn rect_seed() -> Seq<Rect> {
    Seq::new(BUFFER_LEN as nat, |i: int| Rect::derived(i))
}

/// Builds the first program's starting buffer.
pub fn seed_numbers() -> (buf: Vec<u32>)
    ensures
        buf@ == number_seed(),
{
    let mut buf: Vec<u32> = Vec::with_capacity(BUFFER_LEN);
    let mut n: usize = 0;
    while n < BUFFER_LEN
        invariant
            n <= BUFFER_LEN,
            buf@.len() == n,
            forall|i: int| 0 <= i < n ==> buf@[i] == i,
        decreases BUFFER_LEN - n,
    {
        buf.push(n as u32);
        n += 1;
    }
    buf
}

/// Builds the second program's starting buffer.
pub fn seed_rects() -> (buf: Vec<Rect>)
    ensures
        buf@ == rect_seed(),
{
    let mut buf: Vec<Rect> = Vec::with_capacity(BUFFER_LEN);
    let mut n: usize = 0;
    while n < BUFFER_LEN
        invariant
            n <= BUFFER_LEN,
            buf@.len() == n,
            forall|i: int| 0 <= i < n ==> buf@[i] == Rect::derived(i),
        decreases BUFFER_LEN - n,
    {
        buf.push(Rect::from_number(n as u32));
        n += 1;
    }
    buf
}

} // verus!
