//! Geometry of the dispatch: how many work groups of the size that the device
//! programs declare make one invocation for each element of a buffer.

use vstd::prelude::*;
use crate::buffer::BUFFER_LEN;

verus! {

/// Invocations per work group, as both device programs declare it.
pub const LOCAL_SIZE: u32 = 64;

/// Work groups in one dispatch.
pub const WORK_GROUPS: u32 = 16;

/// The global index of the invocation at place `local` of work group `group`.
pub open spec fn invocation(group: int, local: int) -> int {
    group * LOCAL_SIZE + local
}

/// `group` and `local` name an invocation of the dispatch.
pub open spec fn in_dispatch(group: int, local: int) -> bool {
    0 <= group < WORK_GROUPS && 0 <= local < LOCAL_SIZE
}

/// The work-group counts to hand to the device, one per dimension. The buffers
/// have one dimension, so the second and third counts are one; the first makes
/// as many invocations as a buffer has elements.
pub fn work_groups() -> (dims: [u32; 3])
    ensures
        dims@ == seq![WORK_GROUPS, 1u32, 1u32],
        dims[0] * LOCAL_SIZE == BUFFER_LEN,
{
    [WORK_GROUPS, 1, 1]
}

/// Every invocation of the dispatch falls on an index of the buffer.
pub proof fn lemma_invocation_in_buffer(group: int, local: int)
    requires
        in_dispatch(group, local),
    ensures
        0 <= invocation(group, local) < BUFFER_LEN,
{
}

/// Every index of the buffer gets one invocation and no second one.
pub proof fn lemma_one_invocation_per_index(i: int)
    requires
        0 <= i < BUFFER_LEN,
    ensures
        in_dispatch(i / 64, i % 64),
        invocation(i / 64, i % 64) == i,
        forall|group: int, local: int|
            in_dispatch(group, local) && #[trigger] invocation(group, local) == i ==> group == i / 64
                && local == i % 64,
{
}

} // verus!
