//! Choice of the queue family on which a program runs: the first one of the
//! device that can execute graphics operations.

use vstd::prelude::*;
use vulkano::instance::PhysicalDevice;

verus! {

/// What the choice reads of one queue family: its identifier within the device
/// and whether its queues can execute graphics operations.
#[derive(Clone, Copy, Debug, PartialEq, Eq, Structural)]
pub struct QueueFamilyInfo {
    pub id: u32,
    pub graphics: bool,
}

/// `k` is the position of the first family in `families` that supports graphics.
pub open spec fn is_first_graphics(families: Seq<QueueFamilyInfo>, k: int) -> bool {
    &&& 0 <= k < families.len()
    &&& families[k].graphics
    &&& forall|j: int| 0 <= j < k ==> !(#[trigger] families[j]).graphics
}

/// The identifier of the first family in `families` that supports graphics, or
/// `None` where no family does.
pub open spec fn first_graphics(families: Seq<QueueFamilyInfo>) -> Option<u32> {
    if exists|k: int| is_first_graphics(families, k) {
        Some(families[choose|k: int| is_first_graphics(families, k)].id)
    } else {
        None
    }
}

/// At most one position is the first that supports graphics, so the position
/// determines the chosen identifier.
pub proof fn lemma_first_graphics_found(families: Seq<QueueFamilyInfo>, k: int)
    requires
        is_first_graphics(families, k),
    ensures
        first_graphics(families) == Some(families[k].id),
{
    let c = choose|c: int| is_first_graphics(families, c);
    assert(is_first_graphics(families, c));
    if c < k {
        assert(!families[c].graphics);
    } else if k < c {
        assert(!families[k].graphics);
    }
}

/// No family is chosen exactly when none supports graphics.
pub proof fn lemma_first_graphics_absent(families: Seq<QueueFamilyInfo>)
    ensures
        first_graphics(families) is None <==> forall|k: int|
            0 <= k < families.len() ==> !(#[trigger] families[k]).graphics,
{
    if first_graphics(families) is None {
        assert forall|k: int| 0 <= k < families.len() implies !(#[trigger] families[k]).graphics by {
            if families[k].graphics {
                lemma_some_first(families, k);
            }
        }
    } else {
        let c = choose|c: int| is_first_graphics(families, c);
        assert(families[c].graphics);
    }
}

/// Where some family up to position `k` supports graphics, some position is the
/// first that does.
proof fn lemma_some_first(families: Seq<QueueFamilyInfo>, k: int)
    requires
        0 <= k < families.len(),
        families[k].graphics,
    ensures
        exists|c: int| is_first_graphics(families, c),
    decreases k,
{
    if exists|j: int| 0 <= j < k && (#[trigger] families[j]).graphics {
        let j = choose|j: int| 0 <= j < k && (#[trigger] families[j]).graphics;
        lemma_some_first(families, j);
    } else {
        assert(is_first_graphics(families, k));
    }
}

/// Chooses among `families`, in the order in which the device lists them.
pub fn first_graphics_family(families: &Vec<QueueFamilyInfo>) -> (chosen: Option<u32>)
    ensures
        chosen == first_graphics(families@),
{
    let mut k: usize = 0;
    while k < families.len()
        invariant
            k <= families.len(),
            forall|j: int| 0 <= j < k ==> !(#[trigger] families@[j]).graphics,
        decreases families.len() - k,
    {
        if families[k].graphics {
            proof {
                lemma_first_graphics_found(families@, k as int);
            }
            return Some(families[k].id);
        }
        k += 1;
    }
    proof {
        lemma_first_graphics_absent(families@);
    }
    None
}

#[verifier::external_type_specification]
#[verifier::external_body]
pub struct ExPhysicalDevice<'a>(PhysicalDevice<'a>);

/// The queue families of a physical device, in the order in which the device
/// lists them. They are recorded when the instance is created and do not change
/// over the life of the value.
pub uninterp spec fn queue_families_of(device: PhysicalDevice) -> Seq<QueueFamilyInfo>;

/// Walks `PhysicalDevice::queue_families` and reads `QueueFamily::id` and
/// `QueueFamily::supports_graphics` of each family. The contract claims that
/// the families come out in the device's order, one entry each.
#[verifier::external_body]
fn list_queue_families(device: &PhysicalDevice) -> (families: Vec<QueueFamilyInfo>)
    ensures
        families@ == queue_families_of(*device),
{
    device.queue_families().map(|q| QueueFamilyInfo { id: q.id(), graphics: q.supports_graphics() }).collect()
}

/// The queue family of `device` on which the programs run: the first that
/// supports graphics. `None` where the device has no such family.
pub fn fit_queue_family(device: &PhysicalDevice) -> (chosen: Option<u32>)
    ensures
        chosen == first_graphics(queue_families_of(*device)),
{
    let families = list_queue_families(device);
    first_graphics_family(&families)
}

} // verus!
