//! Which queue families a logical device is opened with.

use vstd::prelude::*;

verus! {

/// The families to open one queue each of, for a device that draws with
/// the family `graphics` and presents with the family `present`: each
/// family once, the lower id first.
pub open spec fn opened_families(graphics: u32, present: u32) -> Seq<u32> {
    if graphics == present {
        seq![graphics]
    } else if graphics < present {
        seq![graphics, present]
    } else {
        seq![present, graphics]
    }
}

/// The families to open one queue each of.
pub fn queue_family_ids(graphics_family_id: u32, present_family_id: u32) -> (ids: Vec<u32>)
    ensures
        ids@ == opened_families(graphics_family_id, present_family_id),
{
    let mut ids: Vec<u32> = Vec::new();
    if graphics_family_id == present_family_id {
        ids.push(graphics_family_id);
    } else if graphics_family_id < present_family_id {
        ids.push(graphics_family_id);
        ids.push(present_family_id);
    } else {
        ids.push(present_family_id);
        ids.push(graphics_family_id);
    }
    assert(ids@ =~= opened_families(graphics_family_id, present_family_id));
    ids
}

/// The places, among the opened families, of the family that draws and of
/// the family that presents.  The queues of a device come in the order of
/// the families that it was opened with, so these are also the places of
/// the two queues.
pub fn queue_positions(graphics_family_id: u32, present_family_id: u32) -> (at: (usize, usize))
    ensures
        at.0 < opened_families(graphics_family_id, present_family_id).len(),
        at.1 < opened_families(graphics_family_id, present_family_id).len(),
        opened_families(graphics_family_id, present_family_id)[at.0 as int]
            == graphics_family_id,
        opened_families(graphics_family_id, present_family_id)[at.1 as int]
            == present_family_id,
{
    if graphics_family_id == present_family_id {
        (0, 0)
    } else if graphics_family_id < present_family_id {
        (0, 1)
    } else {
        (1, 0)
    }
}

/// The opened families hold both roles, none twice, in rising order.
pub proof fn lemma_opened_families(graphics: u32, present: u32)
    ensures
        opened_families(graphics, present).contains(graphics),
        opened_families(graphics, present).contains(present),
        forall|i: int, j: int|
            0 <= i < j < opened_families(graphics, present).len() ==> opened_families(
                graphics,
                present,
            )[i] < opened_families(graphics, present)[j],
        forall|i: int|
            0 <= i < opened_families(graphics, present).len() ==> opened_families(
                graphics,
                present,
            )[i] == graphics || opened_families(graphics, present)[i] == present,
{
    let opened = opened_families(graphics, present);
    if graphics == present {
        assert(opened[0] == graphics);
    } else if graphics < present {
        assert(opened[0] == graphics && opened[1] == present);
    } else {
        assert(opened[1] == graphics && opened[0] == present);
    }
}

} // verus!
