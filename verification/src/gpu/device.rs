//! The logical device: which queue families serve which purpose, and which
//! memory type serves an allocation.

use crate::gpu::context::KewContext;
use crate::gpu::flags::{has_all, memory_flags_contain, queue_flags_contain};
use crate::gpu::context::MemoryType;
use crate::gpu::memory::{KewMemory, MemoryAllocateInfo};
use crate::gpu::vk::{
    MemoryRequirements, MAX_MEMORY_TYPES, QUEUE_COMPUTE, QUEUE_GRAPHICS, QUEUE_TRANSFER,
};
use vstd::prelude::*;

verus! {

/// What is known of one queue family: its capabilities and whether it can
/// present to the surface in use.
#[derive(Clone, Copy, Debug, PartialEq, Eq, Structural)]
pub struct QueueFamily {
    pub queue_flags: u32,
    pub present_support: bool,
}

/// The queue families chosen for graphics, compute and transfer work, and
/// the one chosen for presentation where some family can present.
#[derive(Clone, Copy, Debug, PartialEq, Eq, Structural)]
pub struct KewQueueIndices {
    pub gfx_idx: u32,
    pub cmp_idx: u32,
    pub tfr_idx: u32,
    pub prs_idx: Option<u32>,
}

/// What a logical device is created from: one queue of each listed family,
/// and presentation support.
pub struct DeviceCreateInfo {
    pub queue_families: Vec<u32>,
    pub swapchain_extension: bool,
}

/// The logical device, named by its handle, on its physical device.
pub struct KewDevice {
    pub context: KewContext,
    pub vk_device: u64,
}

/// The memory types that a resource accepts and that have every property in
/// `memory_flag`.
pub open spec fn memory_marks(types: Seq<MemoryType>, type_bits: u32, memory_flag: u32) -> Seq<
    bool,
> {
    Seq::new(
        types.len(),
        |i: int|
            0 <= i < 32 && type_bits & (1u32 << (i as u32)) != 0 && has_all(
                types[i].property_flags,
                memory_flag,
            ),
    )
}

impl KewDevice {
    /// The description of the logical device: one queue on each family that
    /// `queue_indices` names, with presentation support.
    pub fn create_info(queue_indices: &KewQueueIndices) -> (r: DeviceCreateInfo)
        ensures
            r.queue_families@ == queue_families_of(*queue_indices),
            r.swapchain_extension,
    {
        DeviceCreateInfo {
            queue_families: queue_indices.get_queue_create_infos(),
            swapchain_extension: true,
        }
    }

    /// Records the logical device created on `context` under the handle
    /// `vk_device`.
    pub fn new(context: KewContext, vk_device: u64) -> (r: Self)
        ensures
            r.context == context,
            r.vk_device == vk_device,
    {
        KewDevice { context, vk_device }
    }

    /// The description of an arena of `b_size` bytes of the memory type
    /// `memory_type`, where the device has a memory type of that index.
    pub fn allocate_info(&self, b_size: u64, memory_type: u32) -> (r: Option<MemoryAllocateInfo>)
        ensures
            r == (if memory_type < self.context.mem_properties@.len() {
                Some(MemoryAllocateInfo { allocation_size: b_size, memory_type_index: memory_type })
            } else {
                None
            }),
    {
        if (memory_type as usize) < self.context.mem_properties.len() {
            Some(KewMemory::allocate_info(b_size, memory_type))
        } else {
            None
        }
    }

    /// The first memory type that the resource accepts and that has every
    /// property in `memory_flag`, if there is one.
    pub fn find_memory_type(&self, memory_reqs: &MemoryRequirements, memory_flag: u32) -> (r:
        Option<u32>)
        requires
            self.context.mem_properties@.len() <= MAX_MEMORY_TYPES,
        ensures
            selects(
                memory_marks(
                    self.context.mem_properties@,
                    memory_reqs.memory_type_bits,
                    memory_flag,
                ),
                r,
            ),
    {
        let types = &self.context.mem_properties;
        let ghost marks = memory_marks(types@, memory_reqs.memory_type_bits, memory_flag);
        let mut i: usize = 0;
        let mut idx: u32 = 0;
        while i < types.len()
            invariant
                types@.len() <= 32,
                types@ == self.context.mem_properties@,
                marks == memory_marks(types@, memory_reqs.memory_type_bits, memory_flag),
                i <= types@.len(),
                idx == i,
                forall|j: int| 0 <= j < i ==> !marks[j],
            decreases types@.len() - i,
        {
            let accepted = memory_reqs.memory_type_bits & (1u32 << idx) != 0;
            if accepted && memory_flags_contain(types[i].property_flags, memory_flag) {
                assert(marks[i as int]);
                return Some(idx);
            }
            assert(!marks[i as int]);
            i += 1;
            idx += 1;
        }
        None
    }
}

/// `i` is the first marked position.
pub open spec fn first_at(marks: Seq<bool>, i: int) -> bool {
    &&& 0 <= i < marks.len()
    &&& marks[i]
    &&& forall|j: int| 0 <= j < i ==> !marks[j]
}

/// No position is marked.
pub open spec fn none_in(marks: Seq<bool>) -> bool {
    forall|j: int| 0 <= j < marks.len() ==> !marks[j]
}

/// Whether position `i` is marked.
spec fn marked(marks: Seq<bool>, i: u32) -> bool {
    marks[i as int]
}

/// `pick` is the first marked position, or nothing where none is marked.
pub open spec fn selects(marks: Seq<bool>, pick: Option<u32>) -> bool {
    match pick {
        Some(i) => first_at(marks, i as int),
        None => none_in(marks),
    }
}

/// `pick` is the first position marked in `favoured`, or, where none is, the
/// first marked in `fallback`.
pub open spec fn prefers(favoured: Seq<bool>, fallback: Seq<bool>, pick: u32) -> bool {
    first_at(favoured, pick as int) || (none_in(favoured) && first_at(fallback, pick as int))
}

/// The families that can do graphics work.
pub open spec fn graphics_marks(families: Seq<QueueFamily>) -> Seq<bool> {
    Seq::new(families.len(), |i: int| has_all(families[i].queue_flags, QUEUE_GRAPHICS))
}

/// The families that can do compute work.
pub open spec fn compute_marks(families: Seq<QueueFamily>) -> Seq<bool> {
    Seq::new(families.len(), |i: int| has_all(families[i].queue_flags, QUEUE_COMPUTE))
}

/// The families that can do transfer work.
pub open spec fn transfer_marks(families: Seq<QueueFamily>) -> Seq<bool> {
    Seq::new(families.len(), |i: int| has_all(families[i].queue_flags, QUEUE_TRANSFER))
}

/// The families that can present.
pub open spec fn present_marks(families: Seq<QueueFamily>) -> Seq<bool> {
    Seq::new(families.len(), |i: int| families[i].present_support)
}

/// The families that can do compute but no graphics work.
pub open spec fn async_compute_marks(families: Seq<QueueFamily>) -> Seq<bool> {
    Seq::new(
        families.len(),
        |i: int|
            has_all(families[i].queue_flags, QUEUE_COMPUTE) && !has_all(
                families[i].queue_flags,
                QUEUE_GRAPHICS,
            ),
    )
}

/// The families that can do transfer work, cannot do both graphics and
/// compute work, and are not the one favoured for compute.
pub open spec fn spare_transfer_marks(families: Seq<QueueFamily>) -> Seq<bool> {
    Seq::new(
        families.len(),
        |i: int|
            has_all(families[i].queue_flags, QUEUE_TRANSFER) && !has_all(
                families[i].queue_flags,
                QUEUE_GRAPHICS | QUEUE_COMPUTE,
            ) && !first_at(async_compute_marks(families), i),
    )
}

/// The choice of families:
/// graphics goes to the first family that can do it;
/// compute to the first that can compute without graphics, else to the first
/// that can compute;
/// transfer to the first spare transfer family, else to the first that can
/// transfer;
/// presentation to the first that can present, if any.
pub open spec fn resolves(families: Seq<QueueFamily>, q: KewQueueIndices) -> bool {
    &&& selects(graphics_marks(families), Some(q.gfx_idx))
    &&& prefers(async_compute_marks(families), compute_marks(families), q.cmp_idx)
    &&& prefers(spare_transfer_marks(families), transfer_marks(families), q.tfr_idx)
    &&& selects(present_marks(families), q.prs_idx)
}

/// Some purpose among graphics, compute and transfer has no family.
pub open spec fn unresolvable(families: Seq<QueueFamily>) -> bool {
    ||| none_in(graphics_marks(families))
    ||| none_in(compute_marks(families))
    ||| none_in(transfer_marks(families))
}

/// `pick` is the first marked position before `upto`, or nothing where
/// none is marked before it.
spec fn scanned(marks: Seq<bool>, upto: usize, pick: Option<u32>) -> bool {
    match pick {
        Some(i) => first_at(marks, i as int) && i < upto,
        None => forall|j: int| 0 <= j < upto ==> !marks[j],
    }
}

/// The state of a choice with a favoured kind while the families are
/// walked: settled on the first favoured family, or, with no favoured
/// family so far, on the first of the fallback kind.
spec fn walked(
    favoured: Seq<bool>,
    fallback: Seq<bool>,
    upto: usize,
    pick: Option<u32>,
    settled: bool,
) -> bool {
    if settled {
        pick.is_some() && scanned(favoured, upto, pick)
    } else {
        scanned(favoured, upto, None) && scanned(fallback, upto, pick)
    }
}

impl KewQueueIndices {
    /// Chooses the queue families from the device's list. There is a choice
    /// exactly when graphics, compute and transfer each have a family.
    pub fn new(families: &[QueueFamily]) -> (r: Option<Self>)
        requires
            families@.len() <= u32::MAX,
        ensures
            match r {
                Some(q) => resolves(families@, q),
                None => unresolvable(families@),
            },
    {
        let mut gfx_idx: Option<u32> = None;
        let mut cmp_idx: Option<u32> = None;
        let mut cmp_settled = false;
        let mut tfr_idx: Option<u32> = None;
        let mut tfr_settled = false;
        let mut prs_idx: Option<u32> = None;
        let ghost s = families@;
        let mut i: usize = 0;
        let mut idx: u32 = 0;
        while i < families.len()
            invariant
                s == families@,
                s.len() <= u32::MAX,
                i <= s.len(),
                idx == i,
                scanned(graphics_marks(s), i, gfx_idx),
                scanned(present_marks(s), i, prs_idx),
                walked(async_compute_marks(s), compute_marks(s), i, cmp_idx, cmp_settled),
                walked(spare_transfer_marks(s), transfer_marks(s), i, tfr_idx, tfr_settled),
            decreases s.len() - i,
        {
            let family = families[i];
            let graphics = queue_flags_contain(family.queue_flags, QUEUE_GRAPHICS);
            let compute = queue_flags_contain(family.queue_flags, QUEUE_COMPUTE);
            let transfer = queue_flags_contain(family.queue_flags, QUEUE_TRANSFER);
            let both = queue_flags_contain(family.queue_flags, QUEUE_GRAPHICS | QUEUE_COMPUTE);
            if gfx_idx.is_none() && graphics {
                gfx_idx = Some(idx);
            }
            if cmp_idx.is_none() && compute {
                cmp_idx = Some(idx);
            }
            if tfr_idx.is_none() && transfer {
                tfr_idx = Some(idx);
            }
            if prs_idx.is_none() && family.present_support {
                prs_idx = Some(idx);
            }
            if !cmp_settled && compute && !graphics {
                cmp_idx = Some(idx);
                cmp_settled = true;
                assert(selects(async_compute_marks(s), Some(idx)));
            } else if !tfr_settled && transfer && !both {
                assert(!selects(async_compute_marks(s), Some(idx)));
                tfr_idx = Some(idx);
                tfr_settled = true;
            }
            assert(marked(spare_transfer_marks(s), idx) == (transfer && !both && !selects(
                async_compute_marks(s),
                Some(idx),
            )));
            i += 1;
            idx += 1;
        }
        match (gfx_idx, cmp_idx, tfr_idx) {
            (Some(gfx), Some(cmp), Some(tfr)) => {
                let q = KewQueueIndices { gfx_idx: gfx, cmp_idx: cmp, tfr_idx: tfr, prs_idx };
                assert(resolves(s, q));
                Some(q)
            },
            _ => None,
        }
    }

    /// The families to create queues on: graphics, compute and transfer in
    /// that order, a family left out where it repeats the one before it.
    pub fn get_queue_create_infos(&self) -> (r: Vec<u32>)
        ensures
            r@ == queue_families_of(*self),
    {
        let mut indices: Vec<u32> = Vec::new();
        indices.push(self.gfx_idx);
        if self.cmp_idx != self.gfx_idx {
            indices.push(self.cmp_idx);
        }
        if self.tfr_idx != self.cmp_idx {
            indices.push(self.tfr_idx);
        }
        assert(indices@ =~= queue_families_of(*self));
        indices
    }
}

/// There is at most one choice of families: two choices that resolve the
/// same list are the same choice, and a list with a choice lacks no purpose.
pub proof fn lemma_choice_is_unique(families: Seq<QueueFamily>, a: KewQueueIndices, b: KewQueueIndices)
    requires
        resolves(families, a),
        resolves(families, b),
    ensures
        a == b,
        !unresolvable(families),
{
    lemma_first_is_unique(graphics_marks(families), Some(a.gfx_idx), Some(b.gfx_idx));
    lemma_preference_is_unique(
        async_compute_marks(families),
        compute_marks(families),
        a.cmp_idx,
        b.cmp_idx,
    );
    lemma_preference_is_unique(
        spare_transfer_marks(families),
        transfer_marks(families),
        a.tfr_idx,
        b.tfr_idx,
    );
    lemma_first_is_unique(present_marks(families), a.prs_idx, b.prs_idx);
    assert(marked(graphics_marks(families), a.gfx_idx));
    assert(marked(compute_marks(families), a.cmp_idx));
    assert(marked(transfer_marks(families), a.tfr_idx));
}

/// The families chosen can do what they are chosen for: each is one of the
/// listed families, the graphics family can do graphics, the compute family
/// compute and the transfer family transfer work, and the presentation
/// family, where there is one, can present.
pub proof fn lemma_choice_serves(families: Seq<QueueFamily>, q: KewQueueIndices)
    requires
        resolves(families, q),
    ensures
        serves(families, q.gfx_idx, QUEUE_GRAPHICS),
        serves(families, q.cmp_idx, QUEUE_COMPUTE),
        serves(families, q.tfr_idx, QUEUE_TRANSFER),
        q.prs_idx matches Some(p) ==> presents(families, p),
{
}

/// `pick` and `other` are the same where both are the first marked
/// position, or nothing where none is marked.
proof fn lemma_first_is_unique(marks: Seq<bool>, pick: Option<u32>, other: Option<u32>)
    requires
        selects(marks, pick),
    ensures
        selects(marks, other) ==> pick == other,
        pick.is_some() ==> !none_in(marks),
{
}

/// Two picks that each prefer the same kind over the same fallback are the
/// same pick.
proof fn lemma_preference_is_unique(
    favoured: Seq<bool>,
    fallback: Seq<bool>,
    pick: u32,
    other: u32,
)
    requires
        prefers(favoured, fallback, pick),
        prefers(favoured, fallback, other),
    ensures
        pick == other,
{
    if selects(favoured, Some(pick)) {
        lemma_first_is_unique(favoured, Some(pick), Some(other));
    } else {
        lemma_first_is_unique(fallback, Some(pick), Some(other));
        if selects(favoured, Some(other)) {
            lemma_first_is_unique(favoured, Some(other), Some(pick));
        }
    }
}

/// Whether `index` names a listed family that has every capability in
/// `wanted`.
pub open spec fn serves(families: Seq<QueueFamily>, index: u32, wanted: u32) -> bool {
    index < families.len() && has_all(families[index as int].queue_flags, wanted)
}

/// Whether `index` names a listed family that can present.
pub open spec fn presents(families: Seq<QueueFamily>, index: u32) -> bool {
    index < families.len() && families[index as int].present_support
}

/// Graphics, compute and transfer family, without a family that repeats the
/// one before it.
pub open spec fn queue_families_of(q: KewQueueIndices) -> Seq<u32> {
    seq![q.gfx_idx] + (if q.cmp_idx != q.gfx_idx {
        seq![q.cmp_idx]
    } else {
        Seq::<u32>::empty()
    }) + (if q.tfr_idx != q.cmp_idx {
        seq![q.tfr_idx]
    } else {
        Seq::<u32>::empty()
    })
}

} // verus!
