//! Descriptor pools and what they are created from.

use vstd::prelude::*;

verus! {

/// How many descriptors of one type a pool holds.
#[derive(Clone, Copy, Debug, PartialEq, Eq, Structural)]
pub struct DescriptorPoolSize {
    pub ty: i32,
    pub descriptor_count: u32,
}

/// What a descriptor pool is created from.
pub struct DescriptorPoolCreateInfo {
    pub pool_sizes: Vec<DescriptorPoolSize>,
    pub flags: u32,
    pub max_sets: u32,
}

/// A request for one descriptor set of a pool.
#[derive(Clone, Copy, Debug, PartialEq, Eq, Structural)]
pub struct DescriptorSetAllocateInfo {
    pub descriptor_pool: u64,
    pub set_layout: u64,
}

/// A descriptor pool, named by its handle.
#[derive(Clone, Copy, Debug, PartialEq, Eq, Structural)]
pub struct KewDescriptorPool {
    pub pool: u64,
}

impl KewDescriptorPool {
    /// The description of a pool of at most `max_sets` sets.
    pub fn create_info(pool_sizes: Vec<DescriptorPoolSize>, pool_flags: u32, max_sets: u32) -> (r:
        DescriptorPoolCreateInfo)
        ensures
            r.pool_sizes == pool_sizes,
            r.flags == pool_flags,
            r.max_sets == max_sets,
    {
        DescriptorPoolCreateInfo { pool_sizes, flags: pool_flags, max_sets }
    }

    /// Records a pool created under the handle `pool`.
    pub fn new(pool: u64) -> (r: Self)
        ensures
            r.pool == pool,
    {
        KewDescriptorPool { pool }
    }

    /// The request for one set of the layout `descriptor_set_layout`.
    pub fn allocate_descriptor_set(&self, descriptor_set_layout: u64) -> (r:
        DescriptorSetAllocateInfo)
        ensures
            r == (DescriptorSetAllocateInfo {
                descriptor_pool: self.pool,
                set_layout: descriptor_set_layout,
            }),
    {
        DescriptorSetAllocateInfo { descriptor_pool: self.pool, set_layout: descriptor_set_layout }
    }
}

/// Collects what a descriptor pool is to hold.
pub struct KewDescriptorPoolBuilder {
    pub pool_sizes: Vec<DescriptorPoolSize>,
    pub pool_flags: u32,
    pub max_sets: u32,
}

impl KewDescriptorPoolBuilder {
    /// A builder of a pool of at most `max_sets` sets, so far without
    /// descriptors and flags.
    pub fn new(max_sets: u32) -> (r: Self)
        ensures
            r.pool_sizes@ == Seq::<DescriptorPoolSize>::empty(),
            r.pool_flags == 0,
            r.max_sets == max_sets,
    {
        Self { pool_sizes: Vec::new(), pool_flags: 0, max_sets }
    }

    /// Adds `count` descriptors of `descriptor_type` to the pool.
    pub fn add_pool_size(self, descriptor_type: i32, count: u32) -> (r: Self)
        ensures
            r.pool_sizes@ == self.pool_sizes@.push(
                (DescriptorPoolSize { ty: descriptor_type, descriptor_count: count }),
            ),
            r.pool_flags == self.pool_flags,
            r.max_sets == self.max_sets,
    {
        let mut builder = self;
        builder.pool_sizes.push(DescriptorPoolSize { ty: descriptor_type, descriptor_count: count });
        builder
    }

    /// The description of the pool that was built up.
    pub fn build(self) -> (r: DescriptorPoolCreateInfo)
        ensures
            r.pool_sizes == self.pool_sizes,
            r.flags == self.pool_flags,
            r.max_sets == self.max_sets,
    {
        KewDescriptorPool::create_info(self.pool_sizes, self.pool_flags, self.max_sets)
    }
}

} // verus!
