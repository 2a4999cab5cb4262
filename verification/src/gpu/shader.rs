//! Shader stages: their descriptor bindings, their code, and the
//! descriptor writes they take.

use crate::gpu::buffer::DescriptorBufferInfo;
use crate::gpu::image::DescriptorImageInfo;
use vstd::bytes::spec_u32_from_le_bytes;
use vstd::prelude::*;

verus! {

/// The first word of every shader module.
pub const SPIRV_MAGIC: u32 = 0x0723_0203;

/// One binding of a stage as it is configured.
#[derive(Clone, Copy, Debug, PartialEq, Eq, Structural)]
pub struct DescriptorSetLayoutBindingInfo {
    pub descriptor_type: i32,
    pub descriptor_count: u32,
    pub stage_flags: u32,
}

/// One binding of a descriptor set layout.
#[derive(Clone, Copy, Debug, PartialEq, Eq, Structural)]
pub struct DescriptorSetLayoutBinding {
    pub binding: u32,
    pub descriptor_type: i32,
    pub descriptor_count: u32,
    pub stage_flags: u32,
}

/// The configuration of a shader stage with `N` bindings.
pub struct ShaderStageConfig<const N: usize> {
    pub entry_name: &'static str,
    pub path: &'static str,
    pub bindings: [DescriptorSetLayoutBindingInfo; N],
    pub stage: u32,
    pub create_flags: u32,
}

/// How a stage enters a pipeline.
#[derive(Clone, Copy, Debug, PartialEq, Eq)]
pub struct ShaderStageInfo {
    pub flags: u32,
    pub stage: u32,
    pub module: u64,
    pub entry_name: &'static str,
}

/// What a descriptor write points a binding at.
#[derive(Clone, Copy, Debug, PartialEq, Eq, Structural)]
pub enum DescriptorTarget {
    Buffer(DescriptorBufferInfo),
    Image(DescriptorImageInfo),
}

/// The write of one descriptor of a set.
#[derive(Clone, Copy, Debug, PartialEq, Eq, Structural)]
pub struct WriteDescriptorSet {
    pub descriptor_type: i32,
    pub dst_binding: u32,
    pub dst_set: u64,
    pub target: DescriptorTarget,
}

/// Why bytes are not shader code.
#[derive(Clone, Copy, Debug, PartialEq, Eq, Structural)]
pub enum ShaderError {
    /// The bytes are none, or not a whole number of words, or start with a
    /// word that is the magic number in neither byte order.
    InvalidCode,
}

/// A shader stage: its module and descriptor set layout, named by their
/// handles, the bindings of the layout, and how the stage enters a
/// pipeline.
pub struct KewShader {
    pub bindings: Vec<DescriptorSetLayoutBinding>,
    pub shader_module: u64,
    pub descriptor_set_layout: u64,
    pub shader_stage_info: ShaderStageInfo,
}

/// The words of `bytes`, each from four bytes with the least significant
/// first.
pub open spec fn low_first_words(bytes: Seq<u8>) -> Seq<u32> {
    Seq::new(
        (bytes.len() / 4) as nat,
        |i: int| spec_u32_from_le_bytes(bytes.subrange(4 * i, 4 * i + 4)),
    )
}

/// The words of `bytes`, each from four bytes with the most significant
/// first.
pub open spec fn high_first_words(bytes: Seq<u8>) -> Seq<u32> {
    Seq::new(
        (bytes.len() / 4) as nat,
        |i: int| spec_u32_from_le_bytes(bytes.subrange(4 * i, 4 * i + 4).reverse()),
    )
}

/// Whether `bytes` are shader code: a positive whole number of words, the
/// first of them the magic number in one byte order or the other.
pub open spec fn is_shader_code(bytes: Seq<u8>) -> bool {
    &&& bytes.len() > 0
    &&& bytes.len() % 4 == 0
    &&& (low_first_words(bytes)[0] == SPIRV_MAGIC || high_first_words(bytes)[0] == SPIRV_MAGIC)
}

/// The words of shader code, read in the byte order in which its first
/// word is the magic number.
pub open spec fn shader_words(bytes: Seq<u8>) -> Seq<u32> {
    if low_first_words(bytes)[0] == SPIRV_MAGIC {
        low_first_words(bytes)
    } else {
        high_first_words(bytes)
    }
}

/// Calls `ash::util::read_spv` on a cursor over `bytes`. The binding
/// refuses input whose length is no multiple of four, reads the bytes as
/// words in the machine's byte order, swaps the bytes of every word where
/// the first word is the byte-swapped magic number, and then refuses input
/// that is empty or does not start with the magic number. A cursor over
/// memory does not fail on its own. The error, which carries no more than
/// that, is dropped.
#[verifier::external_body]
fn read_spv(bytes: &[u8]) -> (r: Option<Vec<u32>>)
    ensures
        r.is_some() == is_shader_code(bytes@),
        r.is_some() ==> r.unwrap()@ == shader_words(bytes@),
{
    ash::util::read_spv(&mut std::io::Cursor::new(bytes)).ok()
}

impl<const N: usize> ShaderStageConfig<N> {
    /// The layout bindings of the stage: the configured bindings, numbered
    /// from zero in their order.
    pub fn build_dset_layout_bindings(&self) -> (r: Vec<DescriptorSetLayoutBinding>)
        requires
            N <= u32::MAX,
        ensures
            r@.len() == N,
            forall|i: int|
                0 <= i < N ==> #[trigger] r@[i] == (DescriptorSetLayoutBinding {
                    binding: i as u32,
                    descriptor_type: self.bindings@[i].descriptor_type,
                    descriptor_count: self.bindings@[i].descriptor_count,
                    stage_flags: self.bindings@[i].stage_flags,
                }),
    {
        let mut bindings: Vec<DescriptorSetLayoutBinding> = Vec::with_capacity(N);
        let mut i: usize = 0;
        while i < N
            invariant
                i <= N,
                N <= u32::MAX,
                bindings@.len() == i,
                forall|k: int|
                    0 <= k < i ==> #[trigger] bindings@[k] == (DescriptorSetLayoutBinding {
                        binding: k as u32,
                        descriptor_type: self.bindings@[k].descriptor_type,
                        descriptor_count: self.bindings@[k].descriptor_count,
                        stage_flags: self.bindings@[k].stage_flags,
                    }),
            decreases N - i,
        {
            let info = self.bindings[i];
            bindings.push(
                DescriptorSetLayoutBinding {
                    binding: i as u32,
                    descriptor_type: info.descriptor_type,
                    descriptor_count: info.descriptor_count,
                    stage_flags: info.stage_flags,
                },
            );
            i += 1;
        }
        bindings
    }
}

impl KewShader {
    /// Records the stage configured by `stage_config`, with its descriptor
    /// set layout and shader module created under the handles given.
    pub fn new<const S: usize>(
        stage_config: &ShaderStageConfig<S>,
        descriptor_set_layout: u64,
        shader_module: u64,
    ) -> (r: Self)
        requires
            S <= u32::MAX,
        ensures
            r.shader_module == shader_module,
            r.descriptor_set_layout == descriptor_set_layout,
            r.shader_stage_info == (ShaderStageInfo {
                flags: stage_config.create_flags,
                stage: stage_config.stage,
                module: shader_module,
                entry_name: stage_config.entry_name,
            }),
            r.bindings@.len() == S,
            forall|i: int|
                0 <= i < S ==> #[trigger] r.bindings@[i] == (DescriptorSetLayoutBinding {
                    binding: i as u32,
                    descriptor_type: stage_config.bindings@[i].descriptor_type,
                    descriptor_count: stage_config.bindings@[i].descriptor_count,
                    stage_flags: stage_config.bindings@[i].stage_flags,
                }),
    {
        KewShader {
            bindings: stage_config.build_dset_layout_bindings(),
            shader_module,
            descriptor_set_layout,
            shader_stage_info: ShaderStageInfo {
                flags: stage_config.create_flags,
                stage: stage_config.stage,
                module: shader_module,
                entry_name: stage_config.entry_name,
            },
        }
    }

    /// The words of the shader module that `code`, the content of a shader
    /// file, holds.
    pub fn create_shader_module(code: &[u8]) -> (r: Result<Vec<u32>, ShaderError>)
        ensures
            r.is_ok() == is_shader_code(code@),
            r.is_ok() ==> r.unwrap()@ == shader_words(code@),
            r.is_err() ==> r == Err::<Vec<u32>, ShaderError>(ShaderError::InvalidCode),
    {
        match read_spv(code) {
            Some(words) => Ok(words),
            None => Err(ShaderError::InvalidCode),
        }
    }

    /// The write that points the binding `binding` of `set` at a buffer.
    pub fn write_buffer(&self, binding: usize, buffer_info: DescriptorBufferInfo, set: u64) -> (r:
        WriteDescriptorSet)
        requires
            binding < self.bindings@.len(),
            binding <= u32::MAX,
        ensures
            r == (WriteDescriptorSet {
                descriptor_type: self.bindings@[binding as int].descriptor_type,
                dst_binding: binding as u32,
                dst_set: set,
                target: DescriptorTarget::Buffer(buffer_info),
            }),
    {
        WriteDescriptorSet {
            descriptor_type: self.bindings[binding].descriptor_type,
            dst_binding: binding as u32,
            dst_set: set,
            target: DescriptorTarget::Buffer(buffer_info),
        }
    }

    /// The write that points the binding `binding` of `set` at an image.
    pub fn write_image(&self, binding: usize, image_info: DescriptorImageInfo, set: u64) -> (r:
        WriteDescriptorSet)
        requires
            binding < self.bindings@.len(),
            binding <= u32::MAX,
        ensures
            r == (WriteDescriptorSet {
                descriptor_type: self.bindings@[binding as int].descriptor_type,
                dst_binding: binding as u32,
                dst_set: set,
                target: DescriptorTarget::Image(image_info),
            }),
    {
        WriteDescriptorSet {
            descriptor_type: self.bindings[binding].descriptor_type,
            dst_binding: binding as u32,
            dst_set: set,
            target: DescriptorTarget::Image(image_info),
        }
    }
}

} // verus!
