//! The typed description of resources and of single binding assignments:
//! resource records with their usage capabilities, descriptor kinds, image
//! layouts, shader stage sets, and the `DescriptorWrite` request that the
//! update engine consumes.

use vstd::prelude::*;

verus! {

/// The kind of resource a binding slot accepts. One variant per descriptor
/// kind the engine supports; texel buffers and push constants are not
/// supported.
#[derive(Clone, Copy, PartialEq, Eq, Structural, Debug)]
pub enum DescriptorType {
    Sampler,
    CombinedImageSampler,
    SampledImage,
    StorageImage,
    UniformBuffer,
    StorageBuffer,
    DynamicUniformBuffer,
    DynamicStorageBuffer,
    InputAttachment,
}

/// The native enumeration value of a descriptor kind, as the driver's wire
/// format defines it.
pub open spec fn spec_descriptor_type_vk(ty: DescriptorType) -> u32 {
    match ty {
        DescriptorType::Sampler => 0,
        DescriptorType::CombinedImageSampler => 1,
        DescriptorType::SampledImage => 2,
        DescriptorType::StorageImage => 3,
        DescriptorType::UniformBuffer => 6,
        DescriptorType::StorageBuffer => 7,
        DescriptorType::DynamicUniformBuffer => 8,
        DescriptorType::DynamicStorageBuffer => 9,
        DescriptorType::InputAttachment => 10,
    }
}

impl DescriptorType {
    /// Returns the native enumeration value of this descriptor kind.
    pub fn vk_enum(self) -> (r: u32)
        ensures
            r == spec_descriptor_type_vk(self),
    {
        match self {
            DescriptorType::Sampler => 0,
            DescriptorType::CombinedImageSampler => 1,
            DescriptorType::SampledImage => 2,
            DescriptorType::StorageImage => 3,
            DescriptorType::UniformBuffer => 6,
            DescriptorType::StorageBuffer => 7,
            DescriptorType::DynamicUniformBuffer => 8,
            DescriptorType::DynamicStorageBuffer => 9,
            DescriptorType::InputAttachment => 10,
        }
    }
}

/// The layout an image is expected to be in when a shader accesses it,
/// as the native API enumerates layouts.
#[derive(Clone, Copy, PartialEq, Eq, Structural, Debug)]
pub enum ImageLayout {
    Undefined,
    General,
    ColorAttachmentOptimal,
    DepthStencilAttachmentOptimal,
    DepthStencilReadOnlyOptimal,
    ShaderReadOnlyOptimal,
    TransferSrcOptimal,
    TransferDstOptimal,
    Preinitialized,
}

/// The native enumeration value of an image layout.
pub open spec fn spec_image_layout_vk(l: ImageLayout) -> u32 {
    match l {
        ImageLayout::Undefined => 0,
        ImageLayout::General => 1,
        ImageLayout::ColorAttachmentOptimal => 2,
        ImageLayout::DepthStencilAttachmentOptimal => 3,
        ImageLayout::DepthStencilReadOnlyOptimal => 4,
        ImageLayout::ShaderReadOnlyOptimal => 5,
        ImageLayout::TransferSrcOptimal => 6,
        ImageLayout::TransferDstOptimal => 7,
        ImageLayout::Preinitialized => 8,
    }
}

impl ImageLayout {
    /// Returns the native enumeration value of this image layout.
    pub fn vk_enum(self) -> (r: u32)
        ensures
            r == spec_image_layout_vk(self),
    {
        match self {
            ImageLayout::Undefined => 0,
            ImageLayout::General => 1,
            ImageLayout::ColorAttachmentOptimal => 2,
            ImageLayout::DepthStencilAttachmentOptimal => 3,
            ImageLayout::DepthStencilReadOnlyOptimal => 4,
            ImageLayout::ShaderReadOnlyOptimal => 5,
            ImageLayout::TransferSrcOptimal => 6,
            ImageLayout::TransferDstOptimal => 7,
            ImageLayout::Preinitialized => 8,
        }
    }
}

/// The set of shader stages that may access a binding.
#[derive(Clone, Copy, PartialEq, Eq, Structural, Debug)]
pub struct ShaderStages {
    pub vertex: bool,
    pub tessellation_control: bool,
    pub tessellation_evaluation: bool,
    pub geometry: bool,
    pub fragment: bool,
    pub compute: bool,
}

/// The native stage-flag mask of a stage set: one distinct bit per stage,
/// so the sum of the chosen bits equals their bitwise union.
pub open spec fn spec_stage_flags(s: ShaderStages) -> u32 {
    ((if s.vertex { 0x1u32 } else { 0u32 })
        + (if s.tessellation_control { 0x2u32 } else { 0u32 })
        + (if s.tessellation_evaluation { 0x4u32 } else { 0u32 })
        + (if s.geometry { 0x8u32 } else { 0u32 })
        + (if s.fragment { 0x10u32 } else { 0u32 })
        + (if s.compute { 0x20u32 } else { 0u32 })) as u32
}

impl ShaderStages {
    /// A stage set naming every stage.
    pub fn all() -> (r: ShaderStages)
        ensures
            r == (ShaderStages {
                vertex: true,
                tessellation_control: true,
                tessellation_evaluation: true,
                geometry: true,
                fragment: true,
                compute: true,
            }),
    {
        ShaderStages {
            vertex: true,
            tessellation_control: true,
            tessellation_evaluation: true,
            geometry: true,
            fragment: true,
            compute: true,
        }
    }

    /// Returns the native stage-flag mask of this stage set.
    pub fn vk_flags(self) -> (r: u32)
        ensures
            r == spec_stage_flags(self),
    {
        let mut r: u32 = 0;
        if self.vertex {
            r = r + 0x1;
        }
        if self.tessellation_control {
            r = r + 0x2;
        }
        if self.tessellation_evaluation {
            r = r + 0x4;
        }
        if self.geometry {
            r = r + 0x8;
        }
        if self.fragment {
            r = r + 0x10;
        }
        if self.compute {
            r = r + 0x20;
        }
        r
    }
}

/// One schema entry of a descriptor set layout: which binding index it
/// occupies, what kind of resource it accepts, how many array elements it
/// has, and which shader stages may access it.
#[derive(Clone, Copy, PartialEq, Eq, Structural, Debug)]
pub struct DescriptorDesc {
    pub binding: u32,
    pub ty: DescriptorType,
    pub array_count: u32,
    pub stages: ShaderStages,
}

/// A buffer resource, reduced to what the update engine reads of it: its
/// native handle and its declared usage capabilities.
#[derive(Clone, Copy, PartialEq, Eq, Structural, Debug)]
pub struct Buffer {
    pub handle: u64,
    pub usage_uniform: bool,
    pub usage_storage: bool,
}

impl Buffer {
    /// Whether the buffer was created with the uniform-buffer capability.
    pub fn usage_uniform_buffer(&self) -> (r: bool)
        ensures
            r == self.usage_uniform,
    {
        self.usage_uniform
    }

    /// Whether the buffer was created with the storage-buffer capability.
    pub fn usage_storage_buffer(&self) -> (r: bool)
        ensures
            r == self.usage_storage,
    {
        self.usage_storage
    }

    /// The buffer's native handle.
    pub fn internal_object(&self) -> (r: u64)
        ensures
            r == self.handle,
    {
        self.handle
    }
}

/// An image view resource, reduced to its native handle and its declared
/// usage capabilities.
#[derive(Clone, Copy, PartialEq, Eq, Structural, Debug)]
pub struct ImageView {
    pub handle: u64,
    pub usage_sampled: bool,
    pub usage_storage: bool,
    pub usage_input_attachment: bool,
}

impl ImageView {
    /// Whether the image was created with the sampled-image capability.
    pub fn usage_sampled(&self) -> (r: bool)
        ensures
            r == self.usage_sampled,
    {
        self.usage_sampled
    }

    /// Whether the image was created with the storage-image capability.
    pub fn usage_storage(&self) -> (r: bool)
        ensures
            r == self.usage_storage,
    {
        self.usage_storage
    }

    /// Whether the image was created with the input-attachment capability.
    pub fn usage_input_attachment(&self) -> (r: bool)
        ensures
            r == self.usage_input_attachment,
    {
        self.usage_input_attachment
    }

    /// The image view's native handle.
    pub fn internal_object(&self) -> (r: u64)
        ensures
            r == self.handle,
    {
        self.handle
    }
}

/// A sampler resource, reduced to its native handle. Samplers carry no
/// usage capabilities.
#[derive(Clone, Copy, PartialEq, Eq, Structural, Debug)]
pub struct Sampler {
    pub handle: u64,
}

impl Sampler {
    /// The sampler's native handle.
    pub fn internal_object(&self) -> (r: u64)
        ensures
            r == self.handle,
    {
        self.handle
    }
}

/// A single resource-to-binding assignment supplied at write time: the
/// resource reference(s) and, for buffer kinds, the bound byte range.
#[derive(Clone, Copy, PartialEq, Eq, Structural, Debug)]
pub enum DescriptorBind {
    Sampler(Sampler),
    CombinedImageSampler(Sampler, ImageView, ImageLayout),
    SampledImage(ImageView, ImageLayout),
    StorageImage(ImageView, ImageLayout),
    InputAttachment(ImageView, ImageLayout),
    UniformBuffer { buffer: Buffer, offset: usize, size: usize },
    StorageBuffer { buffer: Buffer, offset: usize, size: usize },
    DynamicUniformBuffer { buffer: Buffer, offset: usize, size: usize },
    DynamicStorageBuffer { buffer: Buffer, offset: usize, size: usize },
}

/// The descriptor kind a bind value belongs to.
pub open spec fn spec_bind_ty(b: DescriptorBind) -> DescriptorType {
    match b {
        DescriptorBind::Sampler(..) => DescriptorType::Sampler,
        DescriptorBind::CombinedImageSampler(..) => DescriptorType::CombinedImageSampler,
        DescriptorBind::SampledImage(..) => DescriptorType::SampledImage,
        DescriptorBind::StorageImage(..) => DescriptorType::StorageImage,
        DescriptorBind::InputAttachment(..) => DescriptorType::InputAttachment,
        DescriptorBind::UniformBuffer { .. } => DescriptorType::UniformBuffer,
        DescriptorBind::StorageBuffer { .. } => DescriptorType::StorageBuffer,
        DescriptorBind::DynamicUniformBuffer { .. } => DescriptorType::DynamicUniformBuffer,
        DescriptorBind::DynamicStorageBuffer { .. } => DescriptorType::DynamicStorageBuffer,
    }
}

/// Whether a bind is one of the buffer kinds; all other kinds are
/// image/sampler kinds.
pub open spec fn is_buffer_bind(b: DescriptorBind) -> bool {
    match b {
        DescriptorBind::UniformBuffer { .. } => true,
        DescriptorBind::StorageBuffer { .. } => true,
        DescriptorBind::DynamicUniformBuffer { .. } => true,
        DescriptorBind::DynamicStorageBuffer { .. } => true,
        _ => false,
    }
}

/// Whether the resource carried by a bind declares the usage capability
/// that the bind's kind demands. A plain sampler bind carries no image and
/// so has nothing to check.
pub open spec fn bind_capability_ok(b: DescriptorBind) -> bool {
    match b {
        DescriptorBind::Sampler(..) => true,
        DescriptorBind::CombinedImageSampler(_, image, _) => image.usage_sampled,
        DescriptorBind::SampledImage(image, _) => image.usage_sampled,
        DescriptorBind::StorageImage(image, _) => image.usage_storage,
        DescriptorBind::InputAttachment(image, _) => image.usage_input_attachment,
        DescriptorBind::UniformBuffer { buffer, .. } => buffer.usage_uniform,
        DescriptorBind::DynamicUniformBuffer { buffer, .. } => buffer.usage_uniform,
        DescriptorBind::StorageBuffer { buffer, .. } => buffer.usage_storage,
        DescriptorBind::DynamicStorageBuffer { buffer, .. } => buffer.usage_storage,
    }
}

impl DescriptorBind {
    /// Returns the descriptor kind of this bind value.
    pub fn ty(&self) -> (r: DescriptorType)
        ensures
            r == spec_bind_ty(*self),
    {
        match self {
            DescriptorBind::Sampler(..) => DescriptorType::Sampler,
            DescriptorBind::CombinedImageSampler(..) => DescriptorType::CombinedImageSampler,
            DescriptorBind::SampledImage(..) => DescriptorType::SampledImage,
            DescriptorBind::StorageImage(..) => DescriptorType::StorageImage,
            DescriptorBind::InputAttachment(..) => DescriptorType::InputAttachment,
            DescriptorBind::UniformBuffer { .. } => DescriptorType::UniformBuffer,
            DescriptorBind::StorageBuffer { .. } => DescriptorType::StorageBuffer,
            DescriptorBind::DynamicUniformBuffer { .. } => DescriptorType::DynamicUniformBuffer,
            DescriptorBind::DynamicStorageBuffer { .. } => DescriptorType::DynamicStorageBuffer,
        }
    }

    /// Returns whether this bind is one of the buffer kinds.
    pub fn is_buffer(&self) -> (r: bool)
        ensures
            r == is_buffer_bind(*self),
    {
        match self {
            DescriptorBind::UniformBuffer { .. } => true,
            DescriptorBind::StorageBuffer { .. } => true,
            DescriptorBind::DynamicUniformBuffer { .. } => true,
            DescriptorBind::DynamicStorageBuffer { .. } => true,
            _ => false,
        }
    }

    /// Returns whether the carried resource declares the capability this
    /// bind's kind demands.
    pub fn capability_ok(&self) -> (r: bool)
        ensures
            r == bind_capability_ok(*self),
    {
        match self {
            DescriptorBind::Sampler(..) => true,
            DescriptorBind::CombinedImageSampler(_, image, _) => image.usage_sampled(),
            DescriptorBind::SampledImage(image, _) => image.usage_sampled(),
            DescriptorBind::StorageImage(image, _) => image.usage_storage(),
            DescriptorBind::InputAttachment(image, _) => image.usage_input_attachment(),
            DescriptorBind::UniformBuffer { buffer, .. } => buffer.usage_uniform_buffer(),
            DescriptorBind::DynamicUniformBuffer { buffer, .. } => buffer.usage_uniform_buffer(),
            DescriptorBind::StorageBuffer { buffer, .. } => buffer.usage_storage_buffer(),
            DescriptorBind::DynamicStorageBuffer { buffer, .. } => buffer.usage_storage_buffer(),
        }
    }
}

/// One write request entry: which binding and array element it targets and
/// what it binds there.
#[derive(Clone, Copy, PartialEq, Eq, Structural, Debug)]
pub struct DescriptorWrite {
    pub binding: u32,
    pub array_element: u32,
    pub content: DescriptorBind,
}

/// Whether every entry of a write sequence carries a resource with the
/// capability its kind demands. Applying a sequence that fails this check
/// is a caller error and is refused before any record is built.
pub open spec fn writes_capability_ok(ws: Seq<DescriptorWrite>) -> bool {
    forall|i: int| 0 <= i < ws.len() ==> bind_capability_ok(#[trigger] ws[i].content)
}

/// Runtime form of the capability check: a caller that cannot establish
/// the capabilities statically tests its write sequence with this before
/// applying it, and treats `false` as the original's fatal contract
/// violation.
pub fn check_writes(ws: &Vec<DescriptorWrite>) -> (r: bool)
    ensures
        r == writes_capability_ok(ws@),
{
    let mut i: usize = 0;
    while i < ws.len()
        invariant
            i <= ws.len(),
            forall|j: int| 0 <= j < i ==> bind_capability_ok(#[trigger] ws@[j].content),
        decreases ws.len() - i,
    {
        if !ws[i].content.capability_ok() {
            return false;
        }
        i = i + 1;
    }
    true
}

} // verus!
