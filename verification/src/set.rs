//! Descriptor sets and the write/update engine: a set is allocated from a
//! pool against a layout, and each write request is translated into the flat
//! batch of native update records the driver consumes — buffer payloads and
//! image payloads in two kind-segregated arrays, and one write record per
//! request entry pointing (by index) into exactly one of the two arrays.
//! The set also owns the record of every resource a write has ever bound,
//! so that no bound resource can be destroyed while the set lives.

use std::sync::Arc;

use vstd::prelude::*;

use crate::bind::Buffer;
use crate::bind::DescriptorBind;
use crate::bind::DescriptorWrite;
use crate::bind::ImageView;
use crate::bind::Sampler;
use crate::bind::bind_capability_ok;
use crate::bind::is_buffer_bind;
use crate::bind::spec_bind_ty;
use crate::bind::spec_descriptor_type_vk;
use crate::bind::spec_image_layout_vk;
use crate::bind::writes_capability_ok;
use crate::device::OomError;
use crate::layout::DescriptorSetDesc;
use crate::layout::DescriptorSetLayout;
use crate::pool::DescriptorPool;

verus! {

/// One native buffer-descriptor payload: the buffer's handle and the bound
/// byte range.
#[derive(Clone, Copy, PartialEq, Eq, Structural, Debug)]
pub struct DescriptorBufferInfo {
    pub buffer: u64,
    pub offset: u64,
    pub range: u64,
}

/// One native image-descriptor payload. The handle of a component that the
/// descriptor kind does not use is the null handle 0, and the layout field
/// of a plain sampler payload is 0.
#[derive(Clone, Copy, PartialEq, Eq, Structural, Debug)]
pub struct DescriptorImageInfo {
    pub sampler: u64,
    pub image_view: u64,
    pub image_layout: u32,
}

/// Which payload a native write record points at: the next unused entry of
/// the buffer-payload array or of the image-payload array. The two are
/// mutually exclusive per record; addresses are formed from the index only
/// at the point of the native call.
#[derive(Clone, Copy, PartialEq, Eq, Structural, Debug)]
pub enum DescriptorPayload {
    BufferInfo(usize),
    ImageInfo(usize),
}

/// One native write-descriptor-set record: destination set handle, binding
/// and array element, a count of one, the native descriptor-kind value, and
/// the payload it points at. The texel-buffer-view pointer of the native
/// record is always null and is not represented.
#[derive(Clone, Copy, PartialEq, Eq, Structural, Debug)]
pub struct WriteDescriptorSet {
    pub dst_set: u64,
    pub dst_binding: u32,
    pub dst_array_element: u32,
    pub descriptor_count: u32,
    pub descriptor_type: u32,
    pub payload: DescriptorPayload,
}

/// The full payload of one native update call: every write record of the
/// batch together with the two payload arrays its records point into.
pub struct UpdateBatch {
    pub device: u64,
    pub writes: Vec<WriteDescriptorSet>,
    pub buffer_infos: Vec<DescriptorBufferInfo>,
    pub image_infos: Vec<DescriptorImageInfo>,
}

/// The buffer carried by a buffer-kind bind.
pub open spec fn bind_buffer(b: DescriptorBind) -> Buffer {
    match b {
        DescriptorBind::UniformBuffer { buffer, .. } => buffer,
        DescriptorBind::StorageBuffer { buffer, .. } => buffer,
        DescriptorBind::DynamicUniformBuffer { buffer, .. } => buffer,
        DescriptorBind::DynamicStorageBuffer { buffer, .. } => buffer,
        _ => arbitrary(),
    }
}

/// The native buffer payload a buffer-kind bind lowers to.
pub open spec fn buffer_info_of(b: DescriptorBind) -> DescriptorBufferInfo {
    match b {
        DescriptorBind::UniformBuffer { buffer, offset, size } => DescriptorBufferInfo {
            buffer: buffer.handle,
            offset: offset as u64,
            range: size as u64,
        },
        DescriptorBind::StorageBuffer { buffer, offset, size } => DescriptorBufferInfo {
            buffer: buffer.handle,
            offset: offset as u64,
            range: size as u64,
        },
        DescriptorBind::DynamicUniformBuffer { buffer, offset, size } => DescriptorBufferInfo {
            buffer: buffer.handle,
            offset: offset as u64,
            range: size as u64,
        },
        DescriptorBind::DynamicStorageBuffer { buffer, offset, size } => DescriptorBufferInfo {
            buffer: buffer.handle,
            offset: offset as u64,
            range: size as u64,
        },
        _ => arbitrary(),
    }
}

/// The native image payload an image/sampler-kind bind lowers to.
pub open spec fn image_info_of(b: DescriptorBind) -> DescriptorImageInfo {
    match b {
        DescriptorBind::Sampler(s) => DescriptorImageInfo {
            sampler: s.handle,
            image_view: 0,
            image_layout: 0,
        },
        DescriptorBind::CombinedImageSampler(s, image, l) => DescriptorImageInfo {
            sampler: s.handle,
            image_view: image.handle,
            image_layout: spec_image_layout_vk(l),
        },
        DescriptorBind::SampledImage(image, l) => DescriptorImageInfo {
            sampler: 0,
            image_view: image.handle,
            image_layout: spec_image_layout_vk(l),
        },
        DescriptorBind::StorageImage(image, l) => DescriptorImageInfo {
            sampler: 0,
            image_view: image.handle,
            image_layout: spec_image_layout_vk(l),
        },
        DescriptorBind::InputAttachment(image, l) => DescriptorImageInfo {
            sampler: 0,
            image_view: image.handle,
            image_layout: spec_image_layout_vk(l),
        },
        _ => arbitrary(),
    }
}

/// The buffer payloads of a write sequence: one per buffer-kind entry,
/// keeping the entries' relative order.
pub open spec fn buffer_infos_of(ws: Seq<DescriptorWrite>) -> Seq<DescriptorBufferInfo>
    decreases ws.len(),
{
    if ws.len() == 0 {
        Seq::empty()
    } else if is_buffer_bind(ws.last().content) {
        buffer_infos_of(ws.drop_last()).push(buffer_info_of(ws.last().content))
    } else {
        buffer_infos_of(ws.drop_last())
    }
}

/// The image payloads of a write sequence: one per image/sampler-kind
/// entry, keeping the entries' relative order.
pub open spec fn image_infos_of(ws: Seq<DescriptorWrite>) -> Seq<DescriptorImageInfo>
    decreases ws.len(),
{
    if ws.len() == 0 {
        Seq::empty()
    } else if !is_buffer_bind(ws.last().content) {
        image_infos_of(ws.drop_last()).push(image_info_of(ws.last().content))
    } else {
        image_infos_of(ws.drop_last())
    }
}

/// The buffers a write sequence binds, in order of appearance.
pub open spec fn buffers_of(ws: Seq<DescriptorWrite>) -> Seq<Buffer>
    decreases ws.len(),
{
    if ws.len() == 0 {
        Seq::empty()
    } else if is_buffer_bind(ws.last().content) {
        buffers_of(ws.drop_last()).push(bind_buffer(ws.last().content))
    } else {
        buffers_of(ws.drop_last())
    }
}

/// The samplers a write sequence binds (plain sampler and combined
/// image-sampler entries), in order of appearance.
pub open spec fn samplers_of(ws: Seq<DescriptorWrite>) -> Seq<Sampler>
    decreases ws.len(),
{
    if ws.len() == 0 {
        Seq::empty()
    } else {
        let rest = samplers_of(ws.drop_last());
        match ws.last().content {
            DescriptorBind::Sampler(s) => rest.push(s),
            DescriptorBind::CombinedImageSampler(s, _, _) => rest.push(s),
            _ => rest,
        }
    }
}

/// The image views a write sequence binds (every image kind), in order of
/// appearance.
pub open spec fn image_views_of(ws: Seq<DescriptorWrite>) -> Seq<ImageView>
    decreases ws.len(),
{
    if ws.len() == 0 {
        Seq::empty()
    } else {
        let rest = image_views_of(ws.drop_last());
        match ws.last().content {
            DescriptorBind::CombinedImageSampler(_, image, _) => rest.push(image),
            DescriptorBind::SampledImage(image, _) => rest.push(image),
            DescriptorBind::StorageImage(image, _) => rest.push(image),
            DescriptorBind::InputAttachment(image, _) => rest.push(image),
            _ => rest,
        }
    }
}

/// The native write record of entry `i` of a write sequence: it targets the
/// entry's binding and array element, carries the entry's native descriptor
/// kind, and points at the next unused payload of its kind — the number of
/// earlier entries of the same kind.
pub open spec fn write_record_of(set: u64, ws: Seq<DescriptorWrite>, i: int) -> WriteDescriptorSet {
    WriteDescriptorSet {
        dst_set: set,
        dst_binding: ws[i].binding,
        dst_array_element: ws[i].array_element,
        descriptor_count: 1,
        descriptor_type: spec_descriptor_type_vk(spec_bind_ty(ws[i].content)),
        payload: if is_buffer_bind(ws[i].content) {
            DescriptorPayload::BufferInfo(buffer_infos_of(ws.take(i)).len() as usize)
        } else {
            DescriptorPayload::ImageInfo(image_infos_of(ws.take(i)).len() as usize)
        },
    }
}

/// What the one native update call for a write sequence holds: the two
/// kind-segregated payload arrays, and one write record per entry, in the
/// entries' order.
pub open spec fn batch_matches(b: UpdateBatch, device: u64, set: u64, ws: Seq<DescriptorWrite>) -> bool {
    &&& b.device == device
    &&& b.buffer_infos@ == buffer_infos_of(ws)
    &&& b.image_infos@ == image_infos_of(ws)
    &&& b.writes@.len() == ws.len()
    &&& forall|i: int| 0 <= i < ws.len() ==> #[trigger] b.writes@[i] == write_record_of(set, ws, i)
}

/// Every entry of a write sequence lowers to exactly one payload, in
/// exactly one of the two arrays.
pub proof fn lemma_payloads_partition(ws: Seq<DescriptorWrite>)
    ensures
        buffer_infos_of(ws).len() <= ws.len(),
        image_infos_of(ws).len() <= ws.len(),
        buffer_infos_of(ws).len() + image_infos_of(ws).len() == ws.len(),
    decreases ws.len(),
{
    if ws.len() > 0 {
        lemma_payloads_partition(ws.drop_last());
    }
}

/// An actual descriptor set: its native handle, the handles of the pool and
/// device it was allocated against, its layout, and the three append-only
/// collections holding a record of every resource ever bound through it.
pub struct DescriptorSet<S> {
    pub set: u64,
    pub device: u64,
    pub pool: u64,
    pub layout: Arc<DescriptorSetLayout<S>>,
    pub resources_samplers: Vec<Sampler>,
    pub resources_image_views: Vec<ImageView>,
    pub resources_buffers: Vec<Buffer>,
}

impl<S: DescriptorSetDesc> DescriptorSet<S> {
    /// Allocates a set from the pool against the layout, with empty
    /// resource-tracking collections and no binding written yet. The pool
    /// and the layout must have been created from the same device; the
    /// allocation succeeds exactly while the pool has a free slot, and
    /// reports out-of-memory otherwise.
    pub fn uninitialized(pool: &mut DescriptorPool, layout: Arc<DescriptorSetLayout<S>>) -> (r:
        Result<DescriptorSet<S>, OomError>)
        requires
            old(pool).device == layout.device,
        ensures
            old(pool).allocated < old(pool).capacity <==> r is Ok,
            final(pool).device == old(pool).device,
            final(pool).pool == old(pool).pool,
            final(pool).capacity == old(pool).capacity,
            match r {
                Ok(s) => {
                    &&& final(pool).allocated == old(pool).allocated + 1
                    &&& s.set == old(pool).allocated + 1
                    &&& s.set != 0
                    &&& s.device == old(pool).device
                    &&& s.pool == old(pool).pool
                    &&& s.layout == layout
                    &&& s.resources_buffers@ == Seq::<Buffer>::empty()
                    &&& s.resources_samplers@ == Seq::<Sampler>::empty()
                    &&& s.resources_image_views@ == Seq::<ImageView>::empty()
                },
                Err(e) => {
                    &&& final(pool).allocated == old(pool).allocated
                    &&& e == OomError::OutOfDeviceMemory
                },
            },
    {
        match pool.allocate() {
            Ok(h) => Ok(
                DescriptorSet {
                    set: h,
                    device: pool.device(),
                    pool: pool.internal_object(),
                    layout,
                    resources_samplers: Vec::new(),
                    resources_image_views: Vec::new(),
                    resources_buffers: Vec::new(),
                },
            ),
            Err(e) => Err(e),
        }
    }

    /// Allocates a set and immediately applies the schema-decoded initial
    /// write batch, so every binding is populated before first use. Returns
    /// the set together with the one native update call the initial batch
    /// requires — `None` when the decoded batch is empty. Every resource of
    /// the decoded batch must carry the capability its kind demands, and
    /// the pool and layout must share one device.
    pub fn new(pool: &mut DescriptorPool, layout: Arc<DescriptorSetLayout<S>>, init: S::Init) -> (r:
        Result<(DescriptorSet<S>, Option<UpdateBatch>), OomError>)
        requires
            old(pool).device == layout.device,
            writes_capability_ok(layout.description.spec_decode_init(init)),
        ensures
            old(pool).allocated < old(pool).capacity <==> r is Ok,
            final(pool).device == old(pool).device,
            final(pool).pool == old(pool).pool,
            final(pool).capacity == old(pool).capacity,
            match r {
                Ok((s, batch)) => {
                    &&& final(pool).allocated == old(pool).allocated + 1
                    &&& s.set == old(pool).allocated + 1
                    &&& s.device == old(pool).device
                    &&& s.pool == old(pool).pool
                    &&& s.layout == layout
                    &&& s.resources_buffers@ == buffers_of(
                        layout.description.spec_decode_init(init),
                    )
                    &&& s.resources_samplers@ == samplers_of(
                        layout.description.spec_decode_init(init),
                    )
                    &&& s.resources_image_views@ == image_views_of(
                        layout.description.spec_decode_init(init),
                    )
                    &&& (batch is None <==> layout.description.spec_decode_init(init).len() == 0)
                    &&& (batch matches Some(b) ==> batch_matches(
                        b,
                        old(pool).device,
                        s.set,
                        layout.description.spec_decode_init(init),
                    ))
                },
                Err(e) => {
                    &&& final(pool).allocated == old(pool).allocated
                    &&& e == OomError::OutOfDeviceMemory
                },
            },
    {
        let ws = layout.description().decode_init(init);
        let mut set = match Self::uninitialized(pool, layout) {
            Ok(s) => s,
            Err(e) => {
                return Err(e);
            },
        };
        let batch = set.unchecked_write(ws);
        proof {
            assert(Seq::<Buffer>::empty() + buffers_of(ws@) =~= buffers_of(ws@));
            assert(Seq::<Sampler>::empty() + samplers_of(ws@) =~= samplers_of(ws@));
            assert(Seq::<ImageView>::empty() + image_views_of(ws@) =~= image_views_of(ws@));
        }
        Ok((set, batch))
    }

    /// Decodes a typed write value through the set's layout schema and
    /// applies the decoded sequence. Returns the one native update call the
    /// batch requires — `None` when the decoded sequence is empty. Every
    /// resource of the decoded sequence must carry the capability its kind
    /// demands; this function trusts the schema only for the shape of the
    /// decode, never for capabilities.
    pub fn write(&mut self, write: S::Write) -> (r: Option<UpdateBatch>)
        requires
            writes_capability_ok(old(self).layout.description.spec_decode_write(write)),
        ensures
            final(self).set == old(self).set,
            final(self).device == old(self).device,
            final(self).pool == old(self).pool,
            final(self).layout == old(self).layout,
            final(self).resources_buffers@ == old(self).resources_buffers@ + buffers_of(
                old(self).layout.description.spec_decode_write(write),
            ),
            final(self).resources_samplers@ == old(self).resources_samplers@ + samplers_of(
                old(self).layout.description.spec_decode_write(write),
            ),
            final(self).resources_image_views@ == old(self).resources_image_views@ + image_views_of(
                old(self).layout.description.spec_decode_write(write),
            ),
            r is None <==> old(self).layout.description.spec_decode_write(write).len() == 0,
            r matches Some(b) ==> batch_matches(
                b,
                old(self).device,
                old(self).set,
                old(self).layout.description.spec_decode_write(write),
            ),
    {
        let ws = self.layout.description().decode_write(write);
        self.unchecked_write(ws)
    }

    /// Applies a pre-decoded write sequence directly, bypassing the schema.
    /// Partitions the entries into buffer payloads and image payloads
    /// (keeping each group's relative order), records every bound resource
    /// in the tracking collections, and builds one write record per entry
    /// pointing at the next unused payload of its kind. Returns the one
    /// native update call for the batch, or `None` for an empty batch,
    /// which requires no native call. Every resource must carry the
    /// capability its kind demands: a sequence that fails that check is a
    /// caller error and cannot be applied.
    pub fn unchecked_write(&mut self, writes: Vec<DescriptorWrite>) -> (r: Option<UpdateBatch>)
        requires
            writes_capability_ok(writes@),
        ensures
            final(self).set == old(self).set,
            final(self).device == old(self).device,
            final(self).pool == old(self).pool,
            final(self).layout == old(self).layout,
            final(self).resources_buffers@ == old(self).resources_buffers@ + buffers_of(writes@),
            final(self).resources_samplers@ == old(self).resources_samplers@ + samplers_of(writes@),
            final(self).resources_image_views@ == old(self).resources_image_views@ + image_views_of(
                writes@,
            ),
            r is None <==> writes@.len() == 0,
            writes@.len() == 0 ==> final(self).resources_buffers@ == old(self).resources_buffers@
                && final(self).resources_samplers@ == old(self).resources_samplers@
                && final(self).resources_image_views@ == old(self).resources_image_views@,
            r matches Some(b) ==> batch_matches(b, old(self).device, old(self).set, writes@),
    {
        let set_handle = self.set;

        let mut buffer_infos: Vec<DescriptorBufferInfo> = Vec::new();
        let mut new_buffers: Vec<Buffer> = Vec::new();
        let mut i: usize = 0;
        while i < writes.len()
            invariant
                i <= writes.len(),
                buffer_infos@ == buffer_infos_of(writes@.take(i as int)),
                new_buffers@ == buffers_of(writes@.take(i as int)),
            decreases writes.len() - i,
        {
            let w = writes[i];
            match w.content {
                DescriptorBind::UniformBuffer { buffer, offset, size }
                | DescriptorBind::StorageBuffer { buffer, offset, size }
                | DescriptorBind::DynamicUniformBuffer { buffer, offset, size }
                | DescriptorBind::DynamicStorageBuffer { buffer, offset, size } => {
                    new_buffers.push(buffer);
                    buffer_infos.push(
                        DescriptorBufferInfo {
                            buffer: buffer.internal_object(),
                            offset: offset as u64,
                            range: size as u64,
                        },
                    );
                },
                _ => {},
            }
            proof {
                assert(writes@.take(i + 1).drop_last() =~= writes@.take(i as int));
                assert(writes@.take(i + 1).last() == writes@[i as int]);
            }
            i = i + 1;
        }

        let mut image_infos: Vec<DescriptorImageInfo> = Vec::new();
        let mut new_samplers: Vec<Sampler> = Vec::new();
        let mut new_views: Vec<ImageView> = Vec::new();
        let mut i: usize = 0;
        while i < writes.len()
            invariant
                i <= writes.len(),
                image_infos@ == image_infos_of(writes@.take(i as int)),
                new_samplers@ == samplers_of(writes@.take(i as int)),
                new_views@ == image_views_of(writes@.take(i as int)),
            decreases writes.len() - i,
        {
            let w = writes[i];
            match w.content {
                DescriptorBind::Sampler(sampler) => {
                    new_samplers.push(sampler);
                    image_infos.push(
                        DescriptorImageInfo {
                            sampler: sampler.internal_object(),
                            image_view: 0,
                            image_layout: 0,
                        },
                    );
                },
                DescriptorBind::CombinedImageSampler(sampler, image, l) => {
                    new_samplers.push(sampler);
                    new_views.push(image);
                    image_infos.push(
                        DescriptorImageInfo {
                            sampler: sampler.internal_object(),
                            image_view: image.internal_object(),
                            image_layout: l.vk_enum(),
                        },
                    );
                },
                DescriptorBind::SampledImage(image, l) => {
                    new_views.push(image);
                    image_infos.push(
                        DescriptorImageInfo {
                            sampler: 0,
                            image_view: image.internal_object(),
                            image_layout: l.vk_enum(),
                        },
                    );
                },
                DescriptorBind::StorageImage(image, l) => {
                    new_views.push(image);
                    image_infos.push(
                        DescriptorImageInfo {
                            sampler: 0,
                            image_view: image.internal_object(),
                            image_layout: l.vk_enum(),
                        },
                    );
                },
                DescriptorBind::InputAttachment(image, l) => {
                    new_views.push(image);
                    image_infos.push(
                        DescriptorImageInfo {
                            sampler: 0,
                            image_view: image.internal_object(),
                            image_layout: l.vk_enum(),
                        },
                    );
                },
                _ => {},
            }
            proof {
                assert(writes@.take(i + 1).drop_last() =~= writes@.take(i as int));
                assert(writes@.take(i + 1).last() == writes@[i as int]);
            }
            i = i + 1;
        }

        let mut vk_writes: Vec<WriteDescriptorSet> = Vec::new();
        let mut next_buffer_desc: usize = 0;
        let mut next_image_desc: usize = 0;
        let mut i: usize = 0;
        while i < writes.len()
            invariant
                i <= writes.len(),
                vk_writes@.len() == i,
                next_buffer_desc == buffer_infos_of(writes@.take(i as int)).len(),
                next_image_desc == image_infos_of(writes@.take(i as int)).len(),
                forall|j: int|
                    0 <= j < i ==> #[trigger] vk_writes@[j] == write_record_of(
                        set_handle,
                        writes@,
                        j,
                    ),
            decreases writes.len() - i,
        {
            proof {
                lemma_payloads_partition(writes@.take(i as int));
            }
            let w = writes[i];
            let payload = if w.content.is_buffer() {
                let p = DescriptorPayload::BufferInfo(next_buffer_desc);
                next_buffer_desc = next_buffer_desc + 1;
                p
            } else {
                let p = DescriptorPayload::ImageInfo(next_image_desc);
                next_image_desc = next_image_desc + 1;
                p
            };
            vk_writes.push(
                WriteDescriptorSet {
                    dst_set: set_handle,
                    dst_binding: w.binding,
                    dst_array_element: w.array_element,
                    descriptor_count: 1,
                    descriptor_type: w.content.ty().vk_enum(),
                    payload,
                },
            );
            proof {
                assert(writes@.take(i as int) =~= writes@.take(i + 1).drop_last());
                assert(writes@.take(i + 1).last() == writes@[i as int]);
                assert(writes@.take(i + 1).take(i as int) =~= writes@.take(i as int));
            }
            i = i + 1;
        }

        proof {
            assert(writes@.take(writes@.len() as int) =~= writes@);
        }
        assert(next_buffer_desc == buffer_infos.len());
        assert(next_image_desc == image_infos.len());

        self.resources_buffers.append(&mut new_buffers);
        self.resources_samplers.append(&mut new_samplers);
        self.resources_image_views.append(&mut new_views);

        if vk_writes.len() == 0 {
            proof {
                assert(self.resources_buffers@ =~= old(self).resources_buffers@);
                assert(self.resources_samplers@ =~= old(self).resources_samplers@);
                assert(self.resources_image_views@ =~= old(self).resources_image_views@);
            }
            None
        } else {
            Some(
                UpdateBatch {
                    device: self.device,
                    writes: vk_writes,
                    buffer_infos,
                    image_infos,
                },
            )
        }
    }

    /// The set's native handle.
    pub fn internal_object(&self) -> (r: u64)
        ensures
            r == self.set,
    {
        self.set
    }

    /// Returns the set to the pool it was allocated from, consuming it:
    /// each set is freed exactly once, and before its pool is torn down.
    pub fn free(self, pool: &mut DescriptorPool)
        requires
            self.pool == old(pool).pool,
            old(pool).allocated > 0,
        ensures
            final(pool).allocated == old(pool).allocated - 1,
            final(pool).device == old(pool).device,
            final(pool).pool == old(pool).pool,
            final(pool).capacity == old(pool).capacity,
    {
        pool.free();
    }
}

/// Implemented on all `DescriptorSet` objects. Hides the schema type
/// parameter behind the one thing every set exposes: its native handle.
pub trait AbstractDescriptorSet {
    /// The native handle the object answers with.
    spec fn spec_internal_object(&self) -> u64;

    /// The object's native handle, erased of its schema type.
    fn internal_object_u64(&self) -> (r: u64)
        ensures
            r == self.spec_internal_object(),
    ;
}

impl<S: DescriptorSetDesc> AbstractDescriptorSet for DescriptorSet<S> {
    open spec fn spec_internal_object(&self) -> u64 {
        self.set
    }

    fn internal_object_u64(&self) -> (r: u64)
        ensures
            r == self.spec_internal_object(),
    {
        self.set
    }
}

/// For a write sequence of buffer kinds only, every buffer payload counts:
/// one payload per entry.
pub proof fn lemma_all_buffer_payload_count(ws: Seq<DescriptorWrite>)
    requires
        forall|i: int| 0 <= i < ws.len() ==> is_buffer_bind(#[trigger] ws[i].content),
    ensures
        buffer_infos_of(ws).len() == ws.len(),
    decreases ws.len(),
{
    if ws.len() > 0 {
        assert(forall|i: int|
            0 <= i < ws.drop_last().len() ==> is_buffer_bind(
                #[trigger] ws.drop_last()[i].content,
            ));
        lemma_all_buffer_payload_count(ws.drop_last());
        assert(is_buffer_bind(ws[ws.len() - 1].content));
    }
}

/// For a write sequence whose kinds are all buffer kinds, the derived
/// batch holds exactly one native write record per input entry, and the
/// record of entry `i` targets entry `i`'s binding and array element and
/// points at buffer payload `i` — the records match the inputs
/// positionally.
pub proof fn lemma_buffer_writes_positional(
    b: UpdateBatch,
    device: u64,
    set: u64,
    ws: Seq<DescriptorWrite>,
)
    requires
        batch_matches(b, device, set, ws),
        forall|i: int| 0 <= i < ws.len() ==> is_buffer_bind(#[trigger] ws[i].content),
    ensures
        b.writes@.len() == ws.len(),
        b.buffer_infos@.len() == ws.len(),
        forall|i: int|
            0 <= i < ws.len() ==> {
                &&& (#[trigger] b.writes@[i]).dst_set == set
                &&& b.writes@[i].dst_binding == ws[i].binding
                &&& b.writes@[i].dst_array_element == ws[i].array_element
                &&& b.writes@[i].payload == DescriptorPayload::BufferInfo(i as usize)
            },
{
    lemma_all_buffer_payload_count(ws);
    assert forall|i: int| 0 <= i < ws.len() implies {
        &&& (#[trigger] b.writes@[i]).dst_set == set
        &&& b.writes@[i].dst_binding == ws[i].binding
        &&& b.writes@[i].dst_array_element == ws[i].array_element
        &&& b.writes@[i].payload == DescriptorPayload::BufferInfo(i as usize)
    } by {
        assert(forall|j: int|
            0 <= j < ws.take(i).len() ==> is_buffer_bind(#[trigger] ws.take(i)[j].content));
        lemma_all_buffer_payload_count(ws.take(i));
        assert(b.writes@[i] == write_record_of(set, ws, i));
    }
}

/// A write sequence with any entry whose resource lacks the capability its
/// kind demands fails the capability check, so no entry point of the engine
/// accepts it and no native update call is built from it.
pub proof fn lemma_capability_violation_rejected(ws: Seq<DescriptorWrite>, i: int)
    requires
        0 <= i < ws.len(),
        !bind_capability_ok(ws[i].content),
    ensures
        !writes_capability_ok(ws),
{
}

/// Re-deriving the native batch from the same input twice yields two
/// batches identical in every field value, though built from different
/// underlying storage.
pub proof fn lemma_rederivation_identical(
    b1: UpdateBatch,
    b2: UpdateBatch,
    device: u64,
    set: u64,
    ws: Seq<DescriptorWrite>,
)
    requires
        batch_matches(b1, device, set, ws),
        batch_matches(b2, device, set, ws),
    ensures
        b1.device == b2.device,
        b1.writes@ == b2.writes@,
        b1.buffer_infos@ == b2.buffer_infos@,
        b1.image_infos@ == b2.image_infos@,
{
    assert(b1.writes@ =~= b2.writes@);
}

/// Whether a bind carries the given buffer.
pub open spec fn bind_references_buffer(b: DescriptorBind, x: Buffer) -> bool {
    is_buffer_bind(b) && bind_buffer(b) == x
}

/// Whether a bind carries the given sampler.
pub open spec fn bind_references_sampler(b: DescriptorBind, x: Sampler) -> bool {
    match b {
        DescriptorBind::Sampler(s) => s == x,
        DescriptorBind::CombinedImageSampler(s, _, _) => s == x,
        _ => false,
    }
}

/// Whether a bind carries the given image view.
pub open spec fn bind_references_image_view(b: DescriptorBind, x: ImageView) -> bool {
    match b {
        DescriptorBind::CombinedImageSampler(_, image, _) => image == x,
        DescriptorBind::SampledImage(image, _) => image == x,
        DescriptorBind::StorageImage(image, _) => image == x,
        DescriptorBind::InputAttachment(image, _) => image == x,
        _ => false,
    }
}

/// The buffer-tracking record of a write sequence is exactly the union of
/// the buffers its entries bind: a buffer is recorded if and only if some
/// entry binds it — no omissions and nothing extra.
pub proof fn lemma_tracked_buffers_exact(ws: Seq<DescriptorWrite>, x: Buffer)
    ensures
        buffers_of(ws).contains(x) <==> exists|i: int|
            0 <= i < ws.len() && bind_references_buffer(#[trigger] ws[i].content, x),
    decreases ws.len(),
{
    if ws.len() == 0 {
        assert(!buffers_of(ws).contains(x));
    } else {
        let p = ws.drop_last();
        let l = ws.last().content;
        lemma_tracked_buffers_exact(p, x);
        assert(forall|j: int| 0 <= j < p.len() ==> p[j] == ws[j]);
        assert(ws.last() == ws[ws.len() - 1]);
        let bs = buffers_of(p);
        if is_buffer_bind(l) {
            assert(buffers_of(ws) =~= bs.push(bind_buffer(l)));
            if bs.contains(x) {
                let k = choose|k: int| 0 <= k < bs.len() && bs[k] == x;
                assert(buffers_of(ws)[k] == x);
            }
            if bind_buffer(l) == x {
                assert(buffers_of(ws)[bs.len() as int] == x);
            }
            if buffers_of(ws).contains(x) {
                let k = choose|k: int|
                    0 <= k < buffers_of(ws).len() && buffers_of(ws)[k] == x;
                if k < bs.len() {
                    assert(bs[k] == x);
                }
            }
        }
        if exists|i: int| 0 <= i < ws.len() && bind_references_buffer(#[trigger] ws[i].content, x) {
            let i = choose|i: int|
                0 <= i < ws.len() && bind_references_buffer(#[trigger] ws[i].content, x);
            if i < p.len() {
                assert(bind_references_buffer(p[i].content, x));
            }
        }
        if exists|i: int| 0 <= i < p.len() && bind_references_buffer(#[trigger] p[i].content, x) {
            let i = choose|i: int|
                0 <= i < p.len() && bind_references_buffer(#[trigger] p[i].content, x);
            assert(bind_references_buffer(ws[i].content, x));
        }
        if bind_references_buffer(l, x) {
            assert(bind_references_buffer(ws[ws.len() - 1].content, x));
        }
    }
}

/// The sampler-tracking record of a write sequence is exactly the union of
/// the samplers its entries bind.
pub proof fn lemma_tracked_samplers_exact(ws: Seq<DescriptorWrite>, x: Sampler)
    ensures
        samplers_of(ws).contains(x) <==> exists|i: int|
            0 <= i < ws.len() && bind_references_sampler(#[trigger] ws[i].content, x),
    decreases ws.len(),
{
    if ws.len() == 0 {
        assert(!samplers_of(ws).contains(x));
    } else {
        let p = ws.drop_last();
        let l = ws.last().content;
        lemma_tracked_samplers_exact(p, x);
        assert(forall|j: int| 0 <= j < p.len() ==> p[j] == ws[j]);
        assert(ws.last() == ws[ws.len() - 1]);
        let ss = samplers_of(p);
        let pushed: Option<Sampler> = match l {
            DescriptorBind::Sampler(s) => Some(s),
            DescriptorBind::CombinedImageSampler(s, _, _) => Some(s),
            _ => None,
        };
        if pushed is Some {
            let s = pushed->Some_0;
            assert(samplers_of(ws) =~= ss.push(s));
            if ss.contains(x) {
                let k = choose|k: int| 0 <= k < ss.len() && ss[k] == x;
                assert(samplers_of(ws)[k] == x);
            }
            if s == x {
                assert(samplers_of(ws)[ss.len() as int] == x);
            }
            if samplers_of(ws).contains(x) {
                let k = choose|k: int|
                    0 <= k < samplers_of(ws).len() && samplers_of(ws)[k] == x;
                if k < ss.len() {
                    assert(ss[k] == x);
                }
            }
        }
        if exists|i: int| 0 <= i < ws.len() && bind_references_sampler(#[trigger] ws[i].content, x) {
            let i = choose|i: int|
                0 <= i < ws.len() && bind_references_sampler(#[trigger] ws[i].content, x);
            if i < p.len() {
                assert(bind_references_sampler(p[i].content, x));
            }
        }
        if exists|i: int| 0 <= i < p.len() && bind_references_sampler(#[trigger] p[i].content, x) {
            let i = choose|i: int|
                0 <= i < p.len() && bind_references_sampler(#[trigger] p[i].content, x);
            assert(bind_references_sampler(ws[i].content, x));
        }
        if bind_references_sampler(l, x) {
            assert(bind_references_sampler(ws[ws.len() - 1].content, x));
        }
    }
}

/// The image-view-tracking record of a write sequence is exactly the union
/// of the image views its entries bind.
pub proof fn lemma_tracked_image_views_exact(ws: Seq<DescriptorWrite>, x: ImageView)
    ensures
        image_views_of(ws).contains(x) <==> exists|i: int|
            0 <= i < ws.len() && bind_references_image_view(#[trigger] ws[i].content, x),
    decreases ws.len(),
{
    if ws.len() == 0 {
        assert(!image_views_of(ws).contains(x));
    } else {
        let p = ws.drop_last();
        let l = ws.last().content;
        lemma_tracked_image_views_exact(p, x);
        assert(forall|j: int| 0 <= j < p.len() ==> p[j] == ws[j]);
        assert(ws.last() == ws[ws.len() - 1]);
        let vs = image_views_of(p);
        let pushed: Option<ImageView> = match l {
            DescriptorBind::CombinedImageSampler(_, image, _) => Some(image),
            DescriptorBind::SampledImage(image, _) => Some(image),
            DescriptorBind::StorageImage(image, _) => Some(image),
            DescriptorBind::InputAttachment(image, _) => Some(image),
            _ => None,
        };
        if pushed is Some {
            let v = pushed->Some_0;
            assert(image_views_of(ws) =~= vs.push(v));
            if vs.contains(x) {
                let k = choose|k: int| 0 <= k < vs.len() && vs[k] == x;
                assert(image_views_of(ws)[k] == x);
            }
            if v == x {
                assert(image_views_of(ws)[vs.len() as int] == x);
            }
            if image_views_of(ws).contains(x) {
                let k = choose|k: int|
                    0 <= k < image_views_of(ws).len() && image_views_of(ws)[k] == x;
                if k < vs.len() {
                    assert(vs[k] == x);
                }
            }
        }
        if exists|i: int|
            0 <= i < ws.len() && bind_references_image_view(#[trigger] ws[i].content, x) {
            let i = choose|i: int|
                0 <= i < ws.len() && bind_references_image_view(#[trigger] ws[i].content, x);
            if i < p.len() {
                assert(bind_references_image_view(p[i].content, x));
            }
        }
        if exists|i: int|
            0 <= i < p.len() && bind_references_image_view(#[trigger] p[i].content, x) {
            let i = choose|i: int|
                0 <= i < p.len() && bind_references_image_view(#[trigger] p[i].content, x);
            assert(bind_references_image_view(ws[i].content, x));
        }
        if bind_references_image_view(l, x) {
            assert(bind_references_image_view(ws[ws.len() - 1].content, x));
        }
    }
}

} // verus!
