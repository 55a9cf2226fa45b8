use std::sync::Arc;

use descriptor_set::bind::Buffer;
use descriptor_set::bind::DescriptorBind;
use descriptor_set::bind::DescriptorDesc;
use descriptor_set::bind::DescriptorType;
use descriptor_set::bind::DescriptorWrite;
use descriptor_set::bind::ImageLayout;
use descriptor_set::bind::ImageView;
use descriptor_set::bind::Sampler;
use descriptor_set::bind::ShaderStages;
use descriptor_set::bind::check_writes;
use descriptor_set::device::Device;
use descriptor_set::device::OomError;
use descriptor_set::layout::DescriptorSetLayout;
use descriptor_set::layout::RuntimeDesc;
use descriptor_set::pool::DescriptorPool;
use descriptor_set::set::DescriptorPayload;
use descriptor_set::set::DescriptorSet;

fn uniform_buffer(handle: u64) -> Buffer {
    Buffer { handle, usage_uniform: true, usage_storage: false }
}

fn storage_buffer(handle: u64) -> Buffer {
    Buffer { handle, usage_uniform: false, usage_storage: true }
}

fn sampled_image(handle: u64) -> ImageView {
    ImageView { handle, usage_sampled: true, usage_storage: false, usage_input_attachment: false }
}

fn two_binding_schema() -> RuntimeDesc {
    RuntimeDesc {
        entries: vec![
            DescriptorDesc {
                binding: 0,
                ty: DescriptorType::UniformBuffer,
                array_count: 1,
                stages: ShaderStages::all(),
            },
            DescriptorDesc {
                binding: 1,
                ty: DescriptorType::CombinedImageSampler,
                array_count: 1,
                stages: ShaderStages::all(),
            },
        ],
    }
}

fn fresh_set(
    device: &mut Device,
    schema: RuntimeDesc,
    pool_capacity: u64,
) -> (DescriptorPool, Arc<DescriptorSetLayout<RuntimeDesc>>, DescriptorSet<RuntimeDesc>) {
    let layout = DescriptorSetLayout::new(device, schema).unwrap();
    let mut pool = DescriptorPool::new(device, pool_capacity).unwrap();
    let set = DescriptorSet::uninitialized(&mut pool, layout.clone()).unwrap();
    (pool, layout, set)
}

#[test]
fn buffer_writes_match_positionally() {
    // A batch of buffer kinds only: one record per write, each targeting its
    // write's binding and array element and pointing at buffer payload i.
    let mut device = Device::new(1, 16);
    let (_pool, _layout, mut set) = fresh_set(&mut device, two_binding_schema(), 4);
    let writes = vec![
        DescriptorWrite {
            binding: 3,
            array_element: 0,
            content: DescriptorBind::UniformBuffer { buffer: uniform_buffer(21), offset: 0, size: 16 },
        },
        DescriptorWrite {
            binding: 1,
            array_element: 2,
            content: DescriptorBind::StorageBuffer { buffer: storage_buffer(22), offset: 8, size: 24 },
        },
        DescriptorWrite {
            binding: 0,
            array_element: 1,
            content: DescriptorBind::DynamicUniformBuffer {
                buffer: uniform_buffer(23),
                offset: 4,
                size: 32,
            },
        },
    ];
    let batch = set.unchecked_write(writes.clone()).unwrap();
    assert_eq!(batch.writes.len(), writes.len());
    assert_eq!(batch.buffer_infos.len(), writes.len());
    assert_eq!(batch.image_infos.len(), 0);
    for (i, w) in writes.iter().enumerate() {
        assert_eq!(batch.writes[i].dst_binding, w.binding);
        assert_eq!(batch.writes[i].dst_array_element, w.array_element);
        assert_eq!(batch.writes[i].dst_set, set.internal_object());
        assert_eq!(batch.writes[i].descriptor_count, 1);
        assert_eq!(batch.writes[i].payload, DescriptorPayload::BufferInfo(i));
    }
    assert_eq!(batch.writes[0].descriptor_type, 6);
    assert_eq!(batch.writes[1].descriptor_type, 7);
    assert_eq!(batch.writes[2].descriptor_type, 8);
    assert_eq!(batch.buffer_infos[1].buffer, 22);
    assert_eq!(batch.buffer_infos[1].offset, 8);
    assert_eq!(batch.buffer_infos[1].range, 24);
}

#[test]
fn missing_capability_is_rejected() {
    // A buffer bound as a uniform buffer without the uniform capability
    // fails the capability check, so the update is refused before any
    // native call: the caller must not apply such a sequence.
    let bad = vec![DescriptorWrite {
        binding: 0,
        array_element: 0,
        content: DescriptorBind::UniformBuffer { buffer: storage_buffer(9), offset: 0, size: 4 },
    }];
    assert!(!check_writes(&bad));

    let also_bad = vec![DescriptorWrite {
        binding: 1,
        array_element: 0,
        content: DescriptorBind::StorageImage(sampled_image(5), ImageLayout::General),
    }];
    assert!(!check_writes(&also_bad));

    let good = vec![DescriptorWrite {
        binding: 0,
        array_element: 0,
        content: DescriptorBind::UniformBuffer { buffer: uniform_buffer(9), offset: 0, size: 4 },
    }];
    assert!(check_writes(&good));
}

#[test]
fn rederiving_batch_is_identical() {
    // The same mixed write sequence, applied twice, lowers to two batches
    // identical in every field value though built from different storage.
    let mut device = Device::new(1, 16);
    let (mut pool, layout, mut set) = fresh_set(&mut device, two_binding_schema(), 4);
    let writes = vec![
        DescriptorWrite {
            binding: 1,
            array_element: 0,
            content: DescriptorBind::CombinedImageSampler(
                Sampler { handle: 31 },
                sampled_image(32),
                ImageLayout::ShaderReadOnlyOptimal,
            ),
        },
        DescriptorWrite {
            binding: 0,
            array_element: 0,
            content: DescriptorBind::UniformBuffer { buffer: uniform_buffer(33), offset: 0, size: 64 },
        },
        DescriptorWrite {
            binding: 2,
            array_element: 0,
            content: DescriptorBind::SampledImage(sampled_image(34), ImageLayout::General),
        },
    ];
    let first = set.unchecked_write(writes.clone()).unwrap();
    let second = set.unchecked_write(writes.clone()).unwrap();
    assert_eq!(first.device, second.device);
    assert_eq!(first.writes, second.writes);
    assert_eq!(first.buffer_infos, second.buffer_infos);
    assert_eq!(first.image_infos, second.image_infos);

    // And on a second, freshly allocated set with the same handle-free
    // inputs the records differ only in the destination set handle.
    let mut other = DescriptorSet::uninitialized(&mut pool, layout).unwrap();
    let third = other.unchecked_write(writes).unwrap();
    assert_eq!(third.buffer_infos, first.buffer_infos);
    assert_eq!(third.image_infos, first.image_infos);
    assert_eq!(third.writes.len(), first.writes.len());
}

#[test]
fn tracking_collections_hold_written_resources() {
    // Creating a set with an initial batch records exactly the union of the
    // resources the batch references, per kind and in order of appearance.
    let mut device = Device::new(1, 16);
    let layout = DescriptorSetLayout::new(&mut device, two_binding_schema()).unwrap();
    let mut pool = DescriptorPool::new(&mut device, 4).unwrap();
    let b = uniform_buffer(41);
    let s = Sampler { handle: 42 };
    let v = sampled_image(43);
    let init = vec![
        DescriptorWrite {
            binding: 0,
            array_element: 0,
            content: DescriptorBind::UniformBuffer { buffer: b, offset: 0, size: 64 },
        },
        DescriptorWrite {
            binding: 1,
            array_element: 0,
            content: DescriptorBind::CombinedImageSampler(s, v, ImageLayout::ShaderReadOnlyOptimal),
        },
    ];
    let (set, batch) = DescriptorSet::new(&mut pool, layout, init).unwrap();
    assert!(batch.is_some());
    assert_eq!(set.resources_buffers, vec![b]);
    assert_eq!(set.resources_samplers, vec![s]);
    assert_eq!(set.resources_image_views, vec![v]);
}

#[test]
fn two_binding_update_scenario() {
    // A layout with binding 0 = uniform buffer and binding 1 = combined
    // image-sampler; one write to each: exactly one buffer payload, one
    // image payload, and one update call carrying two records.
    let mut device = Device::new(1, 16);
    let (_pool, _layout, mut set) = fresh_set(&mut device, two_binding_schema(), 4);
    let b = uniform_buffer(51);
    let s = Sampler { handle: 52 };
    let v = sampled_image(53);
    let writes = vec![
        DescriptorWrite {
            binding: 0,
            array_element: 0,
            content: DescriptorBind::UniformBuffer { buffer: b, offset: 0, size: 64 },
        },
        DescriptorWrite {
            binding: 1,
            array_element: 0,
            content: DescriptorBind::CombinedImageSampler(s, v, ImageLayout::ShaderReadOnlyOptimal),
        },
    ];
    let batch = set.unchecked_write(writes).expect("two writes need one update call");
    assert_eq!(batch.writes.len(), 2);
    assert_eq!(batch.buffer_infos.len(), 1);
    assert_eq!(batch.image_infos.len(), 1);
    assert_eq!(batch.buffer_infos[0].buffer, 51);
    assert_eq!(batch.buffer_infos[0].offset, 0);
    assert_eq!(batch.buffer_infos[0].range, 64);
    assert_eq!(batch.image_infos[0].sampler, 52);
    assert_eq!(batch.image_infos[0].image_view, 53);
    assert_eq!(batch.image_infos[0].image_layout, 5);
    assert_eq!(batch.writes[0].dst_binding, 0);
    assert_eq!(batch.writes[0].payload, DescriptorPayload::BufferInfo(0));
    assert_eq!(batch.writes[0].descriptor_type, 6);
    assert_eq!(batch.writes[1].dst_binding, 1);
    assert_eq!(batch.writes[1].payload, DescriptorPayload::ImageInfo(0));
    assert_eq!(batch.writes[1].descriptor_type, 1);
    assert_eq!(set.resources_buffers, vec![b]);
    assert_eq!(set.resources_samplers, vec![s]);
    assert_eq!(set.resources_image_views, vec![v]);
}

#[test]
fn empty_batch_issues_no_update_call() {
    // An empty write batch issues zero native update calls and leaves the
    // tracking collections unchanged.
    let mut device = Device::new(1, 16);
    let (_pool, _layout, mut set) = fresh_set(&mut device, two_binding_schema(), 4);
    let before_buffers = set.resources_buffers.clone();
    let before_samplers = set.resources_samplers.clone();
    let before_views = set.resources_image_views.clone();
    let batch = set.unchecked_write(Vec::new());
    assert!(batch.is_none());
    assert_eq!(set.resources_buffers, before_buffers);
    assert_eq!(set.resources_samplers, before_samplers);
    assert_eq!(set.resources_image_views, before_views);
}

#[test]
fn write_decodes_through_the_schema() {
    // The validated entry point decodes the typed value through the layout's
    // schema and applies the decoded sequence.
    let mut device = Device::new(1, 16);
    let (_pool, _layout, mut set) = fresh_set(&mut device, two_binding_schema(), 4);
    let writes = vec![DescriptorWrite {
        binding: 0,
        array_element: 0,
        content: DescriptorBind::DynamicStorageBuffer {
            buffer: storage_buffer(61),
            offset: 0,
            size: 128,
        },
    }];
    let batch = set.write(writes).unwrap();
    assert_eq!(batch.writes.len(), 1);
    assert_eq!(batch.writes[0].descriptor_type, 9);
    assert_eq!(batch.buffer_infos[0].buffer, 61);
    assert_eq!(batch.buffer_infos[0].range, 128);
    assert_eq!(set.resources_buffers, vec![storage_buffer(61)]);
}

#[test]
fn pool_exhaustion_reports_out_of_memory() {
    // A pool of capacity one satisfies one allocation and reports the
    // out-of-memory error kind for the next.
    let mut device = Device::new(1, 16);
    let layout = DescriptorSetLayout::new(&mut device, two_binding_schema()).unwrap();
    let mut pool = DescriptorPool::new(&mut device, 1).unwrap();
    let set = DescriptorSet::uninitialized(&mut pool, layout.clone()).unwrap();
    assert_ne!(set.internal_object(), 0);
    let denied = DescriptorSet::uninitialized(&mut pool, layout.clone());
    assert_eq!(denied.err(), Some(OomError::OutOfDeviceMemory));

    // Freeing the set returns its slot: allocation succeeds again.
    set.free(&mut pool);
    assert!(DescriptorSet::uninitialized(&mut pool, layout).is_ok());
}

#[test]
fn allocation_starts_empty() {
    let mut device = Device::new(7, 16);
    let (pool, layout, set) = fresh_set(&mut device, two_binding_schema(), 4);
    assert!(set.resources_buffers.is_empty());
    assert!(set.resources_samplers.is_empty());
    assert!(set.resources_image_views.is_empty());
    assert_eq!(set.device, pool.device());
    assert_eq!(set.device, layout.device);
    assert_eq!(set.pool, pool.internal_object());
}

#[test]
fn image_kinds_lower_to_expected_payloads() {
    // Each image/sampler kind fills exactly the payload fields its kind
    // uses and leaves the rest null.
    let mut device = Device::new(1, 16);
    let (_pool, _layout, mut set) = fresh_set(&mut device, two_binding_schema(), 4);
    let storage_image =
        ImageView { handle: 72, usage_sampled: false, usage_storage: true, usage_input_attachment: false };
    let input_image =
        ImageView { handle: 73, usage_sampled: false, usage_storage: false, usage_input_attachment: true };
    let writes = vec![
        DescriptorWrite {
            binding: 0,
            array_element: 0,
            content: DescriptorBind::Sampler(Sampler { handle: 71 }),
        },
        DescriptorWrite {
            binding: 1,
            array_element: 0,
            content: DescriptorBind::StorageImage(storage_image, ImageLayout::General),
        },
        DescriptorWrite {
            binding: 2,
            array_element: 0,
            content: DescriptorBind::InputAttachment(input_image, ImageLayout::ShaderReadOnlyOptimal),
        },
    ];
    let batch = set.unchecked_write(writes).unwrap();
    assert_eq!(batch.image_infos.len(), 3);
    assert_eq!(batch.image_infos[0].sampler, 71);
    assert_eq!(batch.image_infos[0].image_view, 0);
    assert_eq!(batch.image_infos[0].image_layout, 0);
    assert_eq!(batch.image_infos[1].sampler, 0);
    assert_eq!(batch.image_infos[1].image_view, 72);
    assert_eq!(batch.image_infos[1].image_layout, 1);
    assert_eq!(batch.image_infos[2].sampler, 0);
    assert_eq!(batch.image_infos[2].image_view, 73);
    assert_eq!(batch.image_infos[2].image_layout, 5);
    assert_eq!(batch.writes[0].descriptor_type, 0);
    assert_eq!(batch.writes[1].descriptor_type, 3);
    assert_eq!(batch.writes[2].descriptor_type, 10);
    // The sampler of a combined bind and the plain sampler are tracked; the
    // storage and input images land in the image-view collection.
    assert_eq!(set.resources_samplers, vec![Sampler { handle: 71 }]);
    assert_eq!(set.resources_image_views, vec![storage_image, input_image]);
    assert!(set.resources_buffers.is_empty());
}

#[test]
fn create_with_empty_init_issues_no_update_call() {
    // `new` with an initial batch that decodes to nothing allocates the set
    // and issues zero native update calls.
    let mut device = Device::new(1, 16);
    let layout = DescriptorSetLayout::new(&mut device, two_binding_schema()).unwrap();
    let mut pool = DescriptorPool::new(&mut device, 4).unwrap();
    let (set, batch) = DescriptorSet::new(&mut pool, layout, Vec::new()).unwrap();
    assert!(batch.is_none());
    assert!(set.resources_buffers.is_empty());
    assert!(set.resources_samplers.is_empty());
    assert!(set.resources_image_views.is_empty());
}

#[test]
fn create_propagates_pool_exhaustion() {
    let mut device = Device::new(1, 16);
    let layout = DescriptorSetLayout::new(&mut device, two_binding_schema()).unwrap();
    let mut pool = DescriptorPool::new(&mut device, 0).unwrap();
    let denied = DescriptorSet::new(&mut pool, layout, Vec::new());
    assert!(matches!(denied, Err(OomError::OutOfDeviceMemory)));
}
