use descriptor_set::bind::DescriptorDesc;
use descriptor_set::bind::DescriptorType;
use descriptor_set::bind::ShaderStages;
use descriptor_set::device::Device;
use descriptor_set::device::OomError;
use descriptor_set::layout::AbstractDescriptorSetLayout;
use descriptor_set::layout::DescriptorSetLayout;
use descriptor_set::layout::RuntimeDesc;
use descriptor_set::layout::build_layout_bindings;
use descriptor_set::pipeline_layout::PipelineLayout;
use descriptor_set::pipeline_layout::RuntimePipelineDesc;
use descriptor_set::pool::DescriptorPool;
use descriptor_set::set::AbstractDescriptorSet;
use descriptor_set::set::DescriptorSet;

fn fragment_only() -> ShaderStages {
    ShaderStages {
        vertex: false,
        tessellation_control: false,
        tessellation_evaluation: false,
        geometry: false,
        fragment: true,
        compute: false,
    }
}

fn sample_entries() -> Vec<DescriptorDesc> {
    vec![
        DescriptorDesc {
            binding: 4,
            ty: DescriptorType::StorageBuffer,
            array_count: 2,
            stages: fragment_only(),
        },
        DescriptorDesc {
            binding: 0,
            ty: DescriptorType::Sampler,
            array_count: 1,
            stages: ShaderStages::all(),
        },
        DescriptorDesc {
            binding: 2,
            ty: DescriptorType::InputAttachment,
            array_count: 1,
            stages: fragment_only(),
        },
    ]
}

#[test]
fn layout_creation_keeps_binding_indices() {
    // The lowered binding records carry exactly the schema's binding
    // indices, in the schema's order: none lost, duplicated or reordered.
    let entries = sample_entries();
    let records = build_layout_bindings(&entries);
    assert_eq!(records.len(), entries.len());
    let record_indices: Vec<u32> = records.iter().map(|r| r.binding).collect();
    let schema_indices: Vec<u32> = entries.iter().map(|d| d.binding).collect();
    assert_eq!(record_indices, schema_indices);
}

#[test]
fn layout_records_lower_every_field() {
    let entries = sample_entries();
    let records = build_layout_bindings(&entries);
    assert_eq!(records[0].descriptor_type, 7);
    assert_eq!(records[0].descriptor_count, 2);
    assert_eq!(records[0].stage_flags, 0x10);
    assert_eq!(records[0].immutable_samplers, 0);
    assert_eq!(records[1].descriptor_type, 0);
    assert_eq!(records[1].stage_flags, 0x3f);
    assert_eq!(records[2].descriptor_type, 10);
}

#[test]
fn layout_new_stores_schema_and_handle() {
    let mut device = Device::new(11, 8);
    let layout = DescriptorSetLayout::new(&mut device, RuntimeDesc { entries: sample_entries() })
        .unwrap();
    assert_ne!(layout.internal_object(), 0);
    assert_eq!(layout.device, 11);
    assert_eq!(layout.description().entries, sample_entries());
    assert_eq!(layout.bindings(), &build_layout_bindings(&sample_entries()));
    assert_eq!(layout.internal_object_u64(), layout.internal_object());
}

#[test]
fn device_budget_exhaustion_reports_out_of_memory() {
    // A device able to create one object satisfies one layout creation and
    // reports the out-of-memory error kind for the next.
    let mut device = Device::new(1, 1);
    assert!(DescriptorSetLayout::new(&mut device, RuntimeDesc { entries: Vec::new() }).is_ok());
    let denied = DescriptorSetLayout::new(&mut device, RuntimeDesc { entries: Vec::new() });
    assert_eq!(denied.err(), Some(OomError::OutOfHostMemory));
}

#[test]
fn pipeline_layout_aggregates_set_layouts_in_order() {
    let mut device = Device::new(1, 8);
    let first = DescriptorSetLayout::new(&mut device, RuntimeDesc { entries: sample_entries() })
        .unwrap();
    let second = DescriptorSetLayout::new(&mut device, RuntimeDesc { entries: Vec::new() })
        .unwrap();
    let ids = vec![first.internal_object_u64(), second.internal_object_u64()];
    let pipeline = PipelineLayout::new(&mut device, RuntimePipelineDesc {}, ids.clone()).unwrap();
    assert_eq!(pipeline.layouts(), &ids);
    assert_ne!(pipeline.internal_object(), 0);
    assert_eq!(pipeline.device, 1);
    let _ = pipeline.description();
}

#[test]
fn pipeline_layout_creation_can_fail_with_oom() {
    let mut device = Device::new(1, 0);
    let denied = PipelineLayout::new(&mut device, RuntimePipelineDesc {}, Vec::new());
    assert_eq!(denied.err(), Some(OomError::OutOfHostMemory));
}

#[test]
fn descriptor_type_native_values() {
    assert_eq!(DescriptorType::Sampler.vk_enum(), 0);
    assert_eq!(DescriptorType::CombinedImageSampler.vk_enum(), 1);
    assert_eq!(DescriptorType::SampledImage.vk_enum(), 2);
    assert_eq!(DescriptorType::StorageImage.vk_enum(), 3);
    assert_eq!(DescriptorType::UniformBuffer.vk_enum(), 6);
    assert_eq!(DescriptorType::StorageBuffer.vk_enum(), 7);
    assert_eq!(DescriptorType::DynamicUniformBuffer.vk_enum(), 8);
    assert_eq!(DescriptorType::DynamicStorageBuffer.vk_enum(), 9);
    assert_eq!(DescriptorType::InputAttachment.vk_enum(), 10);
}

#[test]
fn stage_flags_combine_distinct_bits() {
    assert_eq!(fragment_only().vk_flags(), 0x10);
    assert_eq!(ShaderStages::all().vk_flags(), 0x3f);
    let none = ShaderStages {
        vertex: false,
        tessellation_control: false,
        tessellation_evaluation: false,
        geometry: false,
        fragment: false,
        compute: false,
    };
    assert_eq!(none.vk_flags(), 0);
    let vertex_compute = ShaderStages { vertex: true, compute: true, ..none };
    assert_eq!(vertex_compute.vk_flags(), 0x21);
}

#[test]
fn abstract_set_answers_with_its_handle() {
    let mut device = Device::new(1, 8);
    let layout = DescriptorSetLayout::new(&mut device, RuntimeDesc { entries: Vec::new() })
        .unwrap();
    let mut pool = DescriptorPool::new(&mut device, 2).unwrap();
    let set = DescriptorSet::uninitialized(&mut pool, layout).unwrap();
    assert_eq!(set.internal_object_u64(), set.internal_object());
}
