//! Descriptor set layouts: the immutable schema of one descriptor set. A
//! user-defined description enumerates the binding entries; creation lowers
//! them, one native binding record per entry and in the schema's order, and
//! obtains the layout's native handle from the device.

use std::sync::Arc;

use vstd::prelude::*;

use crate::bind::DescriptorDesc;
use crate::bind::DescriptorWrite;
use crate::bind::spec_descriptor_type_vk;
use crate::bind::spec_stage_flags;
use crate::device::Device;
use crate::device::OomError;

verus! {

/// A user-defined description of one descriptor set's bindings. An
/// implementation enumerates the schema's entries and decodes its own typed
/// initial and write values into ordered `DescriptorWrite` sequences; the
/// engine consumes those sequences and nothing else of it.
pub trait DescriptorSetDesc: Sized {
    /// The typed value that populates a freshly allocated set.
    type Init;

    /// The typed value of one write request.
    type Write;

    /// The schema's binding entries, in order.
    spec fn spec_descriptors(&self) -> Seq<DescriptorDesc>;

    /// What a typed initial value decodes to.
    spec fn spec_decode_init(&self, init: Self::Init) -> Seq<DescriptorWrite>;

    /// What a typed write value decodes to.
    spec fn spec_decode_write(&self, write: Self::Write) -> Seq<DescriptorWrite>;

    /// Enumerates the schema's binding entries, in order.
    fn descriptors(&self) -> (r: Vec<DescriptorDesc>)
        ensures
            r@ == self.spec_descriptors(),
    ;

    /// Decodes a typed initial value into an ordered write sequence.
    fn decode_init(&self, init: Self::Init) -> (r: Vec<DescriptorWrite>)
        ensures
            r@ == self.spec_decode_init(init),
    ;

    /// Decodes a typed write value into an ordered write sequence.
    fn decode_write(&self, write: Self::Write) -> (r: Vec<DescriptorWrite>)
        ensures
            r@ == self.spec_decode_write(write),
    ;
}

/// One native binding-descriptor record, as the driver's create-layout call
/// consumes it. `immutable_samplers` is always the null handle: baked-in
/// samplers are not supported.
#[derive(Clone, Copy, PartialEq, Eq, Structural, Debug)]
pub struct LayoutBinding {
    pub binding: u32,
    pub descriptor_type: u32,
    pub descriptor_count: u32,
    pub stage_flags: u32,
    pub immutable_samplers: u64,
}

/// The native binding record that one schema entry lowers to.
pub open spec fn layout_binding_of(d: DescriptorDesc) -> LayoutBinding {
    LayoutBinding {
        binding: d.binding,
        descriptor_type: spec_descriptor_type_vk(d.ty),
        descriptor_count: d.array_count,
        stage_flags: spec_stage_flags(d.stages),
        immutable_samplers: 0,
    }
}

/// The record sequence that a schema lowers to: one record per entry, in
/// the schema's order.
pub open spec fn layout_bindings_of(descs: Seq<DescriptorDesc>) -> Seq<LayoutBinding> {
    descs.map_values(|d: DescriptorDesc| layout_binding_of(d))
}

/// Lowers the schema entries to native binding records, one per entry and
/// in order.
pub fn build_layout_bindings(descs: &Vec<DescriptorDesc>) -> (r: Vec<LayoutBinding>)
    ensures
        r@ == layout_bindings_of(descs@),
{
    let mut r: Vec<LayoutBinding> = Vec::new();
    let mut i: usize = 0;
    while i < descs.len()
        invariant
            i <= descs.len(),
            r@ == layout_bindings_of(descs@.take(i as int)),
        decreases descs.len() - i,
    {
        let d = descs[i];
        r.push(LayoutBinding {
            binding: d.binding,
            descriptor_type: d.ty.vk_enum(),
            descriptor_count: d.array_count,
            stage_flags: d.stages.vk_flags(),
            immutable_samplers: 0,
        });
        proof {
            assert(descs@.take(i + 1).drop_last() =~= descs@.take(i as int));
            assert(layout_bindings_of(descs@.take(i + 1)) =~= layout_bindings_of(
                descs@.take(i as int),
            ).push(layout_binding_of(descs@[i as int])));
        }
        i = i + 1;
    }
    proof {
        assert(descs@.take(descs@.len() as int) =~= descs@);
    }
    r
}

/// Layout creation keeps the schema's binding indices exactly: the lowered
/// records carry the same indices as the schema's entries, position by
/// position — none is lost, duplicated or reordered.
pub proof fn lemma_layout_keeps_binding_indices(descs: Seq<DescriptorDesc>)
    ensures
        layout_bindings_of(descs).len() == descs.len(),
        forall|i: int|
            0 <= i < descs.len() ==> #[trigger] layout_bindings_of(descs)[i].binding
                == descs[i].binding,
{
}

/// Describes the layout of all descriptors within one descriptor set: the
/// native layout handle, the handle of the owning device, and the schema it
/// was built from.
pub struct DescriptorSetLayout<S> {
    pub layout: u64,
    pub device: u64,
    pub description: S,
    pub bindings: Vec<LayoutBinding>,
}

impl<S: DescriptorSetDesc> DescriptorSetLayout<S> {
    /// Builds one native binding record per schema entry, in the schema's
    /// order, and creates the native layout object against the device:
    /// succeeds exactly while the device's creation budget is not
    /// exhausted, and reports the driver's out-of-memory error otherwise.
    pub fn new(device: &mut Device, description: S) -> (r: Result<
        Arc<DescriptorSetLayout<S>>,
        OomError,
    >)
        ensures
            old(device).objects_created < old(device).object_capacity <==> r is Ok,
            final(device).handle == old(device).handle,
            final(device).object_capacity == old(device).object_capacity,
            match r {
                Ok(l) => {
                    &&& final(device).objects_created == old(device).objects_created + 1
                    &&& l.device == old(device).handle
                    &&& l.layout == old(device).objects_created + 1
                    &&& l.layout != 0
                    &&& l.description == description
                    &&& l.bindings@ == layout_bindings_of(description.spec_descriptors())
                },
                Err(e) => {
                    &&& final(device).objects_created == old(device).objects_created
                    &&& e == OomError::OutOfHostMemory
                },
            },
    {
        let descs = description.descriptors();
        let bindings = build_layout_bindings(&descs);
        match device.create_object() {
            Ok(h) => Ok(
                Arc::new(
                    DescriptorSetLayout {
                        layout: h,
                        device: device.internal_object(),
                        description,
                        bindings,
                    },
                ),
            ),
            Err(e) => Err(e),
        }
    }

    /// Read-only access to the schema the layout was built from.
    pub fn description(&self) -> (r: &S)
        ensures
            *r == self.description,
    {
        &self.description
    }

    /// The native binding records the layout was created with.
    pub fn bindings(&self) -> (r: &Vec<LayoutBinding>)
        ensures
            r@ == self.bindings@,
    {
        &self.bindings
    }

    /// The layout's native handle.
    pub fn internal_object(&self) -> (r: u64)
        ensures
            r == self.layout,
    {
        self.layout
    }
}

/// Implemented on all `DescriptorSetLayout` objects. Hides the schema type
/// parameter behind the one thing every layout exposes: its native handle.
pub trait AbstractDescriptorSetLayout {
    /// The native handle the object answers with.
    spec fn spec_internal_object(&self) -> u64;

    /// The object's native handle, erased of its schema type.
    fn internal_object_u64(&self) -> (r: u64)
        ensures
            r == self.spec_internal_object(),
    ;
}

impl<S: DescriptorSetDesc> AbstractDescriptorSetLayout for DescriptorSetLayout<S> {
    open spec fn spec_internal_object(&self) -> u64 {
        self.layout
    }

    fn internal_object_u64(&self) -> (r: u64)
        ensures
            r == self.spec_internal_object(),
    {
        self.layout
    }
}

/// A schema given at run time as a plain list of binding entries, whose
/// typed initial and write values are already-decoded write sequences.
pub struct RuntimeDesc {
    pub entries: Vec<DescriptorDesc>,
}

impl DescriptorSetDesc for RuntimeDesc {
    type Init = Vec<DescriptorWrite>;

    type Write = Vec<DescriptorWrite>;

    open spec fn spec_descriptors(&self) -> Seq<DescriptorDesc> {
        self.entries@
    }

    open spec fn spec_decode_init(&self, init: Vec<DescriptorWrite>) -> Seq<DescriptorWrite> {
        init@
    }

    open spec fn spec_decode_write(&self, write: Vec<DescriptorWrite>) -> Seq<DescriptorWrite> {
        write@
    }

    fn descriptors(&self) -> (r: Vec<DescriptorDesc>)
        ensures
            r@ == self.spec_descriptors(),
    {
        let mut r: Vec<DescriptorDesc> = Vec::new();
        let mut i: usize = 0;
        while i < self.entries.len()
            invariant
                i <= self.entries.len(),
                r@ == self.entries@.take(i as int),
            decreases self.entries.len() - i,
        {
            r.push(self.entries[i]);
            proof {
                assert(self.entries@.take(i + 1) =~= self.entries@.take(i as int).push(
                    self.entries@[i as int],
                ));
            }
            i = i + 1;
        }
        proof {
            assert(self.entries@.take(self.entries@.len() as int) =~= self.entries@);
        }
        r
    }

    fn decode_init(&self, init: Vec<DescriptorWrite>) -> (r: Vec<DescriptorWrite>)
        ensures
            r@ == self.spec_decode_init(init),
    {
        init
    }

    fn decode_write(&self, write: Vec<DescriptorWrite>) -> (r: Vec<DescriptorWrite>)
        ensures
            r@ == self.spec_decode_write(write),
    {
        write
    }
}

} // verus!
