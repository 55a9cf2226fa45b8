//! Pipeline layouts: the aggregation of zero or more descriptor set layouts
//! into one native handle, consumed when a graphics or compute pipeline is
//! built. A user-defined description decodes its own typed selection value
//! into the ordered sequence of set-layout handles; this component lowers
//! that sequence into the native create call, with no push-constant ranges.

use std::sync::Arc;

use vstd::prelude::*;

use crate::device::Device;
use crate::device::OomError;

verus! {

/// A user-defined description of a pipeline layout. An implementation
/// decodes its own typed selection value into the ordered native handles of
/// the descriptor set layouts the pipeline uses; the engine consumes that
/// sequence and nothing else of it. The caller is responsible for every
/// named layout belonging to the creating device.
pub trait PipelineLayoutDesc: Sized {
    /// The typed value naming the descriptor set layouts to aggregate.
    type DescriptorSetLayouts;

    /// What a typed selection value decodes to: set-layout handles in set
    /// order.
    spec fn spec_decode_descriptor_set_layouts(&self, layouts: Self::DescriptorSetLayouts) -> Seq<
        u64,
    >;

    /// Decodes a typed selection value into ordered set-layout handles.
    fn decode_descriptor_set_layouts(&self, layouts: Self::DescriptorSetLayouts) -> (r: Vec<u64>)
        ensures
            r@ == self.spec_decode_descriptor_set_layouts(layouts),
    ;
}

/// A collection of descriptor set layouts aggregated into one native
/// pipeline-layout handle, keeping the aggregated layouts' handles for the
/// pipeline's lifetime.
pub struct PipelineLayout<P> {
    pub device: u64,
    pub layout: u64,
    pub description: P,
    pub layouts: Vec<u64>,
}

impl<P: PipelineLayoutDesc> PipelineLayout<P> {
    /// Decodes the layout selection through the description, builds the
    /// native handle array in the decoded order, and creates the native
    /// pipeline layout with zero push-constant ranges: succeeds exactly
    /// while the device's creation budget is not exhausted, and reports the
    /// driver's out-of-memory error otherwise.
    pub fn new(device: &mut Device, description: P, layouts: P::DescriptorSetLayouts) -> (r: Result<
        Arc<PipelineLayout<P>>,
        OomError,
    >)
        ensures
            old(device).objects_created < old(device).object_capacity <==> r is Ok,
            final(device).handle == old(device).handle,
            final(device).object_capacity == old(device).object_capacity,
            match r {
                Ok(l) => {
                    &&& final(device).objects_created == old(device).objects_created + 1
                    &&& l.device == old(device).handle
                    &&& l.layout == old(device).objects_created + 1
                    &&& l.layout != 0
                    &&& l.description == description
                    &&& l.layouts@ == description.spec_decode_descriptor_set_layouts(layouts)
                },
                Err(e) => {
                    &&& final(device).objects_created == old(device).objects_created
                    &&& e == OomError::OutOfHostMemory
                },
            },
    {
        let layouts_ids = description.decode_descriptor_set_layouts(layouts);
        match device.create_object() {
            Ok(h) => Ok(
                Arc::new(
                    PipelineLayout {
                        device: device.internal_object(),
                        layout: h,
                        description,
                        layouts: layouts_ids,
                    },
                ),
            ),
            Err(e) => Err(e),
        }
    }

    /// Read-only access to the description the pipeline layout was built
    /// from.
    pub fn description(&self) -> (r: &P)
        ensures
            *r == self.description,
    {
        &self.description
    }

    /// The native handles of the aggregated descriptor set layouts, in set
    /// order.
    pub fn layouts(&self) -> (r: &Vec<u64>)
        ensures
            r@ == self.layouts@,
    {
        &self.layouts
    }

    /// The pipeline layout's native handle.
    pub fn internal_object(&self) -> (r: u64)
        ensures
            r == self.layout,
    {
        self.layout
    }
}

/// A pipeline-layout description given at run time, whose typed selection
/// value is already the ordered list of set-layout handles.
pub struct RuntimePipelineDesc {}

impl PipelineLayoutDesc for RuntimePipelineDesc {
    type DescriptorSetLayouts = Vec<u64>;

    open spec fn spec_decode_descriptor_set_layouts(&self, layouts: Vec<u64>) -> Seq<u64> {
        layouts@
    }

    fn decode_descriptor_set_layouts(&self, layouts: Vec<u64>) -> (r: Vec<u64>)
        ensures
            r@ == self.spec_decode_descriptor_set_layouts(layouts),
    {
        layouts
    }
}

} // verus!
