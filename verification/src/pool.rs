//! The descriptor pool boundary: a fixed-capacity arena that hands out raw
//! descriptor-set handles and takes them back. The engine only calls
//! allocate and free on it; the pool's accounting is the simplest one that
//! honours the boundary contract — a slot count, with set handles naming
//! slots.

use vstd::prelude::*;

use crate::device::Device;
use crate::device::OomError;

verus! {

/// A fixed-capacity descriptor-set arena created against one device. Slot
/// handles are the integers `1..=capacity`; `allocated` slots are in use.
pub struct DescriptorPool {
    pub device: u64,
    pub pool: u64,
    pub capacity: u64,
    pub allocated: u64,
}

impl DescriptorPool {
    /// Creates a pool against the device, itself a native object: succeeds
    /// exactly while the device's creation budget is not exhausted.
    pub fn new(device: &mut Device, capacity: u64) -> (r: Result<DescriptorPool, OomError>)
        ensures
            old(device).objects_created < old(device).object_capacity <==> r is Ok,
            final(device).handle == old(device).handle,
            final(device).object_capacity == old(device).object_capacity,
            match r {
                Ok(p) => {
                    &&& final(device).objects_created == old(device).objects_created + 1
                    &&& p.device == old(device).handle
                    &&& p.pool == old(device).objects_created + 1
                    &&& p.capacity == capacity
                    &&& p.allocated == 0
                },
                Err(e) => {
                    &&& final(device).objects_created == old(device).objects_created
                    &&& e == OomError::OutOfHostMemory
                },
            },
    {
        match device.create_object() {
            Ok(h) => Ok(DescriptorPool { device: device.internal_object(), pool: h, capacity, allocated: 0 }),
            Err(e) => Err(e),
        }
    }

    /// The handle of the device the pool was created against.
    pub fn device(&self) -> (r: u64)
        ensures
            r == self.device,
    {
        self.device
    }

    /// The pool's native handle.
    pub fn internal_object(&self) -> (r: u64)
        ensures
            r == self.pool,
    {
        self.pool
    }

    /// Allocates one raw descriptor-set handle: succeeds with a non-null
    /// slot handle exactly while a slot is free, and reports out-of-memory
    /// once the capacity is exhausted.
    pub fn allocate(&mut self) -> (r: Result<u64, OomError>)
        ensures
            old(self).allocated < old(self).capacity <==> r is Ok,
            final(self).device == old(self).device,
            final(self).pool == old(self).pool,
            final(self).capacity == old(self).capacity,
            match r {
                Ok(h) => {
                    &&& final(self).allocated == old(self).allocated + 1
                    &&& h == old(self).allocated + 1
                    &&& h != 0
                },
                Err(e) => {
                    &&& final(self).allocated == old(self).allocated
                    &&& e == OomError::OutOfDeviceMemory
                },
            },
    {
        if self.allocated < self.capacity {
            self.allocated = self.allocated + 1;
            Ok(self.allocated)
        } else {
            Err(OomError::OutOfDeviceMemory)
        }
    }

    /// Returns one allocated slot to the pool.
    pub fn free(&mut self)
        requires
            old(self).allocated > 0,
        ensures
            final(self).allocated == old(self).allocated - 1,
            final(self).device == old(self).device,
            final(self).pool == old(self).pool,
            final(self).capacity == old(self).capacity,
    {
        self.allocated = self.allocated - 1;
    }
}

} // verus!
