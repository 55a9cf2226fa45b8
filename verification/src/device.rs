//! The device boundary. A `Device` stands for one native device: it owns the
//! device handle and hands out fresh handles for the objects created against
//! it, within a fixed creation budget, reporting an out-of-memory error once
//! the budget is spent. Everything else the real driver does stays outside
//! this crate.

use vstd::prelude::*;

verus! {

/// The recoverable failure of a native allocation: the driver ran out of
/// host or device memory.
#[derive(Clone, Copy, PartialEq, Eq, Structural, Debug)]
pub enum OomError {
    OutOfHostMemory,
    OutOfDeviceMemory,
}

/// One native device, modelled by its handle and by a bounded budget of
/// objects it can still create. Object handles are issued in sequence
/// starting at 1, so 0 is free to stand for a null handle.
pub struct Device {
    pub handle: u64,
    pub objects_created: u64,
    pub object_capacity: u64,
}

impl Device {
    /// Opens a device with the given native handle, able to create up to
    /// `object_capacity` objects before it reports out-of-memory.
    pub fn new(handle: u64, object_capacity: u64) -> (r: Device)
        ensures
            r.handle == handle,
            r.objects_created == 0,
            r.object_capacity == object_capacity,
    {
        Device { handle, objects_created: 0, object_capacity }
    }

    /// The device's native handle.
    pub fn internal_object(&self) -> (r: u64)
        ensures
            r == self.handle,
    {
        self.handle
    }

    /// Creates one native object against this device: succeeds with a fresh
    /// non-null handle exactly while the creation budget is not exhausted,
    /// and reports out-of-host-memory otherwise.
    pub fn create_object(&mut self) -> (r: Result<u64, OomError>)
        ensures
            old(self).objects_created < old(self).object_capacity <==> r is Ok,
            final(self).handle == old(self).handle,
            final(self).object_capacity == old(self).object_capacity,
            match r {
                Ok(h) => {
                    &&& final(self).objects_created == old(self).objects_created + 1
                    &&& h == old(self).objects_created + 1
                    &&& h != 0
                },
                Err(e) => {
                    &&& final(self).objects_created == old(self).objects_created
                    &&& e == OomError::OutOfHostMemory
                },
            },
    {
        if self.objects_created < self.object_capacity {
            self.objects_created = self.objects_created + 1;
            Ok(self.objects_created)
        } else {
            Err(OomError::OutOfHostMemory)
        }
    }
}

} // verus!
