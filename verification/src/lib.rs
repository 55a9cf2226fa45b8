//! A verified descriptor-binding engine for a Vulkan-style rendering
//! pipeline: descriptor set layouts, pipeline layouts, and descriptor sets,
//! together with the translation of typed write requests into the flat,
//! kind-segregated update records that the native driver consumes.
//!
//! The native driver itself stays outside this crate. Every driver object is
//! modelled by its plain handle value, and every native call either hands a
//! fresh handle into a constructor or is returned to the caller as a fully
//! built record batch, so the whole update engine is ordinary verified code.

pub mod bind;
pub mod device;
pub mod layout;
pub mod pipeline_layout;
pub mod pool;
pub mod set;
