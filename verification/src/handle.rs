//! Opaque, generation-checked references to arena-held resources.

use vstd::prelude::*;

verus! {

/// The closed set of resource kinds a guest can create procedurally.
#[derive(Clone, Copy, Debug, PartialEq, Eq, Structural)]
pub enum ResourceKind {
    Mesh,
    Texture,
    Sampler,
    Material,
}

/// A reference to one arena slot, tagged with the resource kind it was
/// created as.
///
/// A handle is valid only between its creation call and its destroy call.
/// Every lookup re-checks the slot's generation and kind, so a stale handle
/// — even one whose slot index has since been reused — resolves to
/// `NotFound`, never to another resource.
#[derive(Clone, Copy, Debug, PartialEq, Eq, Structural)]
pub struct Handle {
    /// Which arena slot the handle points at.
    pub index: usize,
    /// The generation the slot had when this handle was issued.
    pub generation: u64,
    /// The kind the resource was created as.
    pub kind: ResourceKind,
}

} // verus!
