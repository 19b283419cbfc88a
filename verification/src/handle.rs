//! Opaque identifier for a storage object, shared between the host and the
//! external engine. Equality is decided by the identity value alone.

use vstd::prelude::*;

verus! {

/// An opaque, comparable identifier for a durable storage object (an index
/// segment, container, or similar artifact). Two handles are equal iff they
/// denote the same object as understood by both host and external engine.
#[derive(Debug, Clone, Copy, PartialEq, Eq, Structural, Hash)]
pub struct Handle {
    value: u32,
}

impl Handle {
    /// The identity value the handle was built from.
    pub closed spec fn spec_value(self) -> u32 {
        self.value
    }

    /// Translates a host-native object identifier into a handle.
    pub fn from_sys(value: u32) -> (r: Handle)
        ensures
            r.spec_value() == value,
    {
        Handle { value }
    }

    /// Reads the identity value back out.
    pub fn as_u32(self) -> (r: u32)
        ensures
            r == self.spec_value(),
    {
        self.value
    }
}

} // verus!
