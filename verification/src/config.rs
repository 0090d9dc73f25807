//! Configuration of the poll engine.

use crate::attribute::{AttributeTypeId, ATTRIBUTE_STORE_INVALID_TYPE, ATTRIBUTE_TREE_ROOT};
use vstd::prelude::*;

verus! {

/// Static configuration of a poll engine.
#[derive(Clone, Copy, Debug, PartialEq, Eq, Structural)]
pub struct PollEngineConfig {
    /// Least number of seconds between any two polls.
    pub backoff: u32,
    /// Interval, in seconds, of a registration that asks for interval 0.
    pub default_interval: u32,
    /// Attribute type reserved for the poll mark.
    pub poll_mark_attribute_type: AttributeTypeId,
}

impl PollEngineConfig {
    /// A poll mark can only be created under a type that is neither the
    /// invalid type nor the type of the tree's root.
    pub open spec fn poll_mark_type_usable(self) -> bool {
        self.poll_mark_attribute_type != ATTRIBUTE_STORE_INVALID_TYPE
            && self.poll_mark_attribute_type != ATTRIBUTE_TREE_ROOT
    }

    /// Tells whether the configured poll mark type is one the store accepts.
    /// With a reserved type the engine still runs, but its polls have no effect.
    pub fn has_usable_poll_mark_type(&self) -> (usable: bool)
        ensures
            usable == self.poll_mark_type_usable(),
    {
        self.poll_mark_attribute_type != ATTRIBUTE_STORE_INVALID_TYPE
            && self.poll_mark_attribute_type != ATTRIBUTE_TREE_ROOT
    }
}

} // verus!
