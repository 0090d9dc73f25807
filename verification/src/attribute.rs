//! Plain-value handles and notifications of the attribute store.

use vstd::prelude::*;

verus! {

/// Identifier of an attribute type.
pub type AttributeTypeId = u32;

/// The type no attribute can have.
pub const ATTRIBUTE_STORE_INVALID_TYPE: AttributeTypeId = 0;

/// The type of the root of the attribute tree.
pub const ATTRIBUTE_TREE_ROOT: AttributeTypeId = 1;

/// Handle to a node of the attribute store. Two handles name the same node
/// exactly when both fields agree.
#[derive(Clone, Copy, Debug, PartialEq, Eq, Hash, Structural)]
pub struct Attribute {
    pub handle: u32,
    pub type_id: AttributeTypeId,
}

impl Attribute {
    /// The handle that names no node.
    pub fn invalid() -> (a: Attribute)
        ensures
            a == (Attribute { handle: 0, type_id: ATTRIBUTE_STORE_INVALID_TYPE }),
    {
        Attribute { handle: 0, type_id: ATTRIBUTE_STORE_INVALID_TYPE }
    }
}

/// What happened to an attribute.
#[allow(non_camel_case_types)]
#[derive(Clone, Copy, Debug, PartialEq, Eq, Structural)]
pub enum AttributeEventType {
    ATTRIBUTE_CREATED,
    ATTRIBUTE_UPDATED,
    ATTRIBUTE_DELETED,
}

/// Which value of the attribute a notification is about.
#[allow(non_camel_case_types)]
#[derive(Clone, Copy, Debug, PartialEq, Eq, Structural)]
pub enum AttributeValueState {
    REPORTED_ATTRIBUTE,
    DESIRED_ATTRIBUTE,
    DESIRED_OR_REPORTED_ATTRIBUTE,
}

/// A change notification of the attribute store.
#[derive(Clone, Copy, Debug, PartialEq, Eq, Structural)]
pub struct AttributeEvent {
    pub attribute: Attribute,
    pub event_type: AttributeEventType,
    pub value_state: AttributeValueState,
}

/// Why the attribute store refused an operation.
#[derive(Clone, Copy, Debug, PartialEq, Eq, Structural)]
pub enum AttributeStoreError {
    /// The handle names no node, or a node that is gone.
    StaleOrNoneExisting,
    /// The store did not take the value.
    FailedToWrite,
    /// The value does not have the storage type registered for the attribute type.
    InvalidType,
}

} // verus!
