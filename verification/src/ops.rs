//! Two elementary nodes.

use crate::node::Node;
use crate::opaque::Any;
use std::sync::Arc;
use vstd::prelude::*;

verus! {

/// The node that gives its input back.
pub struct IdentityNode;

impl IdentityNode {
    /// The node that gives its input back.
    pub fn new() -> IdentityNode {
        IdentityNode
    }
}

impl<T> Node<T, T> for IdentityNode {
    open spec fn accepts(&self, input: T) -> bool {
        true
    }

    open spec fn evaluates_to(&self, input: T, output: T) -> bool {
        output == input
    }

    open spec fn serializes_to(&self, snapshot: Option<Any<'static>>) -> bool {
        snapshot.is_none()
    }

    open spec fn name_spec(&self) -> &'static str {
        "IdentityNode"
    }

    fn eval(&self, input: T) -> (output: T) {
        input
    }

    fn node_name(&self) -> (name: &'static str) {
        "IdentityNode"
    }

    fn reset(&self) {
    }

    fn serialize(&self) -> (snapshot: Option<Arc<Any<'static>>>) {
        None
    }
}

/// The node that adds the two numbers of a pair. It accepts the pairs whose
/// sum fits.
pub struct AddPairNode;

impl AddPairNode {
    /// The node that adds the two numbers of a pair.
    pub fn new() -> AddPairNode {
        AddPairNode
    }
}

impl Node<(u32, u32), u32> for AddPairNode {
    open spec fn accepts(&self, input: (u32, u32)) -> bool {
        input.0 + input.1 <= u32::MAX
    }

    open spec fn evaluates_to(&self, input: (u32, u32), output: u32) -> bool {
        output == input.0 + input.1
    }

    open spec fn serializes_to(&self, snapshot: Option<Any<'static>>) -> bool {
        snapshot.is_none()
    }

    open spec fn name_spec(&self) -> &'static str {
        "AddPairNode"
    }

    fn eval(&self, input: (u32, u32)) -> (output: u32) {
        input.0 + input.1
    }

    fn node_name(&self) -> (name: &'static str) {
        "AddPairNode"
    }

    fn reset(&self) {
    }

    fn serialize(&self) -> (snapshot: Option<Arc<Any<'static>>>) {
        None
    }
}

} // verus!
