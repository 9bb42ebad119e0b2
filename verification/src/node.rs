//! The node abstraction: a unit of computation over one input, and the
//! deferred values that nodes hand to each other.

use crate::opaque::Any;
use std::sync::Arc;
use vstd::prelude::*;

verus! {

/// A value whose producer has run: whoever holds it must wait on it before
/// using what it carries.
#[derive(Debug, PartialEq)]
pub struct DynFuture<T> {
    value: T,
}

impl<T> View for DynFuture<T> {
    type V = T;

    closed spec fn view(&self) -> T {
        self.value
    }
}

impl<T> DynFuture<T> {
    /// A deferred value that resolves to `value`.
    pub fn ready(value: T) -> (future: DynFuture<T>)
        ensures
            future@ == value,
    {
        DynFuture { value }
    }

    /// Waits for the value and hands it over.
    pub fn wait(self) -> (value: T)
        ensures
            value == self@,
    {
        self.value
    }
}

/// A unit of computation over an input of type `Input` that produces an
/// `Output`. A node may keep a cache, so two evaluations on one input need
/// not agree: `evaluates_to` relates an input to each output that the node
/// may give for it.
pub trait Node<Input, Output> {
    /// Whether the node can be evaluated on `input`.
    spec fn accepts(&self, input: Input) -> bool;

    /// Whether `output` is a result of evaluating the node on `input`.
    spec fn evaluates_to(&self, input: Input, output: Output) -> bool;

    /// Evaluates the node.
    fn eval(&self, input: Input) -> (output: Output)
        requires
            self.accepts(input),
        ensures
            self.evaluates_to(input, output),
    ;

    /// Whether `snapshot` is what the node gives of the parameters that it
    /// retains; `None` where it retains none.
    spec fn serializes_to(&self, snapshot: Option<Any<'static>>) -> bool;

    /// The name by which diagnostics call the node.
    spec fn name_spec(&self) -> &'static str;

    /// The name by which diagnostics call the node.
    fn node_name(&self) -> (name: &'static str)
        ensures
            name@ == self.name_spec()@,
    ;

    /// Drops whatever the node has cached.
    fn reset(&self);

    /// A snapshot of the parameters that the node retains.
    fn serialize(&self) -> (snapshot: Option<Arc<Any<'static>>>)
        ensures
            self.serializes_to(snapshot_of(snapshot)),
    ;
}

/// What a shared snapshot holds.
pub open spec fn snapshot_of(snapshot: Option<Arc<Any<'static>>>) -> Option<Any<'static>> {
    match snapshot {
        Some(shared) => Some(*shared),
        None => None,
    }
}

/// Whether a node gives at most one output for each input.
pub open spec fn is_deterministic<Input, Output, N: Node<Input, Output>>(node: N) -> bool {
    forall|input: Input, first: Output, second: Output|
        #![trigger node.evaluates_to(input, first), node.evaluates_to(input, second)]
        node.evaluates_to(input, first) && node.evaluates_to(input, second) ==> first == second
}

} // verus!
