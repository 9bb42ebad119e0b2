//! Adapters between typed nodes and nodes over opaque values, and the
//! composition of nodes over opaque values.

use crate::node::{is_deterministic, DynFuture, Node};
use crate::opaque::{Any, StaticType, TypeTag};
use core::marker::PhantomData;
use std::sync::Arc;
use vstd::pervasive::unreached;
use vstd::prelude::*;

verus! {

/// A deferred opaque value.
pub type FutureAny<'n> = DynFuture<Any<'n>>;

/// A node over opaque values, whatever its own type.
pub type TypeErasedNode<'n> = dyn Node<Any<'n>, FutureAny<'n>> + 'n;

/// An owned node over opaque values.
pub type TypeErasedBox<'n> = Box<TypeErasedNode<'n>>;

/// A node that several consumers can hold.
pub struct NodeContainer<N: ?Sized> {
    pub node: Box<N>,
}

/// A shared node over opaque values.
pub type SharedNodeContainer<'n> = Arc<NodeContainer<TypeErasedNode<'n>>>;

impl<N: ?Sized> NodeContainer<N> {
    /// Puts a node where it can be shared.
    pub fn new(node: Box<N>) -> (container: Arc<NodeContainer<N>>)
        ensures
            container.node == node,
    {
        Arc::new(NodeContainer { node })
    }
}

impl<Input, Output, N: Node<Input, Output> + ?Sized> Node<Input, Output> for NodeContainer<N> {
    open spec fn accepts(&self, input: Input) -> bool {
        self.node.accepts(input)
    }

    open spec fn evaluates_to(&self, input: Input, output: Output) -> bool {
        self.node.evaluates_to(input, output)
    }

    open spec fn serializes_to(&self, snapshot: Option<Any<'static>>) -> bool {
        self.node.serializes_to(snapshot)
    }

    open spec fn name_spec(&self) -> &'static str {
        self.node.name_spec()
    }

    fn eval(&self, input: Input) -> (output: Output) {
        self.node.eval(input)
    }

    fn node_name(&self) -> (name: &'static str) {
        self.node.node_name()
    }

    fn reset(&self) {
        self.node.reset()
    }

    fn serialize(&self) -> (snapshot: Option<Arc<Any<'static>>>) {
        self.node.serialize()
    }
}

/// The adapters that recover a type from an opaque value.
#[derive(Clone, Copy, Debug, PartialEq, Eq, Structural, Hash)]
pub enum Adapter {
    DynAnyNode,
    DynAnyRefNode,
    DynAnyInRefNode,
    DowncastNode,
    DowncastBothNode,
    DowncastBothRefNode,
}

impl Adapter {
    /// The adapter's name, as diagnostics show it.
    pub open spec fn name_spec(self) -> Seq<char> {
        match self {
            Adapter::DynAnyNode => "DynAnyNode"@,
            Adapter::DynAnyRefNode => "DynAnyRefNode"@,
            Adapter::DynAnyInRefNode => "DynAnyInRefNode"@,
            Adapter::DowncastNode => "DowncastNode"@,
            Adapter::DowncastBothNode => "DowncastBothNode"@,
            Adapter::DowncastBothRefNode => "DowncastBothRefNode"@,
        }
    }

    /// The adapter's name, as diagnostics show it.
    pub fn name(self) -> (name: &'static str)
        ensures
            name@ == self.name_spec(),
    {
        match self {
            Adapter::DynAnyNode => "DynAnyNode",
            Adapter::DynAnyRefNode => "DynAnyRefNode",
            Adapter::DynAnyInRefNode => "DynAnyInRefNode",
            Adapter::DowncastNode => "DowncastNode",
            Adapter::DowncastBothNode => "DowncastBothNode",
            Adapter::DowncastBothRefNode => "DowncastBothRefNode",
        }
    }
}

/// The fault of an evaluation that met an opaque value of the wrong type.
/// It marks a graph that was wired wrongly: nothing is substituted for the
/// value, and the evaluation is not tried again.
#[derive(Clone, Copy, Debug, PartialEq)]
pub struct TypeMismatch {
    /// The adapter that met the value.
    pub adapter: Adapter,
    /// The type that the adapter was built for.
    pub expected: TypeTag,
    /// The type that the value carried.
    pub found: TypeTag,
    /// The type of the node at the faulty edge, by name.
    pub node_name: &'static str,
}

impl TypeMismatch {
    /// The text of the diagnostic.
    pub open spec fn message_spec(self) -> Seq<char> {
        self.adapter.name_spec() + " Input, Incorrect type, expected "@ + self.expected.name_spec() + " but found "@
            + self.found.name_spec() + " in:\n"@ + self.node_name@
    }

    /// The diagnostic: the adapter, the type it was built for, the type
    /// that arrived, and the node at the faulty edge.
    pub fn message(&self) -> (text: String)
        ensures
            text@ == self.message_spec(),
    {
        let mut text = self.adapter.name().to_owned();
        text.append(" Input, Incorrect type, expected ");
        text.append(self.expected.name());
        text.append(" but found ");
        text.append(self.found.name());
        text.append(" in:\n");
        text.append(self.node_name);
        text
    }
}

/// What an adapter that expects the type `I` takes from an opaque value: the
/// payload, where the value carries an `I`; the one value of `I`, where `I`
/// has no content, whatever the opaque value carries; and otherwise nothing.
pub open spec fn recovered_input<'n, I: StaticType<'n>>(input: Any<'n>) -> Option<I> {
    if input.type_tag() == I::type_tag() {
        Some(I::recovered(input))
    } else {
        I::zero_sized()
    }
}

/// What an adapter that expects the type `I`, and nothing in its place,
/// takes from an opaque value.
pub open spec fn recovered_exactly<'n, I: StaticType<'n>>(input: Any<'n>) -> Option<I> {
    if input.type_tag() == I::type_tag() {
        Some(I::recovered(input))
    } else {
        None
    }
}

/// Recovers an `I` from an opaque value, or fails with the fault that names
/// the adapter and the node. Where `permissive` is set and `I` has no
/// content, the value of `I` is made up and the opaque value ignored.
pub fn recover<'n, I: StaticType<'n>>(
    input: Any<'n>,
    permissive: bool,
    adapter: Adapter,
    node_name: &'static str,
) -> (recovered: Result<I, TypeMismatch>)
    ensures
        recovered.is_err() <==> (input.type_tag() != I::type_tag() && !(permissive && I::type_tag() == TypeTag::Unit)),
        match recovered {
            Ok(typed) => Some(typed) == (if permissive {
                recovered_input::<I>(input)
            } else {
                recovered_exactly::<I>(input)
            }),
            Err(fault) => fault == (TypeMismatch { adapter, expected: I::type_tag(), found: input.type_tag(), node_name }),
        },
{
    proof {
        I::only_unit_is_zero_sized();
    }
    let found = input.tag();
    match I::from_any(input) {
        Ok(typed) => Ok(typed),
        Err(_) => {
            if permissive {
                match I::synthesize() {
                    Some(typed) => {
                        return Ok(typed);
                    },
                    None => {},
                }
            }
            Err(TypeMismatch { adapter, expected: I::tag(), found, node_name })
        },
    }
}

/// Erases the types of a node whose output is deferred: the adapter takes an
/// opaque value, recovers the node's input from it, and erases what the node
/// gives. Where the node takes no input, the adapter accepts any opaque
/// value and evaluates the node on the value without content.
pub struct DynAnyNode<I, O, N> {
    node: N,
    _i: PhantomData<I>,
    _o: PhantomData<O>,
}

impl<I, O, N> DynAnyNode<I, O, N> {
    /// The node that the adapter wraps.
    pub closed spec fn inner(&self) -> N {
        self.node
    }

    /// Wraps `node`.
    pub fn new(node: N) -> (adapter: DynAnyNode<I, O, N>)
        ensures
            adapter.inner() == node,
    {
        DynAnyNode { node, _i: PhantomData, _o: PhantomData }
    }
}

impl<'n, I: StaticType<'n>, O: StaticType<'n>, N: Node<I, DynFuture<O>>> DynAnyNode<I, O, N> {
    /// Evaluates the wrapped node on what `input` carries, or fails where
    /// `input` carries another type than the node takes and the node takes
    /// an input.
    pub fn try_eval(&self, input: Any<'n>) -> (result: Result<FutureAny<'n>, TypeMismatch>)
        requires
            recovered_input::<I>(input) matches Some(typed) ==> self.inner().accepts(typed),
        ensures
            result.is_err() <==> (input.type_tag() != I::type_tag() && I::type_tag() != TypeTag::Unit),
            match result {
                Ok(output) => self.evaluates_to(input, output),
                Err(fault) => {
                    &&& fault.adapter == Adapter::DynAnyNode
                    &&& fault.node_name@ == self.inner().name_spec()@
                    &&& fault.expected == I::type_tag()
                    &&& fault.found == input.type_tag()
                },
            },
    {
        proof {
            I::only_unit_is_zero_sized();
        }
        match recover::<I>(input, true, Adapter::DynAnyNode, self.node.node_name()) {
            Ok(typed) => {
                let result = self.node.eval(typed);
                let ghost given = result;
                let output = DynFuture::ready(result.wait().into_any());
                assert(self.node.evaluates_to(typed, given) && output@ == given@.erased());
                Ok(output)
            },
            Err(fault) => Err(fault),
        }
    }
}

impl<'n, I: StaticType<'n>, O: StaticType<'n>, N: Node<I, DynFuture<O>>> Node<Any<'n>, FutureAny<'n>> for DynAnyNode<I, O, N> {
    open spec fn accepts(&self, input: Any<'n>) -> bool {
        recovered_input::<I>(input) matches Some(typed) && self.inner().accepts(typed)
    }

    open spec fn evaluates_to(&self, input: Any<'n>, output: FutureAny<'n>) -> bool {
        recovered_input::<I>(input) matches Some(typed) && exists|result: DynFuture<O>|
            #[trigger] self.inner().evaluates_to(typed, result) && output@ == result@.erased()
    }

    open spec fn serializes_to(&self, snapshot: Option<Any<'static>>) -> bool {
        self.inner().serializes_to(snapshot)
    }

    open spec fn name_spec(&self) -> &'static str {
        "DynAnyNode"
    }

    fn eval(&self, input: Any<'n>) -> (output: FutureAny<'n>) {
        proof {
            I::only_unit_is_zero_sized();
        }
        match self.try_eval(input) {
            Ok(output) => output,
            Err(_) => unreached(),
        }
    }

    fn node_name(&self) -> (name: &'static str) {
        "DynAnyNode"
    }

    fn reset(&self) {
        self.node.reset();
    }

    fn serialize(&self) -> (snapshot: Option<Arc<Any<'static>>>) {
        self.node.serialize()
    }
}

/// Erases the types of a node that hands out a reference: the adapter takes
/// an opaque value, recovers the node's input from it as `DynAnyNode` does,
/// and gives the node's reference as an opaque value. The node gives its
/// output at once; it is deferred at the adapter only.
pub struct DynAnyRefNode<I, O, N> {
    node: N,
    _i: PhantomData<(I, O)>,
}

impl<I, O, N> DynAnyRefNode<I, O, N> {
    /// The node that the adapter wraps.
    pub closed spec fn inner(&self) -> N {
        self.node
    }

    /// Wraps `node`.
    pub fn new(node: N) -> (adapter: DynAnyRefNode<I, O, N>)
        ensures
            adapter.inner() == node,
    {
        DynAnyRefNode { node, _i: PhantomData }
    }
}

impl<'n, I: StaticType<'n>, O: 'n, N: Node<I, &'n O>> DynAnyRefNode<I, O, N> where &'n O: StaticType<'n> {
    /// Evaluates the wrapped node on what `input` carries, or fails where
    /// `input` carries another type than the node takes and the node takes
    /// an input.
    pub fn try_eval(&self, input: Any<'n>) -> (result: Result<FutureAny<'n>, TypeMismatch>)
        requires
            recovered_input::<I>(input) matches Some(typed) ==> self.inner().accepts(typed),
        ensures
            result.is_err() <==> (input.type_tag() != I::type_tag() && I::type_tag() != TypeTag::Unit),
            match result {
                Ok(output) => self.evaluates_to(input, output),
                Err(fault) => {
                    &&& fault.adapter == Adapter::DynAnyRefNode
                    &&& fault.node_name@ == self.inner().name_spec()@
                    &&& fault.expected == I::type_tag()
                    &&& fault.found == input.type_tag()
                },
            },
    {
        proof {
            I::only_unit_is_zero_sized();
        }
        match recover::<I>(input, true, Adapter::DynAnyRefNode, self.node.node_name()) {
            Ok(typed) => {
                let result = self.node.eval(typed);
                let output = DynFuture::ready(result.into_any());
                assert(self.node.evaluates_to(typed, result) && output@ == result.erased());
                Ok(output)
            },
            Err(fault) => Err(fault),
        }
    }
}

impl<'n, I: StaticType<'n>, O: 'n, N: Node<I, &'n O>> Node<Any<'n>, FutureAny<'n>> for DynAnyRefNode<I, O, N> where
    &'n O: StaticType<'n>,
{
    open spec fn accepts(&self, input: Any<'n>) -> bool {
        recovered_input::<I>(input) matches Some(typed) && self.inner().accepts(typed)
    }

    open spec fn evaluates_to(&self, input: Any<'n>, output: FutureAny<'n>) -> bool {
        recovered_input::<I>(input) matches Some(typed) && exists|result: &'n O|
            #[trigger] self.inner().evaluates_to(typed, result) && output@ == result.erased()
    }

    open spec fn serializes_to(&self, snapshot: Option<Any<'static>>) -> bool {
        self.inner().serializes_to(snapshot)
    }

    open spec fn name_spec(&self) -> &'static str {
        "DynAnyRefNode"
    }

    fn eval(&self, input: Any<'n>) -> (output: FutureAny<'n>) {
        proof {
            I::only_unit_is_zero_sized();
        }
        match self.try_eval(input) {
            Ok(output) => output,
            Err(_) => unreached(),
        }
    }

    fn node_name(&self) -> (name: &'static str) {
        "DynAnyRefNode"
    }

    fn reset(&self) {
        self.node.reset();
    }

    fn serialize(&self) -> (snapshot: Option<Arc<Any<'static>>>) {
        self.node.serialize()
    }
}

/// Erases the types of a node that borrows its input: the adapter takes an
/// opaque value that carries a reference, hands the reference to the node,
/// and erases what the node gives.
pub struct DynAnyInRefNode<I, O, N> {
    node: N,
    _i: PhantomData<(I, O)>,
}

impl<I, O, N> DynAnyInRefNode<I, O, N> {
    /// The node that the adapter wraps.
    pub closed spec fn inner(&self) -> N {
        self.node
    }

    /// Wraps `node`.
    pub fn new(node: N) -> (adapter: DynAnyInRefNode<I, O, N>)
        ensures
            adapter.inner() == node,
    {
        DynAnyInRefNode { node, _i: PhantomData }
    }
}

impl<'n, I: 'n, O: StaticType<'n>, N: Node<&'n I, DynFuture<O>>> DynAnyInRefNode<I, O, N> where &'n I: StaticType<'n> {
    /// Evaluates the wrapped node on the reference that `input` carries, or
    /// fails where `input` carries anything else.
    pub fn try_eval(&self, input: Any<'n>) -> (result: Result<FutureAny<'n>, TypeMismatch>)
        requires
            recovered_input::<&'n I>(input) matches Some(typed) ==> self.inner().accepts(typed),
        ensures
            result.is_err() <==> (input.type_tag() != <&'n I>::type_tag() && <&'n I>::type_tag() != TypeTag::Unit),
            match result {
                Ok(output) => self.evaluates_to(input, output),
                Err(fault) => {
                    &&& fault.adapter == Adapter::DynAnyInRefNode
                    &&& fault.node_name@ == self.inner().name_spec()@
                    &&& fault.expected == <&'n I>::type_tag()
                    &&& fault.found == input.type_tag()
                },
            },
    {
        proof {
            <&'n I>::only_unit_is_zero_sized();
        }
        match recover::<&'n I>(input, true, Adapter::DynAnyInRefNode, self.node.node_name()) {
            Ok(typed) => {
                let result = self.node.eval(typed);
                let ghost given = result;
                let output = DynFuture::ready(result.wait().into_any());
                assert(self.node.evaluates_to(typed, given) && output@ == given@.erased());
                Ok(output)
            },
            Err(fault) => Err(fault),
        }
    }
}

impl<'n, I: 'n, O: StaticType<'n>, N: Node<&'n I, DynFuture<O>>> Node<Any<'n>, FutureAny<'n>> for DynAnyInRefNode<I, O, N> where
    &'n I: StaticType<'n>,
{
    open spec fn accepts(&self, input: Any<'n>) -> bool {
        recovered_input::<&'n I>(input) matches Some(typed) && self.inner().accepts(typed)
    }

    open spec fn evaluates_to(&self, input: Any<'n>, output: FutureAny<'n>) -> bool {
        recovered_input::<&'n I>(input) matches Some(typed) && exists|result: DynFuture<O>|
            #[trigger] self.inner().evaluates_to(typed, result) && output@ == result@.erased()
    }

    open spec fn serializes_to(&self, snapshot: Option<Any<'static>>) -> bool {
        self.inner().serializes_to(snapshot)
    }

    open spec fn name_spec(&self) -> &'static str {
        "DynAnyInRefNode"
    }

    fn eval(&self, input: Any<'n>) -> (output: FutureAny<'n>) {
        proof {
            <&'n I>::only_unit_is_zero_sized();
        }
        match self.try_eval(input) {
            Ok(output) => output,
            Err(_) => unreached(),
        }
    }

    fn node_name(&self) -> (name: &'static str) {
        "DynAnyInRefNode"
    }

    fn reset(&self) {
        self.node.reset();
    }

    fn serialize(&self) -> (snapshot: Option<Arc<Any<'static>>>) {
        self.node.serialize()
    }
}

/// Defers the output of a node that gives it at once, so that it can stand
/// where a node with a deferred output is asked for.
pub struct FutureWrapperNode<N> {
    pub node: N,
}

impl<N> FutureWrapperNode<N> {
    /// Wraps `node`.
    pub fn new(node: N) -> (wrapper: FutureWrapperNode<N>)
        ensures
            wrapper.node == node,
    {
        FutureWrapperNode { node }
    }
}

impl<T, O, N: Node<T, O>> Node<T, DynFuture<O>> for FutureWrapperNode<N> {
    open spec fn accepts(&self, input: T) -> bool {
        self.node.accepts(input)
    }

    open spec fn evaluates_to(&self, input: T, output: DynFuture<O>) -> bool {
        self.node.evaluates_to(input, output@)
    }

    open spec fn serializes_to(&self, snapshot: Option<Any<'static>>) -> bool {
        self.node.serializes_to(snapshot)
    }

    open spec fn name_spec(&self) -> &'static str {
        self.node.name_spec()
    }

    fn eval(&self, input: T) -> (output: DynFuture<O>) {
        DynFuture::ready(self.node.eval(input))
    }

    fn node_name(&self) -> (name: &'static str) {
        self.node.node_name()
    }

    fn reset(&self) {
        self.node.reset();
    }

    fn serialize(&self) -> (snapshot: Option<Arc<Any<'static>>>) {
        self.node.serialize()
    }
}

/// Gives a node over opaque values a typed output: the adapter hands its
/// input on and recovers an `O` from what the node gives.
pub struct DowncastNode<O, N> {
    node: N,
    _o: PhantomData<O>,
}

impl<O, N> DowncastNode<O, N> {
    /// The node that the adapter wraps.
    pub closed spec fn inner(&self) -> N {
        self.node
    }

    /// Wraps `node`.
    pub fn new(node: N) -> (adapter: DowncastNode<O, N>)
        ensures
            adapter.inner() == node,
    {
        DowncastNode { node, _o: PhantomData }
    }
}

impl<O, N: Clone> Clone for DowncastNode<O, N> {
    fn clone(&self) -> (copy: DowncastNode<O, N>)
        ensures
            cloned(self.inner(), copy.inner()),
    {
        DowncastNode { node: self.node.clone(), _o: PhantomData }
    }
}

impl<'n, O: StaticType<'n>, N: Node<Any<'n>, Any<'n>>> DowncastNode<O, N> {
    /// Evaluates the wrapped node and recovers an `O` from its output, or
    /// fails where the output carries another type.
    pub fn try_eval(&self, input: Any<'n>) -> (result: Result<O, TypeMismatch>)
        requires
            self.inner().accepts(input),
        ensures
            match result {
                Ok(output) => self.evaluates_to(input, output),
                Err(fault) => {
                    &&& exists|given: Any<'n>| #[trigger]
                        self.inner().evaluates_to(input, given) && given.type_tag() == fault.found
                    &&& fault.found != O::type_tag()
                    &&& fault.adapter == Adapter::DowncastNode
                    &&& fault.node_name@ == self.inner().name_spec()@
                    &&& fault.expected == O::type_tag()
                },
            },
    {
        let given = self.node.eval(input);
        let ghost erased = given;
        match recover::<O>(given, false, Adapter::DowncastNode, self.node.node_name()) {
            Ok(output) => {
                assert(self.node.evaluates_to(input, erased) && recovered_exactly::<O>(erased) == Some(output));
                Ok(output)
            },
            Err(fault) => {
                assert(self.node.evaluates_to(input, erased) && erased.type_tag() == fault.found);
                Err(fault)
            },
        }
    }
}

impl<'n, O: StaticType<'n>, N: Node<Any<'n>, Any<'n>>> Node<Any<'n>, O> for DowncastNode<O, N> {
    open spec fn accepts(&self, input: Any<'n>) -> bool {
        &&& self.inner().accepts(input)
        &&& forall|given: Any<'n>| #[trigger] self.inner().evaluates_to(input, given) ==> given.type_tag() == O::type_tag()
    }

    open spec fn evaluates_to(&self, input: Any<'n>, output: O) -> bool {
        exists|given: Any<'n>| #[trigger]
            self.inner().evaluates_to(input, given) && recovered_exactly::<O>(given) == Some(output)
    }

    open spec fn serializes_to(&self, snapshot: Option<Any<'static>>) -> bool {
        self.inner().serializes_to(snapshot)
    }

    open spec fn name_spec(&self) -> &'static str {
        "DowncastNode"
    }

    fn eval(&self, input: Any<'n>) -> (output: O) {
        match self.try_eval(input) {
            Ok(output) => output,
            Err(_) => unreached(),
        }
    }

    fn node_name(&self) -> (name: &'static str) {
        "DowncastNode"
    }

    fn reset(&self) {
        self.node.reset();
    }

    fn serialize(&self) -> (snapshot: Option<Arc<Any<'static>>>) {
        self.node.serialize()
    }
}

/// Gives a shared node over opaque values a typed input and a typed output:
/// the adapter erases its input, evaluates the node, waits for its output
/// and recovers an `O` from it.
pub struct DowncastBothNode<'n, I, O> {
    node: SharedNodeContainer<'n>,
    _i: PhantomData<I>,
    _o: PhantomData<O>,
}

impl<'n, I, O> DowncastBothNode<'n, I, O> {
    /// The node that the adapter wraps.
    pub closed spec fn inner(&self) -> NodeContainer<TypeErasedNode<'n>> {
        *self.node
    }

    /// Wraps `node`.
    pub fn new(node: SharedNodeContainer<'n>) -> (adapter: DowncastBothNode<'n, I, O>)
        ensures
            adapter.inner() == *node,
    {
        DowncastBothNode { node, _i: PhantomData, _o: PhantomData }
    }
}

impl<'n, I, O> Clone for DowncastBothNode<'n, I, O> {
    /// Another adapter over the same shared node.
    fn clone(&self) -> (copy: DowncastBothNode<'n, I, O>)
        ensures
            copy.inner() == self.inner(),
    {
        DowncastBothNode { node: self.node.clone(), _i: PhantomData, _o: PhantomData }
    }
}

impl<'n, I: StaticType<'n>, O: StaticType<'n>> DowncastBothNode<'n, I, O> {
    /// Evaluates the wrapped node on `input`, erased, and recovers an `O`
    /// from its output, or fails where the output carries another type.
    pub fn try_eval(&self, input: I) -> (result: Result<DynFuture<O>, TypeMismatch>)
        requires
            self.inner().accepts(input.erased()),
        ensures
            match result {
                Ok(output) => self.evaluates_to(input, output),
                Err(fault) => {
                    &&& exists|given: FutureAny<'n>| #[trigger]
                        self.inner().evaluates_to(input.erased(), given) && given@.type_tag() == fault.found
                    &&& fault.found != O::type_tag()
                    &&& fault.adapter == Adapter::DowncastBothNode
                    &&& fault.node_name@ == self.inner().name_spec()@
                    &&& fault.expected == O::type_tag()
                },
            },
    {
        let node_name = self.node.node_name();
        let future = self.node.eval(input.into_any());
        let ghost given = future;
        match recover::<O>(future.wait(), false, Adapter::DowncastBothNode, node_name) {
            Ok(output) => {
                let output = DynFuture::ready(output);
                assert(self.inner().evaluates_to(input.erased(), given) && recovered_exactly::<O>(given@) == Some(output@));
                Ok(output)
            },
            Err(fault) => {
                assert(self.inner().evaluates_to(input.erased(), given) && given@.type_tag() == fault.found);
                Err(fault)
            },
        }
    }
}

impl<'n, I: StaticType<'n>, O: StaticType<'n>> Node<I, DynFuture<O>> for DowncastBothNode<'n, I, O> {
    open spec fn accepts(&self, input: I) -> bool {
        &&& self.inner().accepts(input.erased())
        &&& forall|given: FutureAny<'n>| #[trigger]
            self.inner().evaluates_to(input.erased(), given) ==> given@.type_tag() == O::type_tag()
    }

    open spec fn evaluates_to(&self, input: I, output: DynFuture<O>) -> bool {
        exists|given: FutureAny<'n>| #[trigger]
            self.inner().evaluates_to(input.erased(), given) && recovered_exactly::<O>(given@) == Some(output@)
    }

    open spec fn serializes_to(&self, snapshot: Option<Any<'static>>) -> bool {
        self.inner().serializes_to(snapshot)
    }

    open spec fn name_spec(&self) -> &'static str {
        "DowncastBothNode"
    }

    fn eval(&self, input: I) -> (output: DynFuture<O>) {
        match self.try_eval(input) {
            Ok(output) => output,
            Err(_) => unreached(),
        }
    }

    fn node_name(&self) -> (name: &'static str) {
        "DowncastBothNode"
    }

    fn reset(&self) {
        self.node.reset();
    }

    fn serialize(&self) -> (snapshot: Option<Arc<Any<'static>>>) {
        self.node.serialize()
    }
}

/// Gives a shared node over opaque values a typed input and a borrowed
/// output: as `DowncastBothNode`, but the node's output carries a reference
/// to an `O`, and that reference is what the adapter recovers.
pub struct DowncastBothRefNode<'n, I, O> {
    node: SharedNodeContainer<'n>,
    _i: PhantomData<(I, O)>,
}

impl<'n, I, O> DowncastBothRefNode<'n, I, O> {
    /// The node that the adapter wraps.
    pub closed spec fn inner(&self) -> NodeContainer<TypeErasedNode<'n>> {
        *self.node
    }

    /// Wraps `node`.
    pub fn new(node: SharedNodeContainer<'n>) -> (adapter: DowncastBothRefNode<'n, I, O>)
        ensures
            adapter.inner() == *node,
    {
        DowncastBothRefNode { node, _i: PhantomData }
    }
}

impl<'n, I, O> Clone for DowncastBothRefNode<'n, I, O> {
    /// Another adapter over the same shared node.
    fn clone(&self) -> (copy: DowncastBothRefNode<'n, I, O>)
        ensures
            copy.inner() == self.inner(),
    {
        DowncastBothRefNode { node: self.node.clone(), _i: PhantomData }
    }
}

impl<'n, I: StaticType<'n>, O: 'n> DowncastBothRefNode<'n, I, O> where &'n O: StaticType<'n> {
    /// Evaluates the wrapped node on `input`, erased, and recovers a
    /// reference to an `O` from its output, or fails where the output
    /// carries anything else.
    pub fn try_eval(&self, input: I) -> (result: Result<DynFuture<&'n O>, TypeMismatch>)
        requires
            self.inner().accepts(input.erased()),
        ensures
            match result {
                Ok(output) => self.evaluates_to(input, output),
                Err(fault) => {
                    &&& exists|given: FutureAny<'n>| #[trigger]
                        self.inner().evaluates_to(input.erased(), given) && given@.type_tag() == fault.found
                    &&& fault.found != <&'n O>::type_tag()
                    &&& fault.adapter == Adapter::DowncastBothRefNode
                    &&& fault.node_name@ == self.inner().name_spec()@
                    &&& fault.expected == <&'n O>::type_tag()
                },
            },
    {
        let node_name = self.node.node_name();
        let future = self.node.eval(input.into_any());
        let ghost given = future;
        match recover::<&'n O>(future.wait(), false, Adapter::DowncastBothRefNode, node_name) {
            Ok(output) => {
                let output = DynFuture::ready(output);
                assert(self.inner().evaluates_to(input.erased(), given) && recovered_exactly::<&'n O>(given@) == Some(
                    output@,
                ));
                Ok(output)
            },
            Err(fault) => {
                assert(self.inner().evaluates_to(input.erased(), given) && given@.type_tag() == fault.found);
                Err(fault)
            },
        }
    }
}

impl<'n, I: StaticType<'n>, O: 'n> Node<I, DynFuture<&'n O>> for DowncastBothRefNode<'n, I, O> where
    &'n O: StaticType<'n>,
{
    open spec fn accepts(&self, input: I) -> bool {
        &&& self.inner().accepts(input.erased())
        &&& forall|given: FutureAny<'n>| #[trigger]
            self.inner().evaluates_to(input.erased(), given) ==> given@.type_tag() == <&'n O>::type_tag()
    }

    open spec fn evaluates_to(&self, input: I, output: DynFuture<&'n O>) -> bool {
        exists|given: FutureAny<'n>| #[trigger]
            self.inner().evaluates_to(input.erased(), given) && recovered_exactly::<&'n O>(given@) == Some(output@)
    }

    open spec fn serializes_to(&self, snapshot: Option<Any<'static>>) -> bool {
        self.inner().serializes_to(snapshot)
    }

    open spec fn name_spec(&self) -> &'static str {
        "DowncastBothRefNode"
    }

    fn eval(&self, input: I) -> (output: DynFuture<&'n O>) {
        match self.try_eval(input) {
            Ok(output) => output,
            Err(_) => unreached(),
        }
    }

    fn node_name(&self) -> (name: &'static str) {
        "DowncastBothRefNode"
    }

    fn reset(&self) {
        self.node.reset();
    }

    fn serialize(&self) -> (snapshot: Option<Arc<Any<'static>>>) {
        self.node.serialize()
    }
}

/// Two shared nodes over opaque values in a row: the output of the first is
/// the input of the second. The second is evaluated only once the output of
/// the first is there.
pub struct ComposeTypeErased<'n> {
    first: SharedNodeContainer<'n>,
    second: SharedNodeContainer<'n>,
}

impl<'n> ComposeTypeErased<'n> {
    /// The node that is evaluated first.
    pub closed spec fn first(&self) -> NodeContainer<TypeErasedNode<'n>> {
        *self.first
    }

    /// The node that is evaluated on the output of the first.
    pub closed spec fn second(&self) -> NodeContainer<TypeErasedNode<'n>> {
        *self.second
    }

    /// Puts `second` after `first`.
    pub fn new(first: SharedNodeContainer<'n>, second: SharedNodeContainer<'n>) -> (composed: ComposeTypeErased<'n>)
        ensures
            composed.first() == *first,
            composed.second() == *second,
    {
        ComposeTypeErased { first, second }
    }
}

impl<'n> Node<Any<'n>, FutureAny<'n>> for ComposeTypeErased<'n> {
    open spec fn accepts(&self, input: Any<'n>) -> bool {
        &&& self.first().accepts(input)
        &&& forall|passed: FutureAny<'n>| #[trigger] self.first().evaluates_to(input, passed) ==> self.second().accepts(passed@)
    }

    open spec fn evaluates_to(&self, input: Any<'n>, output: FutureAny<'n>) -> bool {
        exists|passed: FutureAny<'n>| #[trigger]
            self.first().evaluates_to(input, passed) && self.second().evaluates_to(passed@, output)
    }

    open spec fn serializes_to(&self, snapshot: Option<Any<'static>>) -> bool {
        snapshot.is_none()
    }

    open spec fn name_spec(&self) -> &'static str {
        "ComposeTypeErased"
    }

    fn eval(&self, input: Any<'n>) -> (output: FutureAny<'n>) {
        let passed = self.first.eval(input);
        let ghost given = passed;
        let arg = passed.wait();
        let output = self.second.eval(arg);
        assert(self.first().evaluates_to(input, given) && self.second().evaluates_to(given@, output));
        output
    }

    fn node_name(&self) -> (name: &'static str) {
        "ComposeTypeErased"
    }

    fn reset(&self) {
        self.first.reset();
        self.second.reset();
    }

    fn serialize(&self) -> (snapshot: Option<Arc<Any<'static>>>) {
        None
    }
}

/// A node that stands where a node is asked for and none is meant to run.
/// It accepts no input.
pub struct PanicNode<I, O>(PhantomData<I>, PhantomData<O>);

impl<I, O> PanicNode<I, O> {
    /// The node that is never evaluated.
    pub fn new() -> (node: PanicNode<I, O>)
        ensures
            forall|input: I| !node.accepts(input),
    {
        PanicNode(PhantomData, PhantomData)
    }
}

impl<I, O> Default for PanicNode<I, O> {
    fn default() -> (node: PanicNode<I, O>)
        ensures
            forall|input: I| !node.accepts(input),
    {
        PanicNode::new()
    }
}

impl<I, O> Node<I, O> for PanicNode<I, O> {
    open spec fn accepts(&self, input: I) -> bool {
        false
    }

    open spec fn evaluates_to(&self, input: I, output: O) -> bool {
        false
    }

    open spec fn serializes_to(&self, snapshot: Option<Any<'static>>) -> bool {
        snapshot.is_none()
    }

    open spec fn name_spec(&self) -> &'static str {
        "PanicNode"
    }

    fn eval(&self, input: I) -> (output: O) {
        unreached()
    }

    fn node_name(&self) -> (name: &'static str) {
        "PanicNode"
    }

    fn reset(&self) {
    }

    fn serialize(&self) -> (snapshot: Option<Arc<Any<'static>>>) {
        None
    }
}

/// Nodes over opaque values, which can be boxed under their common
/// interface.
pub trait IntoTypeErasedNode<'n>: Node<Any<'n>, FutureAny<'n>> + Sized + 'n {
    /// Boxes the node under the interface of nodes over opaque values.
    fn into_type_erased(self) -> TypeErasedBox<'n> {
        let boxed: TypeErasedBox<'n> = Box::new(self);
        return boxed;
    }
}

impl<'n, N: Node<Any<'n>, FutureAny<'n>> + 'n> IntoTypeErasedNode<'n> for N {
}

/// A typed view of a shared node over opaque values that takes no input.
pub fn input_node<'n, O: StaticType<'n>>(n: SharedNodeContainer<'n>) -> (node: DowncastBothNode<'n, (), O>)
    ensures
        node.inner() == *n,
{
    downcast_node(n)
}

/// A typed view of a shared node over opaque values.
pub fn downcast_node<'n, I: StaticType<'n>, O: StaticType<'n>>(n: SharedNodeContainer<'n>) -> (node: DowncastBothNode<'n, I, O>)
    ensures
        node.inner() == *n,
{
    DowncastBothNode::new(n)
}

/// Two evaluations of a composition on one input give one output, where
/// neither part keeps a cache that makes it answer differently.
pub proof fn composition_is_deterministic<'n>(
    composed: ComposeTypeErased<'n>,
    input: Any<'n>,
    once: FutureAny<'n>,
    again: FutureAny<'n>,
)
    requires
        is_deterministic::<Any<'n>, FutureAny<'n>, NodeContainer<TypeErasedNode<'n>>>(composed.first()),
        is_deterministic::<Any<'n>, FutureAny<'n>, NodeContainer<TypeErasedNode<'n>>>(composed.second()),
        composed.evaluates_to(input, once),
        composed.evaluates_to(input, again),
    ensures
        once == again,
{
    let passed_once = choose|passed: FutureAny<'n>| #[trigger]
        composed.first().evaluates_to(input, passed) && composed.second().evaluates_to(passed@, once);
    let passed_again = choose|passed: FutureAny<'n>| #[trigger]
        composed.first().evaluates_to(input, passed) && composed.second().evaluates_to(passed@, again);
    assert(passed_once == passed_again);
}

/// An opaque value of the wrong type is never taken for a value of a type
/// that has content.
pub proof fn wrong_type_is_refused<'n, I: StaticType<'n>>(input: Any<'n>)
    requires
        input.type_tag() != I::type_tag(),
        I::type_tag() != TypeTag::Unit,
    ensures
        recovered_input::<I>(input).is_none(),
{
    I::only_unit_is_zero_sized();
}

/// Where the type that is asked for has no content, every opaque value
/// gives its one value: what the erased value without content gives.
pub proof fn unit_is_recovered_from_any_value<'n, I: StaticType<'n>>(input: Any<'n>)
    requires
        I::type_tag() == TypeTag::Unit,
    ensures
        recovered_input::<I>(input).is_some(),
        recovered_input::<I>(input) == recovered_input::<I>(Any::Unit),
        recovered_input::<I>(input) == I::zero_sized(),
{
    I::only_unit_is_zero_sized();
    let made = I::zero_sized().unwrap();
    I::erasure_is_faithful(made);
    assert(made.erased() == Any::<'n>::Unit);
    assert(I::recovered(Any::Unit) == made);
    if input.type_tag() == I::type_tag() {
        assert(input == Any::<'n>::Unit);
    }
}

/// An opaque value of the wrong type never gets through an adapter whose
/// node takes an input: the adapter does not accept it, and no output is a
/// result of evaluating on it.
pub proof fn adapter_refuses_wrong_type<'n, I: StaticType<'n>, O: StaticType<'n>, N: Node<I, DynFuture<O>>>(
    adapter: DynAnyNode<I, O, N>,
    input: Any<'n>,
)
    requires
        input.type_tag() != I::type_tag(),
        I::type_tag() != TypeTag::Unit,
    ensures
        !adapter.accepts(input),
        forall|output: FutureAny<'n>| !adapter.evaluates_to(input, output),
{
    wrong_type_is_refused::<I>(input);
}

/// An adapter whose node takes no input does with any opaque value what it
/// does with the erased value without content.
pub proof fn adapter_without_input_takes_any_value<'n, I: StaticType<'n>, O: StaticType<'n>, N: Node<I, DynFuture<O>>>(
    adapter: DynAnyNode<I, O, N>,
    input: Any<'n>,
)
    requires
        I::type_tag() == TypeTag::Unit,
    ensures
        adapter.accepts(input) == adapter.accepts(Any::Unit),
        forall|output: FutureAny<'n>| adapter.evaluates_to(input, output) == adapter.evaluates_to(Any::Unit, output),
{
    unit_is_recovered_from_any_value::<I>(input);
}

} // verus!
