use graphene_scene::any::{
    downcast_node, input_node, recover, Adapter, ComposeTypeErased, DowncastBothNode, DowncastBothRefNode, DowncastNode, DynAnyInRefNode, DynAnyNode,
    DynAnyRefNode, FutureWrapperNode, IntoTypeErasedNode, NodeContainer, PanicNode, TypeErasedBox, TypeMismatch,
};
use graphene_scene::graphic_element::GraphicGroup;
use graphene_scene::node::{DynFuture, Node};
use graphene_scene::opaque::{Any, StaticType, TypeTag};
use graphene_scene::ops::{AddPairNode, IdentityNode};
use std::cell::Cell;
use std::rc::Rc;
use std::sync::Arc;

/// Gives the same number for every input, and counts how it is used.
struct CountingNode {
    value: u32,
    evaluations: Rc<Cell<u32>>,
    resets: Rc<Cell<u32>>,
}

impl CountingNode {
    fn new(value: u32) -> (CountingNode, Rc<Cell<u32>>, Rc<Cell<u32>>) {
        let evaluations = Rc::new(Cell::new(0));
        let resets = Rc::new(Cell::new(0));
        (CountingNode { value, evaluations: evaluations.clone(), resets: resets.clone() }, evaluations, resets)
    }
}

impl Node<(), DynFuture<u32>> for CountingNode {
    fn accepts(&self, _: ()) -> bool {
        true
    }

    fn evaluates_to(&self, _: (), output: DynFuture<u32>) -> bool {
        output.wait() == self.value
    }

    fn serializes_to(&self, snapshot: Option<Any<'static>>) -> bool {
        snapshot == Some(Any::U32(self.value))
    }

    fn eval(&self, _: ()) -> DynFuture<u32> {
        self.evaluations.set(self.evaluations.get() + 1);
        DynFuture::ready(self.value)
    }

    fn name_spec(&self) -> &'static str {
        "CountingNode"
    }

    fn node_name(&self) -> &'static str {
        "CountingNode"
    }

    fn reset(&self) {
        self.resets.set(self.resets.get() + 1);
    }

    fn serialize(&self) -> Option<Arc<Any<'static>>> {
        Some(Arc::new(Any::U32(self.value)))
    }
}

/// Hands out a reference to a number that lives as long as the program.
struct BorrowingNode;

static HELD: u32 = 17;

impl Node<u32, &'static u32> for BorrowingNode {
    fn accepts(&self, _: u32) -> bool {
        true
    }

    fn evaluates_to(&self, _: u32, output: &'static u32) -> bool {
        *output == HELD
    }

    fn serializes_to(&self, snapshot: Option<Any<'static>>) -> bool {
        snapshot.is_none()
    }

    fn eval(&self, _: u32) -> &'static u32 {
        &HELD
    }

    fn name_spec(&self) -> &'static str {
        "BorrowingNode"
    }

    fn node_name(&self) -> &'static str {
        "BorrowingNode"
    }

    fn reset(&self) {}

    fn serialize(&self) -> Option<Arc<Any<'static>>> {
        None
    }
}

/// Hands out the same reference without being given anything.
struct HeldNode;

impl Node<(), &'static u32> for HeldNode {
    fn accepts(&self, _: ()) -> bool {
        true
    }

    fn evaluates_to(&self, _: (), output: &'static u32) -> bool {
        *output == HELD
    }

    fn serializes_to(&self, snapshot: Option<Any<'static>>) -> bool {
        snapshot.is_none()
    }

    fn eval(&self, _: ()) -> &'static u32 {
        &HELD
    }

    fn name_spec(&self) -> &'static str {
        "HeldNode"
    }

    fn node_name(&self) -> &'static str {
        "HeldNode"
    }

    fn reset(&self) {}

    fn serialize(&self) -> Option<Arc<Any<'static>>> {
        None
    }
}

/// Counts the elements of a group that it borrows.
struct CountElementsNode;

impl<'a> Node<&'a GraphicGroup, DynFuture<u32>> for CountElementsNode {
    fn accepts(&self, _: &'a GraphicGroup) -> bool {
        true
    }

    fn evaluates_to(&self, input: &'a GraphicGroup, output: DynFuture<u32>) -> bool {
        output.wait() as usize == input.len()
    }

    fn serializes_to(&self, snapshot: Option<Any<'static>>) -> bool {
        snapshot.is_none()
    }

    fn eval(&self, input: &'a GraphicGroup) -> DynFuture<u32> {
        DynFuture::ready(input.len() as u32)
    }

    fn name_spec(&self) -> &'static str {
        "CountElementsNode"
    }

    fn node_name(&self) -> &'static str {
        "CountElementsNode"
    }

    fn reset(&self) {}

    fn serialize(&self) -> Option<Arc<Any<'static>>> {
        None
    }
}

/// Doubles a number that arrives as an opaque value, at once.
struct DoubleErasedNode;

impl<'a> Node<Any<'a>, Any<'a>> for DoubleErasedNode {
    fn accepts(&self, input: Any<'a>) -> bool {
        matches!(input, Any::U32(_))
    }

    fn evaluates_to(&self, _: Any<'a>, _: Any<'a>) -> bool {
        true
    }

    fn serializes_to(&self, snapshot: Option<Any<'static>>) -> bool {
        snapshot.is_none()
    }

    fn eval(&self, input: Any<'a>) -> Any<'a> {
        match input {
            Any::U32(number) => Any::U32(number * 2),
            other => other,
        }
    }

    fn name_spec(&self) -> &'static str {
        "DoubleErasedNode"
    }

    fn node_name(&self) -> &'static str {
        "DoubleErasedNode"
    }

    fn reset(&self) {}

    fn serialize(&self) -> Option<Arc<Any<'static>>> {
        None
    }
}

fn erased_adder<'a>() -> TypeErasedBox<'a> {
    Box::new(DynAnyNode::<(u32, u32), u32, _>::new(FutureWrapperNode { node: AddPairNode::new() }))
}

fn erased_identity<'a>() -> TypeErasedBox<'a> {
    Box::new(DynAnyNode::<u32, u32, _>::new(FutureWrapperNode::new(IdentityNode::new())))
}

#[test]
fn dyn_input_compose() {
    let dyn_any = DynAnyNode::<(u32, u32), u32, _>::new(FutureWrapperNode { node: AddPairNode::new() });
    let type_erased = Box::new(dyn_any) as TypeErasedBox<'_>;
    let sum = type_erased.eval(Any::U32Pair(4_u32, 2_u32)).wait();
    assert_eq!(sum, Any::U32(6));
    let id_node = FutureWrapperNode::new(IdentityNode::new());
    let any_id = DynAnyNode::<u32, u32, _>::new(id_node);
    let type_erased_id = Box::new(any_id) as TypeErasedBox;
    let type_erased = ComposeTypeErased::new(NodeContainer::new(type_erased), NodeContainer::new(type_erased_id));
    let composed = type_erased.eval(Any::U32Pair(4_u32, 2_u32)).wait();
    assert_eq!(composed, Any::U32(6));
}

#[test]
#[should_panic]
fn dyn_input_invalid_eval_panic() {
    let dyn_any = DynAnyNode::<(u32, u32), u32, _>::new(FutureWrapperNode { node: AddPairNode::new() });
    let type_erased = Box::new(dyn_any) as TypeErasedBox;
    type_erased.eval(Any::Text(String::from("32"))).wait();
}

#[test]
fn wrong_type_gives_a_fault_that_names_the_edge() {
    let adapter = DynAnyNode::<(u32, u32), u32, _>::new(FutureWrapperNode { node: AddPairNode::new() });
    let fault = adapter.try_eval(Any::Text(String::from("32"))).unwrap_err();
    assert_eq!(
        fault,
        TypeMismatch { adapter: Adapter::DynAnyNode, expected: TypeTag::U32Pair, found: TypeTag::Text, node_name: "AddPairNode" }
    );
    assert_eq!(fault.message(), "DynAnyNode Input, Incorrect type, expected (u32, u32) but found String in:\nAddPairNode");
}

#[test]
fn wrong_type_faults_every_time() {
    let adapter = DynAnyNode::<u32, u32, _>::new(FutureWrapperNode::new(IdentityNode::new()));
    for _ in 0..3 {
        assert!(adapter.try_eval(Any::Bool(true)).is_err());
    }
    assert_eq!(adapter.try_eval(Any::U32(9)).unwrap().wait(), Any::U32(9));
}

#[test]
fn node_without_input_takes_any_value() {
    let (node, evaluations, _) = CountingNode::new(42);
    let adapter = DynAnyNode::<(), u32, _>::new(node);
    assert_eq!(adapter.try_eval(Any::Text(String::from("32"))).unwrap().wait(), Any::U32(42));
    assert_eq!(adapter.try_eval(Any::Unit).unwrap().wait(), Any::U32(42));
    assert_eq!(adapter.eval(Any::U32Pair(1, 2)).wait(), Any::U32(42));
    assert_eq!(evaluations.get(), 3);
}

#[test]
fn composition_gives_the_same_output_twice() {
    let composed = ComposeTypeErased::new(NodeContainer::new(erased_adder()), NodeContainer::new(erased_identity()));
    let once = composed.eval(Any::U32Pair(40, 2)).wait();
    let again = composed.eval(Any::U32Pair(40, 2)).wait();
    assert_eq!(once, Any::U32(42));
    assert_eq!(once, again);
}

#[test]
fn composition_shares_its_parts() {
    let adder = NodeContainer::new(erased_adder());
    let identity = NodeContainer::new(erased_identity());
    let first = ComposeTypeErased::new(adder.clone(), identity.clone());
    let second = ComposeTypeErased::new(adder, identity);
    assert_eq!(first.eval(Any::U32Pair(1, 2)).wait(), Any::U32(3));
    assert_eq!(second.eval(Any::U32Pair(3, 4)).wait(), Any::U32(7));
    assert_eq!(first.node_name(), "ComposeTypeErased");
}

#[test]
fn adapters_forward_reset_and_serialize() {
    let (node, _, resets) = CountingNode::new(5);
    let adapter = DynAnyNode::<(), u32, _>::new(node);
    adapter.reset();
    assert_eq!(resets.get(), 1);
    assert_eq!(adapter.serialize(), Some(Arc::new(Any::U32(5))));
    let shared = NodeContainer::new(adapter.into_type_erased());
    shared.reset();
    assert_eq!(resets.get(), 2);
    let typed: DowncastBothNode<(), u32> = input_node(shared.clone());
    typed.reset();
    assert_eq!(resets.get(), 3);
    assert_eq!(typed.serialize(), Some(Arc::new(Any::U32(5))));
    let composed = ComposeTypeErased::new(shared.clone(), shared);
    composed.reset();
    assert_eq!(resets.get(), 5);
    assert_eq!(composed.serialize(), None);
}

#[test]
fn future_wrapper_defers_and_forwards() {
    let wrapper = FutureWrapperNode::new(AddPairNode::new());
    assert_eq!(wrapper.eval((20, 22)).wait(), 42);
    assert_eq!(wrapper.node_name(), "AddPairNode");
    assert_eq!(wrapper.serialize(), None);
}

#[test]
fn downcast_both_recovers_the_output() {
    let typed: DowncastBothNode<(u32, u32), u32> = downcast_node(NodeContainer::new(erased_adder()));
    assert_eq!(typed.eval((4, 2)).wait(), 6);
    assert_eq!(typed.clone().try_eval((5, 6)).unwrap().wait(), 11);
}

#[test]
fn downcast_both_faults_on_another_output() {
    let typed: DowncastBothNode<(u32, u32), bool> = downcast_node(NodeContainer::new(erased_adder()));
    let fault = typed.try_eval((4, 2)).unwrap_err();
    assert_eq!(fault.adapter, Adapter::DowncastBothNode);
    assert_eq!(fault.expected, TypeTag::Bool);
    assert_eq!(fault.found, TypeTag::U32);
    assert_eq!(fault.node_name, "DynAnyNode");
}

#[test]
fn input_node_evaluates_without_input() {
    let (node, _, _) = CountingNode::new(7);
    let shared = NodeContainer::new(DynAnyNode::<(), u32, _>::new(node).into_type_erased());
    let typed: DowncastBothNode<(), u32> = input_node(shared);
    assert_eq!(typed.eval(()).wait(), 7);
}

#[test]
fn reference_output_crosses_as_a_reference() {
    let adapter = DynAnyRefNode::<u32, u32, _>::new(BorrowingNode);
    assert_eq!(adapter.eval(Any::U32(1)).wait(), Any::U32Ref(&17));
    let fault = adapter.try_eval(Any::Unit).unwrap_err();
    assert_eq!(fault.adapter, Adapter::DynAnyRefNode);
    assert_eq!(fault.expected, TypeTag::U32);
    assert_eq!(fault.found, TypeTag::Unit);
    let typed: DowncastBothRefNode<u32, u32> = DowncastBothRefNode::new(NodeContainer::new(adapter.into_type_erased()));
    assert_eq!(*typed.eval(3).wait(), 17);
}

#[test]
fn reference_adapter_without_input_takes_any_value() {
    let adapter = DynAnyRefNode::<(), u32, _>::new(HeldNode);
    assert_eq!(adapter.try_eval(Any::Bool(false)).unwrap().wait(), Any::U32Ref(&17));
    assert_eq!(adapter.eval(Any::Unit).wait(), Any::U32Ref(&17));
}

#[test]
fn recovery_is_exact_unless_it_is_permissive() {
    assert_eq!(recover::<()>(Any::U32(1), true, Adapter::DynAnyNode, "node"), Ok(()));
    assert_eq!(
        recover::<()>(Any::U32(1), false, Adapter::DowncastNode, "node"),
        Err(TypeMismatch { adapter: Adapter::DowncastNode, expected: TypeTag::Unit, found: TypeTag::U32, node_name: "node" })
    );
    assert_eq!(recover::<u32>(Any::U32(1), false, Adapter::DowncastNode, "node"), Ok(1));
    assert_eq!(
        recover::<u32>(Any::Unit, true, Adapter::DynAnyRefNode, "node").unwrap_err().message(),
        "DynAnyRefNode Input, Incorrect type, expected u32 but found () in:\nnode"
    );
}

#[test]
fn reference_output_is_not_the_value() {
    let typed: DowncastBothRefNode<u32, u32> = DowncastBothRefNode::new(NodeContainer::new(erased_identity()));
    let fault = typed.try_eval(3).unwrap_err();
    assert_eq!(fault.adapter, Adapter::DowncastBothRefNode);
    assert_eq!(fault.expected, TypeTag::U32Ref);
    assert_eq!(fault.found, TypeTag::U32);
}

#[test]
fn reference_input_is_borrowed() {
    let mut group = GraphicGroup::empty();
    group.push(Default::default());
    group.push(Default::default());
    let adapter = DynAnyInRefNode::<GraphicGroup, u32, _>::new(CountElementsNode);
    assert_eq!(adapter.eval(Any::GraphicGroupRef(&group)).wait(), Any::U32(2));
    let fault = adapter.try_eval(Any::GraphicGroup(GraphicGroup::empty())).unwrap_err();
    assert_eq!(fault.adapter, Adapter::DynAnyInRefNode);
    assert_eq!(fault.expected, TypeTag::GraphicGroupRef);
    assert_eq!(fault.found, TypeTag::GraphicGroup);
    assert_eq!(group.len(), 2);
}

#[test]
fn downcast_node_recovers_from_an_immediate_output() {
    let adapter = DowncastNode::<u32, _>::new(DoubleErasedNode);
    assert_eq!(adapter.eval(Any::U32(21)), 42);
    let wrong = DowncastNode::<bool, _>::new(DoubleErasedNode);
    let fault = wrong.try_eval(Any::U32(21)).unwrap_err();
    assert_eq!(fault.adapter, Adapter::DowncastNode);
    assert_eq!(fault.expected, TypeTag::Bool);
    assert_eq!(fault.found, TypeTag::U32);
    assert_eq!(fault.node_name, "DoubleErasedNode");
}

#[test]
fn panic_node_stands_for_a_node() {
    let node: PanicNode<u32, u32> = PanicNode::new();
    assert_eq!(node.node_name(), "PanicNode");
    assert_eq!(node.serialize(), None);
    node.reset();
    let other: PanicNode<(), bool> = Default::default();
    assert_eq!(other.node_name(), "PanicNode");
}

#[test]
fn erasing_and_recovering_lose_nothing() {
    assert_eq!(<(u32, u32)>::from_any((4u32, 2u32).into_any()), Ok((4, 2)));
    assert_eq!(String::from_any(String::from("label").into_any()), Ok(String::from("label")));
    assert_eq!(bool::from_any(Any::U32(1)), Err(Any::U32(1)));
    assert_eq!(<()>::from_any(Any::Unit), Ok(()));
    assert_eq!(<()>::synthesize(), Some(()));
    assert_eq!(u32::synthesize(), None);
    assert_eq!(<&u32>::from_any(Any::U32(3)), Err(Any::U32(3)));
    assert_eq!(Any::U32Pair(1, 2).tag(), TypeTag::U32Pair);
    assert_eq!(<(u32, u32)>::tag(), TypeTag::U32Pair);
    assert_eq!(TypeTag::GraphicGroupRef.name(), "&GraphicGroup");
    assert_eq!(Adapter::DowncastBothRefNode.name(), "DowncastBothRefNode");
}
