//! What can feed a node's parameter: the outputs of other nodes, images
//! that enter the graph, and scalar values.
use vstd::prelude::*;

use crate::call::{Call, CallModel, OnFailure, Operand, StepModel};
use crate::consts::{VX_DF_IMAGE_VIRT, VX_TYPE_INVALID, VX_TYPE_VENDOR_STRUCT_END};
use crate::graph::{lemma_append_append, Graph};
use crate::objects::{valid_data_type, Image, Node, ScalarValue};
use crate::ops::{earlier, step};

verus! {

/// Something that can be bound to an image parameter of a node.
pub trait InputImage {
    /// Every object the input names was made by a step before `n` that was
    /// not dropped.
    spec fn image_live(&self, n: nat, dropped: Seq<bool>) -> bool;

    /// Whether every object the input names may be used by a new step of `graph`.
    fn image_live_in(&self, graph: &Graph) -> (b: bool)
        requires
            graph@.wf(),
        ensures
            b == self.image_live(graph@.steps.len(), graph@.dropped),
    ;

    proof fn lemma_image_live_grows(&self, n: nat, m: nat, dropped: Seq<bool>)
        requires
            self.image_live(n, dropped),
            n <= m,
        ensures
            self.image_live(m, dropped),
    ;

    /// The steps that bind the input to parameter `param_index` of `node` in
    /// graph `graph` of context `context`, placed from step `base` on.
    spec fn input_image_steps(
        &self,
        graph: u64,
        context: u64,
        node: Operand,
        param_index: usize,
        base: nat,
    ) -> Seq<StepModel>;

    /// Plans binding the input to parameter `param_index` of `node`.
    fn set_input_image(&self, graph: &mut Graph, node: &Node, param_index: usize)
        requires
            old(graph)@.wf(),
            old(graph)@.has_room(4),
            self.image_live(old(graph)@.steps.len(), old(graph)@.dropped),
            old(graph)@.live(node.ptr),
        ensures
            final(graph)@ == old(graph)@.append(
                self.input_image_steps(
                    old(graph)@.handle,
                    old(graph)@.context,
                    node.ptr,
                    param_index,
                    old(graph)@.steps.len(),
                ),
            ),
            final(graph)@.wf(),
            self.input_image_steps(
                old(graph)@.handle,
                old(graph)@.context,
                node.ptr,
                param_index,
                old(graph)@.steps.len(),
            ).len() <= 4,
    ;
}

/// Something that can be bound to a scalar parameter of a node.
pub trait InputScalar {
    /// Every object the input names was made by a step before `n` that was
    /// not dropped.
    spec fn scalar_live(&self, n: nat, dropped: Seq<bool>) -> bool;

    /// Whether every object the input names may be used by a new step of `graph`.
    fn scalar_live_in(&self, graph: &Graph) -> (b: bool)
        requires
            graph@.wf(),
        ensures
            b == self.scalar_live(graph@.steps.len(), graph@.dropped),
    ;

    proof fn lemma_scalar_live_grows(&self, n: nat, m: nat, dropped: Seq<bool>)
        requires
            self.scalar_live(n, dropped),
            n <= m,
        ensures
            self.scalar_live(m, dropped),
    ;

    /// The input can be bound as a scalar of type `data_type`.
    spec fn accepts(&self, data_type: u32) -> bool;

    /// Whether the input can be bound as a scalar of type `data_type`.
    fn accepts_type(&self, data_type: u32) -> (b: bool)
        ensures
            b == self.accepts(data_type),
    ;

    /// The steps that bind the input, as a scalar of type `data_type`, to
    /// parameter `param_index` of `node`, placed from step `base` on.
    spec fn input_scalar_steps(
        &self,
        graph: u64,
        context: u64,
        node: Operand,
        param_index: usize,
        data_type: u32,
        base: nat,
    ) -> Seq<StepModel>;

    /// Plans binding the input to parameter `param_index` of `node`.
    fn set_input_scalar(&self, graph: &mut Graph, node: &Node, param_index: usize, data_type: u32)
        requires
            old(graph)@.wf(),
            old(graph)@.has_room(3),
            self.scalar_live(old(graph)@.steps.len(), old(graph)@.dropped),
            self.accepts(data_type),
            old(graph)@.live(node.ptr),
        ensures
            final(graph)@ == old(graph)@.append(
                self.input_scalar_steps(
                    old(graph)@.handle,
                    old(graph)@.context,
                    node.ptr,
                    param_index,
                    data_type,
                    old(graph)@.steps.len(),
                ),
            ),
            final(graph)@.wf(),
            self.input_scalar_steps(
                old(graph)@.handle,
                old(graph)@.context,
                node.ptr,
                param_index,
                data_type,
                old(graph)@.steps.len(),
            ).len() <= 3,
    ;
}

/// Something that can be bound to an array parameter of a node.
pub trait InputArray {
    /// Every object the input names was made by a step before `n` that was
    /// not dropped.
    spec fn array_live(&self, n: nat, dropped: Seq<bool>) -> bool;

    /// Whether every object the input names may be used by a new step of `graph`.
    fn array_live_in(&self, graph: &Graph) -> (b: bool)
        requires
            graph@.wf(),
        ensures
            b == self.array_live(graph@.steps.len(), graph@.dropped),
    ;

    /// The input can be bound as an array of items of type `item_type`.
    spec fn accepts_items(&self, item_type: u32) -> bool;

    /// Whether the input can be bound as an array of items of type `item_type`.
    fn accepts_item_type(&self, item_type: u32) -> (b: bool)
        ensures
            b == self.accepts_items(item_type),
    ;

    /// The steps that bind the input to parameter `param_index` of `node`,
    /// placed from step `base` on.
    spec fn input_array_steps(
        &self,
        graph: u64,
        node: Operand,
        param_index: usize,
        item_type: u32,
        base: nat,
    ) -> Seq<StepModel>;

    /// Plans binding the input to parameter `param_index` of `node`.
    fn set_input_scalar(&self, graph: &mut Graph, node: &Node, param_index: usize, item_type: u32)
        requires
            old(graph)@.wf(),
            old(graph)@.has_room(3),
            self.array_live(old(graph)@.steps.len(), old(graph)@.dropped),
            self.accepts_items(item_type),
            old(graph)@.live(node.ptr),
        ensures
            final(graph)@ == old(graph)@.append(
                self.input_array_steps(
                    old(graph)@.handle,
                    node.ptr,
                    param_index,
                    item_type,
                    old(graph)@.steps.len(),
                ),
            ),
            final(graph)@.wf(),
    ;
}

/// An image parameter of a node, to be fed to other nodes.
pub struct NodeOutputImage {
    pub node: Operand,
    pub param_index: usize,
}

/// A scalar parameter of a node, to be fed to other nodes.
pub struct NodeOutputScalar {
    pub node: Operand,
    pub param_index: usize,
    pub data_type: u32,
}

/// An array parameter of a node, to be fed to other nodes.
pub struct NodeOutputArray {
    pub node: Operand,
    pub param_index: usize,
    pub item_type: u32,
}

/// An image that enters the graph through a graph parameter.
pub struct GraphInput {
    pub image: Image,
}

/// The steps that create a virtual object with `create`, bind it to
/// parameter `from_index` of `from` and to parameter `to_index` of `to`.
pub open spec fn link_steps(
    create: CallModel<Operand>,
    from: Operand,
    from_index: usize,
    to: Operand,
    to_index: usize,
    base: nat,
) -> Seq<StepModel> {
    seq![
        step(create, OnFailure::Abort),
        step(
            Call::SetParameterByIndex { node: from, index: from_index as u32, reference: earlier(base) },
            OnFailure::Abort,
        ),
        step(
            Call::SetParameterByIndex { node: to, index: to_index as u32, reference: earlier(base) },
            OnFailure::Abort,
        ),
    ]
}

/// Plans the three steps of `link_steps`, the first one already chosen.
fn plan_link(
    graph: &mut Graph,
    create: Call<Operand, Vec<u8>>,
    from: Operand,
    from_index: usize,
    to: &Node,
    to_index: usize,
)
    requires
        old(graph)@.wf(),
        old(graph)@.has_room(3),
        old(graph)@.live_call(create@),
        old(graph)@.live(from),
        old(graph)@.live(to.ptr),
    ensures
        final(graph)@ == old(graph)@.append(
            link_steps(create@, from, from_index, to.ptr, to_index, old(graph)@.steps.len()),
        ),
        final(graph)@.wf(),
{
    let ghost g0 = graph@;
    let made = graph.plan(create, OnFailure::Abort);
    let ghost g1 = graph@;
    let producer = Node { ptr: from };
    producer.set_parameter_by_index(graph, from_index, made, OnFailure::Abort);
    let ghost g2 = graph@;
    to.set_parameter_by_index(graph, to_index, made, OnFailure::Abort);
    proof {
        let s = link_steps(create@, from, from_index, to.ptr, to_index, g0.steps.len());
        lemma_append_append(g0, seq![s[0]], seq![s[1]]);
        lemma_append_append(g0, seq![s[0]] + seq![s[1]], seq![s[2]]);
        assert(seq![s[0]] + seq![s[1]] + seq![s[2]] =~= s);
    }
}

impl InputImage for NodeOutputImage {
    open spec fn image_live(&self, n: nat, dropped: Seq<bool>) -> bool {
        self.node.refers_below(n) && self.node.avoids(dropped)
    }

    fn image_live_in(&self, graph: &Graph) -> (b: bool) {
        graph.is_live(&self.node)
    }

    proof fn lemma_image_live_grows(&self, n: nat, m: nat, dropped: Seq<bool>) {
    }

    /// A virtual image joins the producing parameter to the consuming one.
    open spec fn input_image_steps(
        &self,
        graph: u64,
        context: u64,
        node: Operand,
        param_index: usize,
        base: nat,
    ) -> Seq<StepModel> {
        link_steps(
            Call::CreateVirtualImage {
                graph: Operand::Handle(graph),
                width: 0,
                height: 0,
                format: VX_DF_IMAGE_VIRT,
            },
            self.node,
            self.param_index,
            node,
            param_index,
            base,
        )
    }

    fn set_input_image(&self, graph: &mut Graph, node: &Node, param_index: usize) {
        let g = Operand::Handle(graph.handle());
        plan_link(
            graph,
            Call::CreateVirtualImage { graph: g, width: 0, height: 0, format: VX_DF_IMAGE_VIRT },
            self.node,
            self.param_index,
            node,
            param_index,
        );
    }
}

impl InputScalar for NodeOutputScalar {
    open spec fn scalar_live(&self, n: nat, dropped: Seq<bool>) -> bool {
        self.node.refers_below(n) && self.node.avoids(dropped)
    }

    fn scalar_live_in(&self, graph: &Graph) -> (b: bool) {
        graph.is_live(&self.node)
    }

    proof fn lemma_scalar_live_grows(&self, n: nat, m: nat, dropped: Seq<bool>) {
    }

    /// Only a scalar of the type the producing parameter has.
    open spec fn accepts(&self, data_type: u32) -> bool {
        data_type == self.data_type
    }

    fn accepts_type(&self, data_type: u32) -> (b: bool) {
        data_type == self.data_type
    }

    /// A virtual scalar joins the producing parameter to the consuming one.
    open spec fn input_scalar_steps(
        &self,
        graph: u64,
        context: u64,
        node: Operand,
        param_index: usize,
        data_type: u32,
        base: nat,
    ) -> Seq<StepModel> {
        link_steps(
            Call::CreateVirtualScalar { graph: Operand::Handle(graph), data_type },
            self.node,
            self.param_index,
            node,
            param_index,
            base,
        )
    }

    fn set_input_scalar(&self, graph: &mut Graph, node: &Node, param_index: usize, data_type: u32) {
        let g = Operand::Handle(graph.handle());
        plan_link(
            graph,
            Call::CreateVirtualScalar { graph: g, data_type },
            self.node,
            self.param_index,
            node,
            param_index,
        );
    }
}

impl InputScalar for ScalarValue {
    open spec fn scalar_live(&self, n: nat, dropped: Seq<bool>) -> bool {
        true
    }

    fn scalar_live_in(&self, graph: &Graph) -> (b: bool) {
        true
    }

    proof fn lemma_scalar_live_grows(&self, n: nat, m: nat, dropped: Seq<bool>) {
    }

    /// Any type OpenVX accepts for a scalar.
    open spec fn accepts(&self, data_type: u32) -> bool {
        valid_data_type(data_type)
    }

    fn accepts_type(&self, data_type: u32) -> (b: bool) {
        VX_TYPE_INVALID < data_type && data_type < VX_TYPE_VENDOR_STRUCT_END
    }

    /// A scalar holding the value is created in the context and bound.
    open spec fn input_scalar_steps(
        &self,
        graph: u64,
        context: u64,
        node: Operand,
        param_index: usize,
        data_type: u32,
        base: nat,
    ) -> Seq<StepModel> {
        seq![
            step(
                Call::CreateScalar { context: Operand::Handle(context), data_type, value: self.value@ },
                OnFailure::Abort,
            ),
            step(
                Call::SetParameterByIndex { node, index: param_index as u32, reference: earlier(base) },
                OnFailure::Abort,
            ),
        ]
    }

    fn set_input_scalar(&self, graph: &mut Graph, node: &Node, param_index: usize, data_type: u32) {
        let ghost g0 = graph@;
        let c = Operand::Handle(graph.context());
        let bytes = self.value.clone();
        assert(bytes@ =~= self.value@);
        let scalar = graph.plan(
            Call::CreateScalar { context: c, data_type, value: bytes },
            OnFailure::Abort,
        );
        node.set_parameter_by_index(graph, param_index, scalar, OnFailure::Abort);
        proof {
            let s = self.input_scalar_steps(
                g0.handle,
                g0.context,
                node.ptr,
                param_index,
                data_type,
                g0.steps.len(),
            );
            lemma_append_append(g0, seq![s[0]], seq![s[1]]);
            assert(seq![s[0]] + seq![s[1]] =~= s);
        }
    }
}

impl InputArray for NodeOutputArray {
    open spec fn array_live(&self, n: nat, dropped: Seq<bool>) -> bool {
        self.node.refers_below(n) && self.node.avoids(dropped)
    }

    fn array_live_in(&self, graph: &Graph) -> (b: bool) {
        graph.is_live(&self.node)
    }

    /// Only items of the type the producing parameter has.
    open spec fn accepts_items(&self, item_type: u32) -> bool {
        item_type == self.item_type
    }

    fn accepts_item_type(&self, item_type: u32) -> (b: bool) {
        item_type == self.item_type
    }

    /// A virtual array joins the producing parameter to the consuming one.
    open spec fn input_array_steps(
        &self,
        graph: u64,
        node: Operand,
        param_index: usize,
        item_type: u32,
        base: nat,
    ) -> Seq<StepModel> {
        link_steps(
            Call::CreateVirtualArray { graph: Operand::Handle(graph), item_type, capacity: 0 },
            self.node,
            self.param_index,
            node,
            param_index,
            base,
        )
    }

    fn set_input_scalar(&self, graph: &mut Graph, node: &Node, param_index: usize, item_type: u32) {
        let g = Operand::Handle(graph.handle());
        plan_link(
            graph,
            Call::CreateVirtualArray { graph: g, item_type, capacity: 0 },
            self.node,
            self.param_index,
            node,
            param_index,
        );
    }
}

impl InputImage for GraphInput {
    open spec fn image_live(&self, n: nat, dropped: Seq<bool>) -> bool {
        true
    }

    fn image_live_in(&self, graph: &Graph) -> (b: bool) {
        true
    }

    proof fn lemma_image_live_grows(&self, n: nat, m: nat, dropped: Seq<bool>) {
    }

    /// The node's parameter becomes a graph parameter, and the image is bound
    /// to both.
    open spec fn input_image_steps(
        &self,
        graph: u64,
        context: u64,
        node: Operand,
        param_index: usize,
        base: nat,
    ) -> Seq<StepModel> {
        seq![
            step(Call::GetParameterByIndex { node, index: param_index as u32 }, OnFailure::Abort),
            step(
                Call::AddParameterToGraph { graph: Operand::Handle(graph), parameter: earlier(base) },
                OnFailure::Abort,
            ),
            step(
                Call::SetGraphParameterByIndex {
                    graph: Operand::Handle(graph),
                    graph_index: earlier(base + 1),
                    reference: Operand::Handle(self.image.ptr),
                },
                OnFailure::Abort,
            ),
            step(
                Call::SetParameterByIndex {
                    node,
                    index: param_index as u32,
                    reference: Operand::Handle(self.image.ptr),
                },
                OnFailure::Abort,
            ),
        ]
    }

    fn set_input_image(&self, graph: &mut Graph, node: &Node, param_index: usize) {
        let ghost g0 = graph@;
        let param = node.get_parameter_by_index(graph, param_index as u32, OnFailure::Abort);
        let graph_index = graph.add_parameter(&param, OnFailure::Abort);
        let image = Operand::Handle(self.image.ptr);
        graph.set_parameter_by_index(graph_index, image, OnFailure::Abort);
        node.set_parameter_by_index(graph, param_index, image, OnFailure::Abort);
        proof {
            let s = self.input_image_steps(
                g0.handle,
                g0.context,
                node.ptr,
                param_index,
                g0.steps.len(),
            );
            lemma_append_append(g0, seq![s[0]], seq![s[1]]);
            lemma_append_append(g0, seq![s[0]] + seq![s[1]], seq![s[2]]);
            lemma_append_append(g0, seq![s[0]] + seq![s[1]] + seq![s[2]], seq![s[3]]);
            assert(seq![s[0]] + seq![s[1]] + seq![s[2]] + seq![s[3]] =~= s);
        }
    }
}

} // verus!
