//! The calls each graph operation plans.
use vstd::prelude::*;

use crate::call::{Call, CallModel, OnFailure, Operand, Step, StepModel};
use crate::graph::Graph;
use crate::objects::{Node, NodeParam};

verus! {

/// The step that plans `call`, with what a failure of it means.
pub open spec fn step(call: CallModel<Operand>, on_failure: OnFailure) -> StepModel {
    Step { call, on_failure }
}

/// The operand that names the value of step `i`.
pub open spec fn earlier(i: nat) -> Operand {
    Operand::Earlier(i as usize)
}

impl Graph {
    /// Plans `call` and names its value.
    pub(crate) fn plan(&mut self, call: Call<Operand, Vec<u8>>, on_failure: OnFailure) -> (o: Operand)
        requires
            old(self)@.wf(),
            old(self)@.has_room(1),
            old(self)@.live_call(call@),
        ensures
            final(self)@ == old(self)@.append(seq![step(call@, on_failure)]),
            final(self)@.wf(),
            o == earlier(old(self)@.steps.len()),
    {
        let n = self.step_count();
        self.push_step(call, on_failure);
        Operand::Earlier(n)
    }

    /// Plans the creation of a virtual image in the graph.
    pub(crate) fn create_virtual_image(
        &mut self,
        width: u32,
        height: u32,
        color: u32,
        on_failure: OnFailure,
    ) -> (image: Operand)
        requires
            old(self)@.wf(),
            old(self)@.has_room(1),
        ensures
            final(self)@ == old(self)@.append(
                seq![step(Call::CreateVirtualImage { graph: Operand::Handle(old(self)@.handle), width, height, format: color }, on_failure)],
            ),
            final(self)@.wf(),
            image == earlier(old(self)@.steps.len()),
    {
        let g = Operand::Handle(self.handle());
        self.plan(Call::CreateVirtualImage { graph: g, width, height, format: color }, on_failure)
    }

    /// Plans the creation of a virtual scalar in the graph.
    pub(crate) fn create_virtual_scalar(&mut self, data_type: u32, on_failure: OnFailure) -> (scalar: Operand)
        requires
            old(self)@.wf(),
            old(self)@.has_room(1),
        ensures
            final(self)@ == old(self)@.append(
                seq![step(Call::CreateVirtualScalar { graph: Operand::Handle(old(self)@.handle), data_type }, on_failure)],
            ),
            final(self)@.wf(),
            scalar == earlier(old(self)@.steps.len()),
    {
        let g = Operand::Handle(self.handle());
        self.plan(Call::CreateVirtualScalar { graph: g, data_type }, on_failure)
    }

    /// Plans the creation of a virtual array in the graph.
    pub(crate) fn create_virtual_array(
        &mut self,
        item_type: u32,
        capacity: usize,
        on_failure: OnFailure,
    ) -> (array: Operand)
        requires
            old(self)@.wf(),
            old(self)@.has_room(1),
        ensures
            final(self)@ == old(self)@.append(
                seq![step(Call::CreateVirtualArray { graph: Operand::Handle(old(self)@.handle), item_type, capacity }, on_failure)],
            ),
            final(self)@.wf(),
            array == earlier(old(self)@.steps.len()),
    {
        let g = Operand::Handle(self.handle());
        self.plan(Call::CreateVirtualArray { graph: g, item_type, capacity }, on_failure)
    }

    /// Plans the creation of a node that runs `kernel`.
    pub(crate) fn create_generic_node(&mut self, kernel: Operand, on_failure: OnFailure) -> (node: Node)
        requires
            old(self)@.wf(),
            old(self)@.has_room(1),
            old(self)@.live(kernel),
        ensures
            final(self)@ == old(self)@.append(
                seq![step(Call::CreateGenericNode { graph: Operand::Handle(old(self)@.handle), kernel }, on_failure)],
            ),
            final(self)@.wf(),
            node.ptr == earlier(old(self)@.steps.len()),
    {
        let g = Operand::Handle(self.handle());
        let ptr = self.plan(Call::CreateGenericNode { graph: g, kernel }, on_failure);
        Node { ptr }
    }

    /// Plans adding `param` to the graph's parameters; the step's value is
    /// the index the parameter gets.
    pub(crate) fn add_parameter(&mut self, param: &NodeParam, on_failure: OnFailure) -> (index: Operand)
        requires
            old(self)@.wf(),
            old(self)@.has_room(1),
            old(self)@.live(param.ptr),
        ensures
            final(self)@ == old(self)@.append(
                seq![step(Call::AddParameterToGraph { graph: Operand::Handle(old(self)@.handle), parameter: param.ptr }, on_failure)],
            ),
            final(self)@.wf(),
            index == earlier(old(self)@.steps.len()),
    {
        let g = Operand::Handle(self.handle());
        self.plan(Call::AddParameterToGraph { graph: g, parameter: param.ptr }, on_failure)
    }

    /// Plans binding `reference` to the graph parameter numbered by the value of `index`.
    pub(crate) fn set_parameter_by_index(
        &mut self,
        index: Operand,
        reference: Operand,
        on_failure: OnFailure,
    )
        requires
            old(self)@.wf(),
            old(self)@.has_room(1),
            old(self)@.live(index),
            old(self)@.live(reference),
        ensures
            final(self)@ == old(self)@.append(
                seq![step(Call::SetGraphParameterByIndex { graph: Operand::Handle(old(self)@.handle), graph_index: index, reference }, on_failure)],
            ),
            final(self)@.wf(),
    {
        let g = Operand::Handle(self.handle());
        self.plan(Call::SetGraphParameterByIndex { graph: g, graph_index: index, reference }, on_failure);
    }
}

impl Node {
    /// Plans looking up parameter `index` of the node.
    pub(crate) fn get_parameter_by_index(
        &self,
        graph: &mut Graph,
        index: u32,
        on_failure: OnFailure,
    ) -> (param: NodeParam)
        requires
            old(graph)@.wf(),
            old(graph)@.has_room(1),
            old(graph)@.live(self.ptr),
        ensures
            final(graph)@ == old(graph)@.append(
                seq![step(Call::GetParameterByIndex { node: self.ptr, index }, on_failure)],
            ),
            final(graph)@.wf(),
            param.ptr == earlier(old(graph)@.steps.len()),
    {
        let ptr = graph.plan(Call::GetParameterByIndex { node: self.ptr, index }, on_failure);
        NodeParam { ptr }
    }

    /// Plans binding `reference` to parameter `index` of the node.
    pub(crate) fn set_parameter_by_index(
        &self,
        graph: &mut Graph,
        index: usize,
        reference: Operand,
        on_failure: OnFailure,
    )
        requires
            old(graph)@.wf(),
            old(graph)@.has_room(1),
            old(graph)@.live(self.ptr),
            old(graph)@.live(reference),
        ensures
            final(graph)@ == old(graph)@.append(
                seq![step(Call::SetParameterByIndex { node: self.ptr, index: index as u32, reference }, on_failure)],
            ),
            final(graph)@.wf(),
    {
        graph.plan(
            Call::SetParameterByIndex { node: self.ptr, index: index as u32, reference },
            on_failure,
        );
    }
}

} // verus!
