//! What the graph operations wire together: which object each parameter of
//! the node they create is bound to, stated over the steps a graph holds
//! after the operation.
use vstd::prelude::*;

use crate::call::{Call, CallModel, Operand, StepModel};
use crate::consts::{
    VX_DF_IMAGE_VIRT, VX_KERNEL_CHANNEL_EXTRACT, VX_KERNEL_HARRIS_CORNERS, VX_KERNEL_MAGNITUDE,
    VX_TYPE_ENUM, VX_TYPE_FLOAT32, VX_TYPE_INT32,
};
use crate::graph::GraphModel;
use crate::graph_ops::{
    channel_extract_steps, harris_corners_steps, magnitude_steps, one_input_steps, output_steps,
};
use crate::inputs::{
    GraphInput, InputArray, InputImage, InputScalar, NodeOutputArray, NodeOutputImage, NodeOutputScalar,
};
use crate::objects::{Image, ScalarValue};
use crate::ops::earlier;

verus! {

/// The call `c` binds parameter `index` of `node` to something other than `target`.
pub open spec fn binds_other(c: CallModel<Operand>, node: Operand, index: u32, target: Operand) -> bool {
    match c {
        Call::SetParameterByIndex { node: n, index: x, reference: r } => n == node && x == index
            && r != target,
        _ => false,
    }
}

/// Among `steps`, from step `from` on, parameter `index` of `node` is bound
/// to `target`, and to nothing else.
pub open spec fn bound_to(
    steps: Seq<StepModel>,
    from: int,
    node: Operand,
    index: u32,
    target: Operand,
) -> bool {
    &&& exists|j: int|
        from <= j < steps.len() && (#[trigger] steps[j]).call == (CallModel::SetParameterByIndex {
            node,
            index,
            reference: target,
        })
    &&& forall|j: int| from <= j < steps.len() ==> !binds_other(#[trigger] steps[j].call, node, index, target)
}

/// `o` names the object that a step of `steps` makes with the call `c`.
pub open spec fn made_by(steps: Seq<StepModel>, o: Operand, c: CallModel<Operand>) -> bool {
    o matches Operand::Earlier(k) && k < steps.len() && steps[k as int].call == c
}

/// `node` is a node of graph `graph` that runs the kernel `kernel` looks up
/// in `context`.
pub open spec fn runs_kernel(
    steps: Seq<StepModel>,
    node: Operand,
    graph: u64,
    context: u64,
    kernel: u32,
) -> bool {
    exists|k: int|
        #![trigger steps[k]]
        made_by(steps, node, Call::CreateGenericNode { graph: Operand::Handle(graph), kernel: earlier(k as nat) })
            && made_by(
            steps,
            earlier(k as nat),
            Call::GetKernelByEnum { context: Operand::Handle(context), kernel },
        )
}

/// Among `steps`, from step `from` on, parameter `index` of `node` is bound to
/// a scalar of type `data_type` created in `context` with the bytes `bytes`,
/// and to nothing else.
pub open spec fn bound_to_scalar(
    steps: Seq<StepModel>,
    from: int,
    node: Operand,
    index: u32,
    context: u64,
    data_type: u32,
    bytes: Seq<u8>,
) -> bool {
    exists|k: int|
        #![trigger steps[k]]
        from <= k && made_by(
            steps,
            earlier(k as nat),
            Call::CreateScalar { context: Operand::Handle(context), data_type, value: bytes },
        ) && bound_to(steps, from, node, index, earlier(k as nat))
}

/// Among `steps`, from step `from` on, parameter `index` of `node` becomes a
/// graph parameter of `graph`.
pub open spec fn made_graph_parameter(
    steps: Seq<StepModel>,
    from: int,
    graph: u64,
    node: Operand,
    index: u32,
) -> bool {
    exists|i: int, j: int|
        #![trigger steps[i], steps[j]]
        from <= i < j < steps.len() && steps[i].call == (CallModel::GetParameterByIndex { node, index })
            && steps[j].call == (CallModel::AddParameterToGraph {
            graph: Operand::Handle(graph),
            parameter: earlier(i as nat),
        })
}

/// Parameter `a_index` of `a` and parameter `b_index` of `b` are bound,
/// from step `from` on, to the same new virtual image of `graph`, and each
/// to nothing else.
pub open spec fn joined_by_virtual_image(
    steps: Seq<StepModel>,
    from: int,
    graph: u64,
    a: Operand,
    a_index: u32,
    b: Operand,
    b_index: u32,
) -> bool {
    exists|k: int|
        #![trigger steps[k]]
        from <= k && made_by(
            steps,
            earlier(k as nat),
            Call::CreateVirtualImage {
                graph: Operand::Handle(graph),
                width: 0,
                height: 0,
                format: VX_DF_IMAGE_VIRT,
            },
        ) && bound_to(steps, from, a, a_index, earlier(k as nat)) && bound_to(
            steps,
            from,
            b,
            b_index,
            earlier(k as nat),
        )
}

/// From step `from` on, a failure to look up the kernel or to create the
/// node (the first two steps) is returned, and a failure of any later step
/// stops the program.
pub open spec fn node_failures(steps: Seq<StepModel>, from: int) -> bool {
    &&& forall|j: int| from <= j < from + 2 && j < steps.len() ==> (#[trigger] steps[j]).on_failure is Propagate
    &&& forall|j: int| from + 2 <= j < steps.len() ==> (#[trigger] steps[j]).on_failure is Abort
}

/// A node that filters one image (`gaussian_3x3`, `sobel_3x3`,
/// `median_3x3` run it with their kernel): the node runs `kernel`, and an
/// image that enters the graph is bound to its parameter 0, which becomes a
/// graph parameter.
/// Failures go as `node_failures` says.
pub proof fn lemma_one_input_binds_parameter_0(m: GraphModel, kernel: u32, image: u64)
    requires
        m.wf(),
        m.has_room(6),
    ensures
        ({
            let input = GraphInput { image: Image { ptr: image } };
            let last = m.append(one_input_steps(m, kernel, &input));
            let node = earlier(m.steps.len() + 1);
            let n0 = m.steps.len() as int;
            &&& runs_kernel(last.steps, node, m.handle, m.context, kernel)
            &&& node_failures(last.steps, n0)
            &&& bound_to(last.steps, n0, node, 0, Operand::Handle(image))
            &&& made_graph_parameter(last.steps, n0, m.handle, node, 0)
        }),
{
    let input = GraphInput { image: Image { ptr: image } };
    let last = m.append(one_input_steps(m, kernel, &input));
    let s = last.steps;
    let node = earlier(m.steps.len() + 1);
    let n0 = m.steps.len() as int;
    assert(s[n0 + 1].call == CallModel::CreateGenericNode { graph: Operand::Handle(m.handle), kernel: earlier(n0 as nat) });
    assert(s[n0].call == CallModel::GetKernelByEnum { context: Operand::Handle(m.context), kernel });
    assert(s[n0 + 5].call == CallModel::SetParameterByIndex { node, index: 0, reference: Operand::Handle(image) });
    assert(s[n0 + 2].call == CallModel::GetParameterByIndex { node, index: 0 });
    assert(s[n0 + 3].call == CallModel::AddParameterToGraph { graph: Operand::Handle(m.handle), parameter: earlier((n0 + 2) as nat) });
    assert forall|j: int| n0 <= j < s.len() implies !binds_other(
        #[trigger] s[j].call,
        node,
        0,
        Operand::Handle(image),
    ) by {}
    assert(made_by(s, node, CallModel::CreateGenericNode { graph: Operand::Handle(m.handle), kernel: earlier(n0 as nat) }));
    assert(made_by(s, earlier(n0 as nat), CallModel::GetKernelByEnum { context: Operand::Handle(m.context), kernel }));
    assert(runs_kernel(s, node, m.handle, m.context, kernel));
    assert(bound_to(s, n0, node, 0, Operand::Handle(image)));
    assert(made_graph_parameter(s, n0, m.handle, node, 0));
}


/// A Harris corner node: it runs the Harris kernel, an image that enters
/// the graph is bound to its parameter 0 (a graph parameter), and each scalar
/// is created from its value with its type and bound to the parameter of its
/// role: the strength threshold to 1, the minimum distance to 2, the
/// sensitivity to 3 (all `VX_TYPE_FLOAT32`), the gradient size to 4 and the
/// block size to 5 (both `VX_TYPE_INT32`).
/// Failures go as `node_failures` says.
pub proof fn lemma_harris_corners_binds_roles(
    m: GraphModel,
    image: u64,
    strength_thresh: ScalarValue,
    min_distance: ScalarValue,
    sensitivity: ScalarValue,
    gradient_size: ScalarValue,
    block_size: ScalarValue,
)
    requires
        m.wf(),
        m.has_room(21),
    ensures
        ({
            let input = GraphInput { image: Image { ptr: image } };
            let last = m.append(
                harris_corners_steps(
                    m,
                    &input,
                    &strength_thresh,
                    &min_distance,
                    &sensitivity,
                    &gradient_size,
                    &block_size,
                ),
            );
            let node = earlier(m.steps.len() + 1);
            let n0 = m.steps.len() as int;
            &&& runs_kernel(last.steps, node, m.handle, m.context, VX_KERNEL_HARRIS_CORNERS)
            &&& node_failures(last.steps, n0)
            &&& bound_to(last.steps, n0, node, 0, Operand::Handle(image))
            &&& made_graph_parameter(last.steps, n0, m.handle, node, 0)
            &&& bound_to_scalar(last.steps, n0, node, 1, m.context, VX_TYPE_FLOAT32, strength_thresh.value@)
            &&& bound_to_scalar(last.steps, n0, node, 2, m.context, VX_TYPE_FLOAT32, min_distance.value@)
            &&& bound_to_scalar(last.steps, n0, node, 3, m.context, VX_TYPE_FLOAT32, sensitivity.value@)
            &&& bound_to_scalar(last.steps, n0, node, 4, m.context, VX_TYPE_INT32, gradient_size.value@)
            &&& bound_to_scalar(last.steps, n0, node, 5, m.context, VX_TYPE_INT32, block_size.value@)
        }),
{
    let input = GraphInput { image: Image { ptr: image } };
    let last = m.append(
        harris_corners_steps(
            m,
            &input,
            &strength_thresh,
            &min_distance,
            &sensitivity,
            &gradient_size,
            &block_size,
        ),
    );
    let s = last.steps;
    let node = earlier(m.steps.len() + 1);
    let n0 = m.steps.len() as int;
    assert(made_by(s, node, CallModel::CreateGenericNode { graph: Operand::Handle(m.handle), kernel: earlier(n0 as nat) }));
    assert(made_by(s, earlier(n0 as nat), CallModel::GetKernelByEnum { context: Operand::Handle(m.context), kernel: VX_KERNEL_HARRIS_CORNERS }));
    assert(s[n0 + 5].call == CallModel::SetParameterByIndex { node, index: 0, reference: Operand::Handle(image) });
    assert(s[n0 + 2].call == CallModel::GetParameterByIndex { node, index: 0 });
    assert(s[n0 + 3].call == CallModel::AddParameterToGraph { graph: Operand::Handle(m.handle), parameter: earlier((n0 + 2) as nat) });
    assert forall|j: int| n0 <= j < s.len() implies !binds_other(#[trigger] s[j].call, node, 0, Operand::Handle(image)) by {}
    assert(made_by(s, earlier((n0 + 6) as nat), CallModel::CreateScalar { context: Operand::Handle(m.context), data_type: VX_TYPE_FLOAT32, value: strength_thresh.value@ }));
    assert(s[n0 + 7].call == CallModel::SetParameterByIndex { node, index: 1, reference: earlier((n0 + 6) as nat) });
    assert forall|j: int| n0 <= j < s.len() implies !binds_other(#[trigger] s[j].call, node, 1, earlier((n0 + 6) as nat)) by {}
    assert(bound_to(s, n0, node, 1, earlier((n0 + 6) as nat)));
    assert(bound_to_scalar(s, n0, node, 1, m.context, VX_TYPE_FLOAT32, strength_thresh.value@));
    assert(made_by(s, earlier((n0 + 8) as nat), CallModel::CreateScalar { context: Operand::Handle(m.context), data_type: VX_TYPE_FLOAT32, value: min_distance.value@ }));
    assert(s[n0 + 9].call == CallModel::SetParameterByIndex { node, index: 2, reference: earlier((n0 + 8) as nat) });
    assert forall|j: int| n0 <= j < s.len() implies !binds_other(#[trigger] s[j].call, node, 2, earlier((n0 + 8) as nat)) by {}
    assert(bound_to(s, n0, node, 2, earlier((n0 + 8) as nat)));
    assert(bound_to_scalar(s, n0, node, 2, m.context, VX_TYPE_FLOAT32, min_distance.value@));
    assert(made_by(s, earlier((n0 + 10) as nat), CallModel::CreateScalar { context: Operand::Handle(m.context), data_type: VX_TYPE_FLOAT32, value: sensitivity.value@ }));
    assert(s[n0 + 11].call == CallModel::SetParameterByIndex { node, index: 3, reference: earlier((n0 + 10) as nat) });
    assert forall|j: int| n0 <= j < s.len() implies !binds_other(#[trigger] s[j].call, node, 3, earlier((n0 + 10) as nat)) by {}
    assert(bound_to(s, n0, node, 3, earlier((n0 + 10) as nat)));
    assert(bound_to_scalar(s, n0, node, 3, m.context, VX_TYPE_FLOAT32, sensitivity.value@));
    assert(made_by(s, earlier((n0 + 12) as nat), CallModel::CreateScalar { context: Operand::Handle(m.context), data_type: VX_TYPE_INT32, value: gradient_size.value@ }));
    assert(s[n0 + 13].call == CallModel::SetParameterByIndex { node, index: 4, reference: earlier((n0 + 12) as nat) });
    assert forall|j: int| n0 <= j < s.len() implies !binds_other(#[trigger] s[j].call, node, 4, earlier((n0 + 12) as nat)) by {}
    assert(bound_to(s, n0, node, 4, earlier((n0 + 12) as nat)));
    assert(bound_to_scalar(s, n0, node, 4, m.context, VX_TYPE_INT32, gradient_size.value@));
    assert(made_by(s, earlier((n0 + 14) as nat), CallModel::CreateScalar { context: Operand::Handle(m.context), data_type: VX_TYPE_INT32, value: block_size.value@ }));
    assert(s[n0 + 15].call == CallModel::SetParameterByIndex { node, index: 5, reference: earlier((n0 + 14) as nat) });
    assert forall|j: int| n0 <= j < s.len() implies !binds_other(#[trigger] s[j].call, node, 5, earlier((n0 + 14) as nat)) by {}
    assert(bound_to(s, n0, node, 5, earlier((n0 + 14) as nat)));
    assert(bound_to_scalar(s, n0, node, 5, m.context, VX_TYPE_INT32, block_size.value@));
}

/// A channel-extraction node: it runs the channel-extract kernel, an image
/// that enters the graph is bound to its parameter 0 (a graph parameter),
/// and the channel, created as a `VX_TYPE_ENUM` scalar from its value, to
/// its parameter 1.
/// Failures go as `node_failures` says.
pub proof fn lemma_channel_extract_binds_roles(m: GraphModel, image: u64, channel: ScalarValue)
    requires
        m.wf(),
        m.has_room(9),
    ensures
        ({
            let input = GraphInput { image: Image { ptr: image } };
            let last = m.append(channel_extract_steps(m, &input, &channel));
            let node = earlier(m.steps.len() + 1);
            let n0 = m.steps.len() as int;
            &&& runs_kernel(last.steps, node, m.handle, m.context, VX_KERNEL_CHANNEL_EXTRACT)
            &&& node_failures(last.steps, n0)
            &&& bound_to(last.steps, n0, node, 0, Operand::Handle(image))
            &&& made_graph_parameter(last.steps, n0, m.handle, node, 0)
            &&& bound_to_scalar(last.steps, n0, node, 1, m.context, VX_TYPE_ENUM, channel.value@)
        }),
{
    let input = GraphInput { image: Image { ptr: image } };
    let last = m.append(channel_extract_steps(m, &input, &channel));
    let s = last.steps;
    let node = earlier(m.steps.len() + 1);
    let n0 = m.steps.len() as int;
    assert(made_by(s, node, CallModel::CreateGenericNode { graph: Operand::Handle(m.handle), kernel: earlier(n0 as nat) }));
    assert(made_by(s, earlier(n0 as nat), CallModel::GetKernelByEnum { context: Operand::Handle(m.context), kernel: VX_KERNEL_CHANNEL_EXTRACT }));
    assert(s[n0 + 5].call == CallModel::SetParameterByIndex { node, index: 0, reference: Operand::Handle(image) });
    assert(s[n0 + 2].call == CallModel::GetParameterByIndex { node, index: 0 });
    assert(s[n0 + 3].call == CallModel::AddParameterToGraph { graph: Operand::Handle(m.handle), parameter: earlier((n0 + 2) as nat) });
    assert forall|j: int| n0 <= j < s.len() implies !binds_other(#[trigger] s[j].call, node, 0, Operand::Handle(image)) by {}
    assert(made_by(s, earlier((n0 + 6) as nat), CallModel::CreateScalar { context: Operand::Handle(m.context), data_type: VX_TYPE_ENUM, value: channel.value@ }));
    assert(s[n0 + 7].call == CallModel::SetParameterByIndex { node, index: 1, reference: earlier((n0 + 6) as nat) });
    assert forall|j: int| n0 <= j < s.len() implies !binds_other(#[trigger] s[j].call, node, 1, earlier((n0 + 6) as nat)) by {}
    assert(bound_to(s, n0, node, 1, earlier((n0 + 6) as nat)));
}

/// Among `steps`, from step `from` on, parameter `index` of `node` becomes a
/// graph parameter of `graph`, and the object `reference` is bound to that
/// graph parameter.
pub open spec fn graph_parameter_bound(
    steps: Seq<StepModel>,
    from: int,
    graph: u64,
    node: Operand,
    index: u32,
    reference: u64,
) -> bool {
    exists|i: int|
        #![trigger steps[i]]
        from <= i && i + 2 < steps.len() && steps[i].call == (CallModel::GetParameterByIndex {
            node,
            index,
        }) && steps[i + 1].call == (CallModel::AddParameterToGraph {
            graph: Operand::Handle(graph),
            parameter: earlier(i as nat),
        }) && steps[i + 2].call == (CallModel::SetGraphParameterByIndex {
            graph: Operand::Handle(graph),
            graph_index: earlier((i + 1) as nat),
            reference: Operand::Handle(reference),
        })
}

/// A node that filters the output of another node: it runs `kernel`, and
/// its parameter 0 and the producing parameter are joined by a new virtual
/// image.
/// Failures go as `node_failures` says.
pub proof fn lemma_one_input_joins_producer(m: GraphModel, kernel: u32, src: NodeOutputImage)
    requires
        m.wf(),
        m.has_room(6),
        src.node.refers_below(m.steps.len()),
    ensures
        ({
            let last = m.append(one_input_steps(m, kernel, &src));
            let node = earlier(m.steps.len() + 1);
            let n0 = m.steps.len() as int;
            &&& runs_kernel(last.steps, node, m.handle, m.context, kernel)
            &&& node_failures(last.steps, n0)
            &&& joined_by_virtual_image(
                last.steps,
                n0,
                m.handle,
                src.node,
                src.param_index as u32,
                node,
                0,
            )
        }),
{
    let last = m.append(one_input_steps(m, kernel, &src));
    let s = last.steps;
    let node = earlier(m.steps.len() + 1);
    let n0 = m.steps.len() as int;
    let v = earlier((n0 + 2) as nat);
    let si = src.param_index as u32;
    assert(made_by(s, node, CallModel::CreateGenericNode { graph: Operand::Handle(m.handle), kernel: earlier(n0 as nat) }));
    assert(made_by(s, earlier(n0 as nat), CallModel::GetKernelByEnum { context: Operand::Handle(m.context), kernel }));
    assert(made_by(s, v, CallModel::CreateVirtualImage { graph: Operand::Handle(m.handle), width: 0, height: 0, format: VX_DF_IMAGE_VIRT }));
    assert(s[n0 + 3].call == CallModel::SetParameterByIndex { node: src.node, index: si, reference: v });
    assert(s[n0 + 4].call == CallModel::SetParameterByIndex { node, index: 0, reference: v });
    assert forall|j: int| n0 <= j < s.len() implies !binds_other(#[trigger] s[j].call, src.node, si, v) by {}
    assert forall|j: int| n0 <= j < s.len() implies !binds_other(#[trigger] s[j].call, node, 0, v) by {}
    assert(bound_to(s, n0, src.node, si, v));
    assert(bound_to(s, n0, node, 0, v));
}

/// A magnitude node: it runs the magnitude kernel; its parameter 0 is
/// joined to the producer of the x gradient and its parameter 1 to the
/// producer of the y gradient, each by a new virtual image.
/// Failures go as `node_failures` says.
pub proof fn lemma_magnitude_joins_gradients(m: GraphModel, grad_x: NodeOutputImage, grad_y: NodeOutputImage)
    requires
        m.wf(),
        m.has_room(10),
        grad_x.node.refers_below(m.steps.len()),
        grad_y.node.refers_below(m.steps.len()),
        grad_x.node != grad_y.node || grad_x.param_index as u32 != grad_y.param_index as u32,
    ensures
        ({
            let last = m.append(magnitude_steps(m, &grad_x, &grad_y));
            let node = earlier(m.steps.len() + 1);
            let n0 = m.steps.len() as int;
            &&& runs_kernel(last.steps, node, m.handle, m.context, VX_KERNEL_MAGNITUDE)
            &&& node_failures(last.steps, n0)
            &&& joined_by_virtual_image(
                last.steps,
                n0,
                m.handle,
                grad_x.node,
                grad_x.param_index as u32,
                node,
                0,
            )
            &&& joined_by_virtual_image(
                last.steps,
                n0,
                m.handle,
                grad_y.node,
                grad_y.param_index as u32,
                node,
                1,
            )
        }),
{
    let last = m.append(magnitude_steps(m, &grad_x, &grad_y));
    let s = last.steps;
    let node = earlier(m.steps.len() + 1);
    let n0 = m.steps.len() as int;
    let vx = earlier((n0 + 2) as nat);
    let vy = earlier((n0 + 5) as nat);
    let xi = grad_x.param_index as u32;
    let yi = grad_y.param_index as u32;
    let virt = CallModel::CreateVirtualImage { graph: Operand::Handle(m.handle), width: 0, height: 0, format: VX_DF_IMAGE_VIRT };
    assert(made_by(s, node, CallModel::CreateGenericNode { graph: Operand::Handle(m.handle), kernel: earlier(n0 as nat) }));
    assert(made_by(s, earlier(n0 as nat), CallModel::GetKernelByEnum { context: Operand::Handle(m.context), kernel: VX_KERNEL_MAGNITUDE }));
    assert(made_by(s, vx, virt));
    assert(made_by(s, vy, virt));
    assert(s[n0 + 3].call == CallModel::SetParameterByIndex { node: grad_x.node, index: xi, reference: vx });
    assert(s[n0 + 4].call == CallModel::SetParameterByIndex { node, index: 0, reference: vx });
    assert(s[n0 + 6].call == CallModel::SetParameterByIndex { node: grad_y.node, index: yi, reference: vy });
    assert(s[n0 + 7].call == CallModel::SetParameterByIndex { node, index: 1, reference: vy });
    assert forall|j: int| n0 <= j < s.len() implies !binds_other(#[trigger] s[j].call, grad_x.node, xi, vx) by {}
    assert forall|j: int| n0 <= j < s.len() implies !binds_other(#[trigger] s[j].call, node, 0, vx) by {}
    assert forall|j: int| n0 <= j < s.len() implies !binds_other(#[trigger] s[j].call, grad_y.node, yi, vy) by {}
    assert forall|j: int| n0 <= j < s.len() implies !binds_other(#[trigger] s[j].call, node, 1, vy) by {}
    assert(bound_to(s, n0, grad_x.node, xi, vx));
    assert(bound_to(s, n0, node, 0, vx));
    assert(bound_to(s, n0, grad_y.node, yi, vy));
    assert(bound_to(s, n0, node, 1, vy));
}

/// Binding an output: parameter `index` of `node` becomes a graph parameter
/// of the graph, and `reference` is bound to it.
pub proof fn lemma_output_becomes_graph_parameter(m: GraphModel, node: Operand, index: usize, reference: u64)
    requires
        m.wf(),
        m.has_room(3),
    ensures
        graph_parameter_bound(
            m.append(output_steps(m, node, index, reference)).steps,
            m.steps.len() as int,
            m.handle,
            node,
            index as u32,
            reference,
        ),
{
    let s = m.append(output_steps(m, node, index, reference)).steps;
    let n0 = m.steps.len() as int;
    assert(s[n0].call == CallModel::GetParameterByIndex { node, index: index as u32 });
    assert(s[n0 + 1].call == CallModel::AddParameterToGraph { graph: Operand::Handle(m.handle), parameter: earlier(n0 as nat) });
    assert(s[n0 + 2].call == CallModel::SetGraphParameterByIndex { graph: Operand::Handle(m.handle), graph_index: earlier((n0 + 1) as nat), reference: Operand::Handle(reference) });
}

/// Parameter `a_index` of `a` and parameter `b_index` of `b` are bound,
/// from step `from` on, to the same object made by the call `create`, and
/// each to nothing else.
pub open spec fn joined_by(
    steps: Seq<StepModel>,
    from: int,
    create: CallModel<Operand>,
    a: Operand,
    a_index: u32,
    b: Operand,
    b_index: u32,
) -> bool {
    exists|k: int|
        #![trigger steps[k]]
        from <= k && made_by(steps, earlier(k as nat), create) && bound_to(
            steps,
            from,
            a,
            a_index,
            earlier(k as nat),
        ) && bound_to(steps, from, b, b_index, earlier(k as nat))
}

/// Feeding a scalar output of a node to parameter `index` of `node`: a new
/// virtual scalar of the output's type joins the two parameters; every
/// failure stops the program.
pub proof fn lemma_scalar_output_feeds(m: GraphModel, src: NodeOutputScalar, node: Operand, index: usize)
    requires
        m.wf(),
        m.has_room(3),
        src.node.refers_below(m.steps.len()),
        node.refers_below(m.steps.len()),
        src.node != node || src.param_index as u32 != index as u32,
    ensures
        ({
            let last = m.append(
                src.input_scalar_steps(m.handle, m.context, node, index, src.data_type, m.steps.len()),
            );
            let n0 = m.steps.len() as int;
            &&& joined_by(
                last.steps,
                n0,
                CallModel::CreateVirtualScalar { graph: Operand::Handle(m.handle), data_type: src.data_type },
                src.node,
                src.param_index as u32,
                node,
                index as u32,
            )
            &&& forall|j: int| n0 <= j < last.steps.len() ==> (#[trigger] last.steps[j]).on_failure is Abort
        }),
{
    let last = m.append(
        src.input_scalar_steps(m.handle, m.context, node, index, src.data_type, m.steps.len()),
    );
    let s = last.steps;
    let n0 = m.steps.len() as int;
    let v = earlier(n0 as nat);
    let si = src.param_index as u32;
    let ni = index as u32;
    assert(made_by(s, v, CallModel::CreateVirtualScalar { graph: Operand::Handle(m.handle), data_type: src.data_type }));
    assert(s[n0 + 1].call == CallModel::SetParameterByIndex { node: src.node, index: si, reference: v });
    assert(s[n0 + 2].call == CallModel::SetParameterByIndex { node, index: ni, reference: v });
    assert forall|j: int| n0 <= j < s.len() implies !binds_other(#[trigger] s[j].call, src.node, si, v) by {}
    assert forall|j: int| n0 <= j < s.len() implies !binds_other(#[trigger] s[j].call, node, ni, v) by {}
    assert(bound_to(s, n0, src.node, si, v));
    assert(bound_to(s, n0, node, ni, v));
}

/// Feeding an array output of a node to parameter `index` of `node`: a new
/// virtual array of the output's item type joins the two parameters; every
/// failure stops the program.
pub proof fn lemma_array_output_feeds(m: GraphModel, src: NodeOutputArray, node: Operand, index: usize)
    requires
        m.wf(),
        m.has_room(3),
        src.node.refers_below(m.steps.len()),
        node.refers_below(m.steps.len()),
        src.node != node || src.param_index as u32 != index as u32,
    ensures
        ({
            let last = m.append(
                src.input_array_steps(m.handle, node, index, src.item_type, m.steps.len()),
            );
            let n0 = m.steps.len() as int;
            &&& joined_by(
                last.steps,
                n0,
                CallModel::CreateVirtualArray { graph: Operand::Handle(m.handle), item_type: src.item_type, capacity: 0 },
                src.node,
                src.param_index as u32,
                node,
                index as u32,
            )
            &&& forall|j: int| n0 <= j < last.steps.len() ==> (#[trigger] last.steps[j]).on_failure is Abort
        }),
{
    let last = m.append(src.input_array_steps(m.handle, node, index, src.item_type, m.steps.len()));
    let s = last.steps;
    let n0 = m.steps.len() as int;
    let v = earlier(n0 as nat);
    let si = src.param_index as u32;
    let ni = index as u32;
    assert(made_by(s, v, CallModel::CreateVirtualArray { graph: Operand::Handle(m.handle), item_type: src.item_type, capacity: 0 }));
    assert(s[n0 + 1].call == CallModel::SetParameterByIndex { node: src.node, index: si, reference: v });
    assert(s[n0 + 2].call == CallModel::SetParameterByIndex { node, index: ni, reference: v });
    assert forall|j: int| n0 <= j < s.len() implies !binds_other(#[trigger] s[j].call, src.node, si, v) by {}
    assert forall|j: int| n0 <= j < s.len() implies !binds_other(#[trigger] s[j].call, node, ni, v) by {}
    assert(bound_to(s, n0, src.node, si, v));
    assert(bound_to(s, n0, node, ni, v));
}

/// Feeding an image that enters the graph to parameter `index` of `node`:
/// the parameter becomes a graph parameter with the image bound to it, the
/// image is bound to the parameter itself, and every failure stops the
/// program.
pub proof fn lemma_graph_input_feeds(m: GraphModel, image: u64, node: Operand, index: usize)
    requires
        m.wf(),
        m.has_room(4),
    ensures
        ({
            let input = GraphInput { image: Image { ptr: image } };
            let last = m.append(input.input_image_steps(m.handle, m.context, node, index, m.steps.len()));
            let n0 = m.steps.len() as int;
            &&& graph_parameter_bound(last.steps, n0, m.handle, node, index as u32, image)
            &&& bound_to(last.steps, n0, node, index as u32, Operand::Handle(image))
            &&& forall|j: int| n0 <= j < last.steps.len() ==> (#[trigger] last.steps[j]).on_failure is Abort
        }),
{
    let input = GraphInput { image: Image { ptr: image } };
    let s = m.append(input.input_image_steps(m.handle, m.context, node, index, m.steps.len())).steps;
    let n0 = m.steps.len() as int;
    let ni = index as u32;
    assert(s[n0].call == CallModel::GetParameterByIndex { node, index: ni });
    assert(s[n0 + 1].call == CallModel::AddParameterToGraph { graph: Operand::Handle(m.handle), parameter: earlier(n0 as nat) });
    assert(s[n0 + 2].call == CallModel::SetGraphParameterByIndex { graph: Operand::Handle(m.handle), graph_index: earlier((n0 + 1) as nat), reference: Operand::Handle(image) });
    assert(s[n0 + 3].call == CallModel::SetParameterByIndex { node, index: ni, reference: Operand::Handle(image) });
    assert forall|j: int| n0 <= j < s.len() implies !binds_other(#[trigger] s[j].call, node, ni, Operand::Handle(image)) by {}
}

/// Feeding a scalar value to parameter `index` of `node`: a scalar of type
/// `data_type` holding the value's bytes is created in the context and
/// bound to the parameter, and every failure stops the program.
pub proof fn lemma_scalar_value_feeds(m: GraphModel, value: ScalarValue, node: Operand, index: usize, data_type: u32)
    requires
        m.wf(),
        m.has_room(2),
    ensures
        ({
            let last = m.append(value.input_scalar_steps(m.handle, m.context, node, index, data_type, m.steps.len()));
            let n0 = m.steps.len() as int;
            &&& bound_to_scalar(last.steps, n0, node, index as u32, m.context, data_type, value.value@)
            &&& forall|j: int| n0 <= j < last.steps.len() ==> (#[trigger] last.steps[j]).on_failure is Abort
        }),
{
    let s = m.append(value.input_scalar_steps(m.handle, m.context, node, index, data_type, m.steps.len())).steps;
    let n0 = m.steps.len() as int;
    let ni = index as u32;
    let v = earlier(n0 as nat);
    assert(made_by(s, v, CallModel::CreateScalar { context: Operand::Handle(m.context), data_type, value: value.value@ }));
    assert(s[n0 + 1].call == CallModel::SetParameterByIndex { node, index: ni, reference: v });
    assert forall|j: int| n0 <= j < s.len() implies !binds_other(#[trigger] s[j].call, node, ni, v) by {}
    assert(bound_to(s, n0, node, ni, v));
}

} // verus!
