//! The operations that add nodes to a graph, bind its parameters, verify it
//! and run it.
use vstd::prelude::*;

use crate::call::{Call, CallModel, OnFailure, Operand, StepModel};
use crate::consts::{
    VX_DF_IMAGE_VIRT, VX_KERNEL_CHANNEL_EXTRACT, VX_KERNEL_GAUSSIAN_3x3, VX_KERNEL_HARRIS_CORNERS,
    VX_KERNEL_MAGNITUDE, VX_KERNEL_MEDIAN_3x3, VX_KERNEL_SOBEL_3x3, VX_TYPE_ENUM, VX_TYPE_FLOAT32,
    VX_TYPE_INT32, VX_TYPE_KEYPOINT, VX_TYPE_SIZE,
};
use crate::call::Reply;
use crate::consts::VX_SUCCESS;
use crate::error::{convert_error, ErrorKind};
use crate::graph::{lemma_append_append, Graph, GraphModel};
use crate::inputs::{
    GraphInput, InputImage, InputScalar, NodeOutputArray, NodeOutputImage, NodeOutputScalar,
};
use crate::objects::{Array, Context, Image, Kernel, Node};
use crate::ops::{earlier, step};

verus! {

/// The two steps that look up kernel `kernel` and create a node running it.
pub open spec fn kernel_node_steps(m: GraphModel, kernel: u32) -> Seq<StepModel> {
    seq![
        step(
            Call::GetKernelByEnum { context: Operand::Handle(m.context), kernel },
            OnFailure::Propagate,
        ),
        step(
            Call::CreateGenericNode {
                graph: Operand::Handle(m.handle),
                kernel: earlier(m.steps.len()),
            },
            OnFailure::Propagate,
        ),
    ]
}

/// The node an operation creates when it starts on a graph in state `m`.
pub open spec fn new_node(m: GraphModel) -> Operand {
    earlier(m.steps.len() + 1)
}

/// The steps of an operation that runs `kernel` on one image input bound to
/// parameter 0.
pub open spec fn one_input_steps<I: InputImage>(m: GraphModel, kernel: u32, input: &I) -> Seq<StepModel> {
    kernel_node_steps(m, kernel) + input.input_image_steps(
        m.handle,
        m.context,
        new_node(m),
        0,
        m.steps.len() + 2,
    )
}

/// The steps of `magnitude`.
pub open spec fn magnitude_steps<X: InputImage, Y: InputImage>(
    m: GraphModel,
    grad_x: &X,
    grad_y: &Y,
) -> Seq<StepModel> {
    let sx = grad_x.input_image_steps(m.handle, m.context, new_node(m), 0, m.steps.len() + 2);
    let sy = grad_y.input_image_steps(
        m.handle,
        m.context,
        new_node(m),
        1,
        m.steps.len() + 2 + sx.len(),
    );
    kernel_node_steps(m, VX_KERNEL_MAGNITUDE) + sx + sy
}

/// The steps of `channel_extract`.
pub open spec fn channel_extract_steps<I: InputImage, S: InputScalar>(
    m: GraphModel,
    input: &I,
    channel: &S,
) -> Seq<StepModel> {
    let si = input.input_image_steps(m.handle, m.context, new_node(m), 0, m.steps.len() + 2);
    let sc = channel.input_scalar_steps(
        m.handle,
        m.context,
        new_node(m),
        1,
        VX_TYPE_ENUM,
        m.steps.len() + 2 + si.len(),
    );
    kernel_node_steps(m, VX_KERNEL_CHANNEL_EXTRACT) + si + sc
}

/// The steps that bind a scalar input to parameter `index` of the node
/// created on a graph in state `m`, placed from step `base` on.
pub open spec fn scalar_steps<S: InputScalar>(
    m: GraphModel,
    s: &S,
    index: usize,
    data_type: u32,
    base: nat,
) -> Seq<StepModel> {
    s.input_scalar_steps(m.handle, m.context, new_node(m), index, data_type, base)
}

/// The steps of `harris_corners`.
pub open spec fn harris_corners_steps<
    I: InputImage,
    A: InputScalar,
    B: InputScalar,
    C: InputScalar,
    D: InputScalar,
    E: InputScalar,
>(
    m: GraphModel,
    input: &I,
    strength_thresh: &A,
    min_distance: &B,
    sensitivity: &C,
    gradient_size: &D,
    block_size: &E,
) -> Seq<StepModel> {
    let b0 = m.steps.len() + 2;
    let s0 = input.input_image_steps(m.handle, m.context, new_node(m), 0, b0);
    let s1 = scalar_steps(m, strength_thresh, 1, VX_TYPE_FLOAT32, b0 + s0.len());
    let s2 = scalar_steps(m, min_distance, 2, VX_TYPE_FLOAT32, b0 + s0.len() + s1.len());
    let s3 = scalar_steps(
        m,
        sensitivity,
        3,
        VX_TYPE_FLOAT32,
        b0 + s0.len() + s1.len() + s2.len(),
    );
    let s4 = scalar_steps(
        m,
        gradient_size,
        4,
        VX_TYPE_INT32,
        b0 + s0.len() + s1.len() + s2.len() + s3.len(),
    );
    let s5 = scalar_steps(
        m,
        block_size,
        5,
        VX_TYPE_INT32,
        b0 + s0.len() + s1.len() + s2.len() + s3.len() + s4.len(),
    );
    kernel_node_steps(m, VX_KERNEL_HARRIS_CORNERS) + s0 + s1 + s2 + s3 + s4 + s5
}

/// The steps that make parameter `index` of `node` a graph parameter and
/// bind `reference` to it.
pub open spec fn output_steps(m: GraphModel, node: Operand, index: usize, reference: u64) -> Seq<StepModel> {
    let b = m.steps.len();
    seq![
        step(Call::GetParameterByIndex { node, index: index as u32 }, OnFailure::Abort),
        step(
            Call::AddParameterToGraph { graph: Operand::Handle(m.handle), parameter: earlier(b) },
            OnFailure::Abort,
        ),
        step(
            Call::SetGraphParameterByIndex {
                graph: Operand::Handle(m.handle),
                graph_index: earlier(b + 1),
                reference: Operand::Handle(reference),
            },
            OnFailure::Abort,
        ),
    ]
}

/// The steps that wire a Gaussian, a Sobel and a magnitude node, running the
/// kernels `k0`, `k1` and `k2`, through three virtual images: the Gaussian's
/// input and the magnitude become graph parameters.
pub open spec fn edge_graph_steps(m: GraphModel, k0: u64, k1: u64, k2: u64) -> Seq<StepModel> {
    let b = m.steps.len();
    let g = Operand::Handle(m.handle);
    let virt = Call::CreateVirtualImage { graph: g, width: 0, height: 0, format: VX_DF_IMAGE_VIRT };
    let set = |node: nat, index: u32, image: nat|
        step(
            Call::SetParameterByIndex { node: earlier(b + node), index, reference: earlier(b + image) },
            OnFailure::Abort,
        );
    seq![
        step(virt, OnFailure::Propagate),
        step(virt, OnFailure::Propagate),
        step(virt, OnFailure::Propagate),
        step(Call::CreateGenericNode { graph: g, kernel: Operand::Handle(k0) }, OnFailure::Propagate),
        step(Call::CreateGenericNode { graph: g, kernel: Operand::Handle(k1) }, OnFailure::Propagate),
        step(Call::CreateGenericNode { graph: g, kernel: Operand::Handle(k2) }, OnFailure::Propagate),
        step(Call::GetParameterByIndex { node: earlier(b + 3), index: 0 }, OnFailure::Propagate),
        step(Call::GetParameterByIndex { node: earlier(b + 5), index: 2 }, OnFailure::Propagate),
        step(Call::AddParameterToGraph { graph: g, parameter: earlier(b + 6) }, OnFailure::Abort),
        step(Call::AddParameterToGraph { graph: g, parameter: earlier(b + 7) }, OnFailure::Abort),
        set(3, 1, 0),
        set(4, 0, 0),
        set(4, 1, 1),
        set(4, 2, 2),
        set(5, 0, 1),
        set(5, 1, 2),
    ]
}

/// Plans the edge-detection graph of `edge_graph_steps` on `graph`, with the
/// kernels looked up beforehand.
pub fn edge_graph_factory(graph: &mut Graph, gaussian: &Kernel, sobel: &Kernel, magnitude: &Kernel)
    requires
        old(graph)@.wf(),
        old(graph)@.has_room(16),
    ensures
        final(graph)@ == old(graph)@.append(
            edge_graph_steps(old(graph)@, gaussian.ptr, sobel.ptr, magnitude.ptr),
        ),
        final(graph)@.wf(),
{
    let ghost g0 = graph@;
    let v0 = graph.create_virtual_image(0, 0, VX_DF_IMAGE_VIRT, OnFailure::Propagate);
    let v1 = graph.create_virtual_image(0, 0, VX_DF_IMAGE_VIRT, OnFailure::Propagate);
    let v2 = graph.create_virtual_image(0, 0, VX_DF_IMAGE_VIRT, OnFailure::Propagate);
    let n0 = graph.create_generic_node(Operand::Handle(gaussian.ptr), OnFailure::Propagate);
    let n1 = graph.create_generic_node(Operand::Handle(sobel.ptr), OnFailure::Propagate);
    let n2 = graph.create_generic_node(Operand::Handle(magnitude.ptr), OnFailure::Propagate);
    let p0 = n0.get_parameter_by_index(graph, 0, OnFailure::Propagate);
    let p1 = n2.get_parameter_by_index(graph, 2, OnFailure::Propagate);
    graph.add_parameter(&p0, OnFailure::Abort);
    graph.add_parameter(&p1, OnFailure::Abort);
    n0.set_parameter_by_index(graph, 1, v0, OnFailure::Abort);
    n1.set_parameter_by_index(graph, 0, v0, OnFailure::Abort);
    n1.set_parameter_by_index(graph, 1, v1, OnFailure::Abort);
    n1.set_parameter_by_index(graph, 2, v2, OnFailure::Abort);
    n2.set_parameter_by_index(graph, 0, v1, OnFailure::Abort);
    n2.set_parameter_by_index(graph, 1, v2, OnFailure::Abort);
    proof {
        let s = edge_graph_steps(g0, gaussian.ptr, sobel.ptr, magnitude.ptr);
        assert(graph@.steps =~= g0.steps + s);
    }
}

/// The calls made before the edge-detection graph is planned, in order: the
/// Gaussian, Sobel and magnitude kernels are looked up, then the graph is
/// created.
pub open spec fn edge_prelude_call(context: u64, i: nat) -> CallModel<u64> {
    if i == 0 {
        Call::GetKernelByEnum { context, kernel: VX_KERNEL_GAUSSIAN_3x3 }
    } else if i == 1 {
        Call::GetKernelByEnum { context, kernel: VX_KERNEL_SOBEL_3x3 }
    } else if i == 2 {
        Call::GetKernelByEnum { context, kernel: VX_KERNEL_MAGNITUDE }
    } else {
        Call::CreateGraph { context }
    }
}

/// Some reply among the first four, one per call of `edge_prelude_call`,
/// reports a failure.
pub open spec fn edge_prelude_failed(replies: Seq<Reply>) -> bool {
    exists|i: int| 0 <= i < replies.len() && i < 4 && (#[trigger] replies[i]).status != VX_SUCCESS
}

/// Before the edge-detection graph is planned, the Gaussian, then the
/// Sobel, then the magnitude kernel is looked up in the context, and the
/// graph is created in it last.
pub proof fn lemma_edge_prelude_order(context: u64)
    ensures
        edge_prelude_call(context, 0) == (CallModel::GetKernelByEnum {
            context,
            kernel: VX_KERNEL_GAUSSIAN_3x3,
        }),
        edge_prelude_call(context, 1) == (CallModel::GetKernelByEnum {
            context,
            kernel: VX_KERNEL_SOBEL_3x3,
        }),
        edge_prelude_call(context, 2) == (CallModel::GetKernelByEnum {
            context,
            kernel: VX_KERNEL_MAGNITUDE,
        }),
        edge_prelude_call(context, 3) == (CallModel::CreateGraph { context }),
{
}

/// What comes before planning the edge-detection graph.
pub enum EdgePrelude {
    /// Perform this call and add its reply to the replies.
    Perform(Call<u64, Vec<u8>>),
    /// A call failed; building the graph returns this error.
    Failed(ErrorKind),
    /// The new graph and the Gaussian, Sobel and magnitude kernels.
    Ready(Graph, Kernel, Kernel, Kernel),
}

/// The next thing to do before the edge-detection graph of `context` can be
/// planned, given the replies to the calls made so far: the next call of
/// `edge_prelude_call`, the error of the first failed call (the calls
/// after it are not made), or, once all four succeeded, the graph and the
/// kernels they handed back.
pub fn edge_graph_prelude(context: &Context, replies: &Vec<Reply>) -> (r: EdgePrelude)
    ensures
        r is Failed <==> edge_prelude_failed(replies@),
        r is Perform <==> !edge_prelude_failed(replies@) && replies.len() < 4,
        r matches EdgePrelude::Perform(c) ==> c@ == edge_prelude_call(context.ptr, replies.len() as nat),
        r matches EdgePrelude::Failed(e) ==> e == ErrorKind::ErrorNotImplemented,
        r matches EdgePrelude::Ready(g, k0, k1, k2) ==> {
            &&& replies.len() >= 4
            &&& k0.ptr == replies[0].value
            &&& k1.ptr == replies[1].value
            &&& k2.ptr == replies[2].value
            &&& g@ == (GraphModel {
                handle: replies[3].value,
                context: context.ptr,
                param_num: 0,
                steps: Seq::empty(),
                values: Seq::empty(),
                dropped: Seq::empty(),
            })
            &&& g@.wf()
        },
{
    let mut i: usize = 0;
    while i < replies.len() && i < 4
        invariant
            i <= replies.len(),
            i <= 4,
            forall|j: int| 0 <= j < i ==> (#[trigger] replies@[j]).status == VX_SUCCESS,
        decreases 4 - i,
    {
        if replies[i].status != VX_SUCCESS {
            return EdgePrelude::Failed(convert_error(replies[i].status));
        }
        i = i + 1;
    }
    let n = replies.len();
    if n == 0 {
        EdgePrelude::Perform(context.get_kernel_by_enum(VX_KERNEL_GAUSSIAN_3x3))
    } else if n == 1 {
        EdgePrelude::Perform(context.get_kernel_by_enum(VX_KERNEL_SOBEL_3x3))
    } else if n == 2 {
        EdgePrelude::Perform(context.get_kernel_by_enum(VX_KERNEL_MAGNITUDE))
    } else if n == 3 {
        EdgePrelude::Perform(Call::CreateGraph { context: context.ptr })
    } else {
        EdgePrelude::Ready(
            Graph::new(replies[3].value, context.ptr),
            Kernel { ptr: replies[0].value },
            Kernel { ptr: replies[1].value },
            Kernel { ptr: replies[2].value },
        )
    }
}

impl Graph {
    /// Plans looking up `kernel` and creating a node that runs it.
    fn kernel_node(&mut self, kernel: u32) -> (node: Node)
        requires
            old(self)@.wf(),
            old(self)@.has_room(2),
        ensures
            final(self)@ == old(self)@.append(kernel_node_steps(old(self)@, kernel)),
            final(self)@.wf(),
            node.ptr == new_node(old(self)@),
    {
        let ghost g0 = self@;
        let c = Operand::Handle(self.context());
        let k = self.plan(Call::GetKernelByEnum { context: c, kernel }, OnFailure::Propagate);
        let node = self.create_generic_node(k, OnFailure::Propagate);
        proof {
            let s = kernel_node_steps(g0, kernel);
            lemma_append_append(g0, seq![s[0]], seq![s[1]]);
            assert(seq![s[0]] + seq![s[1]] =~= s);
        }
        node
    }

    /// Plans a node that runs `kernel` with `input` bound to parameter 0.
    fn one_input_node<I: InputImage>(&mut self, kernel: u32, input: &I) -> (node: Node)
        requires
            old(self)@.wf(),
            old(self)@.has_room(6),
            input.image_live(old(self)@.steps.len(), old(self)@.dropped),
        ensures
            final(self)@ == old(self)@.append(one_input_steps(old(self)@, kernel, input)),
            final(self)@.wf(),
            node.ptr == new_node(old(self)@),
    {
        let ghost g0 = self@;
        let node = self.kernel_node(kernel);
        proof {
            input.lemma_image_live_grows(g0.steps.len(), self@.steps.len(), g0.dropped);
        }
        input.set_input_image(self, &node, 0);
        proof {
            lemma_append_append(
                g0,
                kernel_node_steps(g0, kernel),
                input.input_image_steps(g0.handle, g0.context, new_node(g0), 0, g0.steps.len() + 2),
            );
        }
        node
    }

    /// Plans a 3x3 Gaussian blur of `input`; the blurred image is parameter 1
    /// of the new node.
    pub fn gaussian_3x3<I: InputImage>(&mut self, input: &I) -> (out: NodeOutputImage)
        requires
            old(self)@.wf(),
            old(self)@.has_room(6),
            input.image_live(old(self)@.steps.len(), old(self)@.dropped),
        ensures
            final(self)@ == old(self)@.append(
                one_input_steps(old(self)@, VX_KERNEL_GAUSSIAN_3x3, input),
            ),
            final(self)@.wf(),
            out == (NodeOutputImage { node: new_node(old(self)@), param_index: 1 }),
    {
        let node = self.one_input_node(VX_KERNEL_GAUSSIAN_3x3, input);
        NodeOutputImage { node: node.ptr, param_index: 1 }
    }

    /// Plans a 3x3 Sobel filter of `input`; the x and y gradients are
    /// parameters 1 and 2 of the new node.
    pub fn sobel_3x3<I: InputImage>(&mut self, input: &I) -> (out: (
        NodeOutputImage,
        NodeOutputImage,
    ))
        requires
            old(self)@.wf(),
            old(self)@.has_room(6),
            input.image_live(old(self)@.steps.len(), old(self)@.dropped),
        ensures
            final(self)@ == old(self)@.append(
                one_input_steps(old(self)@, VX_KERNEL_SOBEL_3x3, input),
            ),
            final(self)@.wf(),
            out.0 == (NodeOutputImage { node: new_node(old(self)@), param_index: 1 }),
            out.1 == (NodeOutputImage { node: new_node(old(self)@), param_index: 2 }),
    {
        let node = self.one_input_node(VX_KERNEL_SOBEL_3x3, input);
        (
            NodeOutputImage { node: node.ptr, param_index: 1 },
            NodeOutputImage { node: node.ptr, param_index: 2 },
        )
    }

    /// Plans a 3x3 median filter of `input`; the result is parameter 1 of the
    /// new node.
    pub fn median_3x3<I: InputImage>(&mut self, input: &I) -> (out: NodeOutputImage)
        requires
            old(self)@.wf(),
            old(self)@.has_room(6),
            input.image_live(old(self)@.steps.len(), old(self)@.dropped),
        ensures
            final(self)@ == old(self)@.append(
                one_input_steps(old(self)@, VX_KERNEL_MEDIAN_3x3, input),
            ),
            final(self)@.wf(),
            out == (NodeOutputImage { node: new_node(old(self)@), param_index: 1 }),
    {
        let node = self.one_input_node(VX_KERNEL_MEDIAN_3x3, input);
        NodeOutputImage { node: node.ptr, param_index: 1 }
    }

    /// Plans the gradient magnitude of `grad_x` (parameter 0) and `grad_y`
    /// (parameter 1); the magnitude is parameter 2 of the new node.
    pub fn magnitude<X: InputImage, Y: InputImage>(&mut self, grad_x: &X, grad_y: &Y) -> (out:
        NodeOutputImage)
        requires
            old(self)@.wf(),
            old(self)@.has_room(10),
            grad_x.image_live(old(self)@.steps.len(), old(self)@.dropped),
            grad_y.image_live(old(self)@.steps.len(), old(self)@.dropped),
        ensures
            final(self)@ == old(self)@.append(magnitude_steps(old(self)@, grad_x, grad_y)),
            final(self)@.wf(),
            out == (NodeOutputImage { node: new_node(old(self)@), param_index: 2 }),
    {
        let ghost g0 = self@;
        let node = self.kernel_node(VX_KERNEL_MAGNITUDE);
        let ghost g1 = self@;
        proof {
            grad_x.lemma_image_live_grows(g0.steps.len(), g1.steps.len(), g0.dropped);
        }
        grad_x.set_input_image(self, &node, 0);
        let ghost g2 = self@;
        proof {
            grad_y.lemma_image_live_grows(g0.steps.len(), g2.steps.len(), g0.dropped);
        }
        grad_y.set_input_image(self, &node, 1);
        proof {
            let head = kernel_node_steps(g0, VX_KERNEL_MAGNITUDE);
            let sx = grad_x.input_image_steps(
                g0.handle,
                g0.context,
                new_node(g0),
                0,
                g0.steps.len() + 2,
            );
            let sy = grad_y.input_image_steps(
                g0.handle,
                g0.context,
                new_node(g0),
                1,
                g0.steps.len() + 2 + sx.len(),
            );
            lemma_append_append(g0, head, sx);
            lemma_append_append(g0, head + sx, sy);
        }
        NodeOutputImage { node: node.ptr, param_index: 2 }
    }

    /// Plans extracting channel `channel` (bound as a `VX_TYPE_ENUM` scalar
    /// to parameter 1) of `input` (parameter 0); the channel is parameter 2
    /// of the new node.
    pub fn channel_extract<I: InputImage, S: InputScalar>(&mut self, input: &I, channel: &S) -> (out:
        NodeOutputImage)
        requires
            old(self)@.wf(),
            old(self)@.has_room(9),
            input.image_live(old(self)@.steps.len(), old(self)@.dropped),
            channel.scalar_live(old(self)@.steps.len(), old(self)@.dropped),
            channel.accepts(VX_TYPE_ENUM),
        ensures
            final(self)@ == old(self)@.append(channel_extract_steps(old(self)@, input, channel)),
            final(self)@.wf(),
            out == (NodeOutputImage { node: new_node(old(self)@), param_index: 2 }),
    {
        let ghost g0 = self@;
        let node = self.kernel_node(VX_KERNEL_CHANNEL_EXTRACT);
        let ghost g1 = self@;
        proof {
            input.lemma_image_live_grows(g0.steps.len(), g1.steps.len(), g0.dropped);
        }
        input.set_input_image(self, &node, 0);
        let ghost g2 = self@;
        proof {
            channel.lemma_scalar_live_grows(g0.steps.len(), g2.steps.len(), g0.dropped);
        }
        channel.set_input_scalar(self, &node, 1, VX_TYPE_ENUM);
        proof {
            let head = kernel_node_steps(g0, VX_KERNEL_CHANNEL_EXTRACT);
            let si = input.input_image_steps(
                g0.handle,
                g0.context,
                new_node(g0),
                0,
                g0.steps.len() + 2,
            );
            let sc = channel.input_scalar_steps(
                g0.handle,
                g0.context,
                new_node(g0),
                1,
                VX_TYPE_ENUM,
                g0.steps.len() + 2 + si.len(),
            );
            lemma_append_append(g0, head, si);
            lemma_append_append(g0, head + si, sc);
        }
        NodeOutputImage { node: node.ptr, param_index: 2 }
    }

    /// Plans Harris corner detection on `input` (parameter 0), with the
    /// strength threshold, minimum distance and sensitivity bound as
    /// `VX_TYPE_FLOAT32` scalars (parameters 1 to 3) and the gradient and
    /// block sizes as `VX_TYPE_INT32` scalars (parameters 4 and 5). The
    /// corners are the `VX_TYPE_KEYPOINT` array of parameter 6, their number
    /// the `VX_TYPE_SIZE` scalar of parameter 7 of the new node.
    pub fn harris_corners<
        I: InputImage,
        A: InputScalar,
        B: InputScalar,
        C: InputScalar,
        D: InputScalar,
        E: InputScalar,
    >(
        &mut self,
        input: &I,
        strength_thresh: &A,
        min_distance: &B,
        sensitivity: &C,
        gradient_size: &D,
        block_size: &E,
    ) -> (out: (NodeOutputArray, NodeOutputScalar))
        requires
            old(self)@.wf(),
            old(self)@.has_room(21),
            input.image_live(old(self)@.steps.len(), old(self)@.dropped),
            strength_thresh.scalar_live(old(self)@.steps.len(), old(self)@.dropped),
            min_distance.scalar_live(old(self)@.steps.len(), old(self)@.dropped),
            sensitivity.scalar_live(old(self)@.steps.len(), old(self)@.dropped),
            gradient_size.scalar_live(old(self)@.steps.len(), old(self)@.dropped),
            block_size.scalar_live(old(self)@.steps.len(), old(self)@.dropped),
            strength_thresh.accepts(VX_TYPE_FLOAT32),
            min_distance.accepts(VX_TYPE_FLOAT32),
            sensitivity.accepts(VX_TYPE_FLOAT32),
            gradient_size.accepts(VX_TYPE_INT32),
            block_size.accepts(VX_TYPE_INT32),
        ensures
            final(self)@ == old(self)@.append(
                harris_corners_steps(
                    old(self)@,
                    input,
                    strength_thresh,
                    min_distance,
                    sensitivity,
                    gradient_size,
                    block_size,
                ),
            ),
            final(self)@.wf(),
            out.0 == (NodeOutputArray {
                node: new_node(old(self)@),
                param_index: 6,
                item_type: VX_TYPE_KEYPOINT,
            }),
            out.1 == (NodeOutputScalar {
                node: new_node(old(self)@),
                param_index: 7,
                data_type: VX_TYPE_SIZE,
            }),
    {
        let ghost g0 = self@;
        let node = self.kernel_node(VX_KERNEL_HARRIS_CORNERS);
        let ghost g1 = self@;
        proof {
            input.lemma_image_live_grows(g0.steps.len(), g1.steps.len(), g0.dropped);
        }
        input.set_input_image(self, &node, 0);
        let ghost g2 = self@;
        proof {
            strength_thresh.lemma_scalar_live_grows(g0.steps.len(), g2.steps.len(), g0.dropped);
        }
        strength_thresh.set_input_scalar(self, &node, 1, VX_TYPE_FLOAT32);
        let ghost g3 = self@;
        proof {
            min_distance.lemma_scalar_live_grows(g0.steps.len(), g3.steps.len(), g0.dropped);
        }
        min_distance.set_input_scalar(self, &node, 2, VX_TYPE_FLOAT32);
        let ghost g4 = self@;
        proof {
            sensitivity.lemma_scalar_live_grows(g0.steps.len(), g4.steps.len(), g0.dropped);
        }
        sensitivity.set_input_scalar(self, &node, 3, VX_TYPE_FLOAT32);
        let ghost g5 = self@;
        proof {
            gradient_size.lemma_scalar_live_grows(g0.steps.len(), g5.steps.len(), g0.dropped);
        }
        gradient_size.set_input_scalar(self, &node, 4, VX_TYPE_INT32);
        let ghost g6 = self@;
        proof {
            block_size.lemma_scalar_live_grows(g0.steps.len(), g6.steps.len(), g0.dropped);
        }
        block_size.set_input_scalar(self, &node, 5, VX_TYPE_INT32);
        proof {
            let b0 = g0.steps.len() + 2;
            let head = kernel_node_steps(g0, VX_KERNEL_HARRIS_CORNERS);
            let s0 = input.input_image_steps(g0.handle, g0.context, new_node(g0), 0, b0);
            let s1 = scalar_steps(g0, strength_thresh, 1, VX_TYPE_FLOAT32, b0 + s0.len());
            let s2 = scalar_steps(g0, min_distance, 2, VX_TYPE_FLOAT32, b0 + s0.len() + s1.len());
            let s3 = scalar_steps(
                g0,
                sensitivity,
                3,
                VX_TYPE_FLOAT32,
                b0 + s0.len() + s1.len() + s2.len(),
            );
            let s4 = scalar_steps(
                g0,
                gradient_size,
                4,
                VX_TYPE_INT32,
                b0 + s0.len() + s1.len() + s2.len() + s3.len(),
            );
            let s5 = scalar_steps(
                g0,
                block_size,
                5,
                VX_TYPE_INT32,
                b0 + s0.len() + s1.len() + s2.len() + s3.len() + s4.len(),
            );
            lemma_append_append(g0, head, s0);
            lemma_append_append(g0, head + s0, s1);
            lemma_append_append(g0, head + s0 + s1, s2);
            lemma_append_append(g0, head + s0 + s1 + s2, s3);
            lemma_append_append(g0, head + s0 + s1 + s2 + s3, s4);
            lemma_append_append(g0, head + s0 + s1 + s2 + s3 + s4, s5);
        }
        (
            NodeOutputArray { node: node.ptr, param_index: 6, item_type: VX_TYPE_KEYPOINT },
            NodeOutputScalar { node: node.ptr, param_index: 7, data_type: VX_TYPE_SIZE },
        )
    }

    /// An input of the graph that feeds `image` to the nodes it is given to.
    pub fn create_input(&self, image: Image) -> (r: Result<GraphInput, ErrorKind>)
        ensures
            r matches Ok(input) && input.image == image,
    {
        Ok(GraphInput { image })
    }

    /// Plans making parameter `index` of `node` a graph parameter bound to `reference`.
    fn bind_output(&mut self, node: Operand, index: usize, reference: u64)
        requires
            old(self)@.wf(),
            old(self)@.has_room(3),
            old(self)@.live(node),
        ensures
            final(self)@ == old(self)@.append(output_steps(old(self)@, node, index, reference)),
            final(self)@.wf(),
    {
        let ghost g0 = self@;
        let producer = Node { ptr: node };
        let param = producer.get_parameter_by_index(self, index as u32, OnFailure::Abort);
        let graph_index = self.add_parameter(&param, OnFailure::Abort);
        self.set_parameter_by_index(graph_index, Operand::Handle(reference), OnFailure::Abort);
        proof {
            let s = output_steps(g0, node, index, reference);
            lemma_append_append(g0, seq![s[0]], seq![s[1]]);
            lemma_append_append(g0, seq![s[0]] + seq![s[1]], seq![s[2]]);
            assert(seq![s[0]] + seq![s[1]] + seq![s[2]] =~= s);
        }
    }

    /// Plans making the image output `output` a graph parameter bound to `image`.
    pub fn set_output(&mut self, output: &NodeOutputImage, image: &Image)
        requires
            old(self)@.wf(),
            old(self)@.has_room(3),
            old(self)@.live(output.node),
        ensures
            final(self)@ == old(self)@.append(
                output_steps(old(self)@, output.node, output.param_index, image.ptr),
            ),
            final(self)@.wf(),
    {
        self.bind_output(output.node, output.param_index, image.ptr);
    }

    /// Plans making the array output `output` a graph parameter bound to `array`.
    pub fn set_output_array(&mut self, output: &NodeOutputArray, array: &Array)
        requires
            old(self)@.wf(),
            old(self)@.has_room(3),
            old(self)@.live(output.node),
        ensures
            final(self)@ == old(self)@.append(
                output_steps(old(self)@, output.node, output.param_index, array.ptr),
            ),
            final(self)@.wf(),
    {
        self.bind_output(output.node, output.param_index, array.ptr);
    }

    /// Plans verifying the graph; a failure is returned.
    pub fn verify(&mut self)
        requires
            old(self)@.wf(),
            old(self)@.has_room(1),
        ensures
            final(self)@ == old(self)@.append(
                seq![step(Call::VerifyGraph { graph: Operand::Handle(old(self)@.handle) }, OnFailure::Propagate)],
            ),
            final(self)@.wf(),
    {
        let g = Operand::Handle(self.handle());
        self.plan(Call::VerifyGraph { graph: g }, OnFailure::Propagate);
    }

    /// Plans processing the graph; a failure is returned.
    pub fn run(&mut self)
        requires
            old(self)@.wf(),
            old(self)@.has_room(1),
        ensures
            final(self)@ == old(self)@.append(
                seq![step(Call::ProcessGraph { graph: Operand::Handle(old(self)@.handle) }, OnFailure::Propagate)],
            ),
            final(self)@.wf(),
    {
        let g = Operand::Handle(self.handle());
        self.plan(Call::ProcessGraph { graph: g }, OnFailure::Propagate);
    }

    /// The call that queries attribute `attribute` of the graph, whose
    /// value takes `size` bytes; `answer_of` reads the reply.
    pub fn query(&self, attribute: u32, size: usize) -> (c: Call<u64, Vec<u8>>)
        ensures
            c@ == (CallModel::QueryGraph { graph: self@.handle, attribute, size }),
    {
        Call::QueryGraph { graph: self.handle(), attribute, size }
    }
}

} // verus!
