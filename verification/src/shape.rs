//! What a plan makes of a graph: its nodes, how their parameters are joined
//! and which of them become graph parameters, with objects named only by the
//! order in which they are created.
use vstd::prelude::*;

use crate::call::{Call, CallModel, OnFailure, Operand, StepModel};
use crate::consts::{
    VX_DF_IMAGE_VIRT, VX_KERNEL_GAUSSIAN_3x3, VX_KERNEL_MAGNITUDE, VX_KERNEL_SOBEL_3x3,
};
use crate::graph::GraphModel;
use crate::graph_ops::{edge_graph_steps, magnitude_steps, new_node, one_input_steps, output_steps};
use crate::inputs::{GraphInput, NodeOutputImage};
use crate::objects::Image;
use crate::ops::{earlier, step};

verus! {

/// The graph a plan builds. Nodes are numbered in the order they are
/// created; other objects are named by the step that creates them.
pub struct Shape {
    /// The kernel of each node.
    pub kernels: Seq<Operand>,
    /// The number of the node each node-creating step creates.
    pub node_at: Map<nat, nat>,
    /// The steps that create virtual images.
    pub virtual_images: Set<nat>,
    /// The node parameter, as (node, index), each parameter lookup names.
    pub params: Map<nat, (nat, u32)>,
    /// What each node parameter, as (node, index), is bound to.
    pub bound: Map<(nat, u32), Operand>,
    /// The node parameters that became graph parameters, in order.
    pub graph_params: Seq<(nat, u32)>,
}

pub open spec fn empty_shape() -> Shape {
    Shape {
        kernels: Seq::empty(),
        node_at: Map::empty(),
        virtual_images: Set::empty(),
        params: Map::empty(),
        bound: Map::empty(),
        graph_params: Seq::empty(),
    }
}

/// The shape after step `i`, planning `call`, is added.
pub open spec fn shape_step(s: Shape, i: nat, call: CallModel<Operand>) -> Shape {
    match call {
        Call::CreateGenericNode { kernel, .. } => Shape {
            kernels: s.kernels.push(kernel),
            node_at: s.node_at.insert(i, s.kernels.len()),
            ..s
        },
        Call::CreateVirtualImage { .. } => Shape {
            virtual_images: s.virtual_images.insert(i),
            ..s
        },
        Call::GetParameterByIndex { node: Operand::Earlier(n), index } => if s.node_at.contains_key(
            n as nat,
        ) {
            Shape { params: s.params.insert(i, (s.node_at[n as nat], index)), ..s }
        } else {
            s
        },
        Call::SetParameterByIndex { node: Operand::Earlier(n), index, reference } => if s.node_at.contains_key(
            n as nat,
        ) {
            Shape { bound: s.bound.insert((s.node_at[n as nat], index), reference), ..s }
        } else {
            s
        },
        Call::AddParameterToGraph { parameter: Operand::Earlier(p), .. } => if s.params.contains_key(
            p as nat,
        ) {
            Shape { graph_params: s.graph_params.push(s.params[p as nat]), ..s }
        } else {
            s
        },
        _ => s,
    }
}

/// The shape the first `k` steps of `plan` build, when the plan's first
/// step is step `base` of its graph.
pub open spec fn shape_of(plan: Seq<StepModel>, base: nat, k: nat) -> Shape
    decreases k,
{
    if k == 0 {
        empty_shape()
    } else {
        shape_step(shape_of(plan, base, (k - 1) as nat), (base + k - 1) as nat, plan[k - 1].call)
    }
}

/// Node parameters `a` and `b` are bound to the same virtual image.
pub open spec fn joined(s: Shape, a: (nat, u32), b: (nat, u32)) -> bool {
    &&& s.bound.contains_key(a)
    &&& s.bound.contains_key(b)
    &&& s.bound[a] == s.bound[b]
    &&& s.bound[a] matches Operand::Earlier(v) && s.virtual_images.contains(v as nat)
}

/// The steps planned from `m` on to reach `last`.
pub open spec fn plan_from(m: GraphModel, last: GraphModel) -> Seq<StepModel> {
    last.steps.subrange(m.steps.len() as int, last.steps.len() as int)
}

/// The state after planning, from `m`, the edge-detection pipeline: `image`
/// enters the graph, is blurred by a 3x3 Gaussian, differentiated by a 3x3
/// Sobel, the gradients' magnitude is taken and bound to `output`.
pub open spec fn edge_pipeline(m: GraphModel, image: u64, output: u64) -> GraphModel {
    let input = GraphInput { image: Image { ptr: image } };
    let g1 = m.append(one_input_steps(m, VX_KERNEL_GAUSSIAN_3x3, &input));
    let gau = NodeOutputImage { node: new_node(m), param_index: 1 };
    let g2 = g1.append(one_input_steps(g1, VX_KERNEL_SOBEL_3x3, &gau));
    let sx = NodeOutputImage { node: new_node(g1), param_index: 1 };
    let sy = NodeOutputImage { node: new_node(g1), param_index: 2 };
    let g3 = g2.append(magnitude_steps(g2, &sx, &sy));
    g3.append(output_steps(g3, new_node(g2), 2, output))
}

/// The steps of the edge-detection pipeline, written out.
pub open spec fn edge_pipeline_steps(m: GraphModel, image: u64, output: u64) -> Seq<StepModel> {
    let b = m.steps.len();
    let g = Operand::Handle(m.handle);
    let c = Operand::Handle(m.context);
    let virt = Call::CreateVirtualImage { graph: g, width: 0, height: 0, format: VX_DF_IMAGE_VIRT };
    let set = |node: nat, index: u32, reference: Operand|
        step(
            Call::SetParameterByIndex { node: earlier(b + node), index, reference },
            OnFailure::Abort,
        );
    seq![
        step(Call::GetKernelByEnum { context: c, kernel: VX_KERNEL_GAUSSIAN_3x3 }, OnFailure::Propagate),
        step(Call::CreateGenericNode { graph: g, kernel: earlier(b) }, OnFailure::Propagate),
        step(Call::GetParameterByIndex { node: earlier(b + 1), index: 0 }, OnFailure::Abort),
        step(Call::AddParameterToGraph { graph: g, parameter: earlier(b + 2) }, OnFailure::Abort),
        step(
            Call::SetGraphParameterByIndex {
                graph: g,
                graph_index: earlier(b + 3),
                reference: Operand::Handle(image),
            },
            OnFailure::Abort,
        ),
        set(1, 0, Operand::Handle(image)),
        step(Call::GetKernelByEnum { context: c, kernel: VX_KERNEL_SOBEL_3x3 }, OnFailure::Propagate),
        step(Call::CreateGenericNode { graph: g, kernel: earlier(b + 6) }, OnFailure::Propagate),
        step(virt, OnFailure::Abort),
        set(1, 1, earlier(b + 8)),
        set(7, 0, earlier(b + 8)),
        step(Call::GetKernelByEnum { context: c, kernel: VX_KERNEL_MAGNITUDE }, OnFailure::Propagate),
        step(Call::CreateGenericNode { graph: g, kernel: earlier(b + 11) }, OnFailure::Propagate),
        step(virt, OnFailure::Abort),
        set(7, 1, earlier(b + 13)),
        set(12, 0, earlier(b + 13)),
        step(virt, OnFailure::Abort),
        set(7, 2, earlier(b + 16)),
        set(12, 1, earlier(b + 16)),
        step(Call::GetParameterByIndex { node: earlier(b + 12), index: 2 }, OnFailure::Abort),
        step(Call::AddParameterToGraph { graph: g, parameter: earlier(b + 19) }, OnFailure::Abort),
        step(
            Call::SetGraphParameterByIndex {
                graph: g,
                graph_index: earlier(b + 20),
                reference: Operand::Handle(output),
            },
            OnFailure::Abort,
        ),
    ]
}

/// The edge-detection pipeline plans exactly `edge_pipeline_steps`.
pub proof fn lemma_edge_pipeline_steps(m: GraphModel, image: u64, output: u64)
    ensures
        plan_from(m, edge_pipeline(m, image, output)) == edge_pipeline_steps(m, image, output),
{
    let last = edge_pipeline(m, image, output);
    assert(plan_from(m, last) =~= edge_pipeline_steps(m, image, output));
}

/// The shape `edge_graph_factory` plans from step `b` on, with kernels `k0`,
/// `k1` and `k2`.
proof fn lemma_edge_graph_shape(m: GraphModel, k0: u64, k1: u64, k2: u64)
    requires
        m.has_room(16),
    ensures
        ({
            let b = m.steps.len();
            let s = shape_of(edge_graph_steps(m, k0, k1, k2), b, 16);
            &&& s.kernels == seq![Operand::Handle(k0), Operand::Handle(k1), Operand::Handle(k2)]
            &&& s.virtual_images == set![b, b + 1, b + 2]
            &&& s.bound == map![
                (0nat, 1u32) => earlier(b),
                (1nat, 0u32) => earlier(b),
                (1nat, 1u32) => earlier(b + 1),
                (1nat, 2u32) => earlier(b + 2),
                (2nat, 0u32) => earlier(b + 1),
                (2nat, 1u32) => earlier(b + 2)
            ]
            &&& s.graph_params == seq![(0nat, 0u32), (2nat, 2u32)]
        }),
{
    let b = m.steps.len();
    let plan = edge_graph_steps(m, k0, k1, k2);
    let s0 = shape_of(plan, b, 0);
    let s1 = shape_of(plan, b, 1);
    assert(s1 == shape_step(s0, (b + 0) as nat, plan[0].call));
    let s2 = shape_of(plan, b, 2);
    assert(s2 == shape_step(s1, (b + 1) as nat, plan[1].call));
    let s3 = shape_of(plan, b, 3);
    assert(s3 == shape_step(s2, (b + 2) as nat, plan[2].call));
    let s4 = shape_of(plan, b, 4);
    assert(s4 == shape_step(s3, (b + 3) as nat, plan[3].call));
    let s5 = shape_of(plan, b, 5);
    assert(s5 == shape_step(s4, (b + 4) as nat, plan[4].call));
    let s6 = shape_of(plan, b, 6);
    assert(s6 == shape_step(s5, (b + 5) as nat, plan[5].call));
    let s7 = shape_of(plan, b, 7);
    assert(s7 == shape_step(s6, (b + 6) as nat, plan[6].call));
    let s8 = shape_of(plan, b, 8);
    assert(s8 == shape_step(s7, (b + 7) as nat, plan[7].call));
    let s9 = shape_of(plan, b, 9);
    assert(s9 == shape_step(s8, (b + 8) as nat, plan[8].call));
    let s10 = shape_of(plan, b, 10);
    assert(s10 == shape_step(s9, (b + 9) as nat, plan[9].call));
    let s11 = shape_of(plan, b, 11);
    assert(s11 == shape_step(s10, (b + 10) as nat, plan[10].call));
    let s12 = shape_of(plan, b, 12);
    assert(s12 == shape_step(s11, (b + 11) as nat, plan[11].call));
    let s13 = shape_of(plan, b, 13);
    assert(s13 == shape_step(s12, (b + 12) as nat, plan[12].call));
    let s14 = shape_of(plan, b, 14);
    assert(s14 == shape_step(s13, (b + 13) as nat, plan[13].call));
    let s15 = shape_of(plan, b, 15);
    assert(s15 == shape_step(s14, (b + 14) as nat, plan[14].call));
    let s16 = shape_of(plan, b, 16);
    assert(s16 == shape_step(s15, (b + 15) as nat, plan[15].call));
    let s = s16;
    assert(s.kernels =~= seq![Operand::Handle(k0), Operand::Handle(k1), Operand::Handle(k2)]);
    assert(s.virtual_images =~= set![b, b + 1, b + 2]);
    assert(s.bound =~= map![
        (0nat, 1u32) => earlier(b),
        (1nat, 0u32) => earlier(b),
        (1nat, 1u32) => earlier(b + 1),
        (1nat, 2u32) => earlier(b + 2),
        (2nat, 0u32) => earlier(b + 1),
        (2nat, 1u32) => earlier(b + 2)
    ]);
    assert(s.graph_params =~= seq![(0nat, 0u32), (2nat, 2u32)]);
}

/// The shape the edge-detection pipeline plans from step `b` on.
proof fn lemma_edge_pipeline_shape(m: GraphModel, image: u64, output: u64)
    requires
        m.has_room(22),
    ensures
        ({
            let b = m.steps.len();
            let s = shape_of(edge_pipeline_steps(m, image, output), b, 22);
            &&& s.kernels == seq![earlier(b), earlier(b + 6), earlier(b + 11)]
            &&& s.virtual_images == set![b + 8, b + 13, b + 16]
            &&& s.bound == map![
                (0nat, 0u32) => Operand::Handle(image),
                (0nat, 1u32) => earlier(b + 8),
                (1nat, 0u32) => earlier(b + 8),
                (1nat, 1u32) => earlier(b + 13),
                (2nat, 0u32) => earlier(b + 13),
                (1nat, 2u32) => earlier(b + 16),
                (2nat, 1u32) => earlier(b + 16)
            ]
            &&& s.graph_params == seq![(0nat, 0u32), (2nat, 2u32)]
        }),
{
    let b = m.steps.len();
    let plan = edge_pipeline_steps(m, image, output);
    let s0 = shape_of(plan, b, 0);
    let s1 = shape_of(plan, b, 1);
    assert(s1 == shape_step(s0, (b + 0) as nat, plan[0].call));
    let s2 = shape_of(plan, b, 2);
    assert(s2 == shape_step(s1, (b + 1) as nat, plan[1].call));
    let s3 = shape_of(plan, b, 3);
    assert(s3 == shape_step(s2, (b + 2) as nat, plan[2].call));
    let s4 = shape_of(plan, b, 4);
    assert(s4 == shape_step(s3, (b + 3) as nat, plan[3].call));
    let s5 = shape_of(plan, b, 5);
    assert(s5 == shape_step(s4, (b + 4) as nat, plan[4].call));
    let s6 = shape_of(plan, b, 6);
    assert(s6 == shape_step(s5, (b + 5) as nat, plan[5].call));
    let s7 = shape_of(plan, b, 7);
    assert(s7 == shape_step(s6, (b + 6) as nat, plan[6].call));
    let s8 = shape_of(plan, b, 8);
    assert(s8 == shape_step(s7, (b + 7) as nat, plan[7].call));
    let s9 = shape_of(plan, b, 9);
    assert(s9 == shape_step(s8, (b + 8) as nat, plan[8].call));
    let s10 = shape_of(plan, b, 10);
    assert(s10 == shape_step(s9, (b + 9) as nat, plan[9].call));
    let s11 = shape_of(plan, b, 11);
    assert(s11 == shape_step(s10, (b + 10) as nat, plan[10].call));
    let s12 = shape_of(plan, b, 12);
    assert(s12 == shape_step(s11, (b + 11) as nat, plan[11].call));
    let s13 = shape_of(plan, b, 13);
    assert(s13 == shape_step(s12, (b + 12) as nat, plan[12].call));
    let s14 = shape_of(plan, b, 14);
    assert(s14 == shape_step(s13, (b + 13) as nat, plan[13].call));
    let s15 = shape_of(plan, b, 15);
    assert(s15 == shape_step(s14, (b + 14) as nat, plan[14].call));
    let s16 = shape_of(plan, b, 16);
    assert(s16 == shape_step(s15, (b + 15) as nat, plan[15].call));
    let s17 = shape_of(plan, b, 17);
    assert(s17 == shape_step(s16, (b + 16) as nat, plan[16].call));
    let s18 = shape_of(plan, b, 18);
    assert(s18 == shape_step(s17, (b + 17) as nat, plan[17].call));
    let s19 = shape_of(plan, b, 19);
    assert(s19 == shape_step(s18, (b + 18) as nat, plan[18].call));
    let s20 = shape_of(plan, b, 20);
    assert(s20 == shape_step(s19, (b + 19) as nat, plan[19].call));
    let s21 = shape_of(plan, b, 21);
    assert(s21 == shape_step(s20, (b + 20) as nat, plan[20].call));
    let s22 = shape_of(plan, b, 22);
    assert(s22 == shape_step(s21, (b + 21) as nat, plan[21].call));
    let s = s22;
    assert(s.kernels =~= seq![earlier(b), earlier(b + 6), earlier(b + 11)]);
    assert(s.virtual_images =~= set![b + 8, b + 13, b + 16]);
    assert(s.bound =~= map![
        (0nat, 0u32) => Operand::Handle(image),
        (0nat, 1u32) => earlier(b + 8),
        (1nat, 0u32) => earlier(b + 8),
        (1nat, 1u32) => earlier(b + 13),
        (2nat, 0u32) => earlier(b + 13),
        (1nat, 2u32) => earlier(b + 16),
        (2nat, 1u32) => earlier(b + 16)
    ]);
    assert(s.graph_params =~= seq![(0nat, 0u32), (2nat, 2u32)]);
}

/// `edge_graph_factory` plans the graph the edge-detection pipeline plans,
/// up to the names of its objects: three nodes, running the Gaussian, Sobel
/// and magnitude kernels in that order (looked up beforehand for the
/// former, within the plan for the latter); the same node parameters joined
/// through virtual images (Gaussian 1 to Sobel 0, Sobel 1 to magnitude 0,
/// Sobel 2 to magnitude 1); and the same graph parameters in the same order
/// (Gaussian 0, then magnitude 2).
pub proof fn lemma_edge_graph_matches_pipeline(
    m1: GraphModel,
    k0: u64,
    k1: u64,
    k2: u64,
    m2: GraphModel,
    image: u64,
    output: u64,
)
    requires
        m1.has_room(16),
        m2.has_room(22),
    ensures
        ({
            let se = shape_of(edge_graph_steps(m1, k0, k1, k2), m1.steps.len(), 16);
            let p = plan_from(m2, edge_pipeline(m2, image, output));
            let sp = shape_of(p, m2.steps.len(), p.len());
            &&& se.kernels == seq![Operand::Handle(k0), Operand::Handle(k1), Operand::Handle(k2)]
            &&& p.len() == 22
            &&& sp.kernels == seq![
                earlier(m2.steps.len()),
                earlier(m2.steps.len() + 6),
                earlier(m2.steps.len() + 11),
            ]
            &&& p[0].call == CallModel::GetKernelByEnum {
                context: Operand::Handle(m2.context),
                kernel: VX_KERNEL_GAUSSIAN_3x3,
            }
            &&& p[6].call == CallModel::GetKernelByEnum {
                context: Operand::Handle(m2.context),
                kernel: VX_KERNEL_SOBEL_3x3,
            }
            &&& p[11].call == CallModel::GetKernelByEnum {
                context: Operand::Handle(m2.context),
                kernel: VX_KERNEL_MAGNITUDE,
            }
            &&& forall|x: (nat, u32), y: (nat, u32)| joined(se, x, y) <==> joined(sp, x, y)
            &&& se.graph_params == sp.graph_params
            &&& se.graph_params == seq![(0nat, 0u32), (2nat, 2u32)]
        }),
{
    lemma_edge_graph_shape(m1, k0, k1, k2);
    lemma_edge_pipeline_steps(m2, image, output);
    lemma_edge_pipeline_shape(m2, image, output);
    let b1 = m1.steps.len();
    let b2 = m2.steps.len();
    let se = shape_of(edge_graph_steps(m1, k0, k1, k2), b1, 16);
    let p = plan_from(m2, edge_pipeline(m2, image, output));
    let sp = shape_of(p, b2, p.len());
    assert(p.len() == 22);
    assert forall|x: (nat, u32), y: (nat, u32)| joined(se, x, y) <==> joined(sp, x, y) by {
        if joined(se, x, y) {
            if se.bound[x] == earlier(b1) {
            } else if se.bound[x] == earlier(b1 + 1) {
            } else {
            }
        }
        if joined(sp, x, y) {
            if sp.bound[x] == earlier(b2 + 8) {
            } else if sp.bound[x] == earlier(b2 + 13) {
            } else {
            }
        }
    }
}

} // verus!
