use openvx::consts::{
    VX_DF_IMAGE_VIRT, VX_FAILURE, VX_GRAPH_NUMNODES, VX_KERNEL_CHANNEL_EXTRACT,
    VX_KERNEL_GAUSSIAN_3x3, VX_KERNEL_HARRIS_CORNERS, VX_KERNEL_MAGNITUDE, VX_KERNEL_MEDIAN_3x3,
    VX_KERNEL_SOBEL_3x3, VX_SUCCESS, VX_TYPE_ENUM, VX_TYPE_FLOAT32, VX_TYPE_INT32,
    VX_TYPE_KEYPOINT, VX_TYPE_SIZE,
};
use openvx::{
    answer_of, edge_graph_factory, edge_graph_prelude, Action, EdgePrelude, Array, Call, Context, ErrorKind, Graph, GraphInput, Image,
    InputArray, InputImage, InputScalar, Kernel, Node, NodeOutputArray, NodeOutputImage,
    NodeOutputScalar, Operand, Progress, Reply, ScalarValue,
};

const CTX: u64 = 7;
const GRAPH: u64 = 9;

/// Plays OpenVX: every call that creates an object gets a fresh handle from
/// 1000 on, and the call numbered `fail_at` (if any) fails. Returns the calls performed and what the last reply meant.
fn drive(g: &mut Graph, fail_at: Option<usize>) -> (Vec<Call<u64, Vec<u8>>>, Progress) {
    let mut calls = Vec::new();
    let mut next = 1000u64;
    loop {
        match g.next_action() {
            Action::Idle => return (calls, Progress::Continue),
            Action::Perform(call) => {
                let n = calls.len();
                let status = if fail_at == Some(n) { VX_FAILURE } else { VX_SUCCESS };
                let value = match &call {
                    Call::AddParameterToGraph { .. }
                    | Call::SetGraphParameterByIndex { .. }
                    | Call::SetParameterByIndex { .. }
                    | Call::VerifyGraph { .. }
                    | Call::ProcessGraph { .. }
                    | Call::Release { .. }
                    | Call::QueryGraph { .. }
                    | Call::QueryImage { .. } => 0,
                    _ => {
                        next += 1;
                        next - 1
                    }
                };
                calls.push(call);
                match g.complete(Reply { status, value }) {
                    Progress::Continue => {}
                    other => return (calls, other),
                }
            }
        }
    }
}

fn new_graph() -> Graph {
    let ctx = Context::new(Reply { status: VX_SUCCESS, value: CTX }).unwrap();
    ctx.graph_created(Reply { status: VX_SUCCESS, value: GRAPH }).unwrap()
}

fn h(x: u64) -> u64 {
    x
}

#[test]
fn gaussian_of_graph_input_plans_exact_calls() {
    let mut g = new_graph();
    let input = g.create_input(Image { ptr: 55 }).unwrap();
    let out = g.gaussian_3x3(&input);
    assert_eq!(out.node, Operand::Earlier(1));
    assert_eq!(out.param_index, 1);
    let (calls, p) = drive(&mut g, None);
    assert_eq!(p, Progress::Continue);
    assert_eq!(
        calls,
        vec![
            Call::GetKernelByEnum { context: CTX, kernel: VX_KERNEL_GAUSSIAN_3x3 },
            Call::CreateGenericNode { graph: GRAPH, kernel: 1000 },
            Call::GetParameterByIndex { node: 1001, index: 0 },
            Call::AddParameterToGraph { graph: GRAPH, parameter: 1002 },
            Call::SetGraphParameterByIndex { graph: GRAPH, graph_index: 0, reference: 55 },
            Call::SetParameterByIndex { node: 1001, index: 0, reference: 55 },
        ]
    );
    assert_eq!(g.param_num(), 1);
    assert!(!g.is_pending());
}

#[test]
fn edge_pipeline_wires_virtual_images_and_numbers_parameters() {
    let mut g = new_graph();
    let input = g.create_input(Image { ptr: 55 }).unwrap();
    let output = Image { ptr: 66 };
    let gau = g.gaussian_3x3(&input);
    let (sx, sy) = g.sobel_3x3(&gau);
    assert_eq!((sx.param_index, sy.param_index), (1, 2));
    assert_eq!(sx.node, sy.node);
    let mag = g.magnitude(&sx, &sy);
    assert_eq!(mag.param_index, 2);
    g.set_output(&mag, &output);
    g.verify();
    g.run();
    let (calls, p) = drive(&mut g, None);
    assert_eq!(p, Progress::Continue);
    // kernel lookups name the three kernels in order
    let kernels: Vec<u32> = calls
        .iter()
        .filter_map(|c| match c {
            Call::GetKernelByEnum { kernel, .. } => Some(*kernel),
            _ => None,
        })
        .collect();
    assert_eq!(kernels, vec![VX_KERNEL_GAUSSIAN_3x3, VX_KERNEL_SOBEL_3x3, VX_KERNEL_MAGNITUDE]);
    // the graph parameters are numbered 0 (input) and 1 (output)
    let graph_params: Vec<(u64, u64)> = calls
        .iter()
        .filter_map(|c| match c {
            Call::SetGraphParameterByIndex { graph_index, reference, .. } => {
                Some((*graph_index, *reference))
            }
            _ => None,
        })
        .collect();
    assert_eq!(graph_params, vec![(0, 55), (1, 66)]);
    assert_eq!(g.param_num(), 2);
    // sobel's input: a virtual image created in the graph, bound to gaussian
    // parameter 1 and sobel parameter 0
    let virt = calls
        .iter()
        .position(|c| {
            *c == Call::CreateVirtualImage {
                graph: GRAPH,
                width: 0,
                height: 0,
                format: VX_DF_IMAGE_VIRT,
            }
        })
        .unwrap();
    assert_eq!(calls[virt + 1], Call::SetParameterByIndex { node: 1001, index: 1, reference: 1005 });
    assert_eq!(calls[virt + 2], Call::SetParameterByIndex { node: 1004, index: 0, reference: 1005 });
    assert_eq!(calls.len(), 6 + 5 + 8 + 3 + 2);
    assert_eq!(calls[calls.len() - 2], Call::VerifyGraph { graph: GRAPH });
    assert_eq!(calls[calls.len() - 1], Call::ProcessGraph { graph: GRAPH });
}

#[test]
fn harris_pipeline_binds_scalars_with_their_types() {
    let mut g = new_graph();
    let input = g.create_input(Image { ptr: 55 }).unwrap();
    let channel = g.channel_extract(&input, &ScalarValue { value: 0x9014u32.to_ne_bytes().to_vec() });
    let median = g.median_3x3(&channel);
    let (corners, num) = g.harris_corners(
        &median,
        &ScalarValue { value: 10000.0f32.to_ne_bytes().to_vec() },
        &ScalarValue { value: 1.5f32.to_ne_bytes().to_vec() },
        &ScalarValue { value: 0.14f32.to_ne_bytes().to_vec() },
        &ScalarValue { value: 3i32.to_ne_bytes().to_vec() },
        &ScalarValue { value: 3i32.to_ne_bytes().to_vec() },
    );
    assert_eq!((corners.param_index, corners.item_type), (6, VX_TYPE_KEYPOINT));
    assert_eq!((num.param_index, num.data_type), (7, VX_TYPE_SIZE));
    g.set_output_array(&corners, &Array { ptr: 77 });
    let (calls, p) = drive(&mut g, None);
    assert_eq!(p, Progress::Continue);
    let scalars: Vec<(u32, Vec<u8>)> = calls
        .iter()
        .filter_map(|c| match c {
            Call::CreateScalar { context, data_type, value } => {
                assert_eq!(*context, CTX);
                Some((*data_type, value.clone()))
            }
            _ => None,
        })
        .collect();
    assert_eq!(
        scalars,
        vec![
            (VX_TYPE_ENUM, 0x9014u32.to_ne_bytes().to_vec()),
            (VX_TYPE_FLOAT32, 10000.0f32.to_ne_bytes().to_vec()),
            (VX_TYPE_FLOAT32, 1.5f32.to_ne_bytes().to_vec()),
            (VX_TYPE_FLOAT32, 0.14f32.to_ne_bytes().to_vec()),
            (VX_TYPE_INT32, 3i32.to_ne_bytes().to_vec()),
            (VX_TYPE_INT32, 3i32.to_ne_bytes().to_vec()),
        ]
    );
    let kernels: Vec<u32> = calls
        .iter()
        .filter_map(|c| match c {
            Call::GetKernelByEnum { kernel, .. } => Some(*kernel),
            _ => None,
        })
        .collect();
    assert_eq!(
        kernels,
        vec![VX_KERNEL_CHANNEL_EXTRACT, VX_KERNEL_MEDIAN_3x3, VX_KERNEL_HARRIS_CORNERS]
    );
    // the corners array becomes graph parameter 1, bound to the output array
    assert_eq!(
        calls[calls.len() - 1],
        Call::SetGraphParameterByIndex { graph: GRAPH, graph_index: 1, reference: 77 }
    );
    assert_eq!(g.param_num(), 2);
}

#[test]
fn refused_kernel_lookup_returns_error_and_drops_the_operation() {
    let mut g = new_graph();
    let input = g.create_input(Image { ptr: 55 }).unwrap();
    g.gaussian_3x3(&input);
    let gau = NodeOutputImage { node: Operand::Earlier(1), param_index: 1 };
    assert!(g.is_live(&gau.node));
    let (calls, p) = drive(&mut g, Some(0));
    assert_eq!(p, Progress::Failed(ErrorKind::ErrorNotImplemented));
    assert_eq!(calls.len(), 1);
    assert!(!g.is_pending());
    // every step of the failed operation is kept, marked dropped, valued 0
    assert_eq!(g.step_count(), 6);
    for i in 0..6 {
        assert!(g.is_dropped(i));
        assert_eq!(g.value_of(i), 0);
    }
    assert_eq!(g.param_num(), 0);
    // the node the failed operation was to create can no longer be used
    assert!(!g.is_live(&gau.node));
    // the graph can be used again; step numbers go on from where they were
    let out = g.median_3x3(&input);
    assert_eq!(out.node, Operand::Earlier(7));
    assert!(!g.is_dropped(7));
    let (calls, p) = drive(&mut g, None);
    assert_eq!(p, Progress::Continue);
    assert_eq!(calls[0], Call::GetKernelByEnum { context: CTX, kernel: VX_KERNEL_MEDIAN_3x3 });
    assert_eq!(calls[1], Call::CreateGenericNode { graph: GRAPH, kernel: 1000 });
    assert_eq!(g.value_of(7), 1001);
    assert_eq!(g.param_num(), 1);
}

#[test]
fn a_failure_drops_the_work_planned_after_it() {
    let mut g = new_graph();
    let input = g.create_input(Image { ptr: 55 }).unwrap();
    let gau = g.gaussian_3x3(&input);
    g.sobel_3x3(&gau);
    assert_eq!(g.step_count(), 6 + 5);
    // the second kernel lookup, the Sobel's, fails
    let (calls, p) = drive(&mut g, Some(6));
    assert_eq!(p, Progress::Failed(ErrorKind::ErrorNotImplemented));
    assert_eq!(calls.len(), 7);
    assert!(!g.is_pending());
    for i in 0..6 {
        assert!(!g.is_dropped(i));
    }
    for i in 6..11 {
        assert!(g.is_dropped(i));
    }
    // the Gaussian's node is still there, the Sobel's is not
    assert!(g.is_live(&gau.node));
    assert!(!g.is_live(&Operand::Earlier(7)));
    assert_eq!(g.param_num(), 1);
}

#[test]
fn refused_binding_stops_the_program() {
    let mut g = new_graph();
    let input = g.create_input(Image { ptr: 55 }).unwrap();
    g.gaussian_3x3(&input);
    // call 3 adds the graph parameter, which the operation does not survive
    let (calls, p) = drive(&mut g, Some(3));
    assert_eq!(p, Progress::Abort);
    assert_eq!(calls.len(), 4);
    assert_eq!(g.param_num(), 0);
}

#[test]
fn refused_verify_and_run_are_returned() {
    let mut g = new_graph();
    g.verify();
    let (_, p) = drive(&mut g, Some(0));
    assert_eq!(p, Progress::Failed(ErrorKind::ErrorNotImplemented));
    g.run();
    let (calls, p) = drive(&mut g, Some(0));
    assert_eq!(calls, vec![Call::ProcessGraph { graph: GRAPH }]);
    assert_eq!(p, Progress::Failed(ErrorKind::ErrorNotImplemented));
}

#[test]
fn graph_query_names_the_attribute_and_its_size() {
    let g = new_graph();
    assert_eq!(
        g.query(VX_GRAPH_NUMNODES, 4),
        Call::QueryGraph { graph: GRAPH, attribute: VX_GRAPH_NUMNODES, size: 4 }
    );
    // nothing is planned: the query is a single call
    assert_eq!(g.step_count(), 0);
    assert_eq!(answer_of(VX_SUCCESS, vec![3, 0, 0, 0]), Ok(vec![3, 0, 0, 0]));
    assert_eq!(answer_of(VX_FAILURE, vec![3, 0, 0, 0]), Err(ErrorKind::ErrorNotImplemented));
}

/// Answers the calls `edge_graph_prelude` asks for, handing out handles from
/// 20 on, the call numbered `fail_at` (if any) failing.
fn run_prelude(ctx: &Context, fail_at: Option<usize>) -> (Vec<Call<u64, Vec<u8>>>, EdgePrelude) {
    let mut replies = Vec::new();
    let mut calls = Vec::new();
    loop {
        match edge_graph_prelude(ctx, &replies) {
            EdgePrelude::Perform(c) => {
                let n = calls.len();
                calls.push(c);
                let status = if fail_at == Some(n) { VX_FAILURE } else { VX_SUCCESS };
                replies.push(Reply { status, value: 20 + n as u64 });
            }
            done => return (calls, done),
        }
    }
}

#[test]
fn edge_prelude_looks_up_the_kernels_then_creates_the_graph() {
    let ctx = Context { ptr: CTX };
    let (calls, done) = run_prelude(&ctx, None);
    assert_eq!(
        calls,
        vec![
            Call::GetKernelByEnum { context: CTX, kernel: VX_KERNEL_GAUSSIAN_3x3 },
            Call::GetKernelByEnum { context: CTX, kernel: VX_KERNEL_SOBEL_3x3 },
            Call::GetKernelByEnum { context: CTX, kernel: VX_KERNEL_MAGNITUDE },
            Call::CreateGraph { context: CTX },
        ]
    );
    match done {
        EdgePrelude::Ready(mut g, k0, k1, k2) => {
            assert_eq!((k0.ptr, k1.ptr, k2.ptr), (20, 21, 22));
            assert_eq!(g.handle(), 23);
            assert_eq!(g.context(), CTX);
            edge_graph_factory(&mut g, &k0, &k1, &k2);
            let (calls, p) = drive(&mut g, None);
            assert_eq!(p, Progress::Continue);
            assert_eq!(calls[3], Call::CreateGenericNode { graph: 23, kernel: 20 });
        }
        _ => panic!("the prelude did not finish"),
    }
}

#[test]
fn edge_prelude_stops_at_the_first_failed_lookup() {
    let ctx = Context { ptr: CTX };
    let (calls, done) = run_prelude(&ctx, Some(1));
    assert_eq!(calls.len(), 2);
    assert!(matches!(done, EdgePrelude::Failed(ErrorKind::ErrorNotImplemented)));
    let (calls, done) = run_prelude(&ctx, Some(3));
    assert_eq!(calls.len(), 4);
    assert!(matches!(done, EdgePrelude::Failed(ErrorKind::ErrorNotImplemented)));
}

#[test]
fn node_output_scalar_feeds_another_node_through_a_virtual_scalar() {
    let mut g = new_graph();
    let producer = NodeOutputScalar { node: Operand::Handle(300), param_index: 7, data_type: VX_TYPE_SIZE };
    let consumer = Node { ptr: Operand::Handle(400) };
    producer.set_input_scalar(&mut g, &consumer, 2, VX_TYPE_SIZE);
    let (calls, _) = drive(&mut g, None);
    assert_eq!(
        calls,
        vec![
            Call::CreateVirtualScalar { graph: GRAPH, data_type: VX_TYPE_SIZE },
            Call::SetParameterByIndex { node: 300, index: 7, reference: 1000 },
            Call::SetParameterByIndex { node: 400, index: 2, reference: 1000 },
        ]
    );
}

#[test]
fn node_output_array_feeds_another_node_through_a_virtual_array() {
    let mut g = new_graph();
    let producer = NodeOutputArray { node: Operand::Handle(300), param_index: 6, item_type: VX_TYPE_KEYPOINT };
    let consumer = Node { ptr: Operand::Handle(400) };
    producer.set_input_scalar(&mut g, &consumer, 0, VX_TYPE_KEYPOINT);
    let (calls, _) = drive(&mut g, None);
    assert_eq!(
        calls,
        vec![
            Call::CreateVirtualArray { graph: GRAPH, item_type: VX_TYPE_KEYPOINT, capacity: 0 },
            Call::SetParameterByIndex { node: 300, index: 6, reference: 1000 },
            Call::SetParameterByIndex { node: 400, index: 0, reference: 1000 },
        ]
    );
}

#[test]
fn node_output_image_feeds_another_node_through_a_virtual_image() {
    let mut g = new_graph();
    let producer = NodeOutputImage { node: Operand::Handle(300), param_index: 1 };
    let consumer = Node { ptr: Operand::Handle(400) };
    producer.set_input_image(&mut g, &consumer, 0);
    let (calls, _) = drive(&mut g, None);
    assert_eq!(
        calls,
        vec![
            Call::CreateVirtualImage { graph: GRAPH, width: 0, height: 0, format: VX_DF_IMAGE_VIRT },
            Call::SetParameterByIndex { node: 300, index: 1, reference: 1000 },
            Call::SetParameterByIndex { node: 400, index: 0, reference: 1000 },
        ]
    );
}

#[test]
fn graph_input_becomes_a_graph_parameter() {
    let mut g = new_graph();
    let input = GraphInput { image: Image { ptr: 55 } };
    let node = Node { ptr: Operand::Handle(400) };
    input.set_input_image(&mut g, &node, 3);
    let (calls, _) = drive(&mut g, None);
    assert_eq!(
        calls,
        vec![
            Call::GetParameterByIndex { node: 400, index: 3 },
            Call::AddParameterToGraph { graph: GRAPH, parameter: 1000 },
            Call::SetGraphParameterByIndex { graph: GRAPH, graph_index: 0, reference: 55 },
            Call::SetParameterByIndex { node: 400, index: 3, reference: 55 },
        ]
    );
    assert_eq!(g.param_num(), 1);
}

#[test]
fn edge_graph_factory_plans_three_nodes_and_two_parameters() {
    let mut g = new_graph();
    let k = [Kernel { ptr: 11 }, Kernel { ptr: 12 }, Kernel { ptr: 13 }];
    edge_graph_factory(&mut g, &k[0], &k[1], &k[2]);
    assert_eq!(g.step_count(), 16);
    let (calls, p) = drive(&mut g, None);
    assert_eq!(p, Progress::Continue);
    let virt = Call::CreateVirtualImage { graph: h(GRAPH), width: 0, height: 0, format: VX_DF_IMAGE_VIRT };
    assert_eq!(
        calls,
        vec![
            virt.clone(),
            virt.clone(),
            virt,
            Call::CreateGenericNode { graph: GRAPH, kernel: 11 },
            Call::CreateGenericNode { graph: GRAPH, kernel: 12 },
            Call::CreateGenericNode { graph: GRAPH, kernel: 13 },
            Call::GetParameterByIndex { node: 1003, index: 0 },
            Call::GetParameterByIndex { node: 1005, index: 2 },
            Call::AddParameterToGraph { graph: GRAPH, parameter: 1006 },
            Call::AddParameterToGraph { graph: GRAPH, parameter: 1007 },
            Call::SetParameterByIndex { node: 1003, index: 1, reference: 1000 },
            Call::SetParameterByIndex { node: 1004, index: 0, reference: 1000 },
            Call::SetParameterByIndex { node: 1004, index: 1, reference: 1001 },
            Call::SetParameterByIndex { node: 1004, index: 2, reference: 1002 },
            Call::SetParameterByIndex { node: 1005, index: 0, reference: 1001 },
            Call::SetParameterByIndex { node: 1005, index: 1, reference: 1002 },
        ]
    );
    assert_eq!(g.param_num(), 2);
}

/// The shape of the graph the calls build: for each virtual image, the
/// (node number, parameter index) pairs bound to it, and the graph parameters
/// as (node number, parameter index), nodes numbered in creation order. The
/// handles are those `drive` hands out.
fn shape_of_calls(calls: &[Call<u64, Vec<u8>>]) -> (Vec<Vec<(usize, u32)>>, Vec<(usize, u32)>) {
    let mut next = 1000u64;
    let mut nodes: Vec<u64> = Vec::new();
    let mut virtuals: Vec<u64> = Vec::new();
    let mut params: Vec<(u64, (usize, u32))> = Vec::new();
    let mut links: Vec<Vec<(usize, u32)>> = Vec::new();
    let mut graph_params = Vec::new();
    for c in calls {
        let handle = match c {
            Call::AddParameterToGraph { .. }
            | Call::SetGraphParameterByIndex { .. }
            | Call::SetParameterByIndex { .. }
            | Call::VerifyGraph { .. }
            | Call::ProcessGraph { .. }
            | Call::Release { .. }
            | Call::QueryGraph { .. }
            | Call::QueryImage { .. } => None,
            _ => {
                next += 1;
                Some(next - 1)
            }
        };
        match c {
            Call::CreateGenericNode { .. } => nodes.push(handle.unwrap()),
            Call::CreateVirtualImage { .. } => {
                virtuals.push(handle.unwrap());
                links.push(Vec::new());
            }
            Call::GetParameterByIndex { node, index } => {
                let n = nodes.iter().position(|x| x == node).unwrap();
                params.push((handle.unwrap(), (n, *index)));
            }
            Call::AddParameterToGraph { parameter, .. } => {
                let p = params.iter().find(|(h, _)| h == parameter).unwrap().1;
                graph_params.push(p);
            }
            Call::SetParameterByIndex { node, index, reference } => {
                if let Some(v) = virtuals.iter().position(|x| x == reference) {
                    let n = nodes.iter().position(|x| x == node).unwrap();
                    links[v].push((n, *index));
                }
            }
            _ => {}
        }
    }
    for l in links.iter_mut() {
        l.sort();
    }
    links.sort();
    (links, graph_params)
}

#[test]
fn edge_graph_factory_builds_the_edge_pipeline_graph() {
    let mut g1 = new_graph();
    edge_graph_factory(&mut g1, &Kernel { ptr: 11 }, &Kernel { ptr: 12 }, &Kernel { ptr: 13 });
    let (calls1, _) = drive(&mut g1, None);

    let mut g2 = new_graph();
    let input = g2.create_input(Image { ptr: 55 }).unwrap();
    let gau = g2.gaussian_3x3(&input);
    let (sx, sy) = g2.sobel_3x3(&gau);
    let mag = g2.magnitude(&sx, &sy);
    g2.set_output(&mag, &Image { ptr: 66 });
    let (calls2, _) = drive(&mut g2, None);

    let expected_links = vec![vec![(0, 1), (1, 0)], vec![(1, 1), (2, 0)], vec![(1, 2), (2, 1)]];
    assert_eq!(shape_of_calls(&calls1), (expected_links.clone(), vec![(0, 0), (2, 2)]));
    assert_eq!(shape_of_calls(&calls2), (expected_links, vec![(0, 0), (2, 2)]));
}
