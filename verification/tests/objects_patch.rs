use openvx::call::ObjectKind;
use openvx::consts::{
    VX_DF_IMAGE_U8, VX_FAILURE, VX_IMAGE_WIDTH, VX_KERNEL_SOBEL_3x3, VX_SCALE_UNITY, VX_SUCCESS,
    VX_TYPE_FLOAT32, VX_TYPE_KEYPOINT,
};
use openvx::consts::{
    VX_TYPE_ENUM, VX_TYPE_INVALID, VX_TYPE_RECTANGLE, VX_TYPE_SIZE, VX_TYPE_VENDOR_STRUCT_END,
};
use openvx::nnef::doc_to_graph;
use openvx::{InputArray, InputScalar, NodeOutputArray, NodeOutputScalar, Operand};
use openvx::patch::{addressing_for_mat, pack_image_patch, packed_row_len, patch_fits};
use openvx::{
    answer_of, check_status, convert_error, Addressing, Array, Call, Context, ErrorKind, Image, Kernel,
    Reference, Reply, Scalar, ScalarValue,
};

fn ok(value: u64) -> Reply {
    Reply { status: VX_SUCCESS, value }
}

fn refused() -> Reply {
    Reply { status: VX_FAILURE, value: 0 }
}

#[test]
fn status_success_is_ok_and_every_failure_is_not_implemented() {
    assert_eq!(check_status(VX_SUCCESS), Ok(()));
    assert_eq!(check_status(VX_FAILURE), Err(ErrorKind::ErrorNotImplemented));
    assert_eq!(check_status(-12), Err(ErrorKind::ErrorNotImplemented));
    assert_eq!(check_status(5), Err(ErrorKind::ErrorNotImplemented));
    assert_eq!(convert_error(-3), ErrorKind::ErrorNotImplemented);
}

#[test]
fn context_and_graph_creation_check_the_status() {
    assert_eq!(Context::create_call(), Call::CreateContext);
    assert!(Context::new(refused()).is_err());
    let mut ctx = Context::new(ok(7)).unwrap();
    assert_eq!(ctx.ptr, 7);
    assert_eq!(ctx.create_graph(), Call::CreateGraph { context: 7 });
    assert!(ctx.graph_created(refused()).is_err());
    let g = ctx.graph_created(ok(9)).unwrap();
    assert_eq!((g.handle(), g.context(), g.param_num(), g.step_count()), (9, 7, 0, 0));
}

#[test]
fn context_calls_carry_their_arguments() {
    let ctx = Context { ptr: 7 };
    assert_eq!(
        ctx.get_kernel_by_enum(VX_KERNEL_SOBEL_3x3),
        Call::GetKernelByEnum { context: 7, kernel: VX_KERNEL_SOBEL_3x3 }
    );
    assert_eq!(
        ctx.create_image(640, 480, VX_DF_IMAGE_U8),
        Call::CreateImage { context: 7, width: 640, height: 480, format: VX_DF_IMAGE_U8 }
    );
    assert_eq!(
        ctx.create_scalar(VX_TYPE_FLOAT32, &ScalarValue { value: 1.5f32.to_ne_bytes().to_vec() }),
        Call::CreateScalar { context: 7, data_type: VX_TYPE_FLOAT32, value: 0x3fc0_0000u32.to_ne_bytes().to_vec() }
    );
    assert_eq!(
        ctx.create_array(VX_TYPE_KEYPOINT, 1000),
        Call::CreateArray { context: 7, item_type: VX_TYPE_KEYPOINT, capacity: 1000 }
    );
    assert_eq!(ctx.release(), Call::Release { kind: ObjectKind::Context, object: 7 });
}

#[test]
fn created_objects_take_the_handle_only_on_success() {
    assert_eq!(Kernel::created(ok(3)).unwrap().ptr, 3);
    assert!(Kernel::created(refused()).is_err());
    assert_eq!(Image::created(ok(4)).unwrap().ptr, 4);
    assert!(Image::created(refused()).is_err());
    assert_eq!(Scalar::created(ok(5)).unwrap().to_ref(), 5);
    assert!(Scalar::created(refused()).is_err());
    assert_eq!(Array::created(ok(6)).unwrap().to_ref(), 6);
    assert!(Array::created(Reply { status: -8, value: 6 }).is_err());
}

#[test]
fn image_query_returns_the_value_on_success() {
    let image = Image { ptr: 4 };
    assert_eq!(
        image.query(VX_IMAGE_WIDTH, 4),
        Call::QueryImage { image: 4, attribute: VX_IMAGE_WIDTH, size: 4 }
    );
    let width = 640u32.to_ne_bytes().to_vec();
    assert_eq!(Image::queried(VX_SUCCESS, width.clone()), Ok(width.clone()));
    assert_eq!(Image::queried(VX_FAILURE, width), Err(ErrorKind::ErrorNotImplemented));
}

#[test]
fn a_scalar_of_any_size_keeps_all_its_bytes() {
    // a rectangle: four 32-bit coordinates, wider than any integer register
    let mut rect = Vec::new();
    for v in [1u32, 2, 300, 400] {
        rect.extend_from_slice(&v.to_ne_bytes());
    }
    let ctx = Context { ptr: 7 };
    let call = ctx.create_scalar(VX_TYPE_RECTANGLE, &ScalarValue { value: rect.clone() });
    assert_eq!(call, Call::CreateScalar { context: 7, data_type: VX_TYPE_RECTANGLE, value: rect });
}

#[test]
fn a_wide_query_answer_is_returned_whole() {
    let perf: Vec<u8> = (0u8..48).collect();
    assert_eq!(answer_of(VX_SUCCESS, perf.clone()), Ok(perf.clone()));
    assert_eq!(answer_of(-4, perf), Err(ErrorKind::ErrorNotImplemented));
}

#[test]
fn only_scalar_and_array_release_failures_abort() {
    assert!(ObjectKind::Scalar.release_failure_aborts(VX_FAILURE));
    assert!(ObjectKind::Array.release_failure_aborts(VX_FAILURE));
    assert!(!ObjectKind::Scalar.release_failure_aborts(VX_SUCCESS));
    assert!(!ObjectKind::Image.release_failure_aborts(VX_FAILURE));
    assert!(!ObjectKind::Graph.release_failure_aborts(VX_FAILURE));
    assert!(!ObjectKind::Context.release_failure_aborts(VX_FAILURE));
    assert_eq!(Image { ptr: 4 }.release(), Call::Release { kind: ObjectKind::Image, object: 4 });
}

#[test]
fn doc_to_graph_asks_for_an_empty_graph() {
    let mut ctx = Context { ptr: 7 };
    assert_eq!(doc_to_graph(&mut ctx, &"version 1"), Call::CreateGraph { context: 7 });
}

fn u8_addressing(width: u32, height: u32, stride_y: i32) -> Addressing {
    Addressing {
        dim_x: width,
        dim_y: height,
        stride_x: 1,
        stride_y,
        scale_x: VX_SCALE_UNITY,
        scale_y: VX_SCALE_UNITY,
        step_x: 1,
        step_y: 1,
    }
}

#[test]
fn row_len_is_stride_times_width() {
    assert_eq!(packed_row_len(&u8_addressing(640, 480, 640)), 640);
    let a = Addressing { stride_x: 2, ..u8_addressing(320, 10, 640) };
    assert_eq!(packed_row_len(&a), 640);
    let half = Addressing { scale_x: 512, ..u8_addressing(8, 1, 8) };
    assert_eq!(packed_row_len(&half), 4);
}

#[test]
fn packing_a_padded_patch_drops_the_padding() {
    // 3x2 image whose rows are 4 bytes apart in the patch
    let patch: Vec<u8> = vec![1, 2, 3, 99, 4, 5, 6, 99];
    let a = u8_addressing(3, 2, 4);
    assert!(patch_fits(&a, 3, 2, patch.len()));
    assert_eq!(pack_image_patch(&patch, &a, 3, 2), vec![1, 2, 3, 4, 5, 6]);
}

#[test]
fn packing_with_a_row_step_copies_every_other_row() {
    let patch: Vec<u8> = (0u8..8).collect();
    let a = Addressing { step_y: 2, ..u8_addressing(2, 4, 2) };
    assert!(patch_fits(&a, 2, 4, patch.len()));
    assert_eq!(pack_image_patch(&patch, &a, 2, 4), vec![0, 1, 0, 0, 4, 5, 0, 0]);
}

#[test]
fn patches_that_do_not_fit_are_detected() {
    let a = u8_addressing(3, 2, 4);
    // too short a patch
    assert!(!patch_fits(&a, 3, 2, 6));
    // rows longer than the buffer's rows overflow its end
    assert!(!patch_fits(&a, 2, 2, 8));
    // a zero row step
    assert!(!patch_fits(&Addressing { step_y: 0, ..a }, 3, 2, 8));
    // more rows than the patch has
    assert!(!patch_fits(&u8_addressing(3, 1, 4), 3, 2, 8));
    // a buffer larger than 32 bits can count
    assert!(!patch_fits(&a, 70000, 70000, 8));
    // an image without pixels
    assert!(!patch_fits(&a, 3, 0, 8));
    assert!(!patch_fits(&a, 0, 2, 8));
}

#[test]
fn mat_addressing_takes_sizes_and_strides() {
    let a = addressing_for_mat(640, 480, 1, 1, 672);
    assert_eq!(
        a,
        Addressing {
            dim_x: 640,
            dim_y: 480,
            stride_x: 1,
            stride_y: 672,
            scale_x: 0,
            scale_y: 0,
            step_x: 0,
            step_y: 0,
        }
    );
    let ctx = Context { ptr: 7 };
    assert_eq!(
        ctx.create_image_from_buffer(VX_DF_IMAGE_U8, &a),
        Call::CreateImageFromHandle { context: 7, format: VX_DF_IMAGE_U8, addressing: a }
    );
}

#[test]
fn scalar_inputs_accept_only_their_types() {
    let v = ScalarValue { value: 3i32.to_ne_bytes().to_vec() };
    assert!(!v.accepts_type(VX_TYPE_INVALID));
    assert!(v.accepts_type(VX_TYPE_ENUM));
    assert!(v.accepts_type(VX_TYPE_VENDOR_STRUCT_END - 1));
    assert!(!v.accepts_type(VX_TYPE_VENDOR_STRUCT_END));
    let out = NodeOutputScalar { node: Operand::Earlier(1), param_index: 7, data_type: VX_TYPE_SIZE };
    assert!(out.accepts_type(VX_TYPE_SIZE));
    assert!(!out.accepts_type(VX_TYPE_ENUM));
    let arr = NodeOutputArray { node: Operand::Earlier(1), param_index: 6, item_type: VX_TYPE_KEYPOINT };
    assert!(arr.accepts_item_type(VX_TYPE_KEYPOINT));
    assert!(!arr.accepts_item_type(VX_TYPE_FLOAT32));
}

#[test]
fn a_matrix_read_back_through_its_image_addressing_keeps_its_pixels() {
    // a 3x2 one-byte matrix whose rows are 4 bytes apart
    let data: Vec<u8> = vec![10, 11, 12, 0, 20, 21, 22, 0];
    let a = addressing_for_mat(3, 2, 1, 1, 4);
    let mapped = Addressing { scale_x: VX_SCALE_UNITY, scale_y: VX_SCALE_UNITY, step_x: 1, step_y: 1, ..a };
    assert!(patch_fits(&mapped, 3, 2, data.len()));
    let packed = pack_image_patch(&data, &mapped, 3, 2);
    for y in 0..2usize {
        for x in 0..3usize {
            assert_eq!(packed[y * 3 + x], data[4 * y + x]);
        }
    }
}
