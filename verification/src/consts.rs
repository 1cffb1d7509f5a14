//! Numeric values of the OpenVX enumerations that the library speaks of,
//! as the OpenVX headers define them.
#![allow(non_upper_case_globals)]

use vstd::prelude::*;

verus! {

// ---- vx_status_e ----------------------------------------------------------

/// The status OpenVX returns when a call succeeded.
pub const VX_SUCCESS: i32 = 0;

/// The status OpenVX returns for a generic failure.
pub const VX_FAILURE: i32 = -1;

/// The status OpenVX returns when a reference is not valid.
pub const VX_ERROR_INVALID_REFERENCE: i32 = -12;

/// The status OpenVX returns when a graph does not verify.
pub const VX_ERROR_INVALID_GRAPH: i32 = -18;

// ---- vx_kernel_e ----------------------------------------------------------

pub const VX_KERNEL_COLOR_CONVERT: u32 = 0x01;
pub const VX_KERNEL_CHANNEL_EXTRACT: u32 = 0x02;
pub const VX_KERNEL_CHANNEL_COMBINE: u32 = 0x03;
pub const VX_KERNEL_SOBEL_3x3: u32 = 0x04;
pub const VX_KERNEL_MAGNITUDE: u32 = 0x05;
pub const VX_KERNEL_PHASE: u32 = 0x06;
pub const VX_KERNEL_SCALE_IMAGE: u32 = 0x07;
pub const VX_KERNEL_TABLE_LOOKUP: u32 = 0x08;
pub const VX_KERNEL_HISTOGRAM: u32 = 0x09;
pub const VX_KERNEL_EQUALIZE_HISTOGRAM: u32 = 0x0A;
pub const VX_KERNEL_ABSDIFF: u32 = 0x0B;
pub const VX_KERNEL_MEAN_STDDEV: u32 = 0x0C;
pub const VX_KERNEL_THRESHOLD: u32 = 0x0D;
pub const VX_KERNEL_INTEGRAL_IMAGE: u32 = 0x0E;
pub const VX_KERNEL_DILATE_3x3: u32 = 0x0F;
pub const VX_KERNEL_ERODE_3x3: u32 = 0x10;
pub const VX_KERNEL_MEDIAN_3x3: u32 = 0x11;
pub const VX_KERNEL_BOX_3x3: u32 = 0x12;
pub const VX_KERNEL_GAUSSIAN_3x3: u32 = 0x13;
pub const VX_KERNEL_CUSTOM_CONVOLUTION: u32 = 0x14;
pub const VX_KERNEL_GAUSSIAN_PYRAMID: u32 = 0x15;
pub const VX_KERNEL_ACCUMULATE: u32 = 0x16;
pub const VX_KERNEL_ACCUMULATE_WEIGHTED: u32 = 0x17;
pub const VX_KERNEL_ACCUMULATE_SQUARE: u32 = 0x18;
pub const VX_KERNEL_MINMAXLOC: u32 = 0x19;
pub const VX_KERNEL_CONVERTDEPTH: u32 = 0x1A;
pub const VX_KERNEL_CANNY_EDGE_DETECTOR: u32 = 0x1B;
pub const VX_KERNEL_AND: u32 = 0x1C;
pub const VX_KERNEL_OR: u32 = 0x1D;
pub const VX_KERNEL_XOR: u32 = 0x1E;
pub const VX_KERNEL_NOT: u32 = 0x1F;
pub const VX_KERNEL_MULTIPLY: u32 = 0x20;
pub const VX_KERNEL_ADD: u32 = 0x21;
pub const VX_KERNEL_SUBTRACT: u32 = 0x22;
pub const VX_KERNEL_WARP_AFFINE: u32 = 0x23;
pub const VX_KERNEL_WARP_PERSPECTIVE: u32 = 0x24;
pub const VX_KERNEL_HARRIS_CORNERS: u32 = 0x25;
pub const VX_KERNEL_FAST_CORNERS: u32 = 0x26;
pub const VX_KERNEL_OPTICAL_FLOW_PYR_LK: u32 = 0x27;
pub const VX_KERNEL_REMAP: u32 = 0x28;
pub const VX_KERNEL_HALFSCALE_GAUSSIAN: u32 = 0x29;

// ---- vx_df_image_e (four character codes, first character lowest) --------

pub const VX_DF_IMAGE_VIRT: u32 = 0x5452_4956;
pub const VX_DF_IMAGE_RGB: u32 = 0x3242_4752;
pub const VX_DF_IMAGE_RGBX: u32 = 0x4142_4752;
pub const VX_DF_IMAGE_NV12: u32 = 0x3231_564E;
pub const VX_DF_IMAGE_NV21: u32 = 0x3132_564E;
pub const VX_DF_IMAGE_UYVY: u32 = 0x5956_5955;
pub const VX_DF_IMAGE_YUYV: u32 = 0x5659_5559;
pub const VX_DF_IMAGE_IYUV: u32 = 0x5655_5949;
pub const VX_DF_IMAGE_YUV4: u32 = 0x3456_5559;
pub const VX_DF_IMAGE_U8: u32 = 0x3830_3055;
pub const VX_DF_IMAGE_U16: u32 = 0x3631_3055;
pub const VX_DF_IMAGE_S16: u32 = 0x3631_3053;
pub const VX_DF_IMAGE_U32: u32 = 0x3233_3055;
pub const VX_DF_IMAGE_S32: u32 = 0x3233_3053;

// ---- vx_type_e -----------------------------------------------------------

pub const VX_TYPE_INVALID: u32 = 0x000;
pub const VX_TYPE_CHAR: u32 = 0x001;
pub const VX_TYPE_INT8: u32 = 0x002;
pub const VX_TYPE_UINT8: u32 = 0x003;
pub const VX_TYPE_INT16: u32 = 0x004;
pub const VX_TYPE_UINT16: u32 = 0x005;
pub const VX_TYPE_INT32: u32 = 0x006;
pub const VX_TYPE_UINT32: u32 = 0x007;
pub const VX_TYPE_INT64: u32 = 0x008;
pub const VX_TYPE_UINT64: u32 = 0x009;
pub const VX_TYPE_FLOAT32: u32 = 0x00A;
pub const VX_TYPE_FLOAT64: u32 = 0x00B;
pub const VX_TYPE_ENUM: u32 = 0x00C;
pub const VX_TYPE_SIZE: u32 = 0x00D;
pub const VX_TYPE_DF_IMAGE: u32 = 0x00E;
pub const VX_TYPE_BOOL: u32 = 0x010;
pub const VX_TYPE_RECTANGLE: u32 = 0x020;
pub const VX_TYPE_KEYPOINT: u32 = 0x021;
pub const VX_TYPE_COORDINATES2D: u32 = 0x022;
pub const VX_TYPE_COORDINATES3D: u32 = 0x023;
pub const VX_TYPE_USER_STRUCT_START: u32 = 0x100;
pub const VX_TYPE_VENDOR_STRUCT_START: u32 = 0x400;
pub const VX_TYPE_VENDOR_STRUCT_END: u32 = 0x7FF;

// ---- vx_channel_e --------------------------------------------------------

pub const VX_CHANNEL_0: u32 = 0x9000;
pub const VX_CHANNEL_1: u32 = 0x9001;
pub const VX_CHANNEL_2: u32 = 0x9002;
pub const VX_CHANNEL_3: u32 = 0x9003;
pub const VX_CHANNEL_R: u32 = 0x9010;
pub const VX_CHANNEL_G: u32 = 0x9011;
pub const VX_CHANNEL_B: u32 = 0x9012;
pub const VX_CHANNEL_A: u32 = 0x9013;
pub const VX_CHANNEL_Y: u32 = 0x9014;
pub const VX_CHANNEL_U: u32 = 0x9015;
pub const VX_CHANNEL_V: u32 = 0x9016;

// ---- vx_image_attribute_e ------------------------------------------------

pub const VX_IMAGE_WIDTH: u32 = 0x80F00;
pub const VX_IMAGE_HEIGHT: u32 = 0x80F01;
pub const VX_IMAGE_FORMAT: u32 = 0x80F02;
pub const VX_IMAGE_PLANES: u32 = 0x80F03;

// ---- vx_graph_attribute_e ------------------------------------------------

pub const VX_GRAPH_NUMNODES: u32 = 0x80200;
pub const VX_GRAPH_PERFORMANCE: u32 = 0x80202;
pub const VX_GRAPH_NUMPARAMETERS: u32 = 0x80203;

// ---- vx_memory_type_e and vx_accessor_e ----------------------------------

pub const VX_MEMORY_TYPE_NONE: u32 = 0xE000;
pub const VX_MEMORY_TYPE_HOST: u32 = 0xE001;
pub const VX_READ_ONLY: u32 = 0x11001;
pub const VX_WRITE_ONLY: u32 = 0x11002;
pub const VX_READ_AND_WRITE: u32 = 0x11003;

/// The fixed-point unit of the scale fields of an image patch addressing.
pub const VX_SCALE_UNITY: u32 = 1024;

} // verus!
