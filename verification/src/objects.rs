//! OpenVX objects that exist outside any graph under construction, and the
//! single calls that create, query and release them.
use vstd::prelude::*;

use crate::call::{CallModel, Addressing, Call, ObjectKind, Operand, Reply};
use crate::consts::{VX_SUCCESS, VX_TYPE_INVALID, VX_TYPE_VENDOR_STRUCT_END};
use crate::error::{convert_error, ErrorKind};
use crate::graph::{Graph, GraphModel};

verus! {

/// What the library makes of the reply to a call that creates or looks up
/// an object: the handle when the status is `VX_SUCCESS`, the error
/// otherwise.
pub open spec fn reply_outcome(reply: Reply) -> Result<u64, ErrorKind> {
    if reply.status == VX_SUCCESS {
        Ok(reply.value)
    } else {
        Err(ErrorKind::ErrorNotImplemented)
    }
}

/// The value of a successful reply, or the error of a failed one.
pub fn accept_reply(reply: Reply) -> (r: Result<u64, ErrorKind>)
    ensures
        r == reply_outcome(reply),
{
    if reply.status != VX_SUCCESS {
        Err(convert_error(reply.status))
    } else {
        Ok(reply.value)
    }
}

/// What a query gives: the bytes OpenVX wrote when `status` is
/// `VX_SUCCESS`, the error otherwise.
pub open spec fn query_outcome(status: i32, data: Seq<u8>, r: Result<Vec<u8>, ErrorKind>) -> bool {
    match r {
        Ok(bytes) => status == VX_SUCCESS && bytes@ == data,
        Err(e) => status != VX_SUCCESS && e == ErrorKind::ErrorNotImplemented,
    }
}

/// The answer to a query whose status is `status` and whose bytes are `data`.
pub fn answer_of(status: i32, data: Vec<u8>) -> (r: Result<Vec<u8>, ErrorKind>)
    ensures
        query_outcome(status, data@, r),
{
    if status != VX_SUCCESS {
        Err(convert_error(status))
    } else {
        Ok(data)
    }
}

/// A data type OpenVX accepts for a scalar or an array item: above
/// `VX_TYPE_INVALID` and below `VX_TYPE_VENDOR_STRUCT_END`.
pub open spec fn valid_data_type(data_type: u32) -> bool {
    VX_TYPE_INVALID < data_type && data_type < VX_TYPE_VENDOR_STRUCT_END
}

impl ObjectKind {
    /// Whether a failure to release an object of this kind stops the
    /// program: it does for scalars and arrays; for the other kinds the
    /// failure is ignored.
    pub open spec fn release_failure_aborts_spec(self, status: i32) -> bool {
        status != VX_SUCCESS && (self is Scalar || self is Array)
    }

    pub fn release_failure_aborts(&self, status: i32) -> (b: bool)
        ensures
            b == self.release_failure_aborts_spec(status),
    {
        status != VX_SUCCESS && match self {
            ObjectKind::Scalar => true,
            ObjectKind::Array => true,
            _ => false,
        }
    }
}

/// The value of an OpenVX scalar: its bytes, as OpenVX reads them, as many
/// as the scalar's type has.
#[derive(Debug, Clone, PartialEq, Eq)]
pub struct ScalarValue {
    pub value: Vec<u8>,
}

/// An OpenVX context.
pub struct Context {
    pub ptr: u64,
}

impl Context {
    /// The call that creates a context.
    pub fn create_call() -> (c: Call<u64, Vec<u8>>)
        ensures
            c@ == Call::<u64, Seq<u8>>::CreateContext,
    {
        Call::CreateContext
    }

    /// The context OpenVX created, or the error when its status is not
    /// `VX_SUCCESS`.
    pub fn new(created: Reply) -> (r: Result<Context, ErrorKind>)
        ensures
            r matches Ok(c) ==> reply_outcome(created) == Ok::<u64, ErrorKind>(c.ptr),
            r matches Err(e) ==> reply_outcome(created) == Err::<u64, ErrorKind>(e),
    {
        match accept_reply(created) {
            Ok(ptr) => Ok(Context { ptr }),
            Err(e) => Err(e),
        }
    }

    /// The call that creates a graph in this context.
    pub fn create_graph(&mut self) -> (c: Call<u64, Vec<u8>>)
        ensures
            c@ == (CallModel::CreateGraph { context: old(self).ptr }),
            final(self).ptr == old(self).ptr,
    {
        Call::CreateGraph { context: self.ptr }
    }

    /// The graph OpenVX created in this context, with no parameter and
    /// nothing planned, or the error when its status is not `VX_SUCCESS`.
    pub fn graph_created(&self, created: Reply) -> (r: Result<Graph, ErrorKind>)
        ensures
            r matches Ok(g) ==> reply_outcome(created) == Ok::<u64, ErrorKind>(g@.handle) && g@ == (
            GraphModel {
                handle: created.value,
                context: self.ptr,
                param_num: 0,
                steps: Seq::empty(),
                values: Seq::empty(),
                dropped: Seq::empty(),
            }) && g@.wf(),
            r matches Err(e) ==> reply_outcome(created) == Err::<u64, ErrorKind>(e),
    {
        match accept_reply(created) {
            Ok(ptr) => Ok(Graph::new(ptr, self.ptr)),
            Err(e) => Err(e),
        }
    }

    /// The call that looks up the kernel `kernel` in this context.
    pub fn get_kernel_by_enum(&self, kernel: u32) -> (c: Call<u64, Vec<u8>>)
        ensures
            c@ == (CallModel::GetKernelByEnum { context: self.ptr, kernel }),
    {
        Call::GetKernelByEnum { context: self.ptr, kernel }
    }

    /// The call that creates an image of the given size and format.
    pub fn create_image(&self, width: u32, height: u32, color: u32) -> (c: Call<u64, Vec<u8>>)
        ensures
            c@ == (CallModel::CreateImage { context: self.ptr, width, height, format: color }),
    {
        Call::CreateImage { context: self.ptr, width, height, format: color }
    }

    /// The call that creates an image over host memory laid out as `addr` says.
    pub fn create_image_from_buffer(&self, format: u32, addr: &Addressing) -> (c: Call<u64, Vec<u8>>)
        ensures
            c@ == (CallModel::CreateImageFromHandle { context: self.ptr, format, addressing: *addr }),
    {
        Call::CreateImageFromHandle { context: self.ptr, format, addressing: *addr }
    }

    /// The call that creates a scalar of type `data_type` holding `val`.
    pub fn create_scalar(&self, data_type: u32, val: &ScalarValue) -> (c: Call<u64, Vec<u8>>)
        requires
            valid_data_type(data_type),
        ensures
            c@ == (CallModel::CreateScalar { context: self.ptr, data_type, value: val.value@ }),
    {
        let bytes = val.value.clone();
        assert(bytes@ =~= val.value@);
        Call::CreateScalar { context: self.ptr, data_type, value: bytes }
    }

    /// The call that creates an array of `capacity` items of type `item_type`.
    pub fn create_array(&self, item_type: u32, capacity: usize) -> (c: Call<u64, Vec<u8>>)
        requires
            valid_data_type(item_type),
            capacity > 0,
        ensures
            c@ == (CallModel::CreateArray { context: self.ptr, item_type, capacity }),
    {
        Call::CreateArray { context: self.ptr, item_type, capacity }
    }

    /// The call that releases the context.
    pub fn release(&self) -> (c: Call<u64, Vec<u8>>)
        ensures
            c@ == (CallModel::Release { kind: ObjectKind::Context, object: self.ptr }),
    {
        Call::Release { kind: ObjectKind::Context, object: self.ptr }
    }
}

/// An OpenVX kernel.
pub struct Kernel {
    pub ptr: u64,
}

impl Kernel {
    /// The kernel OpenVX looked up, or the error when its status is not `VX_SUCCESS`.
    pub fn created(reply: Reply) -> (r: Result<Kernel, ErrorKind>)
        ensures
            r matches Ok(k) ==> reply_outcome(reply) == Ok::<u64, ErrorKind>(k.ptr),
            r matches Err(e) ==> reply_outcome(reply) == Err::<u64, ErrorKind>(e),
    {
        match accept_reply(reply) {
            Ok(ptr) => Ok(Kernel { ptr }),
            Err(e) => Err(e),
        }
    }
}

/// An OpenVX image.
pub struct Image {
    pub ptr: u64,
}

impl Image {
    /// The image OpenVX created, or the error when its status is not `VX_SUCCESS`.
    pub fn created(reply: Reply) -> (r: Result<Image, ErrorKind>)
        ensures
            r matches Ok(i) ==> reply_outcome(reply) == Ok::<u64, ErrorKind>(i.ptr),
            r matches Err(e) ==> reply_outcome(reply) == Err::<u64, ErrorKind>(e),
    {
        match accept_reply(reply) {
            Ok(ptr) => Ok(Image { ptr }),
            Err(e) => Err(e),
        }
    }

    /// The call that queries attribute `attr` of the image, whose value
    /// takes `size` bytes.
    pub fn query(&self, attr: u32, size: usize) -> (c: Call<u64, Vec<u8>>)
        ensures
            c@ == (CallModel::QueryImage { image: self.ptr, attribute: attr, size }),
    {
        Call::QueryImage { image: self.ptr, attribute: attr, size }
    }

    /// The bytes OpenVX wrote for the queried attribute, or the error when
    /// the status of the query is not `VX_SUCCESS`.
    pub fn queried(status: i32, data: Vec<u8>) -> (r: Result<Vec<u8>, ErrorKind>)
        ensures
            query_outcome(status, data@, r),
    {
        answer_of(status, data)
    }

    /// The call that releases the image.
    pub fn release(&self) -> (c: Call<u64, Vec<u8>>)
        ensures
            c@ == (CallModel::Release { kind: ObjectKind::Image, object: self.ptr }),
    {
        Call::Release { kind: ObjectKind::Image, object: self.ptr }
    }
}

/// An OpenVX scalar.
pub struct Scalar {
    pub ptr: u64,
}

impl Scalar {
    /// The scalar OpenVX created, or the error when its status is not `VX_SUCCESS`.
    pub fn created(reply: Reply) -> (r: Result<Scalar, ErrorKind>)
        ensures
            r matches Ok(s) ==> reply_outcome(reply) == Ok::<u64, ErrorKind>(s.ptr),
            r matches Err(e) ==> reply_outcome(reply) == Err::<u64, ErrorKind>(e),
    {
        match accept_reply(reply) {
            Ok(ptr) => Ok(Scalar { ptr }),
            Err(e) => Err(e),
        }
    }

    /// The call that releases the scalar.
    pub fn release(&self) -> (c: Call<u64, Vec<u8>>)
        ensures
            c@ == (CallModel::Release { kind: ObjectKind::Scalar, object: self.ptr }),
    {
        Call::Release { kind: ObjectKind::Scalar, object: self.ptr }
    }
}

/// An OpenVX array.
pub struct Array {
    pub ptr: u64,
}

impl Array {
    /// The array OpenVX created, or the error when its status is not `VX_SUCCESS`.
    pub fn created(reply: Reply) -> (r: Result<Array, ErrorKind>)
        ensures
            r matches Ok(a) ==> reply_outcome(reply) == Ok::<u64, ErrorKind>(a.ptr),
            r matches Err(e) ==> reply_outcome(reply) == Err::<u64, ErrorKind>(e),
    {
        match accept_reply(reply) {
            Ok(ptr) => Ok(Array { ptr }),
            Err(e) => Err(e),
        }
    }

    /// The call that releases the array.
    pub fn release(&self) -> (c: Call<u64, Vec<u8>>)
        ensures
            c@ == (CallModel::Release { kind: ObjectKind::Array, object: self.ptr }),
    {
        Call::Release { kind: ObjectKind::Array, object: self.ptr }
    }
}

/// An object that can be bound to a parameter.
pub trait Reference {
    /// The handle the object stands for.
    spec fn reference(&self) -> u64;

    fn to_ref(&self) -> (r: u64)
        ensures
            r == self.reference(),
    ;
}

impl Reference for Image {
    open spec fn reference(&self) -> u64 {
        self.ptr
    }

    fn to_ref(&self) -> (r: u64) {
        self.ptr
    }
}

impl Reference for Scalar {
    open spec fn reference(&self) -> u64 {
        self.ptr
    }

    fn to_ref(&self) -> (r: u64) {
        self.ptr
    }
}

impl Reference for Array {
    open spec fn reference(&self) -> u64 {
        self.ptr
    }

    fn to_ref(&self) -> (r: u64) {
        self.ptr
    }
}

/// A node of a graph under construction, named by the step that creates it.
pub struct Node {
    pub ptr: Operand,
}

/// A parameter of a node, named by the step that looks it up.
pub struct NodeParam {
    pub ptr: Operand,
}

/// A reply to a call that makes an object gives that object exactly when
/// its status is `VX_SUCCESS`, and then the object is the handle it carries;
/// any other status gives the library's error.
pub proof fn lemma_reply_outcome(reply: Reply)
    ensures
        reply_outcome(reply) is Ok <==> reply.status == VX_SUCCESS,
        reply_outcome(reply) matches Ok(h) ==> h == reply.value,
        reply_outcome(reply) matches Err(e) ==> e == ErrorKind::ErrorNotImplemented,
{
}

/// A failed release stops the program for a scalar or an array and is
/// ignored for the other kinds; a successful release never stops it.
pub proof fn lemma_release_failures(status: i32)
    ensures
        ObjectKind::Scalar.release_failure_aborts_spec(status) == (status != VX_SUCCESS),
        ObjectKind::Array.release_failure_aborts_spec(status) == (status != VX_SUCCESS),
        !ObjectKind::Context.release_failure_aborts_spec(status),
        !ObjectKind::Graph.release_failure_aborts_spec(status),
        !ObjectKind::Image.release_failure_aborts_spec(status),
{
}

} // verus!
