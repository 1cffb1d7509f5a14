//! OpenVX calls as plain values: what the library asks to be performed, and
//! what comes back.
use vstd::prelude::*;

use crate::error::ErrorKind;

verus! {

/// Where a planned call finds an object: a handle that was known when the
/// call was planned, or the value produced by an earlier step of the same
/// graph (its index among the graph's steps).
#[derive(Debug, Clone, Copy, PartialEq, Eq)]
pub enum Operand {
    Handle(u64),
    Earlier(usize),
}

impl Operand {
    /// The operand names no step at or after step `n`.
    pub open spec fn refers_below(self, n: nat) -> bool {
        match self {
            Operand::Handle(_) => true,
            Operand::Earlier(k) => k < n,
        }
    }

    /// The operand names no dropped step.
    pub open spec fn avoids(self, dropped: Seq<bool>) -> bool {
        match self {
            Operand::Handle(_) => true,
            Operand::Earlier(k) => !(k < dropped.len() && dropped[k as int]),
        }
    }

    /// The handle the operand stands for, given the values of the executed steps.
    pub open spec fn resolve_spec(self, values: Seq<u64>) -> u64 {
        match self {
            Operand::Handle(h) => h,
            Operand::Earlier(k) => values[k as int],
        }
    }

    pub fn resolve(&self, values: &Vec<u64>) -> (h: u64)
        requires
            self.refers_below(values.len() as nat),
        ensures
            h == self.resolve_spec(values@),
    {
        match self {
            Operand::Handle(h) => *h,
            Operand::Earlier(k) => values[*k],
        }
    }
}

/// How the pixels of an image patch are laid out in memory
/// (`vx_imagepatch_addressing_t`).
#[derive(Debug, Clone, Copy, PartialEq, Eq)]
pub struct Addressing {
    pub dim_x: u32,
    pub dim_y: u32,
    pub stride_x: i32,
    pub stride_y: i32,
    pub scale_x: u32,
    pub scale_y: u32,
    pub step_x: u32,
    pub step_y: u32,
}

/// The kinds of OpenVX object the library releases.
#[derive(Debug, Clone, Copy, PartialEq, Eq)]
pub enum ObjectKind {
    Context,
    Graph,
    Image,
    Scalar,
    Array,
}

/// A call as the specifications see it, the bytes of a scalar as a sequence.
pub type CallModel<H> = Call<H, Seq<u8>>;

/// One OpenVX call. `H` is how objects are named: `Operand` while the call is
/// planned, `u64` handles once it is ready to be performed. `B` holds the
/// bytes of a scalar's value: `Vec<u8>` in executable code, `Seq<u8>` in
/// specifications.
#[derive(Debug, Clone, PartialEq, Eq)]
pub enum Call<H, B> {
    CreateContext,
    CreateGraph { context: H },
    GetKernelByEnum { context: H, kernel: u32 },
    CreateImage { context: H, width: u32, height: u32, format: u32 },
    CreateImageFromHandle { context: H, format: u32, addressing: Addressing },
    /// `value` holds the bytes of the scalar, as OpenVX reads them.
    CreateScalar { context: H, data_type: u32, value: B },
    CreateArray { context: H, item_type: u32, capacity: usize },
    CreateVirtualImage { graph: H, width: u32, height: u32, format: u32 },
    CreateVirtualScalar { graph: H, data_type: u32 },
    CreateVirtualArray { graph: H, item_type: u32, capacity: usize },
    CreateGenericNode { graph: H, kernel: H },
    GetParameterByIndex { node: H, index: u32 },
    AddParameterToGraph { graph: H, parameter: H },
    SetGraphParameterByIndex { graph: H, graph_index: H, reference: H },
    SetParameterByIndex { node: H, index: u32, reference: H },
    /// `size` is the number of bytes of the attribute's value.
    QueryGraph { graph: H, attribute: u32, size: usize },
    /// `size` is the number of bytes of the attribute's value.
    QueryImage { image: H, attribute: u32, size: usize },
    VerifyGraph { graph: H },
    ProcessGraph { graph: H },
    Release { kind: ObjectKind, object: H },
}

impl<H, B> Call<H, B> {
    /// The call adds a parameter to a graph.
    pub open spec fn is_add_parameter(self) -> bool {
        self is AddParameterToGraph
    }

    /// The call creates or looks up an object and hands back its handle.
    pub open spec fn returns_value(self) -> bool {
        match self {
            Call::CreateContext => true,
            Call::CreateGraph { .. } => true,
            Call::GetKernelByEnum { .. } => true,
            Call::CreateImage { .. } => true,
            Call::CreateImageFromHandle { .. } => true,
            Call::CreateScalar { .. } => true,
            Call::CreateArray { .. } => true,
            Call::CreateVirtualImage { .. } => true,
            Call::CreateVirtualScalar { .. } => true,
            Call::CreateVirtualArray { .. } => true,
            Call::CreateGenericNode { .. } => true,
            Call::GetParameterByIndex { .. } => true,
            _ => false,
        }
    }

    /// The value a successful call leaves for later steps: the handle OpenVX
    /// handed back, the graph parameter index for an added parameter, 0
    /// otherwise.
    pub open spec fn value_after(self, reply: Reply, param_num: nat) -> u64 {
        if self.returns_value() {
            reply.value
        } else if self.is_add_parameter() {
            param_num as u64
        } else {
            0
        }
    }

}

impl<B> Call<Operand, B> {
    /// Every object the call names was produced before step `n`.
    pub open spec fn refers_below(self, n: nat) -> bool {
        match self {
            Call::CreateContext => true,
            Call::CreateGraph { context } => context.refers_below(n),
            Call::GetKernelByEnum { context, .. } => context.refers_below(n),
            Call::CreateImage { context, .. } => context.refers_below(n),
            Call::CreateImageFromHandle { context, .. } => context.refers_below(n),
            Call::CreateScalar { context, .. } => context.refers_below(n),
            Call::CreateArray { context, .. } => context.refers_below(n),
            Call::CreateVirtualImage { graph, .. } => graph.refers_below(n),
            Call::CreateVirtualScalar { graph, .. } => graph.refers_below(n),
            Call::CreateVirtualArray { graph, .. } => graph.refers_below(n),
            Call::CreateGenericNode { graph, kernel } => graph.refers_below(n) && kernel.refers_below(n),
            Call::GetParameterByIndex { node, .. } => node.refers_below(n),
            Call::AddParameterToGraph { graph, parameter } => graph.refers_below(n) && parameter.refers_below(n),
            Call::SetGraphParameterByIndex { graph, graph_index, reference } => graph.refers_below(n) && graph_index.refers_below(n) && reference.refers_below(n),
            Call::SetParameterByIndex { node, reference, .. } => node.refers_below(n) && reference.refers_below(n),
            Call::QueryGraph { graph, .. } => graph.refers_below(n),
            Call::QueryImage { image, .. } => image.refers_below(n),
            Call::VerifyGraph { graph } => graph.refers_below(n),
            Call::ProcessGraph { graph } => graph.refers_below(n),
            Call::Release { object, .. } => object.refers_below(n),
        }
    }

    /// The call names no object of a dropped step.
    pub open spec fn avoids(self, dropped: Seq<bool>) -> bool {
        match self {
            Call::CreateContext => true,
            Call::CreateGraph { context } => context.avoids(dropped),
            Call::GetKernelByEnum { context, .. } => context.avoids(dropped),
            Call::CreateImage { context, .. } => context.avoids(dropped),
            Call::CreateImageFromHandle { context, .. } => context.avoids(dropped),
            Call::CreateScalar { context, .. } => context.avoids(dropped),
            Call::CreateArray { context, .. } => context.avoids(dropped),
            Call::CreateVirtualImage { graph, .. } => graph.avoids(dropped),
            Call::CreateVirtualScalar { graph, .. } => graph.avoids(dropped),
            Call::CreateVirtualArray { graph, .. } => graph.avoids(dropped),
            Call::CreateGenericNode { graph, kernel } => graph.avoids(dropped) && kernel.avoids(dropped),
            Call::GetParameterByIndex { node, .. } => node.avoids(dropped),
            Call::AddParameterToGraph { graph, parameter } => graph.avoids(dropped) && parameter.avoids(dropped),
            Call::SetGraphParameterByIndex { graph, graph_index, reference } => graph.avoids(dropped) && graph_index.avoids(dropped) && reference.avoids(dropped),
            Call::SetParameterByIndex { node, reference, .. } => node.avoids(dropped) && reference.avoids(dropped),
            Call::QueryGraph { graph, .. } => graph.avoids(dropped),
            Call::QueryImage { image, .. } => image.avoids(dropped),
            Call::VerifyGraph { graph } => graph.avoids(dropped),
            Call::ProcessGraph { graph } => graph.avoids(dropped),
            Call::Release { object, .. } => object.avoids(dropped),
        }
    }
}

impl Call<Operand, Seq<u8>> {
    /// The call with every operand replaced by the handle it stands for.
    pub open spec fn resolve_spec(self, v: Seq<u64>) -> Call<u64, Seq<u8>> {
        match self {
            Call::CreateContext => Call::CreateContext,
            Call::CreateGraph { context } => Call::CreateGraph { context: context.resolve_spec(v) },
            Call::GetKernelByEnum { context, kernel } => Call::GetKernelByEnum { context: context.resolve_spec(v), kernel: kernel },
            Call::CreateImage { context, width, height, format } => Call::CreateImage { context: context.resolve_spec(v), width: width, height: height, format: format },
            Call::CreateImageFromHandle { context, format, addressing } => Call::CreateImageFromHandle { context: context.resolve_spec(v), format: format, addressing: addressing },
            Call::CreateScalar { context, data_type, value } => Call::CreateScalar { context: context.resolve_spec(v), data_type: data_type, value: value },
            Call::CreateArray { context, item_type, capacity } => Call::CreateArray { context: context.resolve_spec(v), item_type: item_type, capacity: capacity },
            Call::CreateVirtualImage { graph, width, height, format } => Call::CreateVirtualImage { graph: graph.resolve_spec(v), width: width, height: height, format: format },
            Call::CreateVirtualScalar { graph, data_type } => Call::CreateVirtualScalar { graph: graph.resolve_spec(v), data_type: data_type },
            Call::CreateVirtualArray { graph, item_type, capacity } => Call::CreateVirtualArray { graph: graph.resolve_spec(v), item_type: item_type, capacity: capacity },
            Call::CreateGenericNode { graph, kernel } => Call::CreateGenericNode { graph: graph.resolve_spec(v), kernel: kernel.resolve_spec(v) },
            Call::GetParameterByIndex { node, index } => Call::GetParameterByIndex { node: node.resolve_spec(v), index: index },
            Call::AddParameterToGraph { graph, parameter } => Call::AddParameterToGraph { graph: graph.resolve_spec(v), parameter: parameter.resolve_spec(v) },
            Call::SetGraphParameterByIndex { graph, graph_index, reference } => Call::SetGraphParameterByIndex { graph: graph.resolve_spec(v), graph_index: graph_index.resolve_spec(v), reference: reference.resolve_spec(v) },
            Call::SetParameterByIndex { node, index, reference } => Call::SetParameterByIndex { node: node.resolve_spec(v), index: index, reference: reference.resolve_spec(v) },
            Call::QueryGraph { graph, attribute, size } => Call::QueryGraph { graph: graph.resolve_spec(v), attribute: attribute, size: size },
            Call::QueryImage { image, attribute, size } => Call::QueryImage { image: image.resolve_spec(v), attribute: attribute, size: size },
            Call::VerifyGraph { graph } => Call::VerifyGraph { graph: graph.resolve_spec(v) },
            Call::ProcessGraph { graph } => Call::ProcessGraph { graph: graph.resolve_spec(v) },
            Call::Release { kind, object } => Call::Release { kind: kind, object: object.resolve_spec(v) },
        }
    }
}

impl<H: Copy> View for Call<H, Vec<u8>> {
    type V = Call<H, Seq<u8>>;

    open spec fn view(&self) -> Call<H, Seq<u8>> {
        match *self {
            Call::CreateContext => Call::CreateContext,
            Call::CreateGraph { context } => Call::CreateGraph { context: context },
            Call::GetKernelByEnum { context, kernel } => Call::GetKernelByEnum { context: context, kernel: kernel },
            Call::CreateImage { context, width, height, format } => Call::CreateImage { context: context, width: width, height: height, format: format },
            Call::CreateImageFromHandle { context, format, addressing } => Call::CreateImageFromHandle { context: context, format: format, addressing: addressing },
            Call::CreateScalar { context, data_type, value } => Call::CreateScalar { context: context, data_type: data_type, value: value@ },
            Call::CreateArray { context, item_type, capacity } => Call::CreateArray { context: context, item_type: item_type, capacity: capacity },
            Call::CreateVirtualImage { graph, width, height, format } => Call::CreateVirtualImage { graph: graph, width: width, height: height, format: format },
            Call::CreateVirtualScalar { graph, data_type } => Call::CreateVirtualScalar { graph: graph, data_type: data_type },
            Call::CreateVirtualArray { graph, item_type, capacity } => Call::CreateVirtualArray { graph: graph, item_type: item_type, capacity: capacity },
            Call::CreateGenericNode { graph, kernel } => Call::CreateGenericNode { graph: graph, kernel: kernel },
            Call::GetParameterByIndex { node, index } => Call::GetParameterByIndex { node: node, index: index },
            Call::AddParameterToGraph { graph, parameter } => Call::AddParameterToGraph { graph: graph, parameter: parameter },
            Call::SetGraphParameterByIndex { graph, graph_index, reference } => Call::SetGraphParameterByIndex { graph: graph, graph_index: graph_index, reference: reference },
            Call::SetParameterByIndex { node, index, reference } => Call::SetParameterByIndex { node: node, index: index, reference: reference },
            Call::QueryGraph { graph, attribute, size } => Call::QueryGraph { graph: graph, attribute: attribute, size: size },
            Call::QueryImage { image, attribute, size } => Call::QueryImage { image: image, attribute: attribute, size: size },
            Call::VerifyGraph { graph } => Call::VerifyGraph { graph: graph },
            Call::ProcessGraph { graph } => Call::ProcessGraph { graph: graph },
            Call::Release { kind, object } => Call::Release { kind: kind, object: object },
        }
    }
}

impl<H: Copy> Call<H, Vec<u8>> {
    /// Whether the call adds a parameter to a graph.
    pub fn adds_parameter(&self) -> (b: bool)
        ensures
            b == self@.is_add_parameter(),
    {
        match self {
            Call::AddParameterToGraph { .. } => true,
            _ => false,
        }
    }

    /// The value a successful call leaves for later steps.
    pub fn value_after_reply(&self, reply: Reply, param_num: usize) -> (v: u64)
        ensures
            v == self@.value_after(reply, param_num as nat),
    {
        match self {
            Call::CreateContext
            | Call::CreateGraph { .. }
            | Call::GetKernelByEnum { .. }
            | Call::CreateImage { .. }
            | Call::CreateImageFromHandle { .. }
            | Call::CreateScalar { .. }
            | Call::CreateArray { .. }
            | Call::CreateVirtualImage { .. }
            | Call::CreateVirtualScalar { .. }
            | Call::CreateVirtualArray { .. }
            | Call::CreateGenericNode { .. }
            | Call::GetParameterByIndex { .. } => reply.value,
            Call::AddParameterToGraph { .. } => param_num as u64,
            _ => 0,
        }
    }
}

impl Call<Operand, Vec<u8>> {
    /// Replaces every operand by the handle it stands for.
    pub fn resolve(&self, v: &Vec<u64>) -> (c: Call<u64, Vec<u8>>)
        requires
            self.refers_below(v.len() as nat),
        ensures
            c@ == self@.resolve_spec(v@),
    {
        match self {
            Call::CreateContext => Call::CreateContext,
            Call::CreateGraph { context } => Call::CreateGraph { context: context.resolve(v) },
            Call::GetKernelByEnum { context, kernel } => Call::GetKernelByEnum { context: context.resolve(v), kernel: *kernel },
            Call::CreateImage { context, width, height, format } => Call::CreateImage { context: context.resolve(v), width: *width, height: *height, format: *format },
            Call::CreateImageFromHandle { context, format, addressing } => Call::CreateImageFromHandle { context: context.resolve(v), format: *format, addressing: *addressing },
            Call::CreateScalar { context, data_type, value } => {
                let bytes = value.clone();
                assert(bytes@ =~= value@);
                Call::CreateScalar { context: context.resolve(v), data_type: *data_type, value: bytes }
            },
            Call::CreateArray { context, item_type, capacity } => Call::CreateArray { context: context.resolve(v), item_type: *item_type, capacity: *capacity },
            Call::CreateVirtualImage { graph, width, height, format } => Call::CreateVirtualImage { graph: graph.resolve(v), width: *width, height: *height, format: *format },
            Call::CreateVirtualScalar { graph, data_type } => Call::CreateVirtualScalar { graph: graph.resolve(v), data_type: *data_type },
            Call::CreateVirtualArray { graph, item_type, capacity } => Call::CreateVirtualArray { graph: graph.resolve(v), item_type: *item_type, capacity: *capacity },
            Call::CreateGenericNode { graph, kernel } => Call::CreateGenericNode { graph: graph.resolve(v), kernel: kernel.resolve(v) },
            Call::GetParameterByIndex { node, index } => Call::GetParameterByIndex { node: node.resolve(v), index: *index },
            Call::AddParameterToGraph { graph, parameter } => Call::AddParameterToGraph { graph: graph.resolve(v), parameter: parameter.resolve(v) },
            Call::SetGraphParameterByIndex { graph, graph_index, reference } => Call::SetGraphParameterByIndex { graph: graph.resolve(v), graph_index: graph_index.resolve(v), reference: reference.resolve(v) },
            Call::SetParameterByIndex { node, index, reference } => Call::SetParameterByIndex { node: node.resolve(v), index: *index, reference: reference.resolve(v) },
            Call::QueryGraph { graph, attribute, size } => Call::QueryGraph { graph: graph.resolve(v), attribute: *attribute, size: *size },
            Call::QueryImage { image, attribute, size } => Call::QueryImage { image: image.resolve(v), attribute: *attribute, size: *size },
            Call::VerifyGraph { graph } => Call::VerifyGraph { graph: graph.resolve(v) },
            Call::ProcessGraph { graph } => Call::ProcessGraph { graph: graph.resolve(v) },
            Call::Release { kind, object } => Call::Release { kind: *kind, object: object.resolve(v) },
        }
    }
}


/// What a failure of a call means for the operation that made it: the
/// operation returns the error, or the program stops.
#[derive(Debug, Clone, Copy, PartialEq, Eq)]
pub enum OnFailure {
    Propagate,
    Abort,
}

/// A planned call together with what a failure of it means.
#[derive(Debug, Clone, PartialEq, Eq)]
pub struct Step<B> {
    pub call: Call<Operand, B>,
    pub on_failure: OnFailure,
}

/// A step as the specifications see it.
pub type StepModel = Step<Seq<u8>>;

impl View for Step<Vec<u8>> {
    type V = Step<Seq<u8>>;

    open spec fn view(&self) -> Step<Seq<u8>> {
        Step { call: self.call@, on_failure: self.on_failure }
    }
}

/// What OpenVX answered to a call: its status (for a call that creates an
/// object, the status of that object) and the handle it handed back (0 for
/// the other calls).
#[derive(Debug, Clone, Copy, PartialEq, Eq)]
pub struct Reply {
    pub status: i32,
    pub value: u64,
}

/// What the driver of a graph is to do next.
#[derive(Debug, Clone, PartialEq, Eq)]
pub enum Action<B> {
    /// Perform this call and hand its reply back.
    Perform(Call<u64, B>),
    /// Nothing is pending.
    Idle,
}

impl View for Action<Vec<u8>> {
    type V = Action<Seq<u8>>;

    open spec fn view(&self) -> Action<Seq<u8>> {
        match *self {
            Action::Perform(c) => Action::Perform(c@),
            Action::Idle => Action::Idle,
        }
    }
}

/// What a reply meant.
#[derive(Debug, Clone, Copy, PartialEq, Eq)]
pub enum Progress {
    /// The call succeeded.
    Continue,
    /// The call failed and the operation returns this error.
    Failed(ErrorKind),
    /// The call failed and the program stops.
    Abort,
}

} // verus!
