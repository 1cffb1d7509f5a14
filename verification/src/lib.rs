//! Building and running OpenVX graphs, with every call the library makes
//! planned as a plain value.
//!
//! The library never touches OpenVX itself. Each operation says which calls
//! it needs: an object of the context (`Context`, `Image`, `Kernel`,
//! `Scalar`, `Array`) hands out single `Call` values and interprets the
//! `Reply` that comes back; a `Graph` collects the steps of its operations
//! and is driven by its caller, who performs each call `next_action` names
//! and hands the reply to `complete`.
pub mod consts;
pub mod error;
pub mod call;
pub mod graph;
pub mod objects;
pub mod ops;
pub mod inputs;
pub mod graph_ops;
pub mod patch;
pub mod shape;
pub mod nnef;
pub mod bindings;

pub use call::{
    Action, Addressing, Call, CallModel, ObjectKind, OnFailure, Operand, Progress, Reply, Step,
    StepModel,
};
pub use error::{check_status, convert_error, ErrorKind};
pub use graph::{Graph, GraphModel};
pub use graph_ops::{edge_graph_factory, edge_graph_prelude, EdgePrelude};
pub use inputs::{
    GraphInput, InputArray, InputImage, InputScalar, NodeOutputArray, NodeOutputImage,
    NodeOutputScalar,
};
pub use objects::{answer_of, Array, Context, Image, Kernel, Node, NodeParam, Reference, Scalar, ScalarValue};
