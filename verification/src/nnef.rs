//! Graphs for neural-network descriptions.
use vstd::prelude::*;

use crate::call::{Call, CallModel};
use crate::objects::Context;

verus! {

/// The call that creates the graph for a parsed network description `doc`:
/// an empty graph in `context`; the description itself is not read yet.
pub fn doc_to_graph<D>(context: &mut Context, doc: &D) -> (c: Call<u64, Vec<u8>>)
    ensures
        c@ == (CallModel::CreateGraph { context: old(context).ptr }),
        final(context).ptr == old(context).ptr,
{
    context.create_graph()
}

} // verus!
