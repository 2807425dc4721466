//! What the host registers to run the simulation.

use crate::node::EvolveTextureNode;
use vstd::prelude::*;

verus! {

/// Name of the execution node in the render graph.
pub const NODE_NAME: &'static str = "evolve_texture";

/// The plugin that wires the simulation into a host application.
pub struct EvolveTexturePlugin;

impl EvolveTexturePlugin {
    /// The name under which the execution node is registered.
    pub fn node_name(&self) -> (r: &'static str)
        ensures
            r@ == NODE_NAME@,
    {
        NODE_NAME
    }

    /// The execution node to register: it starts out loading.
    pub fn node(&self) -> (r: EvolveTextureNode)
        ensures
            r.state is Loading,
    {
        EvolveTextureNode::default()
    }
}

} // verus!
