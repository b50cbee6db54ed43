//! The resources that a pipeline's shaders are bound to.

use vstd::prelude::*;

verus! {

/// What kind of resource a binding is.
#[derive(Clone, Debug, PartialEq, Eq)]
pub enum BindType {
    Uniform { dynamic: bool },
    Buffer { dynamic: bool, readonly: bool },
    Sampler,
    SampledTexture { multisampled: bool },
    StorageTexture,
}

/// One resource of a bind group, as the shader names it.
#[derive(Clone, Debug, PartialEq, Eq)]
pub struct Binding {
    pub name: String,
    pub index: u32,
    pub bind_type: BindType,
}

/// Resources that are bound together.
#[derive(Clone, Debug, PartialEq, Eq)]
pub struct BindGroup {
    pub index: u32,
    pub bindings: Vec<Binding>,
}

impl BindGroup {
    pub fn new(index: u32, bindings: Vec<Binding>) -> (bind_group: Self)
        ensures
            bind_group.index == index,
            bind_group.bindings == bindings,
    {
        BindGroup { index, bindings }
    }
}

/// The bind groups of a pipeline, in the order they were added.
#[derive(Clone, Debug)]
pub struct PipelineLayout {
    pub bind_groups: Vec<BindGroup>,
}

impl PipelineLayout {
    pub fn new() -> (layout: Self)
        ensures
            layout.bind_groups@ == Seq::<BindGroup>::empty(),
    {
        PipelineLayout { bind_groups: Vec::new() }
    }
}

} // verus!
