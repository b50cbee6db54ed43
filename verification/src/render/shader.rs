//! Shaders and the stages of a pipeline that they fill.

use crate::asset::Handle;
use vstd::prelude::*;

verus! {

/// The stage of the pipeline that a shader runs in.
#[derive(Clone, Copy, Debug, PartialEq, Eq, Hash, Structural)]
pub enum ShaderStage {
    Vertex,
    Fragment,
    Compute,
}

/// A shader's program, compiled or as text.
#[derive(Clone, Debug, PartialEq, Eq)]
pub enum ShaderSource {
    Spirv(Vec<u32>),
    Glsl(String),
}

#[derive(Clone, Debug, PartialEq, Eq)]
pub struct Shader {
    pub source: ShaderSource,
    pub stage: ShaderStage,
    pub macros: Option<Vec<String>>,
}

impl Shader {
    /// A shader for `stage` with the GLSL program text `glsl` and no macros.
    pub fn from_glsl(stage: ShaderStage, glsl: &str) -> (shader: Shader)
        ensures
            shader.stage == stage,
            shader.macros is None,
            shader.source matches ShaderSource::Glsl(text) && text@ == glsl@,
    {
        Shader { source: ShaderSource::Glsl(glsl.to_owned()), stage, macros: None }
    }
}

/// The shaders of a pipeline: always a vertex shader, and a fragment shader
/// where there is one.
#[derive(Clone, Debug)]
pub struct ShaderStages {
    pub vertex: Handle<Shader>,
    pub fragment: Option<Handle<Shader>>,
}

impl ShaderStages {
    pub fn new(vertex_shader: Handle<Shader>) -> (stages: Self)
        ensures
            stages.vertex == vertex_shader,
            stages.fragment is None,
    {
        ShaderStages { vertex: vertex_shader, fragment: None }
    }
}

} // verus!
