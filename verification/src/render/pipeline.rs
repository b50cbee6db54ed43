//! The description of a render pipeline, and a builder that puts one together.

use crate::asset::{AssetStorage, Handle, HandleId};
use crate::render::pipeline_layout::{BindGroup, PipelineLayout};
use crate::render::resource_name::DRAW_TARGET_ASSIGNED_MESHES;
use crate::render::shader::{Shader, ShaderStages};
use crate::render::state_descriptors::{
    BlendDescriptor, ColorStateDescriptor, ColorWrite, CompareFunction, CullMode,
    DepthStencilStateDescriptor, FrontFace, IndexFormat, PrimitiveTopology,
    RasterizationStateDescriptor, StencilStateFaceDescriptor,
};
use crate::render::texture::TextureFormat;
use crate::render::vertex_buffer_descriptor::VertexBufferDescriptor;
use vstd::prelude::*;

verus! {

/// Where a pipeline's layout comes from: given by hand, or read off the
/// shaders, which may not have happened yet.
#[derive(Clone, Debug)]
pub enum PipelineLayoutType {
    Manual(PipelineLayout),
    Reflected(Option<PipelineLayout>),
}

impl PipelineLayoutType {
    /// The layout, where there is one.
    pub open spec fn layout(self) -> Option<PipelineLayout> {
        match self {
            PipelineLayoutType::Reflected(layout) => layout,
            PipelineLayoutType::Manual(layout) => Some(layout),
        }
    }

    /// The same kind of layout holding `layout`.
    pub open spec fn with_layout(self, layout: PipelineLayout) -> Self {
        match self {
            PipelineLayoutType::Reflected(_) => PipelineLayoutType::Reflected(Some(layout)),
            PipelineLayoutType::Manual(_) => PipelineLayoutType::Manual(layout),
        }
    }

    /// The bind groups of a layout given by hand; none for a reflected one,
    /// which gives way as soon as a bind group is added by hand.
    pub open spec fn manual_bind_groups(self) -> Seq<BindGroup> {
        match self {
            PipelineLayoutType::Reflected(_) => Seq::empty(),
            PipelineLayoutType::Manual(layout) => layout.bind_groups@,
        }
    }
}

/// A descriptor given by hand, or read off the shaders.
#[derive(Clone, Debug)]
pub enum DescriptorType<T> {
    Manual(T),
    Reflected(Option<T>),
}

#[derive(Clone, Debug)]
pub struct PipelineDescriptor {
    pub name: Option<String>,
    pub draw_targets: Vec<String>,
    pub layout: PipelineLayoutType,
    pub shader_stages: ShaderStages,
    pub reflect_vertex_buffer_descriptors: bool,
    pub rasterization_state: Option<RasterizationStateDescriptor>,
    /// The primitive topology used to interpret vertices.
    pub primitive_topology: PrimitiveTopology,
    /// The effect of draw calls on the color aspect of the output target.
    pub color_states: Vec<ColorStateDescriptor>,
    /// The effect of draw calls on the depth and stencil aspects of the output target, if any.
    pub depth_stencil_state: Option<DepthStencilStateDescriptor>,
    /// The format of any index buffers used with this pipeline.
    pub index_format: IndexFormat,
    /// The format of any vertex buffers used with this pipeline.
    pub vertex_buffer_descriptors: Vec<VertexBufferDescriptor>,
    /// The number of samples calculated per pixel (for MSAA).
    pub sample_count: u32,
    /// Bitmask that restricts the samples of a pixel modified by this pipeline.
    pub sample_mask: u32,
    /// When enabled, produces another sample mask per pixel based on the alpha output value, that
    /// is ANDed with the sample_mask and the primitive coverage to restrict the set of samples
    /// affected by a primitive.
    /// The implicit mask produced for alpha of zero is guaranteed to be zero, and for alpha of one
    /// is guaranteed to be all 1-s.
    pub alpha_to_coverage_enabled: bool,
}

/// The rasterization state that a new pipeline starts with: front faces wind
/// counter-clockwise, back faces are culled, and there is no depth bias.
pub open spec fn initial_rasterization_state() -> RasterizationStateDescriptor {
    RasterizationStateDescriptor {
        front_face: FrontFace::Ccw,
        cull_mode: CullMode::Back,
        depth_bias: 0,
        depth_bias_slope_scale_bits: 0,
        depth_bias_clamp_bits: 0,
    }
}

/// The depth and stencil state of the standard configuration: a 32-bit depth
/// buffer that is written where the fragment is nearer, and no stencil test.
pub open spec fn standard_depth_stencil_state() -> DepthStencilStateDescriptor {
    DepthStencilStateDescriptor {
        format: TextureFormat::Depth32Float,
        depth_write_enabled: true,
        depth_compare: CompareFunction::Less,
        stencil_front: StencilStateFaceDescriptor::ignore(),
        stencil_back: StencilStateFaceDescriptor::ignore(),
        stencil_read_mask: 0,
        stencil_write_mask: 0,
    }
}

/// The color state of the standard configuration: an sRGB target in BGRA
/// order, of which every channel is replaced.
pub open spec fn standard_color_state() -> ColorStateDescriptor {
    ColorStateDescriptor {
        format: TextureFormat::Bgra8UnormSrgb,
        color_blend: BlendDescriptor::replace(),
        alpha_blend: BlendDescriptor::replace(),
        write_mask: ColorWrite::all(),
    }
}

impl PipelineDescriptor {
    /// Whether this is the pipeline that `new` makes of `name` and of the
    /// vertex shader with the id `vertex_shader`: reflected layout and vertex
    /// buffers, a triangle list with 16-bit indices, one sample with every
    /// bit of the mask set, and nothing else configured.
    pub open spec fn is_initial(self, name: Option<Seq<char>>, vertex_shader: HandleId) -> bool {
        &&& match name {
            Some(name) => self.name matches Some(own) && own@ == name,
            None => self.name is None,
        }
        &&& self.layout == PipelineLayoutType::Reflected(None)
        &&& self.color_states@ == Seq::<ColorStateDescriptor>::empty()
        &&& self.depth_stencil_state is None
        &&& self.draw_targets@ == Seq::<String>::empty()
        &&& self.shader_stages.vertex.id == vertex_shader
        &&& self.shader_stages.fragment is None
        &&& self.vertex_buffer_descriptors@ == Seq::<VertexBufferDescriptor>::empty()
        &&& self.rasterization_state == Some(initial_rasterization_state())
        &&& self.reflect_vertex_buffer_descriptors
        &&& self.primitive_topology == PrimitiveTopology::TriangleList
        &&& self.index_format == IndexFormat::Uint16
        &&& self.sample_count == 1
        &&& self.sample_mask == u32::MAX
        &&& !self.alpha_to_coverage_enabled
    }

    /// The pipeline in its initial configuration.
    fn new(name: Option<&str>, vertex_shader: Handle<Shader>) -> (pipeline: Self)
        ensures
            pipeline.is_initial(
                (match name {
                    Some(name) => Some(name@),
                    None => None,
                }),
                vertex_shader.id,
            ),
            pipeline.shader_stages.vertex == vertex_shader,
    {
        PipelineDescriptor {
            name: match name {
                Some(name) => Some(name.to_owned()),
                None => None,
            },
            layout: PipelineLayoutType::Reflected(None),
            color_states: Vec::new(),
            depth_stencil_state: None,
            draw_targets: Vec::new(),
            shader_stages: ShaderStages::new(vertex_shader),
            vertex_buffer_descriptors: Vec::new(),
            rasterization_state: Some(
                RasterizationStateDescriptor {
                    front_face: FrontFace::Ccw,
                    cull_mode: CullMode::Back,
                    depth_bias: 0,
                    depth_bias_slope_scale_bits: 0,
                    depth_bias_clamp_bits: 0,
                },
            ),
            reflect_vertex_buffer_descriptors: true,
            primitive_topology: PrimitiveTopology::TriangleList,
            index_format: IndexFormat::Uint16,
            sample_count: 1,
            sample_mask: u32::MAX,
            alpha_to_coverage_enabled: false,
        }
    }

    /// The layout, where there is one: always for one given by hand, and for
    /// a reflected one once it has been read off the shaders.
    pub fn get_layout(&self) -> (layout: Option<&PipelineLayout>)
        ensures
            (match layout {
                Some(layout) => self.layout.layout() == Some(*layout),
                None => self.layout.layout() is None,
            }),
    {
        match &self.layout {
            PipelineLayoutType::Reflected(layout) => layout.as_ref(),
            PipelineLayoutType::Manual(layout) => Some(layout),
        }
    }

    /// The layout, to be changed in place. Whatever the caller makes of it is
    /// the pipeline's layout afterwards; nothing else of the pipeline changes.
    pub fn get_layout_mut(&mut self) -> (layout: Option<&mut PipelineLayout>)
        ensures
            (match layout {
                Some(layout) => old(self).layout.layout() == Some(*layout) && *final(self) == (
                PipelineDescriptor {
                    layout: old(self).layout.with_layout(*final(layout)),
                    ..*old(self)
                }),
                None => old(self).layout.layout() is None && *final(self) == *old(self),
            }),
    {
        match &mut self.layout {
            PipelineLayoutType::Reflected(layout) => layout.as_mut(),
            PipelineLayoutType::Manual(layout) => Some(layout),
        }
    }
}

impl PipelineDescriptor {
    /// Begins a pipeline called `name` with `vertex_shader`, which goes into
    /// `shader_storage`.
    pub fn build<'a>(
        name: &str,
        shader_storage: &'a mut AssetStorage<Shader>,
        vertex_shader: Shader,
    ) -> (builder: PipelineBuilder<'a>)
        ensures
            builder.pipeline.is_initial(Some(name@), old(shader_storage)@.len() as HandleId),
            builder.shader_storage@ == old(shader_storage)@.push(vertex_shader),
            *final(builder.shader_storage) == *final(shader_storage),
    {
        PipelineBuilder::new(name, shader_storage, vertex_shader)
    }
}

/// Puts a [`PipelineDescriptor`] together step by step. The shaders given to
/// it go into the shader store it was made with.
pub struct PipelineBuilder<'a> {
    pub pipeline: PipelineDescriptor,
    pub shader_storage: &'a mut AssetStorage<Shader>,
}

impl<'a> PipelineBuilder<'a> {
    /// Whether `self` is `before` with the pipeline replaced by `pipeline`:
    /// the builder still works on the same shader store, and has not touched
    /// it.
    #[verifier::inline]
    pub open spec fn only_pipeline_changed(
        self,
        before: Self,
        pipeline: PipelineDescriptor,
    ) -> bool {
        &&& self.pipeline == pipeline
        &&& self.shader_storage == before.shader_storage
    }

    /// Stores `vertex_shader` in `shader_storage` and begins a pipeline called
    /// `name` with it, otherwise in its initial configuration.
    pub fn new(
        name: &str,
        shader_storage: &'a mut AssetStorage<Shader>,
        vertex_shader: Shader,
    ) -> (builder: Self)
        ensures
            builder.pipeline.is_initial(Some(name@), old(shader_storage)@.len() as HandleId),
            builder.shader_storage@ == old(shader_storage)@.push(vertex_shader),
            *final(builder.shader_storage) == *final(shader_storage),
    {
        let vertex_shader_handle = shader_storage.add(vertex_shader);
        PipelineBuilder {
            pipeline: PipelineDescriptor::new(Some(name), vertex_shader_handle),
            shader_storage,
        }
    }

    /// The pipeline as built; the builder lets go of the shader store.
    pub fn finish(self) -> (pipeline: PipelineDescriptor)
        ensures
            pipeline == self.pipeline,
            *final(self.shader_storage) == *old(self.shader_storage),
    {
        self.pipeline
    }

    /// Stores `fragment_shader` in the shader store and makes it the
    /// pipeline's fragment shader.
    pub fn with_fragment_shader(self, fragment_shader: Shader) -> (builder: Self)
        ensures
            builder.pipeline == (PipelineDescriptor {
                shader_stages: builder.pipeline.shader_stages,
                ..self.pipeline
            }),
            builder.pipeline.shader_stages.vertex == self.pipeline.shader_stages.vertex,
            builder.pipeline.shader_stages.fragment matches Some(handle) && handle.id == old(
                self.shader_storage,
            )@.len(),
            builder.shader_storage@ == old(self.shader_storage)@.push(fragment_shader),
            *final(builder.shader_storage) == *final(self.shader_storage),
    {
        let mut builder = self;
        let fragment_shader_handle = builder.shader_storage.add(fragment_shader);
        builder.pipeline.shader_stages.fragment = Some(fragment_shader_handle);
        builder
    }

    pub fn add_color_state(self, color_state_descriptor: ColorStateDescriptor) -> (builder: Self)
        ensures
            builder.only_pipeline_changed(
                self,
                (PipelineDescriptor {
                    color_states: builder.pipeline.color_states,
                    ..self.pipeline
                }),
            ),
            builder.pipeline.color_states@ == self.pipeline.color_states@.push(
                color_state_descriptor,
            ),
    {
        let mut builder = self;
        builder.pipeline.color_states.push(color_state_descriptor);
        builder
    }

    /// Sets the depth and stencil state, which must not have been set before.
    pub fn with_depth_stencil_state(
        self,
        depth_stencil_state: DepthStencilStateDescriptor,
    ) -> (builder: Self)
        requires
            self.pipeline.depth_stencil_state is None,
        ensures
            builder.only_pipeline_changed(
                self,
                (PipelineDescriptor {
                    depth_stencil_state: Some(depth_stencil_state),
                    ..self.pipeline
                }),
            ),
    {
        let mut builder = self;
        builder.pipeline.depth_stencil_state = Some(depth_stencil_state);
        builder
    }

    /// Adds `bind_group` to the layout given by hand. A reflected layout is
    /// first replaced by an empty one given by hand.
    pub fn add_bind_group(self, bind_group: BindGroup) -> (builder: Self)
        ensures
            builder.only_pipeline_changed(
                self,
                (PipelineDescriptor { layout: builder.pipeline.layout, ..self.pipeline }),
            ),
            builder.pipeline.layout is Manual,
            builder.pipeline.layout.manual_bind_groups()
                == self.pipeline.layout.manual_bind_groups().push(bind_group),
    {
        let mut builder = self;
        if let PipelineLayoutType::Reflected(_) = builder.pipeline.layout {
            builder.pipeline.layout = PipelineLayoutType::Manual(PipelineLayout::new());
        }
        if let PipelineLayoutType::Manual(ref mut layout) = builder.pipeline.layout {
            layout.bind_groups.push(bind_group);
        }
        builder
    }

    /// Adds `vertex_buffer_descriptor`; from then on the vertex buffers are
    /// no longer read off the shaders.
    pub fn add_vertex_buffer_descriptor(
        self,
        vertex_buffer_descriptor: VertexBufferDescriptor,
    ) -> (builder: Self)
        ensures
            builder.only_pipeline_changed(
                self,
                (PipelineDescriptor {
                    reflect_vertex_buffer_descriptors: false,
                    vertex_buffer_descriptors: builder.pipeline.vertex_buffer_descriptors,
                    ..self.pipeline
                }),
            ),
            builder.pipeline.vertex_buffer_descriptors@
                == self.pipeline.vertex_buffer_descriptors@.push(vertex_buffer_descriptor),
    {
        let mut builder = self;
        builder.pipeline.reflect_vertex_buffer_descriptors = false;
        builder.pipeline.vertex_buffer_descriptors.push(vertex_buffer_descriptor);
        builder
    }

    pub fn with_index_format(self, index_format: IndexFormat) -> (builder: Self)
        ensures
            builder.only_pipeline_changed(
                self,
                (PipelineDescriptor { index_format, ..self.pipeline }),
            ),
    {
        let mut builder = self;
        builder.pipeline.index_format = index_format;
        builder
    }

    /// Adds the draw target called `name` after those already there.
    pub fn add_draw_target(self, name: &str) -> (builder: Self)
        ensures
            builder.only_pipeline_changed(
                self,
                (PipelineDescriptor {
                    draw_targets: builder.pipeline.draw_targets,
                    ..self.pipeline
                }),
            ),
            builder.pipeline.draw_targets@.len() == self.pipeline.draw_targets@.len() + 1,
            builder.pipeline.draw_targets@.drop_last() == self.pipeline.draw_targets@,
            builder.pipeline.draw_targets@.last()@ == name@,
    {
        let mut builder = self;
        builder.pipeline.draw_targets.push(name.to_owned());
        builder
    }

    pub fn with_rasterization_state(
        self,
        rasterization_state: RasterizationStateDescriptor,
    ) -> (builder: Self)
        ensures
            builder.only_pipeline_changed(
                self,
                (PipelineDescriptor {
                    rasterization_state: Some(rasterization_state),
                    ..self.pipeline
                }),
            ),
    {
        let mut builder = self;
        builder.pipeline.rasterization_state = Some(rasterization_state);
        builder
    }

    pub fn with_primitive_topology(self, primitive_topology: PrimitiveTopology) -> (builder: Self)
        ensures
            builder.only_pipeline_changed(
                self,
                (PipelineDescriptor { primitive_topology, ..self.pipeline }),
            ),
    {
        let mut builder = self;
        builder.pipeline.primitive_topology = primitive_topology;
        builder
    }

    pub fn with_sample_count(self, sample_count: u32) -> (builder: Self)
        ensures
            builder.only_pipeline_changed(
                self,
                (PipelineDescriptor { sample_count, ..self.pipeline }),
            ),
    {
        let mut builder = self;
        builder.pipeline.sample_count = sample_count;
        builder
    }

    pub fn with_alpha_to_coverage_enabled(self, alpha_to_coverage_enabled: bool) -> (builder: Self)
        ensures
            builder.only_pipeline_changed(
                self,
                (PipelineDescriptor { alpha_to_coverage_enabled, ..self.pipeline }),
            ),
    {
        let mut builder = self;
        builder.pipeline.alpha_to_coverage_enabled = alpha_to_coverage_enabled;
        builder
    }

    pub fn with_sample_mask(self, sample_mask: u32) -> (builder: Self)
        ensures
            builder.only_pipeline_changed(
                self,
                (PipelineDescriptor { sample_mask, ..self.pipeline }),
            ),
    {
        let mut builder = self;
        builder.pipeline.sample_mask = sample_mask;
        builder
    }

    /// Configures what most pipelines share: the standard depth and stencil
    /// state, which must not have been set before, one more color state, the
    /// standard one, and one more draw target, that of the assigned meshes.
    pub fn with_standard_config(self) -> (builder: Self)
        requires
            self.pipeline.depth_stencil_state is None,
        ensures
            builder.only_pipeline_changed(
                self,
                (PipelineDescriptor {
                    depth_stencil_state: Some(standard_depth_stencil_state()),
                    color_states: builder.pipeline.color_states,
                    draw_targets: builder.pipeline.draw_targets,
                    ..self.pipeline
                }),
            ),
            builder.pipeline.color_states@ == self.pipeline.color_states@.push(
                standard_color_state(),
            ),
            builder.pipeline.draw_targets@.len() == self.pipeline.draw_targets@.len() + 1,
            builder.pipeline.draw_targets@.drop_last() == self.pipeline.draw_targets@,
            builder.pipeline.draw_targets@.last()@ == DRAW_TARGET_ASSIGNED_MESHES@,
    {
        self.with_depth_stencil_state(
            DepthStencilStateDescriptor {
                format: TextureFormat::Depth32Float,
                depth_write_enabled: true,
                depth_compare: CompareFunction::Less,
                stencil_front: StencilStateFaceDescriptor::ignore(),
                stencil_back: StencilStateFaceDescriptor::ignore(),
                stencil_read_mask: 0,
                stencil_write_mask: 0,
            },
        ).add_color_state(
            ColorStateDescriptor {
                format: TextureFormat::Bgra8UnormSrgb,
                color_blend: BlendDescriptor::replace(),
                alpha_blend: BlendDescriptor::replace(),
                write_mask: ColorWrite::all(),
            },
        ).add_draw_target(DRAW_TARGET_ASSIGNED_MESHES)
    }
}

} // verus!
