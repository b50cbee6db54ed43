use bevy_app::asset::{AssetStorage, Handle};
use bevy_app::render::pipeline::{
    DescriptorType, PipelineBuilder, PipelineDescriptor, PipelineLayoutType,
};
use bevy_app::render::pipeline_layout::{BindGroup, BindType, Binding, PipelineLayout};
use bevy_app::render::resource_name::{
    DRAW_TARGET_ASSIGNED_MESHES, DRAW_TARGET_MESHES, DRAW_TARGET_UI,
};
use bevy_app::render::shader::{Shader, ShaderSource, ShaderStage};
use bevy_app::render::state_descriptors::{
    BlendDescriptor, BlendFactor, BlendOperation, ColorStateDescriptor, ColorWrite,
    CompareFunction, CullMode, DepthStencilStateDescriptor, FrontFace, IndexFormat,
    PrimitiveTopology, RasterizationStateDescriptor, StencilOperation,
    StencilStateFaceDescriptor, COLOR_WRITE_ALL, COLOR_WRITE_ALPHA, COLOR_WRITE_BLUE,
    COLOR_WRITE_COLOR, COLOR_WRITE_GREEN, COLOR_WRITE_RED,
};
use bevy_app::render::texture::TextureFormat;
use bevy_app::render::vertex_buffer_descriptor::{
    InputStepMode, VertexAttributeDescriptor, VertexBufferDescriptor, VertexFormat,
};

fn vertex_shader() -> Shader {
    Shader::from_glsl(ShaderStage::Vertex, "void main() { gl_Position = vec4(0.0); }")
}

fn fragment_shader() -> Shader {
    Shader::from_glsl(ShaderStage::Fragment, "void main() { }")
}

fn bind_group(index: u32) -> BindGroup {
    BindGroup::new(
        index,
        vec![Binding {
            name: "Camera".to_string(),
            index: 0,
            bind_type: BindType::Uniform { dynamic: false },
        }],
    )
}

fn vertex_buffer(name: &str) -> VertexBufferDescriptor {
    VertexBufferDescriptor {
        name: name.to_string(),
        stride: 12,
        step_mode: InputStepMode::Vertex,
        attributes: vec![VertexAttributeDescriptor {
            name: "Vertex_Position".to_string(),
            offset: 0,
            format: VertexFormat::Float3,
            shader_location: 0,
        }],
    }
}

#[test]
fn shader_from_glsl_keeps_stage_and_text() {
    let shader = Shader::from_glsl(ShaderStage::Compute, "void main() { }");
    assert_eq!(shader.stage, ShaderStage::Compute);
    assert_eq!(shader.source, ShaderSource::Glsl("void main() { }".to_string()));
    assert_eq!(shader.macros, None);
}

#[test]
fn asset_storage_hands_out_ids_in_order() {
    let mut storage = AssetStorage::new();
    let first = storage.add(vertex_shader());
    let second = storage.add(fragment_shader());
    assert_eq!(first.id, 0);
    assert_eq!(second.id, 1);
    assert_eq!(storage.get(first), Some(&vertex_shader()));
    assert_eq!(storage.get(second), Some(&fragment_shader()));
    assert_eq!(storage.get(Handle::new(2)), None);
    let copy = second.clone();
    assert_eq!(copy.id, 1);
}

#[test]
fn new_pipeline_has_the_initial_configuration() {
    let mut storage = AssetStorage::new();
    let pipeline = PipelineBuilder::new("forward", &mut storage, vertex_shader()).finish();
    assert_eq!(pipeline.name, Some("forward".to_string()));
    assert!(matches!(pipeline.layout, PipelineLayoutType::Reflected(None)));
    assert!(pipeline.get_layout().is_none());
    assert!(pipeline.color_states.is_empty());
    assert!(pipeline.depth_stencil_state.is_none());
    assert!(pipeline.draw_targets.is_empty());
    assert_eq!(pipeline.shader_stages.vertex.id, 0);
    assert!(pipeline.shader_stages.fragment.is_none());
    assert!(pipeline.vertex_buffer_descriptors.is_empty());
    assert_eq!(
        pipeline.rasterization_state,
        Some(RasterizationStateDescriptor {
            front_face: FrontFace::Ccw,
            cull_mode: CullMode::Back,
            depth_bias: 0,
            depth_bias_slope_scale_bits: 0.0f32.to_bits(),
            depth_bias_clamp_bits: 0.0f32.to_bits(),
        })
    );
    assert!(pipeline.reflect_vertex_buffer_descriptors);
    assert_eq!(pipeline.primitive_topology, PrimitiveTopology::TriangleList);
    assert_eq!(pipeline.index_format, IndexFormat::Uint16);
    assert_eq!(pipeline.sample_count, 1);
    assert_eq!(pipeline.sample_mask, !0);
    assert!(!pipeline.alpha_to_coverage_enabled);
    assert_eq!(storage.get(Handle::new(0)), Some(&vertex_shader()));
    assert_eq!(storage.get(Handle::new(1)), None);
}

#[test]
fn build_is_new() {
    let mut storage = AssetStorage::new();
    storage.add(fragment_shader());
    let pipeline = PipelineDescriptor::build("ui", &mut storage, vertex_shader()).finish();
    assert_eq!(pipeline.name, Some("ui".to_string()));
    // the store already held one shader, so the vertex shader got the id 1
    assert_eq!(pipeline.shader_stages.vertex.id, 1);
    assert_eq!(pipeline.sample_count, 1);
    assert_eq!(storage.get(pipeline.shader_stages.vertex), Some(&vertex_shader()));
}

#[test]
fn fragment_shader_goes_into_the_store() {
    let mut storage = AssetStorage::new();
    let pipeline = PipelineDescriptor::build("forward", &mut storage, vertex_shader())
        .with_fragment_shader(fragment_shader())
        .finish();
    assert_eq!(pipeline.shader_stages.vertex.id, 0);
    let fragment = pipeline.shader_stages.fragment.expect("a fragment shader was set");
    assert_eq!(fragment.id, 1);
    assert_eq!(storage.get(fragment), Some(&fragment_shader()));
    assert_eq!(pipeline.sample_count, 1);
}

#[test]
fn color_states_are_kept_in_order() {
    let first = ColorStateDescriptor {
        format: TextureFormat::Rgba8Unorm,
        color_blend: BlendDescriptor::replace(),
        alpha_blend: BlendDescriptor {
            src_factor: BlendFactor::SrcAlpha,
            dst_factor: BlendFactor::OneMinusSrcAlpha,
            operation: BlendOperation::Add,
        },
        write_mask: ColorWrite { bits: COLOR_WRITE_COLOR },
    };
    let second = ColorStateDescriptor {
        format: TextureFormat::Bgra8Unorm,
        color_blend: BlendDescriptor::replace(),
        alpha_blend: BlendDescriptor::replace(),
        write_mask: ColorWrite::all(),
    };
    let mut storage = AssetStorage::new();
    let pipeline = PipelineDescriptor::build("forward", &mut storage, vertex_shader())
        .add_color_state(first)
        .add_color_state(second)
        .finish();
    assert_eq!(pipeline.color_states, vec![first, second]);
    assert!(pipeline.draw_targets.is_empty());
}

#[test]
fn depth_stencil_state_is_set() {
    let state = DepthStencilStateDescriptor {
        format: TextureFormat::Depth24PlusStencil8,
        depth_write_enabled: false,
        depth_compare: CompareFunction::GreaterEqual,
        stencil_front: StencilStateFaceDescriptor {
            compare: CompareFunction::Equal,
            fail_op: StencilOperation::Zero,
            depth_fail_op: StencilOperation::Keep,
            pass_op: StencilOperation::IncrementClamp,
        },
        stencil_back: StencilStateFaceDescriptor::ignore(),
        stencil_read_mask: 0xff,
        stencil_write_mask: 0x0f,
    };
    let mut storage = AssetStorage::new();
    let pipeline = PipelineDescriptor::build("forward", &mut storage, vertex_shader())
        .with_depth_stencil_state(state.clone())
        .finish();
    assert_eq!(pipeline.depth_stencil_state, Some(state));
}

#[test]
fn first_bind_group_replaces_the_reflected_layout() {
    let mut storage = AssetStorage::new();
    let pipeline = PipelineDescriptor::build("forward", &mut storage, vertex_shader())
        .add_bind_group(bind_group(0))
        .add_bind_group(bind_group(1))
        .finish();
    match &pipeline.layout {
        PipelineLayoutType::Manual(layout) => {
            assert_eq!(layout.bind_groups, vec![bind_group(0), bind_group(1)]);
        }
        PipelineLayoutType::Reflected(_) => panic!("the layout is given by hand"),
    }
    let layout = pipeline.get_layout().expect("there is a layout");
    assert_eq!(layout.bind_groups.len(), 2);
}

#[test]
fn bind_group_discards_a_layout_that_was_reflected() {
    let mut storage = AssetStorage::new();
    let mut builder = PipelineDescriptor::build("forward", &mut storage, vertex_shader());
    let mut reflected = PipelineLayout::new();
    reflected.bind_groups.push(bind_group(7));
    builder.pipeline.layout = PipelineLayoutType::Reflected(Some(reflected));
    let pipeline = builder.add_bind_group(bind_group(0)).finish();
    match &pipeline.layout {
        PipelineLayoutType::Manual(layout) => {
            assert_eq!(layout.bind_groups, vec![bind_group(0)]);
        }
        PipelineLayoutType::Reflected(_) => panic!("the layout is given by hand"),
    }
}

#[test]
fn get_layout_gives_a_reflected_layout_once_there_is_one() {
    let mut storage = AssetStorage::new();
    let mut pipeline = PipelineDescriptor::build("forward", &mut storage, vertex_shader()).finish();
    assert!(pipeline.get_layout().is_none());
    assert!(pipeline.get_layout_mut().is_none());
    let mut reflected = PipelineLayout::new();
    reflected.bind_groups.push(bind_group(3));
    pipeline.layout = PipelineLayoutType::Reflected(Some(reflected));
    assert_eq!(pipeline.get_layout().map(|layout| layout.bind_groups.len()), Some(1));
    pipeline.get_layout_mut().expect("there is a layout").bind_groups.push(bind_group(4));
    match &pipeline.layout {
        PipelineLayoutType::Reflected(Some(layout)) => {
            assert_eq!(layout.bind_groups, vec![bind_group(3), bind_group(4)]);
        }
        _ => panic!("the layout is still a reflected one"),
    }
}

#[test]
fn get_layout_mut_changes_a_manual_layout_in_place() {
    let mut storage = AssetStorage::new();
    let mut pipeline = PipelineDescriptor::build("forward", &mut storage, vertex_shader())
        .add_bind_group(bind_group(0))
        .with_sample_count(8)
        .finish();
    pipeline.get_layout_mut().expect("there is a layout").bind_groups.clear();
    assert_eq!(pipeline.get_layout().map(|layout| layout.bind_groups.len()), Some(0));
    assert!(matches!(pipeline.layout, PipelineLayoutType::Manual(_)));
    assert_eq!(pipeline.sample_count, 8);
}

#[test]
fn vertex_buffer_descriptor_turns_reflection_off() {
    let mut storage = AssetStorage::new();
    let pipeline = PipelineDescriptor::build("forward", &mut storage, vertex_shader())
        .add_vertex_buffer_descriptor(vertex_buffer("Vertex"))
        .add_vertex_buffer_descriptor(vertex_buffer("Instance"))
        .finish();
    assert!(!pipeline.reflect_vertex_buffer_descriptors);
    assert_eq!(
        pipeline.vertex_buffer_descriptors,
        vec![vertex_buffer("Vertex"), vertex_buffer("Instance")]
    );
}

#[test]
fn draw_targets_are_kept_in_order() {
    let mut storage = AssetStorage::new();
    let pipeline = PipelineDescriptor::build("forward", &mut storage, vertex_shader())
        .add_draw_target(DRAW_TARGET_MESHES)
        .add_draw_target(DRAW_TARGET_UI)
        .finish();
    assert_eq!(pipeline.draw_targets, vec!["Meshes".to_string(), "Ui".to_string()]);
}

#[test]
fn plain_settings_are_taken_over() {
    let rasterization = RasterizationStateDescriptor {
        front_face: FrontFace::Cw,
        cull_mode: CullMode::Disabled,
        depth_bias: -2,
        depth_bias_slope_scale_bits: 1.5f32.to_bits(),
        depth_bias_clamp_bits: 0.25f32.to_bits(),
    };
    let mut storage = AssetStorage::new();
    let pipeline = PipelineDescriptor::build("forward", &mut storage, vertex_shader())
        .with_index_format(IndexFormat::Uint32)
        .with_rasterization_state(rasterization)
        .with_primitive_topology(PrimitiveTopology::LineStrip)
        .with_sample_count(4)
        .with_alpha_to_coverage_enabled(true)
        .with_sample_mask(0b1010)
        .finish();
    assert_eq!(pipeline.index_format, IndexFormat::Uint32);
    assert_eq!(pipeline.rasterization_state, Some(rasterization));
    assert_eq!(pipeline.primitive_topology, PrimitiveTopology::LineStrip);
    assert_eq!(pipeline.sample_count, 4);
    assert!(pipeline.alpha_to_coverage_enabled);
    assert_eq!(pipeline.sample_mask, 0b1010);
    // and nothing else moved
    assert_eq!(pipeline.name, Some("forward".to_string()));
    assert!(pipeline.reflect_vertex_buffer_descriptors);
    assert!(pipeline.color_states.is_empty());
    assert!(pipeline.depth_stencil_state.is_none());
}

#[test]
fn standard_config_sets_depth_color_and_draw_target() {
    let mut storage = AssetStorage::new();
    let pipeline = PipelineDescriptor::build("forward", &mut storage, vertex_shader())
        .add_draw_target(DRAW_TARGET_UI)
        .with_standard_config()
        .finish();
    let ignore = StencilStateFaceDescriptor {
        compare: CompareFunction::Always,
        fail_op: StencilOperation::Keep,
        depth_fail_op: StencilOperation::Keep,
        pass_op: StencilOperation::Keep,
    };
    let replace = BlendDescriptor {
        src_factor: BlendFactor::One,
        dst_factor: BlendFactor::Zero,
        operation: BlendOperation::Add,
    };
    assert_eq!(
        pipeline.depth_stencil_state,
        Some(DepthStencilStateDescriptor {
            format: TextureFormat::Depth32Float,
            depth_write_enabled: true,
            depth_compare: CompareFunction::Less,
            stencil_front: ignore,
            stencil_back: ignore,
            stencil_read_mask: 0,
            stencil_write_mask: 0,
        })
    );
    assert_eq!(
        pipeline.color_states,
        vec![ColorStateDescriptor {
            format: TextureFormat::Bgra8UnormSrgb,
            color_blend: replace,
            alpha_blend: replace,
            write_mask: ColorWrite { bits: 15 },
        }]
    );
    assert_eq!(pipeline.draw_targets, vec!["Ui".to_string(), "AssignedMeshes".to_string()]);
    assert_eq!(DRAW_TARGET_ASSIGNED_MESHES, "AssignedMeshes");
    assert_eq!(pipeline.sample_count, 1);
    assert!(pipeline.shader_stages.fragment.is_none());
}

#[test]
fn color_write_flags_are_single_bits() {
    assert_eq!(COLOR_WRITE_RED, 1);
    assert_eq!(COLOR_WRITE_GREEN, 2);
    assert_eq!(COLOR_WRITE_BLUE, 4);
    assert_eq!(COLOR_WRITE_ALPHA, 8);
    assert_eq!(COLOR_WRITE_COLOR, COLOR_WRITE_RED | COLOR_WRITE_GREEN | COLOR_WRITE_BLUE);
    assert_eq!(COLOR_WRITE_ALL, COLOR_WRITE_COLOR | COLOR_WRITE_ALPHA);
    assert_eq!(ColorWrite::all(), ColorWrite { bits: COLOR_WRITE_ALL });
}

#[test]
fn descriptor_type_holds_what_it_is_given() {
    let manual = DescriptorType::Manual(vertex_buffer("Vertex"));
    let reflected: DescriptorType<VertexBufferDescriptor> = DescriptorType::Reflected(None);
    match manual.clone() {
        DescriptorType::Manual(descriptor) => assert_eq!(descriptor, vertex_buffer("Vertex")),
        DescriptorType::Reflected(_) => panic!("the descriptor is given by hand"),
    }
    assert!(matches!(reflected, DescriptorType::Reflected(None)));
}

#[test]
fn builder_leaves_the_store_to_its_owner() {
    let mut storage = AssetStorage::new();
    let first = PipelineDescriptor::build("first", &mut storage, vertex_shader())
        .with_fragment_shader(fragment_shader())
        .finish();
    let second = PipelineDescriptor::build("second", &mut storage, vertex_shader()).finish();
    assert_eq!(first.shader_stages.vertex.id, 0);
    assert_eq!(first.shader_stages.fragment.map(|handle| handle.id), Some(1));
    assert_eq!(second.shader_stages.vertex.id, 2);
    assert_eq!(storage.get(Handle::new(2)), Some(&vertex_shader()));
    assert_eq!(storage.get(Handle::new(3)), None);
}
