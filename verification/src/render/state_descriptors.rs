//! The fixed-function state of a render pipeline.

use crate::render::texture::TextureFormat;
use vstd::prelude::*;

verus! {

/// How a fragment's depth and stencil values are tested and written.
#[derive(Clone, Debug, PartialEq, Eq)]
pub struct DepthStencilStateDescriptor {
    pub format: TextureFormat,
    pub depth_write_enabled: bool,
    pub depth_compare: CompareFunction,
    pub stencil_front: StencilStateFaceDescriptor,
    pub stencil_back: StencilStateFaceDescriptor,
    pub stencil_read_mask: u32,
    pub stencil_write_mask: u32,
}

#[derive(Clone, Copy, Debug, PartialEq, Eq, Hash, Structural)]
pub enum StencilOperation {
    Keep,
    Zero,
    Replace,
    Invert,
    IncrementClamp,
    DecrementClamp,
    IncrementWrap,
    DecrementWrap,
}

/// The stencil test and operations for the faces of one side.
#[derive(Clone, Copy, Debug, PartialEq, Eq, Structural)]
pub struct StencilStateFaceDescriptor {
    pub compare: CompareFunction,
    pub fail_op: StencilOperation,
    pub depth_fail_op: StencilOperation,
    pub pass_op: StencilOperation,
}

impl StencilStateFaceDescriptor {
    /// The state that lets every fragment pass and leaves the stencil buffer
    /// as it is.
    pub open spec fn spec_ignore() -> Self {
        StencilStateFaceDescriptor {
            compare: CompareFunction::Always,
            fail_op: StencilOperation::Keep,
            depth_fail_op: StencilOperation::Keep,
            pass_op: StencilOperation::Keep,
        }
    }

    #[verifier::when_used_as_spec(spec_ignore)]
    pub fn ignore() -> (state: Self)
        ensures
            state == Self::spec_ignore(),
    {
        StencilStateFaceDescriptor {
            compare: CompareFunction::Always,
            fail_op: StencilOperation::Keep,
            depth_fail_op: StencilOperation::Keep,
            pass_op: StencilOperation::Keep,
        }
    }
}

#[derive(Clone, Copy, Debug, PartialEq, Eq, Hash, Structural)]
pub enum CompareFunction {
    Never,
    Less,
    Equal,
    LessEqual,
    Greater,
    NotEqual,
    GreaterEqual,
    Always,
}

/// How vertices are put together into primitives.
#[derive(Clone, Copy, Debug, PartialEq, Eq, Hash, Structural)]
pub enum PrimitiveTopology {
    PointList,
    LineList,
    LineStrip,
    TriangleList,
    TriangleStrip,
}

#[derive(Clone, Copy, Debug, PartialEq, Eq, Hash, Structural)]
pub enum FrontFace {
    Ccw,
    Cw,
}

#[derive(Clone, Copy, Debug, PartialEq, Eq, Hash, Structural)]
pub enum CullMode {
    Disabled,
    Front,
    Back,
}

/// How primitives are turned into fragments.
///
/// The slope scale and the clamp of the depth bias are single-precision
/// numbers; they are kept here as their IEEE 754 bit patterns, so that zero is
/// 0.
#[derive(Clone, Copy, Debug, PartialEq, Eq, Structural)]
pub struct RasterizationStateDescriptor {
    pub front_face: FrontFace,
    pub cull_mode: CullMode,
    pub depth_bias: i32,
    pub depth_bias_slope_scale_bits: u32,
    pub depth_bias_clamp_bits: u32,
}

/// How one color target is written.
#[derive(Clone, Copy, Debug, PartialEq, Eq, Structural)]
pub struct ColorStateDescriptor {
    pub format: TextureFormat,
    pub alpha_blend: BlendDescriptor,
    pub color_blend: BlendDescriptor,
    pub write_mask: ColorWrite,
}

/// How a fragment's value is combined with the value already in the target.
#[derive(Clone, Copy, Debug, PartialEq, Eq, Structural)]
pub struct BlendDescriptor {
    pub src_factor: BlendFactor,
    pub dst_factor: BlendFactor,
    pub operation: BlendOperation,
}

impl BlendDescriptor {
    /// The blend that replaces the target's value with the fragment's.
    pub open spec fn spec_replace() -> Self {
        BlendDescriptor {
            src_factor: BlendFactor::One,
            dst_factor: BlendFactor::Zero,
            operation: BlendOperation::Add,
        }
    }

    #[verifier::when_used_as_spec(spec_replace)]
    pub fn replace() -> (blend: Self)
        ensures
            blend == Self::spec_replace(),
    {
        BlendDescriptor {
            src_factor: BlendFactor::One,
            dst_factor: BlendFactor::Zero,
            operation: BlendOperation::Add,
        }
    }
}

#[derive(Clone, Copy, Debug, PartialEq, Eq, Hash, Structural)]
pub enum BlendFactor {
    Zero,
    One,
    SrcColor,
    OneMinusSrcColor,
    SrcAlpha,
    OneMinusSrcAlpha,
    DstColor,
    OneMinusDstColor,
    DstAlpha,
    OneMinusDstAlpha,
    SrcAlphaSaturated,
    BlendColor,
    OneMinusBlendColor,
}

#[derive(Clone, Copy, Debug, PartialEq, Eq, Hash, Structural)]
pub enum BlendOperation {
    Add,
    Subtract,
    ReverseSubtract,
    Min,
    Max,
}

/// Which channels of a color target are written: a set of flags, one bit for
/// each channel.
#[derive(Clone, Copy, Debug, PartialEq, Eq, Hash, Structural)]
pub struct ColorWrite {
    pub bits: u32,
}

pub const COLOR_WRITE_RED: u32 = 1;

pub const COLOR_WRITE_GREEN: u32 = 2;

pub const COLOR_WRITE_BLUE: u32 = 4;

pub const COLOR_WRITE_ALPHA: u32 = 8;

pub const COLOR_WRITE_COLOR: u32 = 7;

pub const COLOR_WRITE_ALL: u32 = 15;

impl ColorWrite {
    /// All four channels.
    pub open spec fn spec_all() -> Self {
        ColorWrite { bits: COLOR_WRITE_ALL }
    }

    #[verifier::when_used_as_spec(spec_all)]
    pub fn all() -> (mask: Self)
        ensures
            mask == Self::spec_all(),
    {
        ColorWrite { bits: COLOR_WRITE_ALL }
    }
}

#[derive(Clone, Copy, Debug, PartialEq, Eq, Hash, Structural)]
pub enum IndexFormat {
    Uint16,
    Uint32,
}

} // verus!
