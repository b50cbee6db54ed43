//! Texture formats.

use vstd::prelude::*;

verus! {

/// How the texels of a texture are laid out in memory.
#[derive(Clone, Copy, Debug, PartialEq, Eq, Hash, Structural)]
pub enum TextureFormat {
    // Normal 8 bit formats
    R8Unorm,
    R8Snorm,
    R8Uint,
    R8Sint,
    // Normal 16 bit formats
    R16Unorm,
    R16Snorm,
    R16Uint,
    R16Sint,
    R16Float,
    Rg8Unorm,
    Rg8Snorm,
    Rg8Uint,
    Rg8Sint,
    // Normal 32 bit formats
    R32Uint,
    R32Sint,
    R32Float,
    Rg16Unorm,
    Rg16Snorm,
    Rg16Uint,
    Rg16Sint,
    Rg16Float,
    Rgba8Unorm,
    Rgba8UnormSrgb,
    Rgba8Snorm,
    Rgba8Uint,
    Rgba8Sint,
    Bgra8Unorm,
    Bgra8UnormSrgb,
    // Packed 32 bit formats
    Rgb10a2Unorm,
    Rg11b10Float,
    // Normal 64 bit formats
    Rg32Uint,
    Rg32Sint,
    Rg32Float,
    Rgba16Unorm,
    Rgba16Snorm,
    Rgba16Uint,
    Rgba16Sint,
    Rgba16Float,
    // Normal 128 bit formats
    Rgba32Uint,
    Rgba32Sint,
    Rgba32Float,
    // Depth and stencil formats
    Depth32Float,
    Depth24Plus,
    Depth24PlusStencil8,
}

} // verus!
