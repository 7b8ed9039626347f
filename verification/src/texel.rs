//! Texel types: the Rust types that name a pixel format.
//!
//! A texture is declared with a texel type. The type says which pixel format
//! the texture has and which element type its texels are written as. Integer
//! types stand for the integer formats; the markers of this module turn them
//! into normalized, sRGB, blue-first, stencil and depth formats.

use crate::buffer::ElementType;
use crate::texture::TextureFormat;
use vstd::prelude::*;

verus! {

/// Marks texels whose integer values stand for fractions of their range.
pub struct Norm<T>(pub T);

/// Marks texels that hold stencil values.
pub struct Stencil<T>(pub T);

/// Marks texels that hold depth values.
pub struct Depth<T>(pub T);

/// Marks texels whose colours are stored in the sRGB transfer function.
pub struct Srgb<T>(pub T);

/// Marks texels whose channels are stored blue first.
pub struct Bgra<T>(pub T);

/// What a texel type stands for: the pixel format of its textures, and the
/// element type its texels are written as.
#[derive(Clone, Copy, Debug, PartialEq, Eq, Structural)]
pub struct Texel {
    pub format: TextureFormat,
    pub data_type: ElementType,
}

/// A type that names a pixel format.
///
/// The element type of an implementation carries a token that no other texel
/// type uses. The tokens from 256 to 511 belong to the types of this library.
pub trait TextureContents {
    spec fn texel_type() -> Texel;

    /// The pixel format and the element type of the texels.
    fn texel() -> (texel: Texel)
        ensures
            texel == Self::texel_type(),
    ;
}

impl TextureContents for u8 {
    open spec fn texel_type() -> Texel {
        Texel { format: TextureFormat::R8Uint, data_type: ElementType { id: 256, size: 1 } }
    }

    fn texel() -> (texel: Texel) {
        Texel { format: TextureFormat::R8Uint, data_type: ElementType { id: 256, size: 1 } }
    }
}

impl TextureContents for i8 {
    open spec fn texel_type() -> Texel {
        Texel { format: TextureFormat::R8Sint, data_type: ElementType { id: 257, size: 1 } }
    }

    fn texel() -> (texel: Texel) {
        Texel { format: TextureFormat::R8Sint, data_type: ElementType { id: 257, size: 1 } }
    }
}

impl TextureContents for u16 {
    open spec fn texel_type() -> Texel {
        Texel { format: TextureFormat::R16Uint, data_type: ElementType { id: 258, size: 2 } }
    }

    fn texel() -> (texel: Texel) {
        Texel { format: TextureFormat::R16Uint, data_type: ElementType { id: 258, size: 2 } }
    }
}

impl TextureContents for i16 {
    open spec fn texel_type() -> Texel {
        Texel { format: TextureFormat::R16Sint, data_type: ElementType { id: 259, size: 2 } }
    }

    fn texel() -> (texel: Texel) {
        Texel { format: TextureFormat::R16Sint, data_type: ElementType { id: 259, size: 2 } }
    }
}

impl TextureContents for [u8; 2] {
    open spec fn texel_type() -> Texel {
        Texel { format: TextureFormat::Rg8Uint, data_type: ElementType { id: 260, size: 2 } }
    }

    fn texel() -> (texel: Texel) {
        Texel { format: TextureFormat::Rg8Uint, data_type: ElementType { id: 260, size: 2 } }
    }
}

impl TextureContents for [i8; 2] {
    open spec fn texel_type() -> Texel {
        Texel { format: TextureFormat::Rg8Sint, data_type: ElementType { id: 261, size: 2 } }
    }

    fn texel() -> (texel: Texel) {
        Texel { format: TextureFormat::Rg8Sint, data_type: ElementType { id: 261, size: 2 } }
    }
}

impl TextureContents for u32 {
    open spec fn texel_type() -> Texel {
        Texel { format: TextureFormat::R32Uint, data_type: ElementType { id: 262, size: 4 } }
    }

    fn texel() -> (texel: Texel) {
        Texel { format: TextureFormat::R32Uint, data_type: ElementType { id: 262, size: 4 } }
    }
}

impl TextureContents for i32 {
    open spec fn texel_type() -> Texel {
        Texel { format: TextureFormat::R32Sint, data_type: ElementType { id: 263, size: 4 } }
    }

    fn texel() -> (texel: Texel) {
        Texel { format: TextureFormat::R32Sint, data_type: ElementType { id: 263, size: 4 } }
    }
}

impl TextureContents for [u16; 2] {
    open spec fn texel_type() -> Texel {
        Texel { format: TextureFormat::Rg16Uint, data_type: ElementType { id: 264, size: 4 } }
    }

    fn texel() -> (texel: Texel) {
        Texel { format: TextureFormat::Rg16Uint, data_type: ElementType { id: 264, size: 4 } }
    }
}

impl TextureContents for [i16; 2] {
    open spec fn texel_type() -> Texel {
        Texel { format: TextureFormat::Rg16Sint, data_type: ElementType { id: 265, size: 4 } }
    }

    fn texel() -> (texel: Texel) {
        Texel { format: TextureFormat::Rg16Sint, data_type: ElementType { id: 265, size: 4 } }
    }
}

impl TextureContents for [u8; 4] {
    open spec fn texel_type() -> Texel {
        Texel { format: TextureFormat::Rgba8Uint, data_type: ElementType { id: 266, size: 4 } }
    }

    fn texel() -> (texel: Texel) {
        Texel { format: TextureFormat::Rgba8Uint, data_type: ElementType { id: 266, size: 4 } }
    }
}

impl TextureContents for [i8; 4] {
    open spec fn texel_type() -> Texel {
        Texel { format: TextureFormat::Rgba8Sint, data_type: ElementType { id: 267, size: 4 } }
    }

    fn texel() -> (texel: Texel) {
        Texel { format: TextureFormat::Rgba8Sint, data_type: ElementType { id: 267, size: 4 } }
    }
}

impl TextureContents for [u32; 2] {
    open spec fn texel_type() -> Texel {
        Texel { format: TextureFormat::Rg32Uint, data_type: ElementType { id: 268, size: 8 } }
    }

    fn texel() -> (texel: Texel) {
        Texel { format: TextureFormat::Rg32Uint, data_type: ElementType { id: 268, size: 8 } }
    }
}

impl TextureContents for [i32; 2] {
    open spec fn texel_type() -> Texel {
        Texel { format: TextureFormat::Rg32Sint, data_type: ElementType { id: 269, size: 8 } }
    }

    fn texel() -> (texel: Texel) {
        Texel { format: TextureFormat::Rg32Sint, data_type: ElementType { id: 269, size: 8 } }
    }
}

impl TextureContents for [u16; 4] {
    open spec fn texel_type() -> Texel {
        Texel { format: TextureFormat::Rgba16Uint, data_type: ElementType { id: 270, size: 8 } }
    }

    fn texel() -> (texel: Texel) {
        Texel { format: TextureFormat::Rgba16Uint, data_type: ElementType { id: 270, size: 8 } }
    }
}

impl TextureContents for [i16; 4] {
    open spec fn texel_type() -> Texel {
        Texel { format: TextureFormat::Rgba16Sint, data_type: ElementType { id: 271, size: 8 } }
    }

    fn texel() -> (texel: Texel) {
        Texel { format: TextureFormat::Rgba16Sint, data_type: ElementType { id: 271, size: 8 } }
    }
}

impl TextureContents for [u32; 4] {
    open spec fn texel_type() -> Texel {
        Texel { format: TextureFormat::Rgba32Uint, data_type: ElementType { id: 272, size: 16 } }
    }

    fn texel() -> (texel: Texel) {
        Texel { format: TextureFormat::Rgba32Uint, data_type: ElementType { id: 272, size: 16 } }
    }
}

impl TextureContents for [i32; 4] {
    open spec fn texel_type() -> Texel {
        Texel { format: TextureFormat::Rgba32Sint, data_type: ElementType { id: 273, size: 16 } }
    }

    fn texel() -> (texel: Texel) {
        Texel { format: TextureFormat::Rgba32Sint, data_type: ElementType { id: 273, size: 16 } }
    }
}

impl TextureContents for Norm<u8> {
    open spec fn texel_type() -> Texel {
        Texel { format: TextureFormat::R8Unorm, data_type: ElementType { id: 274, size: 1 } }
    }

    fn texel() -> (texel: Texel) {
        Texel { format: TextureFormat::R8Unorm, data_type: ElementType { id: 274, size: 1 } }
    }
}

impl TextureContents for Norm<i8> {
    open spec fn texel_type() -> Texel {
        Texel { format: TextureFormat::R8Snorm, data_type: ElementType { id: 275, size: 1 } }
    }

    fn texel() -> (texel: Texel) {
        Texel { format: TextureFormat::R8Snorm, data_type: ElementType { id: 275, size: 1 } }
    }
}

impl TextureContents for Norm<u16> {
    open spec fn texel_type() -> Texel {
        Texel { format: TextureFormat::R16Unorm, data_type: ElementType { id: 276, size: 2 } }
    }

    fn texel() -> (texel: Texel) {
        Texel { format: TextureFormat::R16Unorm, data_type: ElementType { id: 276, size: 2 } }
    }
}

impl TextureContents for Norm<i16> {
    open spec fn texel_type() -> Texel {
        Texel { format: TextureFormat::R16Snorm, data_type: ElementType { id: 277, size: 2 } }
    }

    fn texel() -> (texel: Texel) {
        Texel { format: TextureFormat::R16Snorm, data_type: ElementType { id: 277, size: 2 } }
    }
}

impl TextureContents for Norm<[u8; 2]> {
    open spec fn texel_type() -> Texel {
        Texel { format: TextureFormat::Rg8Unorm, data_type: ElementType { id: 278, size: 2 } }
    }

    fn texel() -> (texel: Texel) {
        Texel { format: TextureFormat::Rg8Unorm, data_type: ElementType { id: 278, size: 2 } }
    }
}

impl TextureContents for Norm<[i8; 2]> {
    open spec fn texel_type() -> Texel {
        Texel { format: TextureFormat::Rg8Snorm, data_type: ElementType { id: 279, size: 2 } }
    }

    fn texel() -> (texel: Texel) {
        Texel { format: TextureFormat::Rg8Snorm, data_type: ElementType { id: 279, size: 2 } }
    }
}

impl TextureContents for Norm<[u16; 2]> {
    open spec fn texel_type() -> Texel {
        Texel { format: TextureFormat::Rg16Unorm, data_type: ElementType { id: 280, size: 4 } }
    }

    fn texel() -> (texel: Texel) {
        Texel { format: TextureFormat::Rg16Unorm, data_type: ElementType { id: 280, size: 4 } }
    }
}

impl TextureContents for Norm<[i16; 2]> {
    open spec fn texel_type() -> Texel {
        Texel { format: TextureFormat::Rg16Snorm, data_type: ElementType { id: 281, size: 4 } }
    }

    fn texel() -> (texel: Texel) {
        Texel { format: TextureFormat::Rg16Snorm, data_type: ElementType { id: 281, size: 4 } }
    }
}

impl TextureContents for Norm<[u8; 4]> {
    open spec fn texel_type() -> Texel {
        Texel { format: TextureFormat::Rgba8Unorm, data_type: ElementType { id: 282, size: 4 } }
    }

    fn texel() -> (texel: Texel) {
        Texel { format: TextureFormat::Rgba8Unorm, data_type: ElementType { id: 282, size: 4 } }
    }
}

impl TextureContents for Srgb<Norm<[u8; 4]>> {
    open spec fn texel_type() -> Texel {
        Texel { format: TextureFormat::Rgba8UnormSrgb, data_type: ElementType { id: 283, size: 4 } }
    }

    fn texel() -> (texel: Texel) {
        Texel { format: TextureFormat::Rgba8UnormSrgb, data_type: ElementType { id: 283, size: 4 } }
    }
}

impl TextureContents for Norm<[i8; 4]> {
    open spec fn texel_type() -> Texel {
        Texel { format: TextureFormat::Rgba8Snorm, data_type: ElementType { id: 284, size: 4 } }
    }

    fn texel() -> (texel: Texel) {
        Texel { format: TextureFormat::Rgba8Snorm, data_type: ElementType { id: 284, size: 4 } }
    }
}

impl TextureContents for Bgra<Norm<[u8; 4]>> {
    open spec fn texel_type() -> Texel {
        Texel { format: TextureFormat::Bgra8Unorm, data_type: ElementType { id: 285, size: 4 } }
    }

    fn texel() -> (texel: Texel) {
        Texel { format: TextureFormat::Bgra8Unorm, data_type: ElementType { id: 285, size: 4 } }
    }
}

impl TextureContents for Srgb<Bgra<Norm<[u8; 4]>>> {
    open spec fn texel_type() -> Texel {
        Texel { format: TextureFormat::Bgra8UnormSrgb, data_type: ElementType { id: 286, size: 4 } }
    }

    fn texel() -> (texel: Texel) {
        Texel { format: TextureFormat::Bgra8UnormSrgb, data_type: ElementType { id: 286, size: 4 } }
    }
}

impl TextureContents for Norm<[u16; 4]> {
    open spec fn texel_type() -> Texel {
        Texel { format: TextureFormat::Rgba16Unorm, data_type: ElementType { id: 287, size: 8 } }
    }

    fn texel() -> (texel: Texel) {
        Texel { format: TextureFormat::Rgba16Unorm, data_type: ElementType { id: 287, size: 8 } }
    }
}

impl TextureContents for Norm<[i16; 4]> {
    open spec fn texel_type() -> Texel {
        Texel { format: TextureFormat::Rgba16Snorm, data_type: ElementType { id: 288, size: 8 } }
    }

    fn texel() -> (texel: Texel) {
        Texel { format: TextureFormat::Rgba16Snorm, data_type: ElementType { id: 288, size: 8 } }
    }
}

impl TextureContents for Stencil<u8> {
    open spec fn texel_type() -> Texel {
        Texel { format: TextureFormat::Stencil8, data_type: ElementType { id: 289, size: 1 } }
    }

    fn texel() -> (texel: Texel) {
        Texel { format: TextureFormat::Stencil8, data_type: ElementType { id: 289, size: 1 } }
    }
}

impl TextureContents for Stencil<i8> {
    open spec fn texel_type() -> Texel {
        Texel { format: TextureFormat::Stencil8, data_type: ElementType { id: 290, size: 1 } }
    }

    fn texel() -> (texel: Texel) {
        Texel { format: TextureFormat::Stencil8, data_type: ElementType { id: 290, size: 1 } }
    }
}

impl TextureContents for Depth<u16> {
    open spec fn texel_type() -> Texel {
        Texel { format: TextureFormat::Depth16Unorm, data_type: ElementType { id: 291, size: 2 } }
    }

    fn texel() -> (texel: Texel) {
        Texel { format: TextureFormat::Depth16Unorm, data_type: ElementType { id: 291, size: 2 } }
    }
}

impl TextureContents for Depth<i16> {
    open spec fn texel_type() -> Texel {
        Texel { format: TextureFormat::Depth16Unorm, data_type: ElementType { id: 292, size: 2 } }
    }

    fn texel() -> (texel: Texel) {
        Texel { format: TextureFormat::Depth16Unorm, data_type: ElementType { id: 292, size: 2 } }
    }
}

impl TextureContents for Depth<Norm<u16>> {
    open spec fn texel_type() -> Texel {
        Texel { format: TextureFormat::Depth16Unorm, data_type: ElementType { id: 293, size: 2 } }
    }

    fn texel() -> (texel: Texel) {
        Texel { format: TextureFormat::Depth16Unorm, data_type: ElementType { id: 293, size: 2 } }
    }
}

impl TextureContents for Depth<Norm<i16>> {
    open spec fn texel_type() -> Texel {
        Texel { format: TextureFormat::Depth16Unorm, data_type: ElementType { id: 294, size: 2 } }
    }

    fn texel() -> (texel: Texel) {
        Texel { format: TextureFormat::Depth16Unorm, data_type: ElementType { id: 294, size: 2 } }
    }
}

} // verus!
