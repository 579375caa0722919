//! The decisions made when a texture is created and filled.
//!
//! Creating the texture and copying the texels is the caller's work. How the
//! texture is laid out, how many bytes a row takes and what its view is
//! called is decided here.

use vstd::prelude::*;
use vstd::string::StringExecFns;

verus! {

/// The number of dimensions of a texture.
#[derive(Clone, Copy, Debug, PartialEq, Eq, Hash, Structural)]
pub enum TextureDimension {
    D1,
    D2,
    D3,
}

/// The shape under which a view presents a texture.
#[derive(Clone, Copy, Debug, PartialEq, Eq, Hash, Structural)]
pub enum TextureViewDimension {
    D1,
    D2,
    D2Array,
    Cube,
    CubeArray,
    D3,
}

/// How an empty texture and its view are laid out.
#[derive(Clone, Copy, Debug, PartialEq, Eq, Structural)]
pub struct TextureLayout {
    pub dimension: TextureDimension,
    pub view_dimension: TextureViewDimension,
    /// The number of array layers the view covers; `None` for all of them.
    pub array_layer_count: Option<u32>,
}

/// The colour layout of a decoded image.
#[derive(Clone, Copy, Debug, PartialEq, Eq, Hash, Structural)]
pub enum ColorType {
    L8,
    La8,
    Rgb8,
    Rgba8,
    L16,
    La16,
    Rgb16,
    Rgba16,
    Rgb32F,
    Rgba32F,
}

/// The format of the texels that are uploaded.
#[derive(Clone, Copy, Debug, PartialEq, Eq, Hash, Structural)]
pub enum TexelFormat {
    R8Unorm,
    Rgba8Unorm,
}

/// What is done to a decoded image before its bytes are uploaded.
#[derive(Clone, Copy, Debug, PartialEq, Eq, Hash, Structural)]
pub enum TexelConversion {
    /// The bytes are uploaded as they are.
    Keep,
    /// The image is reduced to 8 bits of luma.
    ToLuma8,
    /// The image is expanded to 8 bits each of red, green, blue and alpha.
    ToRgba8,
}

/// The layout of an empty texture with the requested view dimension, which
/// is two-dimensional by default, and the given depth or number of layers. A
/// three-dimensional view is a view of one layer of a three-dimensional
/// texture; every other view covers all the layers of a two-dimensional one.
pub open spec fn layout_for(view_dimension: Option<TextureViewDimension>, layers: u32)
    -> TextureLayout {
    let view_dimension = match view_dimension {
        Some(dimension) => dimension,
        None => TextureViewDimension::D2,
    };
    let count = if view_dimension == TextureViewDimension::D3 {
        1
    } else {
        layers
    };
    TextureLayout {
        dimension: if view_dimension == TextureViewDimension::D3 {
            TextureDimension::D3
        } else {
            TextureDimension::D2
        },
        view_dimension,
        array_layer_count: if count == 0 {
            None
        } else {
            Some(count)
        },
    }
}

/// Lays out an empty texture.
pub fn texture_layout(view_dimension: Option<TextureViewDimension>, layers: u32) -> (r:
    TextureLayout)
    ensures
        r == layout_for(view_dimension, layers),
{
    let view_dimension = match view_dimension {
        Some(dimension) => dimension,
        None => TextureViewDimension::D2,
    };
    let (dimension, count) = if view_dimension == TextureViewDimension::D3 {
        (TextureDimension::D3, 1)
    } else {
        (TextureDimension::D2, layers)
    };
    TextureLayout {
        dimension,
        view_dimension,
        array_layer_count: if count == 0 {
            None
        } else {
            Some(count)
        },
    }
}

/// The label of a texture's view: the texture's label followed by `_view`,
/// or `view` for a texture without a label.
pub open spec fn view_label_spec(label: Option<Seq<char>>) -> Seq<char> {
    match label {
        Some(text) => text + "_"@ + "view"@,
        None => "view"@,
    }
}

/// Names the view of a texture.
pub fn view_label(label: Option<&str>) -> (r: String)
    ensures
        r@ == view_label_spec(
            match label {
                Some(text) => Some(text@),
                None => None,
            },
        ),
{
    match label {
        Some(text) => String::from_str(text).concat("_").concat("view"),
        None => String::from_str("view"),
    }
}

/// The number of bytes in a row of `width` texels of `pixel_bytes` bytes
/// each, where that number is not zero and fits in 32 bits.
pub open spec fn row_bytes(pixel_bytes: u32, width: u32) -> Option<u32> {
    if 0 < pixel_bytes * width <= u32::MAX {
        Some((pixel_bytes * width) as u32)
    } else {
        None
    }
}

/// Computes the number of bytes in a row of texels.
pub fn bytes_per_row(pixel_bytes: u32, width: u32) -> (r: Option<u32>)
    ensures
        r == row_bytes(pixel_bytes, width),
{
    match pixel_bytes.checked_mul(width) {
        Some(bytes) => if bytes == 0 {
            None
        } else {
            Some(bytes)
        },
        None => None,
    }
}

/// The format and the conversion for an image of the given colour layout:
/// 8 bits of luma where a greyscale texture is asked for or the image is one
/// already, 8 bits of each of four channels for a colour image of 8 bits a
/// channel, and nothing for any other layout.
pub open spec fn texel_plan_for(color: ColorType, grayscale: bool) -> Option<
    (TexelFormat, TexelConversion),
> {
    if grayscale {
        Some((TexelFormat::R8Unorm, TexelConversion::ToLuma8))
    } else {
        match color {
            ColorType::L8 => Some((TexelFormat::R8Unorm, TexelConversion::Keep)),
            ColorType::Rgb8 | ColorType::Rgba8 => Some(
                (TexelFormat::Rgba8Unorm, TexelConversion::ToRgba8),
            ),
            _ => None,
        }
    }
}

/// Picks the format and the conversion for a decoded image.
pub fn texel_plan(color: ColorType, grayscale: bool) -> (r: Option<(TexelFormat, TexelConversion)>)
    ensures
        r == texel_plan_for(color, grayscale),
{
    if grayscale {
        Some((TexelFormat::R8Unorm, TexelConversion::ToLuma8))
    } else {
        match color {
            ColorType::L8 => Some((TexelFormat::R8Unorm, TexelConversion::Keep)),
            ColorType::Rgb8 => Some((TexelFormat::Rgba8Unorm, TexelConversion::ToRgba8)),
            ColorType::Rgba8 => Some((TexelFormat::Rgba8Unorm, TexelConversion::ToRgba8)),
            _ => None,
        }
    }
}

/// What `wgpu::TextureFormat::block_copy_size` returns for `format` when no
/// aspect is given: the number of bytes that one texel block takes in a copy,
/// or `None` where that depends on the aspect.
pub uninterp spec fn block_copy_size(format: wgpu::TextureFormat) -> Option<u32>;

/// `wgpu::TextureFormat::block_copy_size`, without an aspect. The result is
/// named `block_copy_size`.
#[verifier::external_body]
fn format_block_copy_size(format: &wgpu::TextureFormat) -> (r: Option<u32>)
    ensures
        r == block_copy_size(*format),
{
    format.block_copy_size(None)
}

/// The size of one texel in bytes: what `wgpu` gives for the format, which
/// for an uncompressed format is the size of a single texel, and 0 where it
/// gives nothing.
pub open spec fn pixel_bytes_of(format: wgpu::TextureFormat) -> u32 {
    match block_copy_size(format) {
        Some(bytes) => bytes,
        None => 0,
    }
}

/// Computes the size of one texel in bytes.
pub fn single_pixel_bytes(format: wgpu::TextureFormat) -> (r: u32)
    ensures
        r == pixel_bytes_of(format),
{
    match format_block_copy_size(&format) {
        Some(bytes) => bytes,
        None => 0,
    }
}

/// Computes the number of bytes in a row of `width` texels of `format`;
/// `None` where the format has no size of its own, the row is empty or the
/// number does not fit in 32 bits.
pub fn bytes_per_row_of(format: wgpu::TextureFormat, width: u32) -> (r: Option<u32>)
    ensures
        r == row_bytes(pixel_bytes_of(format), width),
{
    bytes_per_row(single_pixel_bytes(format), width)
}

} // verus!
