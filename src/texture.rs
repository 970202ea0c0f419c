//! Texture formats, decoded texture files and synthesized placeholder textures.
use vstd::prelude::*;
use crate::material::{has_tga_extension, is_tga_file, normal_placeholder};
use crate::pixels::{
    decode_rgba, decode_tga_rgba, decoded_dims, decoded_rgba, decodes, decodes_as_tga,
    flip_rgba_vertical, new_rgba_canvas, put_rgba_pixel, rgba_bytes, rgba_canvas_dims, rgba_dims,
    rgba_into_raw, rows_reversed, tga_decoded_dims, tga_decoded_rgba,
};

verus! {

/// Pixel format of a colour texture.
#[derive(Clone, Copy, Debug, PartialEq, Eq)]
pub enum TextureFormat {
    /// Linear 8-bit RGBA, for data that is not a colour (normal maps).
    Rgba8Unorm,
    /// Perceptually corrected 8-bit RGBA, for colours.
    Rgba8UnormSrgb,
}

/// The format of a texture: linear for a normal map, sRGB otherwise.
pub open spec fn format_for(is_normal_map: bool) -> TextureFormat {
    if is_normal_map {
        TextureFormat::Rgba8Unorm
    } else {
        TextureFormat::Rgba8UnormSrgb
    }
}

/// Normal maps are sampled linearly; every other texture is sRGB.
pub fn texture_format(is_normal_map: bool) -> (r: TextureFormat)
    ensures
        r == format_for(is_normal_map),
{
    if is_normal_map {
        TextureFormat::Rgba8Unorm
    } else {
        TextureFormat::Rgba8UnormSrgb
    }
}

/// What a synthesized texture looks like.
#[derive(Clone, Copy, Debug, PartialEq, Eq)]
pub struct PlaceholderSpec {
    pub width: u32,
    pub height: u32,
    /// Paint only the cells with odd `x + y`, leaving the others transparent black.
    pub checkerboard: bool,
    pub color: [u8; 4],
    pub format: TextureFormat,
}

/// The colour of pixel `(x, y)` of a placeholder.
pub open spec fn placeholder_texel(x: int, y: int, checkerboard: bool, color: [u8; 4]) -> [u8; 4] {
    if !checkerboard || (x + y) % 2 == 1 {
        color
    } else {
        [0u8, 0u8, 0u8, 0u8]
    }
}

/// Byte `i` of a placeholder that is `width` pixels wide, rows one after another.
pub open spec fn placeholder_byte(width: int, checkerboard: bool, color: [u8; 4], i: int) -> u8 {
    placeholder_texel((i / 4) % width, (i / 4) / width, checkerboard, color)[i % 4]
}

/// Whether `bytes` is the RGBA8 image of a placeholder of the given size.
pub open spec fn is_placeholder_image(
    bytes: Seq<u8>,
    width: int,
    height: int,
    checkerboard: bool,
    color: [u8; 4],
) -> bool {
    &&& bytes.len() == 4 * width * height
    &&& forall|i: int| 0 <= i < bytes.len() ==> #[trigger] bytes[i] == placeholder_byte(width, checkerboard, color, i)
}

/// Fills a fresh RGBA8 image of `width` by `height` pixels: every pixel gets `color`,
/// or, with `checkerboard`, only those with odd `x + y` while the rest stay zero.
pub fn placeholder_pixels(width: u32, height: u32, checkerboard: bool, color: [u8; 4]) -> (r: Vec<u8>)
    requires
        4 * (width as int) * (height as int) <= usize::MAX,
    ensures
        is_placeholder_image(r@, width as int, height as int, checkerboard, color),
{
    let mut canvas = new_rgba_canvas(width, height);
    let ghost len: int = 4 * (width as int) * (height as int);
    proof {
        assert((width as int) * (height as int) <= 4 * (width as int) * (height as int)) by (nonlinear_arith);
        assert(4 * (width as int) * (height as int) == 4 * ((width as int) * (height as int))) by (nonlinear_arith);
    }
    let count: usize = (width as usize) * (height as usize);
    let mut p: usize = 0;
    while p < count
        invariant
            count == (width as int) * (height as int),
            len == 4 * count,
            len == 4 * (width as int) * (height as int),
            len <= usize::MAX,
            p <= count,
            rgba_dims(canvas) == (width, height),
            rgba_bytes(canvas).len() == len,
            forall|i: int| 0 <= i < 4 * p ==> #[trigger] rgba_bytes(canvas)[i] == placeholder_byte(width as int, checkerboard, color, i),
            forall|i: int| 4 * p <= i < len ==> #[trigger] rgba_bytes(canvas)[i] == 0u8,
        decreases count - p,
    {
        proof {
            assert(width > 0) by (nonlinear_arith)
                requires p < count, count == (width as int) * (height as int), width >= 0, height >= 0;
            assert((p as int) / (width as int) < height) by (nonlinear_arith)
                requires p < count, count == (width as int) * (height as int), width > 0;
        }
        let x: u32 = (p % (width as usize)) as u32;
        let y: u32 = (p / (width as usize)) as u32;
        proof {
            assert(y < height) by (nonlinear_arith)
                requires p < count, count == (width as int) * (height as int), y == (p as int) / (width as int), width > 0;
            assert(p == y * width + x) by (nonlinear_arith)
                requires x == (p as int) % (width as int), y == (p as int) / (width as int), width > 0;
        }
        let paint: bool = !checkerboard || ((x as u64) + (y as u64)) % 2 == 1;
        let ghost before = rgba_bytes(canvas);
        if paint {
            put_rgba_pixel(&mut canvas, x, y, color);
        }
        proof {
            assert forall|i: int| 0 <= i < 4 * (p + 1) implies #[trigger] rgba_bytes(canvas)[i]
                == placeholder_byte(width as int, checkerboard, color, i) by {
                if i >= 4 * p {
                    assert(i / 4 == p);
                    assert(i % 4 == i - 4 * p);
                }
            }
        }
        p = p + 1;
    }
    rgba_into_raw(canvas)
}

/// RGBA8 pixels ready for upload, bottom row first as the renderer samples them.
#[derive(Clone, Debug, PartialEq, Eq)]
pub struct TextureImage {
    pub width: u32,
    pub height: u32,
    pub pixels: Vec<u8>,
    pub format: TextureFormat,
}

impl TextureImage {
    /// Four bytes for each pixel.
    pub open spec fn wf(&self) -> bool {
        self.pixels.len() == 4 * (self.width as int) * (self.height as int)
    }
}

/// Why a texture file cannot be used.
#[derive(Debug)]
pub enum TextureError {
    /// The bytes are not an image the decoder reads.
    Decode(image::ImageError),
}

/// Whether the decoder used for `file_name` reads `data`: the TGA decoder for a
/// name ending in ".tga", else the one whose format the bytes announce.
pub open spec fn texture_decodes(data: Seq<u8>, file_name: Seq<char>) -> bool {
    if has_tga_extension(file_name) {
        decodes_as_tga(data)
    } else {
        decodes(data)
    }
}

/// The RGBA8 bytes that the decoder used for `file_name` reads from `data`.
pub open spec fn texture_rgba(data: Seq<u8>, file_name: Seq<char>) -> Seq<u8> {
    if has_tga_extension(file_name) {
        tga_decoded_rgba(data)
    } else {
        decoded_rgba(data)
    }
}

/// The width and height that the decoder used for `file_name` reads from `data`.
pub open spec fn texture_dims(data: Seq<u8>, file_name: Seq<char>) -> (u32, u32) {
    if has_tga_extension(file_name) {
        tga_decoded_dims(data)
    } else {
        decoded_dims(data)
    }
}

/// Decodes a texture file and turns it upside down; a normal map gets the linear
/// format, any other texture sRGB. A file that does not decode is an error.
pub fn decode_texture(data: &[u8], file_name: &str, is_normal_map: bool) -> (r: Result<TextureImage, TextureError>)
    ensures
        r is Ok <==> texture_decodes(data@, file_name@),
        r matches Ok(t) ==> {
            &&& t.wf()
            &&& t.format == format_for(is_normal_map)
            &&& (t.width, t.height) == texture_dims(data@, file_name@)
            &&& t.pixels@ == rows_reversed(texture_rgba(data@, file_name@), t.width as int, t.height as int)
        },
{
    let decoded = if is_tga_file(file_name) {
        decode_tga_rgba(data)
    } else {
        decode_rgba(data)
    };
    match decoded {
        Err(e) => Err(TextureError::Decode(e)),
        Ok(canvas) => {
            let flipped = flip_rgba_vertical(&canvas);
            let (width, height) = rgba_canvas_dims(&flipped);
            let pixels = rgba_into_raw(flipped);
            Ok(TextureImage { width, height, pixels, format: texture_format(is_normal_map) })
        },
    }
}

/// The synthesized texture that `spec` describes.
pub fn placeholder_image(spec: &PlaceholderSpec) -> (r: TextureImage)
    requires
        4 * (spec.width as int) * (spec.height as int) <= usize::MAX,
    ensures
        r.wf(),
        r.width == spec.width,
        r.height == spec.height,
        r.format == spec.format,
        is_placeholder_image(r.pixels@, spec.width as int, spec.height as int, spec.checkerboard, spec.color),
{
    TextureImage {
        width: spec.width,
        height: spec.height,
        pixels: placeholder_pixels(spec.width, spec.height, spec.checkerboard, spec.color),
        format: spec.format,
    }
}

/// The flat normal map that stands in for a missing one: linear, opaque black,
/// and exactly as large as the diffuse texture beside it.
pub fn flat_normal_map(diffuse: &TextureImage) -> (r: TextureImage)
    requires
        diffuse.wf(),
    ensures
        r.wf(),
        r.width == diffuse.width,
        r.height == diffuse.height,
        r.format == TextureFormat::Rgba8Unorm,
        is_placeholder_image(r.pixels@, diffuse.width as int, diffuse.height as int, false, [0u8, 0u8, 0u8, 255u8]),
{
    let spec = normal_placeholder(diffuse.width, diffuse.height);
    placeholder_image(&spec)
}

/// A placeholder painted without the checkerboard holds `color` in every pixel.
pub proof fn lemma_flat_placeholder_is_uniform(bytes: Seq<u8>, width: int, height: int, color: [u8; 4])
    requires
        is_placeholder_image(bytes, width, height, false, color),
    ensures
        forall|i: int| 0 <= i < bytes.len() ==> #[trigger] bytes[i] == color[i % 4],
{
}

} // verus!
