//! RGBA8 pixel buffers and image decoding, through the `image` crate.
use vstd::prelude::*;

verus! {

/// An RGBA8 image of the `image` crate; its contents are known through
/// `rgba_bytes` and `rgba_dims`.
#[verifier::external_body]
pub struct RgbaCanvas {
    img: image::RgbaImage,
}

/// The bytes of an RGBA8 image: four channels per pixel, rows one after another.
pub uninterp spec fn rgba_bytes(c: RgbaCanvas) -> Seq<u8>;

/// Width and height of an RGBA8 image, in pixels.
pub uninterp spec fn rgba_dims(c: RgbaCanvas) -> (u32, u32);

/// Relies on `image::ImageBuffer::new`: a buffer of `4 * width * height` zero bytes;
/// it panics only where that length overflows `usize`.
#[verifier::external_body]
pub(crate) fn new_rgba_canvas(width: u32, height: u32) -> (r: RgbaCanvas)
    requires
        4 * (width as int) * (height as int) <= usize::MAX,
    ensures
        rgba_dims(r) == (width, height),
        rgba_bytes(r) == Seq::new((4 * (width as int) * (height as int)) as nat, |i: int| 0u8),
{
    RgbaCanvas { img: image::RgbaImage::new(width, height) }
}

/// Relies on `image::ImageBuffer::put_pixel`: the four channels of pixel `(x, y)`
/// stand at byte `4 * (y * width + x)`; it panics outside the image.
#[verifier::external_body]
pub(crate) fn put_rgba_pixel(c: &mut RgbaCanvas, x: u32, y: u32, color: [u8; 4])
    requires
        x < rgba_dims(*old(c)).0,
        y < rgba_dims(*old(c)).1,
        rgba_bytes(*old(c)).len() == 4 * (rgba_dims(*old(c)).0 as int) * (rgba_dims(
            *old(c),
        ).1 as int),
    ensures
        rgba_dims(*final(c)) == rgba_dims(*old(c)),
        rgba_bytes(*final(c)) == rgba_bytes(*old(c)).update(
            4 * (y * rgba_dims(*old(c)).0 + x),
            color[0],
        ).update(4 * (y * rgba_dims(*old(c)).0 + x) + 1, color[1]).update(
            4 * (y * rgba_dims(*old(c)).0 + x) + 2,
            color[2],
        ).update(4 * (y * rgba_dims(*old(c)).0 + x) + 3, color[3]),
{
    c.img.put_pixel(x, y, image::Rgba(color))
}

/// Relies on `image::ImageBuffer::dimensions`: the width and height the image has.
#[verifier::external_body]
pub(crate) fn rgba_canvas_dims(c: &RgbaCanvas) -> (r: (u32, u32))
    ensures
        r == rgba_dims(*c),
{
    c.img.dimensions()
}

/// Relies on `image::ImageBuffer::into_raw`: hands back the byte buffer itself.
#[verifier::external_body]
pub(crate) fn rgba_into_raw(c: RgbaCanvas) -> (r: Vec<u8>)
    ensures
        r@ == rgba_bytes(c),
{
    c.img.into_raw()
}

#[verifier::external_type_specification]
#[verifier::external_body]
pub struct ExImageError(image::ImageError);

/// Byte `i` of an RGBA8 image of `width` by `height` pixels turned upside down:
/// row `y` of the result is row `height - 1 - y` of `bytes`.
pub open spec fn rows_reversed(bytes: Seq<u8>, width: int, height: int) -> Seq<u8> {
    Seq::new(
        bytes.len(),
        |i: int| bytes[(height - 1 - i / (4 * width)) * (4 * width) + i % (4 * width)],
    )
}

/// Whether `image::load_from_memory` decodes these bytes, guessing their format.
pub uninterp spec fn decodes(bytes: Seq<u8>) -> bool;

/// The RGBA8 bytes of what `image::load_from_memory` decodes from these bytes.
pub uninterp spec fn decoded_rgba(bytes: Seq<u8>) -> Seq<u8>;

/// The width and height of what `image::load_from_memory` decodes from these bytes.
pub uninterp spec fn decoded_dims(bytes: Seq<u8>) -> (u32, u32);

/// Whether `image::load_from_memory_with_format` decodes these bytes as TGA.
pub uninterp spec fn decodes_as_tga(bytes: Seq<u8>) -> bool;

/// The RGBA8 bytes of what `image::load_from_memory_with_format` decodes as TGA.
pub uninterp spec fn tga_decoded_rgba(bytes: Seq<u8>) -> Seq<u8>;

/// The width and height of what `image::load_from_memory_with_format` decodes as TGA.
pub uninterp spec fn tga_decoded_dims(bytes: Seq<u8>) -> (u32, u32);

/// Relies on `image::load_from_memory`, which decodes an image of a format it
/// recognises from the bytes, and on `DynamicImage::to_rgba8`, which converts it
/// to RGBA8 through `ImageBuffer::new`, four bytes per pixel. Both depend on the
/// bytes alone.
#[verifier::external_body]
pub(crate) fn decode_rgba(bytes: &[u8]) -> (r: Result<RgbaCanvas, image::ImageError>)
    ensures
        r is Ok <==> decodes(bytes@),
        r matches Ok(c) ==> rgba_bytes(c) == decoded_rgba(bytes@) && rgba_dims(c) == decoded_dims(
            bytes@,
        ),
        r matches Ok(c) ==> rgba_bytes(c).len() == 4 * (rgba_dims(c).0 as int) * (rgba_dims(c).1 as int),
{
    image::load_from_memory(bytes).map(|img| RgbaCanvas { img: img.to_rgba8() })
}

/// Relies on `image::load_from_memory_with_format` with `ImageFormat::Tga`, which
/// decodes a TGA image, and on `DynamicImage::to_rgba8`, which converts it to
/// RGBA8 through `ImageBuffer::new`, four bytes per pixel. Both depend on the
/// bytes alone.
#[verifier::external_body]
pub(crate) fn decode_tga_rgba(bytes: &[u8]) -> (r: Result<RgbaCanvas, image::ImageError>)
    ensures
        r is Ok <==> decodes_as_tga(bytes@),
        r matches Ok(c) ==> rgba_bytes(c) == tga_decoded_rgba(bytes@) && rgba_dims(c)
            == tga_decoded_dims(bytes@),
        r matches Ok(c) ==> rgba_bytes(c).len() == 4 * (rgba_dims(c).0 as int) * (rgba_dims(c).1 as int),
{
    image::load_from_memory_with_format(bytes, image::ImageFormat::Tga).map(
        |img| RgbaCanvas { img: img.to_rgba8() },
    )
}

/// Relies on `image::imageops::flip_vertical`: a new buffer of the same size, made
/// by `ImageBuffer::new`, whose pixel `(x, height - 1 - y)` is pixel `(x, y)` of `c`.
#[verifier::external_body]
pub(crate) fn flip_rgba_vertical(c: &RgbaCanvas) -> (r: RgbaCanvas)
    requires
        rgba_bytes(*c).len() == 4 * (rgba_dims(*c).0 as int) * (rgba_dims(*c).1 as int),
    ensures
        rgba_dims(r) == rgba_dims(*c),
        rgba_bytes(r) == rows_reversed(rgba_bytes(*c), rgba_dims(*c).0 as int, rgba_dims(*c).1 as int),
{
    RgbaCanvas { img: image::imageops::flip_vertical(&c.img) }
}

} // verus!
