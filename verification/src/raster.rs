//! The pixel buffer that a render fills, and its encoding as PNG.

use crate::error::RenderError;
use resvg::tiny_skia::Pixmap;
use vstd::prelude::*;

verus! {

/// `tiny_skia::Pixmap`: a container that owns the pixels of a raster. What
/// it holds is spoken of through `pixmap_width`, `pixmap_height` and
/// `pixmap_data`.
#[verifier::external_type_specification]
#[verifier::external_body]
pub struct ExPixmap(Pixmap);

/// The bytes that a pixmap holds: row after row, four bytes (premultiplied
/// red, green, blue, alpha) for each pixel.
pub uninterp spec fn pixmap_data(pixmap: Pixmap) -> Seq<u8>;

/// The number of pixels in each row of a pixmap.
pub uninterp spec fn pixmap_width(pixmap: Pixmap) -> u32;

/// The number of rows of a pixmap.
pub uninterp spec fn pixmap_height(pixmap: Pixmap) -> u32;

/// The PNG file that the engine's encoder writes for a raster of the given
/// width and height with the given bytes.
pub uninterp spec fn png_encoding(width: u32, height: u32, data: Seq<u8>) -> Seq<u8>;

/// The largest width or height of a raster: a quarter of `i32::MAX`, so that
/// four times a side still fits the signed coordinates of the engine.
pub const MAX_DIMENSION: u32 = 0x1FFF_FFFF;

/// The eight bytes that every PNG file starts with.
pub open spec fn png_signature() -> Seq<u8> {
    seq![0x89u8, 0x50u8, 0x4Eu8, 0x47u8, 0x0Du8, 0x0Au8, 0x1Au8, 0x0Au8]
}

/// Whether a byte sequence starts with the PNG signature.
pub open spec fn starts_with_png_signature(bytes: Seq<u8>) -> bool {
    bytes.len() >= 8 && bytes.subrange(0, 8) == png_signature()
}

/// The four bytes of a number, the most significant first.
pub open spec fn big_endian(value: u32) -> Seq<u8> {
    seq![
        (value / 0x100_0000) as u8,
        (value / 0x1_0000 % 0x100) as u8,
        (value / 0x100 % 0x100) as u8,
        (value % 0x100) as u8,
    ]
}

/// How the PNG file of a raster begins: the signature, then the header
/// chunk, which is 13 bytes long, is called `IHDR`, and holds the width,
/// the height, a depth of 8 bits, colour type 6 (red, green, blue, alpha),
/// and zero for compression method, filter method and interlacing.
pub open spec fn png_opening(width: u32, height: u32) -> Seq<u8> {
    png_signature() + seq![0u8, 0u8, 0u8, 13u8, 0x49u8, 0x48u8, 0x44u8, 0x52u8] + big_endian(
        width,
    ) + big_endian(height) + seq![8u8, 6u8, 0u8, 0u8, 0u8]
}

/// How every PNG file ends: the empty chunk called `IEND`, with its
/// checksum.
pub open spec fn png_closing() -> Seq<u8> {
    seq![
        0u8, 0u8, 0u8, 0u8, 0x49u8, 0x45u8, 0x4Eu8, 0x44u8, 0xAEu8, 0x42u8, 0x60u8, 0x82u8,
    ]
}

/// Whether a byte sequence begins as the PNG file of a raster of this size
/// begins, and ends as every PNG file ends.
pub open spec fn is_png_frame(bytes: Seq<u8>, width: u32, height: u32) -> bool {
    &&& bytes.len() >= 45
    &&& bytes.subrange(0, 29) == png_opening(width, height)
    &&& bytes.subrange(bytes.len() - 12, bytes.len() as int) == png_closing()
}

/// The number of bytes of a raster: four for each pixel.
pub open spec fn byte_length(width: u32, height: u32) -> int {
    4 * width * height
}

/// Whether a raster of this size can be made and drawn on: no side is zero,
/// no side exceeds `MAX_DIMENSION`, and its bytes can be allocated at once.
pub open spec fn raster_size_ok(width: u32, height: u32) -> bool {
    &&& 0 < width <= MAX_DIMENSION
    &&& 0 < height <= MAX_DIMENSION
    &&& byte_length(width, height) <= isize::MAX
}

/// `Pixmap::new` makes a pixmap of the given size with every byte zero, or
/// returns `None` where a side is zero or the width exceeds `MAX_DIMENSION`.
/// It is only called with a byte length that one allocation can hold.
pub assume_specification[ Pixmap::new ](width: u32, height: u32) -> (made: Option<Pixmap>)
    requires
        byte_length(width, height) <= isize::MAX,
    ensures
        made.is_some() == (0 < width <= MAX_DIMENSION && 0 < height),
        made matches Some(pixmap) ==> pixmap_width(pixmap) == width,
        made matches Some(pixmap) ==> pixmap_height(pixmap) == height,
        made matches Some(pixmap) ==> pixmap_data(pixmap) == Seq::new(
            byte_length(width, height) as nat,
            |i: int| 0u8,
        ),
;

/// `Pixmap::width` returns the pixmap's width.
pub assume_specification[ Pixmap::width ](pixmap: &Pixmap) -> (width: u32)
    ensures
        width == pixmap_width(*pixmap),
;

/// `Pixmap::height` returns the pixmap's height.
pub assume_specification[ Pixmap::height ](pixmap: &Pixmap) -> (height: u32)
    ensures
        height == pixmap_height(*pixmap),
;

/// `Pixmap::encode_png` returns a PNG file that depends on the size and the
/// bytes of the pixmap alone. The file starts with the signature and the
/// header chunk of the pixmap's size, written by `Writer::init`, and ends
/// with the end chunk, written when the writer is dropped. It succeeds on
/// every pixmap without a zero side that holds four bytes for each pixel:
/// the encoder refuses only a zero side, a colour type that does not go with
/// the bit depth, and a buffer of the wrong length, and it writes to memory.
pub assume_specification[ Pixmap::encode_png ](pixmap: &Pixmap) -> (encoded: Result<
    Vec<u8>,
    png::EncodingError,
>)
    ensures
        (0 < pixmap_width(*pixmap) && 0 < pixmap_height(*pixmap) && pixmap_data(*pixmap).len()
            == byte_length(pixmap_width(*pixmap), pixmap_height(*pixmap))) ==> encoded is Ok,
        encoded matches Ok(bytes) ==> bytes@ == png_encoding(
            pixmap_width(*pixmap),
            pixmap_height(*pixmap),
            pixmap_data(*pixmap),
        ),
        encoded matches Ok(bytes) ==> starts_with_png_signature(bytes@),
        encoded matches Ok(bytes) ==> is_png_frame(
            bytes@,
            pixmap_width(*pixmap),
            pixmap_height(*pixmap),
        ),
;

/// `Pixmap::data` lends the bytes that the pixmap holds.
pub assume_specification<'a>[ Pixmap::data ](pixmap: &'a Pixmap) -> (data: &'a [u8])
    ensures
        data@ == pixmap_data(*pixmap),
;

/// Whether a pixmap is a raster that this crate holds: of a size that is a
/// raster size, with four bytes for each pixel.
pub open spec fn pixmap_is_raster(pixmap: Pixmap) -> bool {
    &&& raster_size_ok(pixmap_width(pixmap), pixmap_height(pixmap))
    &&& pixmap_data(pixmap).len() == byte_length(pixmap_width(pixmap), pixmap_height(pixmap))
}

/// Computes `byte_length` for sides within `MAX_DIMENSION`.
fn byte_count(width: u32, height: u32) -> (bytes: u64)
    requires
        width <= MAX_DIMENSION,
        height <= MAX_DIMENSION,
    ensures
        bytes == byte_length(width, height),
{
    assert(width * height <= MAX_DIMENSION * MAX_DIMENSION) by (nonlinear_arith)
        requires
            width <= MAX_DIMENSION,
            height <= MAX_DIMENSION,
    ;
    let pixels: u64 = (width as u64) * (height as u64);
    let bytes: u64 = 4 * pixels;
    assert(bytes == byte_length(width, height)) by (nonlinear_arith)
        requires
            bytes == 4 * (width * height),
    ;
    bytes
}

/// Decides `raster_size_ok`.
pub fn raster_size_is_ok(width: u32, height: u32) -> (ok: bool)
    ensures
        ok == raster_size_ok(width, height),
{
    if width == 0 || width > MAX_DIMENSION || height == 0 || height > MAX_DIMENSION {
        return false;
    }
    byte_count(width, height) <= isize::MAX as u64
}

/// Rendered image: a raster of RGBA pixels with a fixed width and height.
#[derive(Debug)]
pub struct RenderedImage {
    pixmap: Pixmap,
}

impl RenderedImage {
    #[verifier::type_invariant]
    spec fn well_formed(&self) -> bool {
        pixmap_is_raster(self.pixmap)
    }

    /// The width of the image, in pixels.
    pub closed spec fn spec_width(&self) -> u32 {
        pixmap_width(self.pixmap)
    }

    /// The height of the image, in pixels.
    pub closed spec fn spec_height(&self) -> u32 {
        pixmap_height(self.pixmap)
    }

    /// The bytes of the image: row after row, four bytes for each pixel.
    pub closed spec fn pixels(&self) -> Seq<u8> {
        pixmap_data(self.pixmap)
    }

    /// A fully transparent image of the given size, or `None` where no
    /// raster of that size can be made.
    pub fn blank(width: u32, height: u32) -> (made: Option<RenderedImage>)
        ensures
            made.is_some() == raster_size_ok(width, height),
            made matches Some(image) ==> image.spec_width() == width,
            made matches Some(image) ==> image.spec_height() == height,
            made matches Some(image) ==> image.pixels() == Seq::new(
                byte_length(width, height) as nat,
                |i: int| 0u8,
            ),
    {
        if !raster_size_is_ok(width, height) {
            return None;
        }
        match Pixmap::new(width, height) {
            Some(pixmap) => Some(RenderedImage { pixmap }),
            None => None,
        }
    }

    /// The image made of a pixmap, or `None` where the pixmap is not a
    /// raster that this crate holds.
    pub fn from_pixmap(pixmap: Pixmap) -> (made: Option<RenderedImage>)
        ensures
            made.is_some() == pixmap_is_raster(pixmap),
            made matches Some(image) ==> image.spec_width() == pixmap_width(pixmap),
            made matches Some(image) ==> image.spec_height() == pixmap_height(pixmap),
            made matches Some(image) ==> image.pixels() == pixmap_data(pixmap),
    {
        let width = pixmap.width();
        let height = pixmap.height();
        if !raster_size_is_ok(width, height) {
            return None;
        }
        if pixmap.data().len() as u64 != byte_count(width, height) {
            return None;
        }
        Some(RenderedImage { pixmap })
    }

    /// Gives up the image for the pixmap that it holds.
    pub fn into_pixmap(self) -> (pixmap: Pixmap)
        ensures
            pixmap_width(pixmap) == self.spec_width(),
            pixmap_height(pixmap) == self.spec_height(),
            pixmap_data(pixmap) == self.pixels(),
            pixmap_is_raster(pixmap),
    {
        proof {
            use_type_invariant(&self);
        }
        self.pixmap
    }

    /// Get the width of the image.
    pub fn width(&self) -> (width: u32)
        ensures
            width == self.spec_width(),
            0 < width <= MAX_DIMENSION,
    {
        proof {
            use_type_invariant(self);
        }
        self.pixmap.width()
    }

    /// Get the height of the image.
    pub fn height(&self) -> (height: u32)
        ensures
            height == self.spec_height(),
            0 < height <= MAX_DIMENSION,
    {
        proof {
            use_type_invariant(self);
        }
        self.pixmap.height()
    }

    /// Returns the rendered image as bytes in PNG format.
    ///
    /// Every image is one that the encoder accepts, so the result is `Ok`;
    /// it is the same file for the same size and the same pixels.
    pub fn as_png(&self) -> (encoded: Result<Vec<u8>, RenderError>)
        ensures
            encoded is Ok,
            encoded matches Ok(bytes) ==> bytes@ == png_encoding(
                self.spec_width(),
                self.spec_height(),
                self.pixels(),
            ),
            encoded matches Ok(bytes) ==> starts_with_png_signature(bytes@),
            encoded matches Ok(bytes) ==> is_png_frame(
                bytes@,
                self.spec_width(),
                self.spec_height(),
            ),
    {
        proof {
            use_type_invariant(self);
        }
        match self.pixmap.encode_png() {
            Ok(bytes) => Ok(bytes),
            Err(failure) => Err(RenderError::from_encoding_failure(&failure)),
        }
    }
}

} // verus!
