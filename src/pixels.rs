//! Conversion of a native top-down 32-bit pixel dump into PNG bytes.
use crate::keys::{decimal_of, push_decimal};
use vstd::prelude::*;

verus! {

#[verifier::external_type_specification]
#[verifier::external_body]
pub struct ExImageError(image::ImageError);

/// Why an icon could not be turned into PNG bytes.
#[derive(Debug, Clone, PartialEq, Eq)]
pub enum ExtractError {
    /// This path could not be looked up or is not accessible.
    NotFound(String),
    /// The platform has no icon at this index of this resource container.
    NoIcon(String, i32),
    /// The icon handle was invalid after the extraction call succeeded.
    InvalidHandle,
    /// The icon's bitmaps could not be obtained.
    IconInfo,
    /// The icon's bitmaps were obtained, but its colour bitmap is invalid.
    InvalidColorBitmap,
    /// The bitmap's metadata could not be queried.
    BitmapQuery,
    /// The pixel dump call failed.
    PixelDump,
    /// The pixel buffer does not hold exactly `width * height` dense pixels.
    DimensionMismatch,
    /// PNG encoding failed.
    Encode(String),
    /// Icon extraction is not implemented on this platform.
    Unsupported,
}

/// The text shown for an extraction error.
pub open spec fn message_of(e: ExtractError) -> Seq<char> {
    match e {
        ExtractError::NotFound(p) => "Failed to get file info for "@ + p@,
        ExtractError::NoIcon(p, i) => "Failed to extract icon from "@ + p@ + " at index "@
            + decimal_of(i as int),
        ExtractError::InvalidHandle => "Invalid icon handle"@,
        ExtractError::IconInfo => "Failed to get icon info"@,
        ExtractError::InvalidColorBitmap => "Invalid color bitmap"@,
        ExtractError::BitmapQuery => "Failed to get bitmap object"@,
        ExtractError::PixelDump => "Failed to get DIB bits"@,
        ExtractError::DimensionMismatch => "Failed to create image buffer"@,
        ExtractError::Encode(m) => m@,
        ExtractError::Unsupported => "Icon extraction is only supported on Windows"@,
    }
}

impl ExtractError {
    /// The text shown for this error.
    pub fn message(&self) -> (r: String)
        ensures
            r@ == message_of(*self),
    {
        match self {
            ExtractError::NotFound(p) => String::from_str("Failed to get file info for ").concat(
                p.as_str(),
            ),
            ExtractError::NoIcon(p, i) => {
                let mut m = String::from_str("Failed to extract icon from ").concat(p.as_str()).concat(
                    " at index ",
                );
                push_decimal(&mut m, *i);
                m
            },
            ExtractError::InvalidHandle => String::from_str("Invalid icon handle"),
            ExtractError::IconInfo => String::from_str("Failed to get icon info"),
            ExtractError::InvalidColorBitmap => String::from_str("Invalid color bitmap"),
            ExtractError::BitmapQuery => String::from_str("Failed to get bitmap object"),
            ExtractError::PixelDump => String::from_str("Failed to get DIB bits"),
            ExtractError::DimensionMismatch => String::from_str("Failed to create image buffer"),
            ExtractError::Encode(m) => m.clone(),
            ExtractError::Unsupported => String::from_str(
                "Icon extraction is only supported on Windows",
            ),
        }
    }
}

/// Name for the PNG file that the image crate writes for an RGBA8 buffer.
pub uninterp spec fn png_of(width: u32, height: u32, rgba: Seq<u8>) -> Seq<u8>;

/// The buffer with the first and third byte of each pixel swapped: native
/// B, G, R, A order becomes R, G, B, A. A trailing partial pixel of at least
/// three bytes is swapped as well; shorter tails stay as they are.
pub open spec fn rgba_of(b: Seq<u8>) -> Seq<u8> {
    Seq::new(b.len(), |i: int| rgba_byte(b, i))
}

/// Byte `i` of the buffer after the reordering.
pub open spec fn rgba_byte(b: Seq<u8>, i: int) -> u8 {
    if i % 4 == 0 && i + 2 < b.len() {
        b[i + 2]
    } else if i % 4 == 2 {
        b[i - 2]
    } else {
        b[i]
    }
}

/// Whether bytes begin with the eight-byte PNG file signature.
pub open spec fn has_png_signature(b: Seq<u8>) -> bool {
    b.len() >= 8 && b.subrange(0, 8) == seq![137u8, 80u8, 78u8, 71u8, 13u8, 10u8, 26u8, 10u8]
}

/// The IEND chunk that closes every PNG file: empty data and its checksum.
pub open spec fn png_trailer() -> Seq<u8> {
    seq![0u8, 0u8, 0u8, 0u8, 73u8, 69u8, 78u8, 68u8, 174u8, 66u8, 96u8, 130u8]
}

/// Whether bytes are a complete PNG file as far as its frame shows: the
/// signature at the start and the IEND chunk at the end. A truncated file
/// lacks the latter.
pub open spec fn is_png_file(b: Seq<u8>) -> bool {
    &&& has_png_signature(b)
    &&& b.len() >= 20
    &&& b.subrange(b.len() - 12, b.len() as int) == png_trailer()
}

/// Whether `len` bytes are exactly `width * height` pixels of four bytes.
pub open spec fn dense_image(width: int, height: int, len: int) -> bool {
    width >= 0 && height >= 0 && len == width * height * 4
}

/// Relies on `image::write_buffer_with_format` with RGBA8 and the PNG format:
/// it encodes the buffer as a PNG file in memory. The png encoder fails only on
/// a zero width or height (RGBA with 8 bits is a valid combination, and writes
/// into a `Vec` do not fail); it opens the file with the PNG signature and its
/// writer closes it with the IEND chunk. It panics unless the buffer holds
/// exactly `width * height * 4` bytes.
#[verifier::external_body]
fn write_png(rgba: &[u8], width: u32, height: u32) -> (r: Result<Vec<u8>, image::ImageError>)
    requires
        rgba@.len() == width * height * 4,
    ensures
        width > 0 && height > 0 ==> r is Ok,
        width == 0 || height == 0 ==> r is Err,
        r is Ok ==> r->Ok_0@ == png_of(width, height, rgba@),
        r is Ok ==> is_png_file(r->Ok_0@),
{
    let mut out: Vec<u8> = Vec::new();
    let res = image::write_buffer_with_format(
        &mut std::io::Cursor::new(&mut out),
        rgba,
        width,
        height,
        image::ColorType::Rgba8,
        image::ImageOutputFormat::Png,
    );
    res.map(|_| out)
}

/// Relies on the `Display` impl of `image::ImageError` for its message.
#[verifier::external_body]
fn image_error_text(e: &image::ImageError) -> (r: String) {
    e.to_string()
}

/// Whether bytes open with the PNG signature and close with the IEND chunk;
/// anything else read back from the cache is not a usable icon.
pub fn is_png(b: &[u8]) -> (r: bool)
    ensures
        r == is_png_file(b@),
{
    let n = b.len();
    if n < 20 {
        return false;
    }
    let head = b[0] == 137 && b[1] == 80 && b[2] == 78 && b[3] == 71 && b[4] == 13 && b[5] == 10
        && b[6] == 26 && b[7] == 10;
    assert(head == (b@.subrange(0, 8) =~= seq![137u8, 80u8, 78u8, 71u8, 13u8, 10u8, 26u8, 10u8]));
    let t = n - 12;
    let tail = b[t] == 0 && b[t + 1] == 0 && b[t + 2] == 0 && b[t + 3] == 0 && b[t + 4] == 73
        && b[t + 5] == 69 && b[t + 6] == 78 && b[t + 7] == 68 && b[t + 8] == 174 && b[t + 9] == 66
        && b[t + 10] == 96 && b[t + 11] == 130;
    assert(tail == (b@.subrange(t as int, n as int) =~= png_trailer()));
    head && tail
}

/// Name for whether the image crate's PNG decoder, with its default limits,
/// decodes the bytes into an image.
pub uninterp spec fn decodes_as_png(b: Seq<u8>) -> bool;

/// Relies on `image::load_from_memory_with_format` with the PNG format: it
/// reads and decodes the whole file, and fails on anything that is not a
/// well-formed PNG image within its default limits.
#[verifier::external_body]
fn png_decodes(b: &[u8]) -> (r: bool)
    ensures
        r == decodes_as_png(b@),
{
    image::load_from_memory_with_format(b, image::ImageFormat::Png).is_ok()
}

/// Whether bytes are a usable icon: framed as a PNG file (signature and IEND
/// chunk) and decodable as a PNG image.
pub open spec fn is_usable_png(b: Seq<u8>) -> bool {
    is_png_file(b) && decodes_as_png(b)
}

/// Whether bytes are a PNG file that decodes; garbage, a truncated file and
/// a file with a corrupt body are not.
pub fn usable_png(b: &[u8]) -> (r: bool)
    ensures
        r == is_usable_png(b@),
{
    is_png(b) && png_decodes(b)
}

/// Reorders each pixel in place from native B, G, R, A to R, G, B, A.
pub fn bgra_to_rgba(pixels: &mut Vec<u8>)
    ensures
        final(pixels)@ == rgba_of(old(pixels)@),
{
    let ghost orig = pixels@;
    let n = pixels.len();
    let mut i: usize = 0;
    while i < n && n - i > 2
        invariant
            n == orig.len(),
            pixels@.len() == n,
            i % 4 == 0 || i == n,
            i <= n,
            forall|j: int| 0 <= j < i ==> #[trigger] pixels@[j] == rgba_byte(orig, j),
            forall|j: int| i <= j < n ==> #[trigger] pixels@[j] == orig[j],
        decreases n - i,
    {
        assert(i % 4 == 0);
        let b = pixels[i];
        let r = pixels[i + 2];
        pixels.set(i, r);
        pixels.set(i + 2, b);
        assert(rgba_byte(orig, i as int) == orig[i + 2]);
        assert(rgba_byte(orig, i + 1) == orig[i + 1]);
        assert(rgba_byte(orig, i + 2) == orig[i as int]);
        assert(i + 3 < n ==> rgba_byte(orig, i + 3) == orig[i + 3]);
        if n - i >= 4 {
            i = i + 4;
        } else {
            i = n;
        }
    }
    assert(pixels@ =~= rgba_of(orig));
}

/// Turns a top-down native pixel dump of `width` by `height` pixels into PNG bytes.
pub fn encode_icon_png(width: i32, height: i32, bgra: Vec<u8>) -> (r: Result<Vec<u8>, ExtractError>)
    ensures
        !dense_image(width as int, height as int, bgra@.len() as int) <==> r matches Err(
            ExtractError::DimensionMismatch,
        ),
        r is Ok ==> r->Ok_0@ == png_of(width as u32, height as u32, rgba_of(bgra@)),
        r is Ok ==> is_png_file(r->Ok_0@),
        dense_image(width as int, height as int, bgra@.len() as int) && width > 0 && height > 0
            ==> r is Ok,
        r is Err ==> (r->Err_0 is DimensionMismatch || r->Err_0 is Encode),
{
    if width < 0 || height < 0 {
        return Err(ExtractError::DimensionMismatch);
    }
    let w = width as u64;
    let h = height as u64;
    let len = bgra.len() as u64;
    assert(w * h <= u32::MAX * u32::MAX) by (nonlinear_arith)
        requires
            w <= u32::MAX,
            h <= u32::MAX,
    ;
    if h != 0 && w > len / 4 / h {
        proof {
            assert(w * h * 4 > len) by (nonlinear_arith)
                requires
                    h > 0,
                    w > len / 4 / h,
            ;
        }
        return Err(ExtractError::DimensionMismatch);
    }
    proof {
        if h != 0 {
            assert(w * h * 4 <= len) by (nonlinear_arith)
                requires
                    h > 0,
                    w <= len / 4 / h,
            ;
        }
    }
    if w * h * 4 != len {
        return Err(ExtractError::DimensionMismatch);
    }
    let mut pixels = bgra;
    bgra_to_rgba(&mut pixels);
    match write_png(pixels.as_slice(), width as u32, height as u32) {
        Ok(png) => Ok(png),
        Err(e) => Err(ExtractError::Encode(image_error_text(&e))),
    }
}

} // verus!
